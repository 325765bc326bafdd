//! Jobs and CronJobs.

use vstd::prelude::*;
use crate::k8s::meta::ObjectMeta;
use crate::k8s::pod::PodTemplateSpec;

verus! {

/// How a Job runs its pods.
#[derive(Clone, Debug)]
pub struct JobSpec {
    pub template: PodTemplateSpec,
    pub backoff_limit: Option<i32>,
    pub active_deadline_seconds: Option<i64>,
    pub ttl_seconds_after_finished: Option<i32>,
}

/// A run to completion of one or more pods.
#[derive(Clone, Debug)]
pub struct Job {
    pub metadata: ObjectMeta,
    pub spec: Option<JobSpec>,
}

/// The Jobs a CronJob creates.
#[derive(Clone, Debug)]
pub struct JobTemplateSpec {
    pub metadata: Option<ObjectMeta>,
    pub spec: Option<JobSpec>,
}

/// When and how a CronJob creates Jobs.
#[derive(Clone, Debug)]
pub struct CronJobSpec {
    pub schedule: String,
    pub time_zone: Option<String>,
    pub suspend: Option<bool>,
    pub concurrency_policy: Option<String>,
    pub successful_jobs_history_limit: Option<i32>,
    pub failed_jobs_history_limit: Option<i32>,
    pub job_template: JobTemplateSpec,
}

/// Jobs created on a schedule.
#[derive(Clone, Debug)]
pub struct CronJob {
    pub metadata: ObjectMeta,
    pub spec: Option<CronJobSpec>,
}

} // verus!
