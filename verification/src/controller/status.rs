//! The status an AgentJob reports, and when it must be written.

use vstd::prelude::*;
use crate::controller::ReconcileError;
use crate::crd::agent_job::{AgentJob, AgentJobStatus, Condition, OwnedResource};
use crate::k8s::meta::{copy_opt_string, duplicate_all, opt_view};

verus! {

/// What a reconcile wants the status of an AgentJob to say.
pub struct StatusUpdate {
    pub phase: &'static str,
    pub message: Option<String>,
    pub config_hash: Option<String>,
    pub owned: Vec<OwnedResource>,
    /// The `Ready` condition: whether ready, the reason, the message.
    pub ready: Option<(bool, &'static str, String)>,
    pub last_run_time: Option<String>,
}

impl StatusUpdate {
    /// The update that says nothing but `Pending`.
    pub fn pending() -> (u: Self)
        ensures
            u.phase@ == "Pending"@,
            u.message is None,
            u.config_hash is None,
            u.owned@.len() == 0,
            u.ready is None,
            u.last_run_time is None,
    {
        StatusUpdate {
            phase: "Pending",
            message: None,
            config_hash: None,
            owned: Vec::new(),
            ready: None,
            last_run_time: None,
        }
    }
}

/// The index of the first condition of type `t`; the length when there
/// is none.
pub open spec fn type_index(conds: Seq<Condition>, t: Seq<char>) -> int
    decreases conds.len(),
{
    if conds.len() == 0 {
        0
    } else if conds[0].type_@ == t {
        0
    } else {
        1 + type_index(conds.drop_first(), t)
    }
}

/// `i` is the first index holding a condition of type `t`, or the length
/// when none does.
pub proof fn lemma_type_index(conds: Seq<Condition>, t: Seq<char>, i: int)
    requires
        0 <= i <= conds.len(),
        forall|j: int| 0 <= j < i ==> (#[trigger] conds[j]).type_@ != t,
        i < conds.len() ==> conds[i].type_@ == t,
    ensures
        type_index(conds, t) == i,
    decreases i,
{
    if i > 0 {
        assert(conds[0].type_@ != t);
        let rest = conds.drop_first();
        assert forall|j: int| 0 <= j < i - 1 implies (#[trigger] rest[j]).type_@ != t by {
            assert(rest[j] == conds[j + 1]);
        }
        lemma_type_index(rest, t, i - 1);
    }
}

/// The first condition of type `t` sits at `type_index`; none comes before.
pub proof fn lemma_type_index_bounds(conds: Seq<Condition>, t: Seq<char>)
    ensures
        0 <= type_index(conds, t) <= conds.len(),
        type_index(conds, t) < conds.len() ==> conds[type_index(conds, t)].type_@ == t,
        forall|j: int| 0 <= j < type_index(conds, t) ==> (#[trigger] conds[j]).type_@ != t,
    decreases conds.len(),
{
    if conds.len() > 0 && conds[0].type_@ != t {
        let rest = conds.drop_first();
        lemma_type_index_bounds(rest, t);
        assert forall|j: int| 0 <= j < type_index(conds, t) implies (#[trigger] conds[j]).type_@
            != t by {
            if j > 0 {
                assert(conds[j] == rest[j - 1]);
            }
        }
    }
}

/// The conditions after recording `new`: a condition of the same type is
/// replaced when its status changes; when the status is unchanged only its
/// reason and message change, so it keeps its transition time; a new type
/// is appended.
pub open spec fn set_condition_spec(conds: Seq<Condition>, new: Condition) -> Seq<Condition> {
    let i = type_index(conds, new.type_@);
    if i < conds.len() {
        if conds[i].status@ != new.status@ {
            conds.update(i, new)
        } else {
            conds.update(
                i,
                Condition {
                    type_: conds[i].type_,
                    status: conds[i].status,
                    last_transition_time: conds[i].last_transition_time,
                    reason: new.reason,
                    message: new.message,
                },
            )
        }
    } else {
        conds.push(new)
    }
}

/// After recording `new`, the first condition of its type carries its
/// status, reason and message; it keeps the earlier transition time when
/// the status did not change; every other condition is untouched, and at
/// most one condition is added.
pub proof fn lemma_set_condition_records(conds: Seq<Condition>, new: Condition)
    ensures
        ({
            let out = set_condition_spec(conds, new);
            let i = type_index(out, new.type_@);
            let j = type_index(conds, new.type_@);
            &&& i == j
            &&& 0 <= i < out.len()
            &&& out[i].type_@ == new.type_@
            &&& out[i].status@ == new.status@
            &&& out[i].reason == new.reason
            &&& out[i].message == new.message
            &&& (j < conds.len() && conds[j].status@ == new.status@) ==> out[i].last_transition_time
                == conds[j].last_transition_time
            &&& (j < conds.len() && conds[j].status@ != new.status@) ==> out[i] == new
            &&& out.len() == (if j < conds.len() {
                conds.len()
            } else {
                conds.len() + 1
            })
            &&& forall|k: int| 0 <= k < conds.len() && k != i ==> out[k] == conds[k]
        }),
{
    let t = new.type_@;
    let out = set_condition_spec(conds, new);
    lemma_type_index_bounds(conds, t);
    let j = type_index(conds, t);
    assert forall|k: int| 0 <= k < j implies (#[trigger] out[k]).type_@ != t by {
        assert(out[k] == conds[k]);
    }
    lemma_type_index(out, t, j);
}

/// Recording the same condition twice is recording it once.
pub proof fn lemma_set_condition_idempotent(conds: Seq<Condition>, new: Condition)
    ensures
        set_condition_spec(set_condition_spec(conds, new), new) == set_condition_spec(conds, new),
{
    let out = set_condition_spec(conds, new);
    lemma_set_condition_records(conds, new);
    assert(set_condition_spec(out, new) =~= out);
}

/// Condition types that are distinct stay distinct.
pub proof fn lemma_set_condition_keeps_types_distinct(conds: Seq<Condition>, new: Condition)
    requires
        forall|a: int, b: int|
            0 <= a < b < conds.len() ==> (#[trigger] conds[a]).type_@ != (#[trigger] conds[b]).type_@,
    ensures
        ({
            let out = set_condition_spec(conds, new);
            forall|a: int, b: int|
                0 <= a < b < out.len() ==> (#[trigger] out[a]).type_@ != (#[trigger] out[b]).type_@
        }),
{
    let out = set_condition_spec(conds, new);
    lemma_set_condition_records(conds, new);
    lemma_type_index_bounds(conds, new.type_@);
    let j = type_index(conds, new.type_@);
    assert forall|a: int, b: int| 0 <= a < b < out.len() implies (#[trigger] out[a]).type_@
        != (#[trigger] out[b]).type_@ by {
        if j < conds.len() {
            assert(out[j].type_@ == conds[j].type_@);
            if a != j && b != j {
                assert(out[a] == conds[a] && out[b] == conds[b]);
            } else if a == j {
                assert(out[b] == conds[b]);
                assert(conds[a].type_@ != conds[b].type_@);
            } else {
                assert(out[a] == conds[a]);
                assert(conds[a].type_@ != conds[b].type_@);
            }
        } else {
            if b < conds.len() {
                assert(out[a] == conds[a] && out[b] == conds[b]);
            } else {
                assert(out[a] == conds[a]);
                assert(out[b] == new);
            }
        }
    }
}

/// Records `new` among the conditions: see `set_condition_spec`.
pub fn set_condition(conds: &mut Vec<Condition>, new: Condition)
    ensures
        final(conds)@ == set_condition_spec(old(conds)@, new),
{
    let mut i: usize = 0;
    while i < conds.len()
        invariant
            i <= conds@.len(),
            conds@ == old(conds)@,
            forall|j: int| 0 <= j < i ==> (#[trigger] conds@[j]).type_@ != new.type_@,
        decreases conds.len() - i,
    {
        if conds[i].type_ == new.type_ {
            proof {
                lemma_type_index(conds@, new.type_@, i as int);
            }
            if !(conds[i].status == new.status) {
                conds.set(i, new);
            } else {
                let kept = Condition {
                    type_: conds[i].type_.clone(),
                    status: conds[i].status.clone(),
                    last_transition_time: conds[i].last_transition_time.clone(),
                    reason: new.reason,
                    message: new.message,
                };
                conds.set(i, kept);
            }
            return;
        }
        i = i + 1;
    }
    proof {
        lemma_type_index(conds@, new.type_@, i as int);
    }
    conds.push(new);
}

/// The views of two optional strings are equal.
pub fn opt_str_eq(a: &Option<String>, b: &Option<String>) -> (r: bool)
    ensures
        r == (opt_view(*a) == opt_view(*b)),
{
    match (a, b) {
        (Some(x), Some(y)) => *x == *y,
        (None, None) => true,
        _ => false,
    }
}

/// Two owned-resource lists name the same kinds and names in order.
pub open spec fn same_owned(a: Seq<OwnedResource>, b: Seq<OwnedResource>) -> bool {
    &&& a.len() == b.len()
    &&& forall|i: int|
        0 <= i < a.len() ==> (#[trigger] a[i]).kind@ == b[i].kind@ && a[i].name@ == b[i].name@
}

/// Two condition lists agree on type, status, reason and message, in
/// order; transition times are not compared.
pub open spec fn same_conditions(a: Seq<Condition>, b: Seq<Condition>) -> bool {
    &&& a.len() == b.len()
    &&& forall|i: int|
        0 <= i < a.len() ==> {
            &&& (#[trigger] a[i]).type_@ == b[i].type_@
            &&& a[i].status@ == b[i].status@
            &&& opt_view(a[i].reason) == opt_view(b[i].reason)
            &&& opt_view(a[i].message) == opt_view(b[i].message)
        }
}

/// Two statuses say the same thing, transition times aside.
pub open spec fn equivalent(old: AgentJobStatus, new: AgentJobStatus) -> bool {
    &&& opt_view(old.phase) == opt_view(new.phase)
    &&& opt_view(old.message) == opt_view(new.message)
    &&& old.observed_generation == new.observed_generation
    &&& opt_view(old.config_hash) == opt_view(new.config_hash)
    &&& opt_view(old.last_run_time) == opt_view(new.last_run_time)
    &&& opt_view(old.last_completion_time) == opt_view(new.last_completion_time)
    &&& same_owned(old.owned_resources@, new.owned_resources@)
    &&& same_conditions(old.conditions@, new.conditions@)
}

/// Every status is equivalent to itself.
pub proof fn lemma_equivalent_reflexive(s: AgentJobStatus)
    ensures
        equivalent(s, s),
{
}

/// Compare an existing status to a newly-built one, ignoring
/// `lastTransitionTime` on conditions. Prevents feedback loops where
/// every reconcile writes status, triggers a watch event and reconciles
/// again.
pub fn status_equivalent(old: Option<&AgentJobStatus>, new: &AgentJobStatus) -> (r: bool)
    ensures
        r == match old {
            Some(o) => equivalent(*o, *new),
            None => false,
        },
{
    let cur = match old {
        Some(o) => o,
        None => {
            return false;
        },
    };
    if !opt_str_eq(&cur.phase, &new.phase) || !opt_str_eq(&cur.message, &new.message)
        || cur.observed_generation != new.observed_generation || !opt_str_eq(
        &cur.config_hash,
        &new.config_hash,
    ) || !opt_str_eq(&cur.last_run_time, &new.last_run_time) || !opt_str_eq(
        &cur.last_completion_time,
        &new.last_completion_time,
    ) || cur.owned_resources.len() != new.owned_resources.len() {
        return false;
    }
    let mut i: usize = 0;
    while i < cur.owned_resources.len()
        invariant
            old == Some(cur),
            cur.owned_resources@.len() == new.owned_resources@.len(),
            i <= cur.owned_resources@.len(),
            forall|j: int|
                0 <= j < i ==> (#[trigger] cur.owned_resources@[j]).kind@
                    == new.owned_resources@[j].kind@ && cur.owned_resources@[j].name@
                    == new.owned_resources@[j].name@,
        decreases cur.owned_resources.len() - i,
    {
        let a = &cur.owned_resources[i];
        let b = &new.owned_resources[i];
        if !(a.kind == b.kind) || !(a.name == b.name) {
            assert(!same_owned(cur.owned_resources@, new.owned_resources@)) by {
                assert(cur.owned_resources@[i as int].kind@ != new.owned_resources@[i as int].kind@
                    || cur.owned_resources@[i as int].name@ != new.owned_resources@[i as int].name@);
            }
            return false;
        }
        i = i + 1;
    }
    if cur.conditions.len() != new.conditions.len() {
        return false;
    }
    let mut k: usize = 0;
    while k < cur.conditions.len()
        invariant
            old == Some(cur),
            cur.conditions@.len() == new.conditions@.len(),
            k <= cur.conditions@.len(),
            forall|j: int|
                0 <= j < k ==> {
                    &&& (#[trigger] cur.conditions@[j]).type_@ == new.conditions@[j].type_@
                    &&& cur.conditions@[j].status@ == new.conditions@[j].status@
                    &&& opt_view(cur.conditions@[j].reason) == opt_view(
                        new.conditions@[j].reason,
                    )
                    &&& opt_view(cur.conditions@[j].message) == opt_view(
                        new.conditions@[j].message,
                    )
                },
        decreases cur.conditions.len() - k,
    {
        let a = &cur.conditions[k];
        let b = &new.conditions[k];
        if !(a.type_ == b.type_) || !(a.status == b.status) || !opt_str_eq(&a.reason, &b.reason)
            || !opt_str_eq(&a.message, &b.message) {
            assert(!same_conditions(cur.conditions@, new.conditions@)) by {
                let x = cur.conditions@[k as int];
                let y = new.conditions@[k as int];
                assert(x.type_@ != y.type_@ || x.status@ != y.status@ || opt_view(x.reason)
                    != opt_view(y.reason) || opt_view(x.message) != opt_view(y.message));
            }
            return false;
        }
        k = k + 1;
    }
    true
}

/// `c` is the `Ready` condition recorded at time `now`.
pub open spec fn is_ready_condition(
    c: Condition,
    ready: bool,
    reason: Seq<char>,
    message: Seq<char>,
    now: Seq<char>,
) -> bool {
    &&& c.type_@ == "Ready"@
    &&& c.status@ == (if ready {
        "True"@
    } else {
        "False"@
    })
    &&& c.last_transition_time@ == now
    &&& c.reason matches Some(r) && r@ == reason
    &&& c.message matches Some(m) && m@ == message
}

/// The conditions of an existing status, none when there is no status.
pub open spec fn old_conditions(old: Option<AgentJobStatus>) -> Seq<Condition> {
    match old {
        Some(s) => s.conditions@,
        None => Seq::empty(),
    }
}

/// The last run time kept by an update: its own, else the existing one.
pub open spec fn kept_last_run_time(old: Option<AgentJobStatus>, update: Option<String>) -> Option<
    Seq<char>,
> {
    match update {
        Some(t) => Some(t@),
        None => match old {
            Some(s) => opt_view(s.last_run_time),
            None => None,
        },
    }
}

/// `s` is the status that `update` asks for, on top of the existing
/// status `old` of an AgentJob at `generation`, with the `Ready`
/// condition, if any, recorded at time `now`.
pub open spec fn is_desired_status(
    s: AgentJobStatus,
    old: Option<AgentJobStatus>,
    generation: Option<i64>,
    update: StatusUpdate,
    now: Seq<char>,
) -> bool {
    &&& s.phase matches Some(p) && p@ == update.phase@
    &&& opt_view(s.last_run_time) == kept_last_run_time(old, update.last_run_time)
    &&& opt_view(s.last_completion_time) == match old {
        Some(o) => opt_view(o.last_completion_time),
        None => None,
    }
    &&& opt_view(s.message) == opt_view(update.message)
    &&& s.observed_generation == match generation {
        Some(g) => g,
        None => 0,
    }
    &&& opt_view(s.config_hash) == opt_view(update.config_hash)
    &&& s.owned_resources@ == update.owned@
    &&& match update.ready {
        None => s.conditions@ == old_conditions(old),
        Some(r) => exists|c: Condition|
            is_ready_condition(c, r.0, r.1@, r.2@, now) && s.conditions@ == #[trigger] set_condition_spec(
                old_conditions(old),
                c,
            ),
    }
}

/// The status that `update` asks for on top of the AgentJob's current
/// status; `now` is the time recorded on a `Ready` condition that
/// changes status.
pub fn desired_status(ajob: &AgentJob, update: StatusUpdate, now: String) -> (s: AgentJobStatus)
    ensures
        is_desired_status(s, ajob.status, ajob.metadata.generation, update, now@),
{
    let ghost upd = update;
    let mut conditions: Vec<Condition> = match &ajob.status {
        Some(st) => duplicate_all(&st.conditions),
        None => Vec::new(),
    };
    assert(conditions@ == old_conditions(ajob.status));
    let StatusUpdate { phase, message, config_hash, owned, ready, last_run_time } = update;
    match ready {
        Some((is_ready, reason, msg)) => {
            let c = Condition {
                type_: "Ready".to_owned(),
                status: if is_ready {
                    "True".to_owned()
                } else {
                    "False".to_owned()
                },
                last_transition_time: now,
                reason: Some(reason.to_owned()),
                message: Some(msg),
            };
            let ghost before = conditions@;
            set_condition(&mut conditions, c);
            let ghost wanted = upd.ready.unwrap();
            assert(is_ready_condition(c, is_ready, reason@, wanted.2@, now@));
            assert(conditions@ == set_condition_spec(old_conditions(ajob.status), c));
        },
        None => {},
    }
    let last_run_time = match last_run_time {
        Some(t) => Some(t),
        None => match &ajob.status {
            Some(st) => copy_opt_string(&st.last_run_time),
            None => None,
        },
    };
    let last_completion_time = match &ajob.status {
        Some(st) => copy_opt_string(&st.last_completion_time),
        None => None,
    };
    let observed_generation: i64 = match ajob.metadata.generation {
        Some(g) => g,
        None => 0,
    };
    let st = AgentJobStatus {
        phase: Some(phase.to_owned()),
        last_run_time,
        last_completion_time,
        message,
        observed_generation,
        config_hash,
        owned_resources: owned,
        conditions,
    };
    assert(st.phase matches Some(p) && p@ == upd.phase@);
    assert(opt_view(st.last_run_time) == kept_last_run_time(ajob.status, upd.last_run_time));
    assert(opt_view(st.message) == opt_view(upd.message));
    assert(st.owned_resources@ == upd.owned@);
    st
}

/// `Some(s)` and `s` is equivalent to `new`.
pub open spec fn equivalent_to(old: Option<AgentJobStatus>, new: AgentJobStatus) -> bool {
    match old {
        Some(o) => equivalent(o, new),
        None => false,
    }
}

/// What writing `update` comes to, with `now` the clock's reading: an
/// error when the AgentJob has no name, or when a `Ready` condition is to
/// be recorded and the clock could not be read; nothing when the current
/// status already says the same thing; else the new status.
pub open spec fn patch_outcome(
    ajob: AgentJob,
    update: StatusUpdate,
    now: Option<Seq<char>>,
    r: Result<Option<AgentJobStatus>, ReconcileError>,
) -> bool {
    if ajob.metadata.name is None {
        r matches Err(e) && (e matches ReconcileError::InvalidSpec(m) && m@ == "AgentJob missing name"@)
    } else if update.ready is Some && now is None {
        r matches Err(e) && e is Clock
    } else {
        let t = match now {
            Some(t) => t,
            None => Seq::empty(),
        };
        match r {
            Ok(Some(s)) => is_desired_status(s, ajob.status, ajob.metadata.generation, update, t)
                && !equivalent_to(ajob.status, s),
            Ok(None) => exists|s: AgentJobStatus|
                is_desired_status(s, ajob.status, ajob.metadata.generation, update, t)
                    && equivalent_to(ajob.status, s),
            Err(_) => false,
        }
    }
}

/// The status to write for `update`, with `now` the clock's reading (read
/// only when a `Ready` condition is to be recorded): see `patch_outcome`.
pub fn status_patch(ajob: &AgentJob, update: StatusUpdate, now: Option<String>) -> (r: Result<
    Option<AgentJobStatus>,
    ReconcileError,
>)
    ensures
        patch_outcome(*ajob, update, opt_view(now), r),
{
    if ajob.metadata.name.is_none() {
        return Err(ReconcileError::InvalidSpec("AgentJob missing name".to_owned()));
    }
    let ghost want = match opt_view(now) {
        Some(t) => t,
        None => Seq::<char>::empty(),
    };
    let ghost upd = update;
    let time = match now {
        Some(t) => t,
        None => {
            if update.ready.is_some() {
                return Err(ReconcileError::Clock);
            }
            String::new()
        },
    };
    assert(time@ =~= want);
    let status = desired_status(ajob, update, time);
    if status_equivalent(ajob.status.as_ref(), &status) {
        assert(is_desired_status(status, ajob.status, ajob.metadata.generation, upd, want));
        assert(equivalent_to(ajob.status, status));
        let r = Ok(None);
        assert(patch_outcome(*ajob, upd, opt_view(now), r));
        r
    } else {
        let r = Ok(Some(status));
        assert(patch_outcome(*ajob, upd, opt_view(now), r));
        r
    }
}

/// Two statuses are equivalent exactly when they say the same thing and
/// differ at most in their conditions' transition times: the same phase,
/// message, generation, hash, run and completion times, owned resources,
/// and, condition by condition, the same type, status, reason and message.
pub proof fn lemma_equivalent_differs_only_in_times(old: AgentJobStatus, new: AgentJobStatus)
    ensures
        equivalent(old, new) <==> {
            &&& opt_view(old.phase) == opt_view(new.phase)
            &&& opt_view(old.message) == opt_view(new.message)
            &&& old.observed_generation == new.observed_generation
            &&& opt_view(old.config_hash) == opt_view(new.config_hash)
            &&& opt_view(old.last_run_time) == opt_view(new.last_run_time)
            &&& opt_view(old.last_completion_time) == opt_view(new.last_completion_time)
            &&& old.owned_resources@.len() == new.owned_resources@.len()
            &&& forall|i: int|
                0 <= i < old.owned_resources@.len() ==> (#[trigger] old.owned_resources@[i]).kind@
                    == new.owned_resources@[i].kind@ && old.owned_resources@[i].name@
                    == new.owned_resources@[i].name@
            &&& old.conditions@.len() == new.conditions@.len()
            &&& forall|i: int|
                0 <= i < old.conditions@.len() ==> {
                    &&& (#[trigger] old.conditions@[i]).type_@ == new.conditions@[i].type_@
                    &&& old.conditions@[i].status@ == new.conditions@[i].status@
                    &&& opt_view(old.conditions@[i].reason) == opt_view(new.conditions@[i].reason)
                    &&& opt_view(old.conditions@[i].message) == opt_view(new.conditions@[i].message)
                }
        },
{
}

/// A write is skipped only when the current status already says what the
/// update asks: its phase, message, configuration hash and owned
/// resources, and, when the update carries a `Ready` condition, a first
/// `Ready` condition with that status, reason and message.
pub proof fn lemma_skipped_write_already_says_it(
    ajob: AgentJob,
    update: StatusUpdate,
    now: Option<Seq<char>>,
)
    requires
        patch_outcome(ajob, update, now, Ok(None)),
    ensures
        ajob.status is Some,
        ({
            let st = ajob.status->0;
            &&& opt_view(st.phase) == Some(update.phase@)
            &&& opt_view(st.message) == opt_view(update.message)
            &&& opt_view(st.config_hash) == opt_view(update.config_hash)
            &&& st.owned_resources@.len() == update.owned@.len()
            &&& forall|i: int|
                0 <= i < update.owned@.len() ==> (#[trigger] st.owned_resources@[i]).kind@
                    == update.owned@[i].kind@ && st.owned_resources@[i].name@ == update.owned@[i].name@
            &&& update.ready matches Some(rd) ==> {
                let i = type_index(st.conditions@, "Ready"@);
                &&& 0 <= i < st.conditions@.len()
                &&& st.conditions@[i].type_@ == "Ready"@
                &&& st.conditions@[i].status@ == (if rd.0 {
                    "True"@
                } else {
                    "False"@
                })
                &&& opt_view(st.conditions@[i].reason) == Some(rd.1@)
                &&& opt_view(st.conditions@[i].message) == Some(rd.2@)
            }
        }),
{
    let t = match now {
        Some(t) => t,
        None => Seq::empty(),
    };
    let s = choose|s: AgentJobStatus|
        is_desired_status(s, ajob.status, ajob.metadata.generation, update, t) && equivalent_to(
            ajob.status,
            s,
        );
    let st = ajob.status->0;
    lemma_equivalent_differs_only_in_times(st, s);
    match update.ready {
        None => {},
        Some(rd) => {
            let c = choose|c: Condition|
                is_ready_condition(c, rd.0, rd.1@, rd.2@, t) && s.conditions@ == #[trigger] set_condition_spec(
                    old_conditions(ajob.status),
                    c,
                );
            lemma_set_condition_records(old_conditions(ajob.status), c);
            let k = type_index(s.conditions@, "Ready"@);
            lemma_type_index_bounds(s.conditions@, "Ready"@);
            assert forall|j: int| 0 <= j < k implies (#[trigger] st.conditions@[j]).type_@ != "Ready"@ by {
                assert(st.conditions@[j].type_@ == s.conditions@[j].type_@);
            }
            assert(st.conditions@[k].type_@ == s.conditions@[k].type_@);
            lemma_type_index(st.conditions@, "Ready"@, k);
        },
    }
}

/// Writing the same update twice writes once: the status built from an
/// update is equivalent to the status built again from that update on top
/// of it, whatever the clock says the second time.
pub proof fn lemma_update_settles(
    old: Option<AgentJobStatus>,
    generation: Option<i64>,
    update: StatusUpdate,
    now1: Seq<char>,
    now2: Seq<char>,
    s1: AgentJobStatus,
    s2: AgentJobStatus,
)
    requires
        is_desired_status(s1, old, generation, update, now1),
        is_desired_status(s2, Some(s1), generation, update, now2),
    ensures
        equivalent(s1, s2),
{
    match update.ready {
        None => {},
        Some(r) => {
            let c1 = choose|c: Condition|
                is_ready_condition(c, r.0, r.1@, r.2@, now1) && s1.conditions@
                    == #[trigger] set_condition_spec(old_conditions(old), c);
            let c2 = choose|c: Condition|
                is_ready_condition(c, r.0, r.1@, r.2@, now2) && s2.conditions@
                    == #[trigger] set_condition_spec(old_conditions(Some(s1)), c);
            let t = "Ready"@;
            let base = old_conditions(old);
            lemma_type_index_bounds(base, t);
            let i = type_index(base, t);
            let cs = s1.conditions@;
            let k = if i < base.len() { i } else { base.len() as int };
            assert(cs[k].type_@ == t);
            assert forall|j: int| 0 <= j < k implies (#[trigger] cs[j]).type_@ != t by {
                assert(cs[j] == base[j]);
            }
            lemma_type_index(cs, t, k);
            assert(cs[k].status@ == c2.status@);
            assert(same_conditions(cs, s2.conditions@));
        },
    }
}

} // verus!
