//! Answers of the `/healthz` and `/readyz` probes.

use vstd::prelude::*;

verus! {

/// A plain-text HTTP answer.
#[derive(Clone, Copy, Debug)]
pub struct Reply {
    pub status: u16,
    pub body: &'static str,
}

/// The answer to a probe of `path`: `/healthz` is always ok; `/readyz` is
/// ok once the controller is ready and unavailable before; any other path
/// is not found.
pub fn handle(path: &str, ready: bool) -> (r: Reply)
    ensures
        path@ == "/healthz"@ ==> r.status == 200 && r.body@ == "ok"@,
        path@ == "/readyz"@ && ready ==> r.status == 200 && r.body@ == "ready"@,
        path@ == "/readyz"@ && !ready ==> r.status == 503 && r.body@ == "starting"@,
        path@ != "/healthz"@ && path@ != "/readyz"@ ==> r.status == 404 && r.body@
            == "not found"@,
{
    proof {
        reveal_strlit("/healthz");
        reveal_strlit("/readyz");
        assert("/healthz"@.len() == 8);
        assert("/readyz"@.len() == 7);
    }
    let p: String = path.to_owned();
    if p == "/healthz".to_owned() {
        Reply { status: 200, body: "ok" }
    } else if p == "/readyz".to_owned() {
        if ready {
            Reply { status: 200, body: "ready" }
        } else {
            Reply { status: 503, body: "starting" }
        }
    } else {
        Reply { status: 404, body: "not found" }
    }
}

} // verus!
