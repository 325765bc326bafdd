//! The finalizer that holds an AgentJob until its cluster-scoped RBAC is
//! cleaned up.

use vstd::prelude::*;
use crate::controller::FINALIZER;
use crate::crd::agent_job::AgentJob;
use crate::k8s::meta::{copy_strings, strs_view, ObjectMeta};

verus! {

/// The finalizers of an object, as views; none when the list is unset.
pub open spec fn finalizers_view(m: ObjectMeta) -> Seq<Seq<char>> {
    match m.finalizers {
        Some(f) => strs_view(f@),
        None => Seq::empty(),
    }
}

/// A finalizer other than the controller's own.
pub open spec fn is_foreign(f: Seq<char>) -> bool {
    f != FINALIZER@
}

/// The finalizers without the controller's own, in order.
pub open spec fn without_finalizer(fs: Seq<Seq<char>>) -> Seq<Seq<char>> {
    fs.filter(|f: Seq<char>| is_foreign(f))
}

/// The AgentJob carries the controller's finalizer.
pub fn has_finalizer(ajob: &AgentJob) -> (r: bool)
    ensures
        r == finalizers_view(ajob.metadata).contains(FINALIZER@),
{
    match &ajob.metadata.finalizers {
        None => false,
        Some(fs) => {
            let fin: String = FINALIZER.to_owned();
            let mut i: usize = 0;
            while i < fs.len()
                invariant
                    i <= fs@.len(),
                    ajob.metadata.finalizers == Some(*fs),
                    fin@ == FINALIZER@,
                    forall|j: int| 0 <= j < i ==> (#[trigger] fs@[j])@ != FINALIZER@,
                decreases fs.len() - i,
            {
                if fs[i] == fin {
                    assert(strs_view(fs@)[i as int] == FINALIZER@);
                    return true;
                }
                i = i + 1;
            }
            assert forall|j: int| 0 <= j < strs_view(fs@).len() implies strs_view(fs@)[j]
                != FINALIZER@ by {
                assert(strs_view(fs@)[j] == fs@[j]@);
            }
            false
        },
    }
}

/// The finalizer list to write so that the AgentJob carries the
/// controller's finalizer: none when it already does, else the current
/// list with the finalizer appended.
pub fn finalizers_after_add(ajob: &AgentJob) -> (r: Option<Vec<String>>)
    ensures
        r is None <==> finalizers_view(ajob.metadata).contains(FINALIZER@),
        r matches Some(fs) ==> strs_view(fs@) == finalizers_view(ajob.metadata).push(FINALIZER@),
{
    if has_finalizer(ajob) {
        return None;
    }
    let mut fs: Vec<String> = match &ajob.metadata.finalizers {
        Some(f) => copy_strings(f),
        None => Vec::new(),
    };
    let ghost before = fs@;
    fs.push(FINALIZER.to_owned());
    assert(strs_view(fs@) =~= strs_view(before).push(FINALIZER@));
    Some(fs)
}

/// The finalizer list to write so that the AgentJob no longer carries the
/// controller's finalizer: none when it does not, else the current list
/// without it, the others kept in order.
pub fn finalizers_after_remove(ajob: &AgentJob) -> (r: Option<Vec<String>>)
    ensures
        r is None <==> !finalizers_view(ajob.metadata).contains(FINALIZER@),
        r matches Some(fs) ==> strs_view(fs@) == without_finalizer(finalizers_view(ajob.metadata)),
{
    if !has_finalizer(ajob) {
        return None;
    }
    let src: &Vec<String> = match &ajob.metadata.finalizers {
        Some(f) => f,
        None => {
            return None;
        },
    };
    let fin: String = FINALIZER.to_owned();
    let ghost all = strs_view(src@);
    let mut out: Vec<String> = Vec::new();
    let mut i: usize = 0;
    assert(all.subrange(0, 0).filter(|f: Seq<char>| is_foreign(f)) =~= Seq::empty()) by {
        reveal(Seq::filter);
    }
    while i < src.len()
        invariant
            i <= src@.len(),
            all == strs_view(src@),
            fin@ == FINALIZER@,
            strs_view(out@) == all.subrange(0, i as int).filter(|f: Seq<char>| is_foreign(f)),
        decreases src.len() - i,
    {
        let ghost prefix = all.subrange(0, i as int);
        proof {
            assert(all.subrange(0, i + 1) =~= prefix.push(src@[i as int]@));
            prefix.lemma_filter_push(src@[i as int]@, |f: Seq<char>| is_foreign(f));
        }
        if !(src[i] == fin) {
            let ghost before = out@;
            out.push(src[i].clone());
            assert(strs_view(out@) =~= strs_view(before).push(src@[i as int]@));
        }
        i = i + 1;
    }
    assert(all.subrange(0, src@.len() as int) =~= all);
    Some(out)
}

/// Adding the finalizer leaves the AgentJob carrying it.
pub proof fn lemma_add_then_has(fs: Seq<Seq<char>>)
    ensures
        fs.push(FINALIZER@).contains(FINALIZER@),
{
    assert(fs.push(FINALIZER@)[fs.len() as int] == FINALIZER@);
}

/// Removing the finalizer leaves the AgentJob without it, and keeps every
/// other finalizer.
pub proof fn lemma_remove_then_lacks(fs: Seq<Seq<char>>)
    ensures
        !without_finalizer(fs).contains(FINALIZER@),
        forall|f: Seq<char>| is_foreign(f) ==> (fs.contains(f) <==> without_finalizer(fs).contains(f)),
{
    let p = |f: Seq<char>| is_foreign(f);
    if without_finalizer(fs).contains(FINALIZER@) {
        let k = choose|k: int| 0 <= k < without_finalizer(fs).len() && without_finalizer(fs)[k] == FINALIZER@;
        fs.lemma_filter_pred(p, k);
    }
    assert forall|f: Seq<char>| is_foreign(f) implies (fs.contains(f) <==> without_finalizer(fs).contains(f)) by {
        if fs.contains(f) {
            let k = choose|k: int| 0 <= k < fs.len() && fs[k] == f;
            fs.lemma_filter_contains(p, k);
        }
        if without_finalizer(fs).contains(f) {
            fs.lemma_filter_contains_rev(p, f);
        }
    }
}

/// Removing the finalizer just added gives back the finalizers the
/// AgentJob had, when it did not carry the controller's own.
pub proof fn lemma_remove_undoes_add(fs: Seq<Seq<char>>)
    requires
        !fs.contains(FINALIZER@),
    ensures
        without_finalizer(fs.push(FINALIZER@)) == fs,
    decreases fs.len(),
{
    let p = |f: Seq<char>| is_foreign(f);
    fs.lemma_filter_push(FINALIZER@, p);
    lemma_filter_keeps_all(fs);
}

/// A list without the controller's finalizer is its own filtering.
proof fn lemma_filter_keeps_all(fs: Seq<Seq<char>>)
    requires
        !fs.contains(FINALIZER@),
    ensures
        without_finalizer(fs) == fs,
    decreases fs.len(),
{
    let p = |f: Seq<char>| is_foreign(f);
    if fs.len() > 0 {
        let init = fs.drop_last();
        assert(fs =~= init.push(fs.last()));
        assert(!init.contains(FINALIZER@)) by {
            if init.contains(FINALIZER@) {
                let k = choose|k: int| 0 <= k < init.len() && init[k] == FINALIZER@;
                assert(fs[k] == FINALIZER@);
            }
        }
        lemma_filter_keeps_all(init);
        init.lemma_filter_push(fs.last(), p);
        assert(fs.last() != FINALIZER@) by {
            assert(fs[fs.len() - 1] == fs.last());
        }
    } else {
        reveal(Seq::filter);
    }
}

} // verus!
