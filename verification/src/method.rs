//! Request verbs and the set of verbs that a route declares.

use vstd::prelude::*;
use vstd::seq_lib::{to_multiset_contains, to_multiset_len};

verus! {

/// A request verb.
#[derive(Clone, Copy, Debug, PartialEq, Eq, Structural)]
pub enum Method {
    Get,
    Post,
    Put,
    Delete,
    Head,
    Options,
    Connect,
    Patch,
    Trace,
}

/// Whether a route that declares `methods` takes a request made with `verb`.
/// A route that declares no verb takes every verb.
pub open spec fn accepts(methods: Seq<Method>, verb: Method) -> bool {
    methods.len() == 0 || methods.contains(verb)
}

/// The verbs that a builder holds after `method` was called on it once for
/// each verb of `verbs`, first to last, when it held `start` before.
pub open spec fn after_method_calls(start: Seq<Method>, verbs: Seq<Method>) -> Seq<Method>
    decreases verbs.len(),
{
    if verbs.len() == 0 {
        start
    } else {
        after_method_calls(start, verbs.drop_last()).push(verbs.last())
    }
}

/// Repeated `method` calls append: the result is `start` followed by `verbs`.
pub proof fn lemma_after_method_calls_appends(start: Seq<Method>, verbs: Seq<Method>)
    ensures
        after_method_calls(start, verbs) == start + verbs,
    decreases verbs.len(),
{
    if verbs.len() == 0 {
        assert(start + verbs =~= start);
    } else {
        lemma_after_method_calls_appends(start, verbs.drop_last());
        assert((start + verbs.drop_last()).push(verbs.last()) =~= start + verbs);
    }
}

/// A verb stands in `start` followed by `verbs` just when it stands in one
/// of the two.
pub proof fn lemma_appended_contains(start: Seq<Method>, verbs: Seq<Method>, verb: Method)
    ensures
        (start + verbs).contains(verb) <==> start.contains(verb) || verbs.contains(verb),
{
    let built = start + verbs;
    if start.contains(verb) {
        let i = choose|i: int| 0 <= i < start.len() && start[i] == verb;
        assert(built[i] == verb);
    }
    if verbs.contains(verb) {
        let i = choose|i: int| 0 <= i < verbs.len() && verbs[i] == verb;
        assert(built[start.len() + i] == verb);
    }
    if built.contains(verb) {
        let i = choose|i: int| 0 <= i < built.len() && built[i] == verb;
        if i < start.len() {
            assert(start[i] == verb);
        } else {
            assert(verbs[i - start.len()] == verb);
        }
    }
}

/// A method set accepts every verb that was used to build it: those it
/// started from and those added by `method`, wherever they stand.
pub proof fn law_built_set_accepts_its_verbs(start: Seq<Method>, verbs: Seq<Method>, verb: Method)
    requires
        start.contains(verb) || verbs.contains(verb),
    ensures
        accepts(after_method_calls(start, verbs), verb),
{
    lemma_after_method_calls_appends(start, verbs);
    lemma_appended_contains(start, verbs, verb);
}

/// Membership does not depend on the order of the `method` calls: two
/// builders that start alike and are given the same verbs, each as often as
/// the other but in any order, accept the same verbs.
pub proof fn law_acceptance_ignores_order(
    start: Seq<Method>,
    first: Seq<Method>,
    second: Seq<Method>,
    verb: Method,
)
    requires
        first.to_multiset() == second.to_multiset(),
    ensures
        accepts(after_method_calls(start, first), verb) == accepts(
            after_method_calls(start, second),
            verb,
        ),
{
    lemma_after_method_calls_appends(start, first);
    lemma_after_method_calls_appends(start, second);
    lemma_appended_contains(start, first, verb);
    lemma_appended_contains(start, second, verb);
    to_multiset_len(first);
    to_multiset_len(second);
    to_multiset_contains(first, verb);
    to_multiset_contains(second, verb);
}

/// Decides `accepts` on a stored method set.
pub fn method_set_accepts(methods: &Vec<Method>, verb: Method) -> (accepted: bool)
    ensures
        accepted == accepts(methods@, verb),
{
    if methods.len() == 0 {
        return true;
    }
    let mut i: usize = 0;
    while i < methods.len()
        invariant
            i <= methods.len(),
            forall|j: int| 0 <= j < i ==> methods@[j] != verb,
        decreases methods.len() - i,
    {
        if methods[i] == verb {
            return true;
        }
        i += 1;
    }
    false
}

/// An independent copy of a method set, verbs and order kept.
pub fn copy_method_set(methods: &Vec<Method>) -> (copy: Vec<Method>)
    ensures
        copy@ == methods@,
{
    let mut copy: Vec<Method> = Vec::new();
    let mut i: usize = 0;
    while i < methods.len()
        invariant
            i <= methods.len(),
            copy@ == methods@.subrange(0, i as int),
        decreases methods.len() - i,
    {
        copy.push(methods[i]);
        assert(methods@.subrange(0, i as int).push(methods@[i as int]) =~= methods@.subrange(
            0,
            i + 1,
        ));
        i += 1;
    }
    assert(methods@.subrange(0, methods@.len() as int) =~= methods@);
    copy
}

} // verus!
