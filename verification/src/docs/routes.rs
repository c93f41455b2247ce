//! The list of documented routes shown on the index page.
use vstd::prelude::*;

verus! {

/// One documented route: the group it is listed under, its path and a
/// human-readable description.
#[derive(Clone, Copy)]
pub struct RouteDoc {
    pub group: &'static str,
    pub path: &'static str,
    pub description: &'static str,
}

/// Records a route in `routes`, after every route recorded before it.
pub fn register(
    routes: &mut Vec<RouteDoc>,
    group: &'static str,
    path: &'static str,
    description: &'static str,
)
    ensures
        final(routes)@ == old(routes)@.push(RouteDoc { group, path, description }),
{
    routes.push(RouteDoc { group, path, description });
}

/// Registrations only append, in call order: when each state is the
/// previous one after `register` of the next route (as `register` ensures),
/// the last state is the first one followed by every registered route, in
/// order; nothing is removed, reordered or merged.
pub proof fn lemma_registrations_append(states: Seq<Seq<RouteDoc>>, calls: Seq<RouteDoc>)
    requires
        states.len() == calls.len() + 1,
        forall|i: int| 0 <= i < calls.len() ==> #[trigger] states[i + 1] == states[i].push(calls[i]),
    ensures
        states.last() == states[0] + calls,
    decreases calls.len(),
{
    if calls.len() > 0 {
        let n = calls.len() - 1;
        lemma_registrations_append(states.take(n + 1), calls.take(n));
        assert(states.take(n + 1).last() == states[n]);
        assert(states[n + 1] == states[n].push(calls[n]));
        assert(states[0] + calls =~= (states[0] + calls.take(n)).push(calls[n]));
    } else {
        assert(states[0] + calls =~= states[0]);
    }
}

} // verus!
