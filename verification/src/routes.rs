//! Putting the request handlers of the modules together.

use vstd::prelude::*;

verus! {

/// The handlers of each module as plain values: the list that a module with
/// a capability object exposed, `None` for a module without one.
pub open spec fn route_views<T>(lists: Seq<Option<Vec<T>>>) -> Seq<Option<Seq<T>>> {
    lists.map_values(
        |list: Option<Vec<T>>|
            match list {
                Some(routes) => Some(routes@),
                None => None,
            },
    )
}

/// The lists put one behind the other, in their order. `None` adds nothing.
pub open spec fn concatenated<T>(lists: Seq<Option<Seq<T>>>) -> Seq<T>
    decreases lists.len(),
{
    if lists.len() == 0 {
        Seq::empty()
    } else {
        let earlier = concatenated(lists.drop_last());
        match lists.last() {
            Some(routes) => earlier + routes,
            None => earlier,
        }
    }
}

/// Concatenation goes list by list: the first `count + 1` lists give what
/// the first `count` give, followed by the list at `count`.
pub proof fn lemma_concatenated_step<T>(lists: Seq<Option<Seq<T>>>, count: int)
    requires
        0 <= count < lists.len(),
    ensures
        concatenated(lists.take(count + 1)) == match lists[count] {
            Some(routes) => concatenated(lists.take(count)) + routes,
            None => concatenated(lists.take(count)),
        },
{
    assert(lists.take(count + 1).drop_last() =~= lists.take(count));
}

/// Puts the handlers of the modules one behind the other, in the order of
/// the modules.
pub fn concat_routes<T>(lists: Vec<Option<Vec<T>>>) -> (routes: Vec<T>)
    ensures
        routes@ == concatenated(route_views(lists@)),
{
    let ghost all = route_views(lists@);
    let ghost total = lists@.len() as int;
    // Popping hands the lists out last first, so they are turned round once
    // before they are appended.
    let mut rest = lists;
    let mut turned: Vec<Option<Vec<T>>> = Vec::new();
    while rest.len() > 0
        invariant
            rest@.len() + turned@.len() == total,
            all.len() == total,
            route_views(rest@) == all.take(rest@.len() as int),
            forall|i: int|
                0 <= i < turned@.len() ==> #[trigger] route_views(turned@)[i] == all[total - 1
                    - i],
        decreases rest.len(),
    {
        let ghost before = rest@;
        let ghost turned_before = turned@;
        let list = rest.pop();
        if let Some(list) = list {
            turned.push(list);
            proof {
                assert(rest@ =~= before.drop_last());
                assert(route_views(rest@) =~= all.take(rest@.len() as int));
                assert(route_views(before)[before.len() - 1] == all[before.len() - 1]);
                assert forall|i: int| 0 <= i < turned@.len() implies #[trigger] route_views(
                    turned@,
                )[i] == all[total - 1 - i] by {
                    if i < turned_before.len() {
                        assert(route_views(turned_before)[i] == all[total - 1 - i]);
                    }
                }
            }
        }
    }
    let mut routes: Vec<T> = Vec::new();
    while turned.len() > 0
        invariant
            all.len() == total,
            turned@.len() <= total,
            routes@ == concatenated(all.take(total - turned@.len())),
            forall|i: int|
                0 <= i < turned@.len() ==> #[trigger] route_views(turned@)[i] == all[total - 1
                    - i],
        decreases turned.len(),
    {
        let ghost done = total - turned@.len();
        let ghost turned_before = turned@;
        let ghost routes_before = routes@;
        let list = turned.pop();
        proof {
            assert(route_views(turned_before)[turned_before.len() - 1] == all[done]);
            lemma_concatenated_step(all, done);
            assert forall|i: int| 0 <= i < turned@.len() implies #[trigger] route_views(
                turned@,
            )[i] == all[total - 1 - i] by {
                assert(route_views(turned_before)[i] == all[total - 1 - i]);
            }
        }
        if let Some(Some(mut list)) = list {
            routes.append(&mut list);
        }
    }
    proof {
        assert(all.take(total) =~= all);
    }
    routes
}

} // verus!
