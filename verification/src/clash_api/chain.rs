//! Why as many steps as there are proxies are enough to follow a chain of
//! chosen members: a chain that has not ended by then never ends in a
//! delay.

use crate::clash_api::name_map::NameMap;
use crate::clash_api::proxy::{resolve_delay, Failure, ProxyItem, Resolved};
use vstd::prelude::*;

verus! {

/// The proxy reached from `item` after `steps` steps along chosen members.
pub open spec fn reached(proxies: Map<Seq<char>, ProxyItem>, item: ProxyItem, steps: nat)
    -> ProxyItem
    decreases steps,
{
    if steps == 0 {
        item
    } else {
        reached(proxies, proxies[item.now@], (steps - 1) as nat)
    }
}

/// Whether `steps` steps can be taken from `item`: each of the proxies on
/// the way has a chosen member, and that member has a proxy.
pub open spec fn can_step(proxies: Map<Seq<char>, ProxyItem>, item: ProxyItem, steps: nat) -> bool
    decreases steps,
{
    steps == 0 || (item.now@.len() > 0 && proxies.contains_key(item.now@) && can_step(
        proxies,
        proxies[item.now@],
        (steps - 1) as nat,
    ))
}

/// Steps add up.
proof fn lemma_reached_add(proxies: Map<Seq<char>, ProxyItem>, item: ProxyItem, a: nat, b: nat)
    ensures
        reached(proxies, item, a + b) == reached(proxies, reached(proxies, item, a), b),
    decreases a,
{
    if a > 0 {
        lemma_reached_add(proxies, proxies[item.now@], (a - 1) as nat, b);
    }
}

/// Every proxy on the way of `steps` steps has a chosen member with a
/// proxy.
proof fn lemma_on_the_way(
    proxies: Map<Seq<char>, ProxyItem>,
    item: ProxyItem,
    steps: nat,
    at: nat,
)
    requires
        can_step(proxies, item, steps),
        at < steps,
    ensures
        reached(proxies, item, at).now@.len() > 0,
        proxies.contains_key(reached(proxies, item, at).now@),
        reached(proxies, item, at + 1) == proxies[reached(proxies, item, at).now@],
    decreases at,
{
    if at > 0 {
        lemma_on_the_way(proxies, proxies[item.now@], (steps - 1) as nat, (at - 1) as nat);
    } else {
        assert(reached(proxies, proxies[item.now@], 0) == proxies[item.now@]);
    }
}

/// A chain that leads to a delay ends after some number of steps, no more
/// than were allowed.
proof fn lemma_text_ends(proxies: Map<Seq<char>, ProxyItem>, item: ProxyItem, fuel: nat) -> (steps:
    nat)
    requires
        resolve_delay(proxies, item, fuel) is Text,
    ensures
        steps <= fuel,
        can_step(proxies, item, steps),
        reached(proxies, item, steps).now@.len() == 0,
    decreases fuel,
{
    if item.now@.len() == 0 {
        0
    } else {
        let rest = lemma_text_ends(proxies, proxies[item.now@], (fuel - 1) as nat);
        rest + 1
    }
}

/// A chain that ends within the steps allowed leads to a delay.
proof fn lemma_end_gives_text(
    proxies: Map<Seq<char>, ProxyItem>,
    item: ProxyItem,
    steps: nat,
    fuel: nat,
)
    requires
        steps <= fuel,
        can_step(proxies, item, steps),
        reached(proxies, item, steps).now@.len() == 0,
    ensures
        resolve_delay(proxies, item, fuel) is Text,
    decreases steps,
{
    if steps > 0 {
        lemma_end_gives_text(
            proxies,
            proxies[item.now@],
            (steps - 1) as nat,
            (fuel - 1) as nat,
        );
    }
}

/// Among more names than there are keys, all of them keys, two are the
/// same.
proof fn lemma_two_alike(names: Seq<Seq<char>>, keys: Seq<Seq<char>>) -> (pair: (int, int))
    requires
        names.len() > keys.len(),
        forall|i: int| 0 <= i < names.len() ==> keys.contains(#[trigger] names[i]),
    ensures
        0 <= pair.0 < pair.1 < names.len(),
        names[pair.0] == names[pair.1],
{
    if names.no_duplicates() {
        names.unique_seq_to_set();
        keys.lemma_cardinality_of_set();
        vstd::seq_lib::seq_to_set_is_finite(keys);
        vstd::set_lib::lemma_len_subset(names.to_set(), keys.to_set());
    }
    let (i, j) = choose|i: int, j: int|
        0 <= i < names.len() && 0 <= j < names.len() && i != j && names[i] == names[j];
    if i < j {
        (i, j)
    } else {
        (j, i)
    }
}

/// The guard spares every chain that ends: if following the chosen members
/// from `item` for as many steps as there are proxies has not come to an
/// end, then no number of steps leads to a delay, so nothing is lost by
/// giving up.
pub proof fn lemma_enough_steps(proxies: NameMap<ProxyItem>, item: ProxyItem, fuel: nat)
    requires
        proxies.wf(),
        resolve_delay(proxies@, item, proxies.keys().len()) == Resolved::Failed(Failure::TooDeep),
    ensures
        !(resolve_delay(proxies@, item, fuel) is Text),
{
    let map = proxies@;
    let count = proxies.keys().len();
    if resolve_delay(map, item, fuel) is Text {
        let end = lemma_text_ends(map, item, fuel);
        if end <= count {
            lemma_end_gives_text(map, item, end, count);
        } else {
            let names = Seq::new(count + 1, |i: int| reached(map, item, i as nat).now@);
            assert forall|i: int| 0 <= i < names.len() implies proxies.keys().contains(
                #[trigger] names[i],
            ) by {
                lemma_on_the_way(map, item, end, i as nat);
            }
            let (i, j) = lemma_two_alike(names, proxies.keys());
            lemma_on_the_way(map, item, end, i as nat);
            lemma_on_the_way(map, item, end, j as nat);
            let period = (j - i) as nat;
            let early = (end - period) as nat;
            lemma_reached_add(map, item, (j + 1) as nat, (end - j - 1) as nat);
            lemma_reached_add(map, item, (i + 1) as nat, (end - j - 1) as nat);
            lemma_on_the_way(map, item, end, early);
        }
    }
}

} // verus!
