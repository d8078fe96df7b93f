//! Rates of change between two snapshots of the daemon's connections.

use crate::clash_api::{Connection, ConnectionItem};
use indexmap::IndexMap;
use vstd::prelude::*;

verus! {

#[verifier::external_type_specification]
#[verifier::external_body]
#[verifier::reject_recursive_types(K)]
#[verifier::reject_recursive_types(V)]
#[verifier::reject_recursive_types(S)]
pub struct ExIndexMap<K, V, S>(IndexMap<K, V, S>);

/// The byte counters of one connection, or of a whole snapshot: download
/// first, upload second.
pub type Counters = (u64, u64);

/// What an `indexmap::IndexMap` from connection ids to counters holds,
/// without its order.
pub uninterp spec fn held(map: IndexMap<String, Counters>) -> Map<Seq<char>, Counters>;

/// The mapping without entries.
pub open spec fn no_counters() -> Map<Seq<char>, Counters> {
    Map::empty()
}

/// Trusted: `IndexMap::new`, which makes a map without entries.
#[verifier::external_body]
fn index_new() -> (map: IndexMap<String, Counters>)
    ensures
        held(map) == no_counters(),
{
    IndexMap::new()
}

/// Trusted: `IndexMap::get`, which hands out the value stored for a key
/// that is present and `None` otherwise; the value is copied out.
#[verifier::external_body]
fn index_get(map: &IndexMap<String, Counters>, id: &str) -> (found: Option<Counters>)
    ensures
        found == if held(*map).contains_key(id@) {
            Some(held(*map)[id@])
        } else {
            None
        },
{
    map.get(id).copied()
}

/// Trusted: `IndexMap::clear`, which removes every entry.
#[verifier::external_body]
fn index_clear(map: &mut IndexMap<String, Counters>)
    ensures
        held(*final(map)) == no_counters(),
{
    map.clear()
}

/// Trusted: `IndexMap::insert`, which stores the value under the key,
/// replacing the value of a key that is present, and leaves every other
/// entry as it is.
#[verifier::external_body]
fn index_insert(map: &mut IndexMap<String, Counters>, id: String, counters: Counters)
    ensures
        held(*final(map)) == held(*old(map)).insert(id@, counters),
{
    map.insert(id, counters);
}

/// How much a counter grew since the previous snapshot: nothing without a
/// previous value, and nothing if it fell.
pub open spec fn delta(current: u64, previous: Option<u64>) -> u64 {
    match previous {
        Some(before) => if current >= before {
            (current - before) as u64
        } else {
            0
        },
        None => 0,
    }
}

/// The download counter of a baseline entry, if there is one.
pub open spec fn download_of(entry: Option<Counters>) -> Option<u64> {
    match entry {
        Some(counters) => Some(counters.0),
        None => None,
    }
}

/// The upload counter of a baseline entry, if there is one.
pub open spec fn upload_of(entry: Option<Counters>) -> Option<u64> {
    match entry {
        Some(counters) => Some(counters.1),
        None => None,
    }
}

/// The baseline entry of connection `id`, if there is one.
pub open spec fn baseline_entry(baseline: Map<Seq<char>, Counters>, id: Seq<char>) -> Option<
    Counters,
> {
    if baseline.contains_key(id) {
        Some(baseline[id])
    } else {
        None
    }
}

/// Download and upload growth of a connection with counters `current`
/// against the baseline.
pub open spec fn connection_delta(
    baseline: Map<Seq<char>, Counters>,
    id: Seq<char>,
    current: Counters,
) -> Counters {
    (
        delta(current.0, download_of(baseline_entry(baseline, id))),
        delta(current.1, upload_of(baseline_entry(baseline, id))),
    )
}

/// Download and upload growth of the snapshot totals `current` against the
/// previous totals.
pub open spec fn total_delta(previous: Option<Counters>, current: Counters) -> Counters {
    (delta(current.0, download_of(previous)), delta(current.1, upload_of(previous)))
}

/// The baseline that a list of connections leaves: for every id the
/// counters of its last occurrence.
pub open spec fn baseline_of(connections: Seq<ConnectionItem>) -> Map<Seq<char>, Counters>
    decreases connections.len(),
{
    if connections.len() == 0 {
        Map::empty()
    } else {
        baseline_of(connections.drop_last()).insert(
            connections.last().id@,
            (connections.last().download, connections.last().upload),
        )
    }
}

/// A growth is never negative, and it is zero where the counter fell.
pub proof fn lemma_delta_clamped(current: u64, previous: u64)
    ensures
        delta(current, Some(previous)) >= 0,
        current >= previous ==> delta(current, Some(previous)) == current - previous,
        current < previous ==> delta(current, Some(previous)) == 0,
{
}

/// The last occurrence of an id decides its baseline, and an id that does
/// not occur has none.
pub proof fn lemma_baseline_of(connections: Seq<ConnectionItem>, id: Seq<char>)
    ensures
        baseline_of(connections).contains_key(id) <==> exists|i: int|
            0 <= i < connections.len() && #[trigger] connections[i].id@ == id,
    decreases connections.len(),
{
    if connections.len() > 0 {
        let front = connections.drop_last();
        lemma_baseline_of(front, id);
        if baseline_of(connections).contains_key(id) {
            if connections.last().id@ == id {
                assert(connections[connections.len() - 1].id@ == id);
            } else {
                let i = choose|i: int| 0 <= i < front.len() && #[trigger] front[i].id@ == id;
                assert(connections[i].id@ == id);
            }
        }
        if exists|i: int| 0 <= i < connections.len() && #[trigger] connections[i].id@ == id {
            let i = choose|i: int| 0 <= i < connections.len() && #[trigger] connections[i].id@ == id;
            if i < front.len() {
                assert(front[i].id@ == id);
            }
        }
    }
}

/// Between any two snapshots, the speed of a connection that is in both is
/// how much its counters grew, and nothing where a counter fell; the speed
/// of a connection that is only in the later one is nothing.
pub proof fn lemma_speed_between_snapshots(
    earlier: Seq<ConnectionItem>,
    id: Seq<char>,
    current: Counters,
)
    ensures
        ({
            let baseline = baseline_of(earlier);
            let speed = connection_delta(baseline, id, current);
            &&& speed.0 >= 0 && speed.1 >= 0
            &&& baseline.contains_key(id) ==> {
                &&& speed.0 == if current.0 >= baseline[id].0 {
                    current.0 - baseline[id].0
                } else {
                    0
                }
                &&& speed.1 == if current.1 >= baseline[id].1 {
                    current.1 - baseline[id].1
                } else {
                    0
                }
            }
            &&& !baseline.contains_key(id) ==> speed == (0u64, 0u64)
        }),
{
}

/// The state of the engine: the previous snapshot's counters by connection
/// id, and its totals.
pub struct DeltaView {
    pub baseline: Map<Seq<char>, Counters>,
    pub totals: Option<Counters>,
}

/// The engine: the counters of the previous snapshot by connection id, and
/// that snapshot's totals.
pub struct DeltaEngine {
    last_data: IndexMap<String, Counters>,
    last_totals: Option<Counters>,
}

impl View for DeltaEngine {
    type V = DeltaView;

    closed spec fn view(&self) -> DeltaView {
        DeltaView { baseline: held(self.last_data), totals: self.last_totals }
    }
}

impl DeltaEngine {
    /// An engine that has seen no snapshot.
    pub fn new() -> (engine: Self)
        ensures
            engine@ == (DeltaView { baseline: Map::empty(), totals: None }),
    {
        DeltaEngine { last_data: index_new(), last_totals: None }
    }

    /// Growth of the counters of connection `id` since the previous
    /// snapshot.
    pub fn connection_speed(&self, id: &str, download: u64, upload: u64) -> (speed: Counters)
        ensures
            speed == connection_delta(self@.baseline, id@, (download, upload)),
    {
        match index_get(&self.last_data, id) {
            Some(before) => (
                if download >= before.0 {
                    download - before.0
                } else {
                    0
                },
                if upload >= before.1 {
                    upload - before.1
                } else {
                    0
                },
            ),
            None => (0, 0),
        }
    }

    /// Growth of the snapshot totals since the previous snapshot.
    pub fn total_speed(&self, download_total: u64, upload_total: u64) -> (speed: Counters)
        ensures
            speed == total_delta(self@.totals, (download_total, upload_total)),
    {
        match self.last_totals {
            Some(before) => (
                if download_total >= before.0 {
                    download_total - before.0
                } else {
                    0
                },
                if upload_total >= before.1 {
                    upload_total - before.1
                } else {
                    0
                },
            ),
            None => (0, 0),
        }
    }

    /// Makes `snapshot` the previous snapshot.
    pub fn replace(&mut self, snapshot: &Connection)
        ensures
            final(self)@ == (DeltaView {
                baseline: baseline_of(snapshot.connections@),
                totals: Some((snapshot.download_total, snapshot.upload_total)),
            }),
    {
        index_clear(&mut self.last_data);
        let mut i: usize = 0;
        while i < snapshot.connections.len()
            invariant
                i <= snapshot.connections.len(),
                held(self.last_data) == baseline_of(snapshot.connections@.take(i as int)),
            decreases snapshot.connections.len() - i,
        {
            let item: &ConnectionItem = &snapshot.connections[i];
            index_insert(&mut self.last_data, item.id.clone(), (item.download, item.upload));
            proof {
                assert(snapshot.connections@.take(i + 1).drop_last() =~= snapshot.connections@.take(
                    i as int,
                ));
            }
            i += 1;
        }
        proof {
            assert(snapshot.connections@.take(snapshot.connections@.len() as int)
                =~= snapshot.connections@);
        }
        self.last_totals = Some((snapshot.download_total, snapshot.upload_total));
    }

    /// Forgets the previous snapshot.
    pub fn reset(&mut self)
        ensures
            final(self)@ == (DeltaView { baseline: Map::empty(), totals: None }),
    {
        index_clear(&mut self.last_data);
        self.last_totals = None;
    }
}

} // verus!
