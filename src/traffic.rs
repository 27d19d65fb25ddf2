//! Network traffic as a delta against the previous sample of each interface.
//!
//! The baselines are private to the network task; they are not part of the
//! shared state record.

use vstd::prelude::*;
use crate::state::NetworkTraffic;
use crate::text::{owned, str_eq};

verus! {

/// `a - b`, or 0 where the counter went backwards (it wrapped or was reset).
pub open spec fn clamped_sub(a: u64, b: u64) -> u64 {
    if a >= b {
        (a - b) as u64
    } else {
        0
    }
}

/// The byte counts since the baseline of `interface`, for new counters
/// `(rx, tx)`: zero for an interface seen for the first time.
pub open spec fn delta_after(
    baselines: Map<Seq<char>, (u64, u64)>,
    interface: Seq<char>,
    rx: u64,
    tx: u64,
) -> (u64, u64) {
    if baselines.contains_key(interface) {
        (clamped_sub(rx, baselines[interface].0), clamped_sub(tx, baselines[interface].1))
    } else {
        (0, 0)
    }
}

/// The last counters seen on one interface.
#[derive(Debug, Clone)]
pub struct Baseline {
    pub interface: String,
    pub rx_bytes: u64,
    pub tx_bytes: u64,
}

/// The previous sample of each interface seen so far.
pub struct TrafficMeter {
    baselines: Vec<Baseline>,
    known: Ghost<Map<Seq<char>, (u64, u64)>>,
}

impl View for TrafficMeter {
    type V = Map<Seq<char>, (u64, u64)>;

    /// Each interface seen so far, with its last received and sent counters.
    closed spec fn view(&self) -> Map<Seq<char>, (u64, u64)> {
        self.known@
    }
}

impl TrafficMeter {
    /// One baseline per interface, and the view says exactly what they hold.
    pub closed spec fn wf(&self) -> bool {
        let b = self.baselines@;
        &&& forall|i: int, j: int|
            0 <= i < j < b.len() ==> #[trigger] b[i].interface@ != #[trigger] b[j].interface@
        &&& forall|i: int|
            0 <= i < b.len() ==> #[trigger] self.known@.contains_key(b[i].interface@)
                && self.known@[b[i].interface@] == (b[i].rx_bytes, b[i].tx_bytes)
        &&& forall|k: Seq<char>|
            #[trigger] self.known@.contains_key(k) ==> exists|i: int|
                0 <= i < b.len() && #[trigger] b[i].interface@ == k
    }

    /// A meter that has seen no interface.
    pub fn new() -> (r: TrafficMeter)
        ensures
            r.wf(),
            r@ == Map::<Seq<char>, (u64, u64)>::empty(),
    {
        TrafficMeter { baselines: Vec::new(), known: Ghost(Map::empty()) }
    }

    /// Records new counters of `interface` and returns the traffic since its
    /// previous sample: zero on its first sample, and the clamped
    /// difference after that (see `delta_after`).
    pub fn observe(&mut self, interface: &str, rx_bytes: u64, tx_bytes: u64) -> (r: NetworkTraffic)
        requires
            old(self).wf(),
        ensures
            final(self).wf(),
            final(self)@ == old(self)@.insert(interface@, (rx_bytes, tx_bytes)),
            r.interface@ == interface@,
            (r.rx_bytes, r.tx_bytes) == delta_after(old(self)@, interface@, rx_bytes, tx_bytes),
    {
        let n = self.baselines.len();
        let mut i: usize = 0;
        while i < n
            invariant
                self.wf(),
                self.baselines@ == old(self).baselines@,
                self.known@ == old(self).known@,
                n == self.baselines@.len(),
                i <= n,
                forall|j: int| 0 <= j < i ==> #[trigger] self.baselines@[j].interface@ != interface@,
            decreases n - i,
        {
            if str_eq(self.baselines[i].interface.as_str(), interface) {
                let prev_rx = self.baselines[i].rx_bytes;
                let prev_tx = self.baselines[i].tx_bytes;
                let rx = if rx_bytes >= prev_rx {
                    rx_bytes - prev_rx
                } else {
                    0
                };
                let tx = if tx_bytes >= prev_tx {
                    tx_bytes - prev_tx
                } else {
                    0
                };
                let ghost old_b = self.baselines@;
                let entry = Baseline {
                    interface: self.baselines[i].interface.clone(),
                    rx_bytes,
                    tx_bytes,
                };
                self.baselines.set(i, entry);
                self.known = Ghost(self.known@.insert(interface@, (rx_bytes, tx_bytes)));
                assert forall|k: Seq<char>| #[trigger] self.known@.contains_key(k) implies exists|
                    j: int,
                |
                    0 <= j < self.baselines@.len() && #[trigger] self.baselines@[j].interface@
                        == k by {
                    if k != interface@ {
                        let j = choose|j: int|
                            0 <= j < old_b.len() && #[trigger] old_b[j].interface@ == k;
                        assert(self.baselines@[j].interface@ == k);
                    } else {
                        assert(self.baselines@[i as int].interface@ == k);
                    }
                }
                return NetworkTraffic { interface: owned(interface), rx_bytes: rx, tx_bytes: tx };
            }
            i = i + 1;
        }
        let ghost old_b = self.baselines@;
        assert(!self.known@.contains_key(interface@));
        self.baselines.push(Baseline { interface: owned(interface), rx_bytes, tx_bytes });
        self.known = Ghost(self.known@.insert(interface@, (rx_bytes, tx_bytes)));
        assert forall|k: Seq<char>| #[trigger] self.known@.contains_key(k) implies exists|j: int|
            0 <= j < self.baselines@.len() && #[trigger] self.baselines@[j].interface@ == k by {
            if k != interface@ {
                let j = choose|j: int| 0 <= j < old_b.len() && #[trigger] old_b[j].interface@ == k;
                assert(self.baselines@[j].interface@ == k);
            } else {
                assert(self.baselines@[n as int].interface@ == k);
            }
        }
        NetworkTraffic { interface: owned(interface), rx_bytes: 0, tx_bytes: 0 }
    }

    /// One tick of the network task for `interface`: its counters, if the
    /// statistics list it, go through `observe`; otherwise the traffic is
    /// zero and no baseline changes.
    pub fn sample(&mut self, interface: &str, counters: Option<(u64, u64)>) -> (r: NetworkTraffic)
        requires
            old(self).wf(),
        ensures
            final(self).wf(),
            r.interface@ == interface@,
            match counters {
                Some((rx, tx)) => final(self)@ == old(self)@.insert(interface@, (rx, tx)) && (
                r.rx_bytes, r.tx_bytes) == delta_after(old(self)@, interface@, rx, tx),
                None => final(self)@ == old(self)@ && r.rx_bytes == 0 && r.tx_bytes == 0,
            },
    {
        match counters {
            Some((rx, tx)) => self.observe(interface, rx, tx),
            None => NetworkTraffic { interface: owned(interface), rx_bytes: 0, tx_bytes: 0 },
        }
    }
}

/// An interface's first sample carries no traffic; its second carries the
/// counters' increase since the first, or zero where a counter went
/// backwards.
pub proof fn lemma_first_and_second_sample(
    baselines: Map<Seq<char>, (u64, u64)>,
    interface: Seq<char>,
    rx1: u64,
    tx1: u64,
    rx2: u64,
    tx2: u64,
)
    requires
        !baselines.contains_key(interface),
    ensures
        delta_after(baselines, interface, rx1, tx1) == (0u64, 0u64),
        delta_after(baselines.insert(interface, (rx1, tx1)), interface, rx2, tx2) == (
            clamped_sub(rx2, rx1),
            clamped_sub(tx2, tx1),
        ),
        rx2 >= rx1 ==> clamped_sub(rx2, rx1) == rx2 - rx1,
        rx2 < rx1 ==> clamped_sub(rx2, rx1) == 0,
{
}

} // verus!
