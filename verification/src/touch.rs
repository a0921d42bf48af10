//! Touch normalization for the mobile hosts: each platform touch becomes one raw pointer packet,
//! with no tap, drag or scroll recognition. The adapter keeps the set of touches still down only
//! so that a lifecycle suspension can cancel each of them.
//!
//! A touch position is carried as an opaque `P` (the hosts use logical `(x, y)` coordinates):
//! normalization never inspects it, only stores and forwards it.
use std::collections::BTreeMap;
use std::time::Instant;
use vstd::prelude::*;
use vstd::std_specs::btree::increasing_seq;
use vstd::std_specs::cmp::OrdSpec;
use vstd::std_specs::iter::IteratorSpec;

use crate::clock::{micros_since, now};

verus! {

/// Platform touch phases, independent of any windowing crate.
#[derive(Clone, Copy, Debug, PartialEq, Eq, Structural)]
pub enum TouchPhase {
    /// A finger entered the target surface.
    Started,
    /// A finger changed coordinates.
    Moved,
    /// A finger left normally.
    Ended,
    /// The platform cancelled the pointer sequence.
    Cancelled,
}

/// Raw pointer phases of the application ABI.
#[derive(Clone, Copy, Debug, PartialEq, Eq, Structural)]
pub enum PointerPhase {
    /// Contact began.
    Down,
    /// Contact moved.
    Move,
    /// Contact ended.
    Up,
    /// Contact was cancelled.
    Cancel,
}

/// Button mask of a touch in contact: the primary button.
pub const PRIMARY_BUTTON: u8 = 1;
/// Button mask of a touch that has ended or was cancelled.
pub const NO_BUTTONS: u8 = 0;

/// One normalized touch packet.
#[derive(Clone, Copy, Debug)]
pub struct TouchPacket<P> {
    /// Platform pointer id.
    pub pointer_id: u64,
    /// Raw phase.
    pub phase: PointerPhase,
    /// Position as reported by the host.
    pub position: P,
    /// `PRIMARY_BUTTON` while in contact, `NO_BUTTONS` on `Up` and `Cancel`.
    pub buttons: u8,
    /// Monotonic timestamp in microseconds.
    pub timestamp_micros: u64,
}

/// The raw phase a platform phase is forwarded as.
pub open spec fn pointer_phase_of(phase: TouchPhase) -> PointerPhase {
    match phase {
        TouchPhase::Started => PointerPhase::Down,
        TouchPhase::Moved => PointerPhase::Move,
        TouchPhase::Ended => PointerPhase::Up,
        TouchPhase::Cancelled => PointerPhase::Cancel,
    }
}

/// The button mask carried with a raw phase.
pub open spec fn buttons_for(phase: PointerPhase) -> u8 {
    match phase {
        PointerPhase::Up | PointerPhase::Cancel => NO_BUTTONS,
        _ => PRIMARY_BUTTON,
    }
}

/// The packet one platform touch is normalized into.
pub open spec fn packet_for<P>(id: u64, phase: TouchPhase, position: P, timestamp_micros: u64) -> TouchPacket<P> {
    TouchPacket {
        pointer_id: id,
        phase: pointer_phase_of(phase),
        position,
        buttons: buttons_for(pointer_phase_of(phase)),
        timestamp_micros,
    }
}

/// The touches still down after one more platform touch: a start or move records the latest
/// position, an end or cancel forgets the pointer.
pub open spec fn tracked_after<P>(active: Map<u64, P>, id: u64, phase: TouchPhase, position: P) -> Map<u64, P> {
    match phase {
        TouchPhase::Started | TouchPhase::Moved => active.insert(id, position),
        TouchPhase::Ended | TouchPhase::Cancelled => active.remove(id),
    }
}

/// A packet carries the primary button exactly while its finger stays in contact: a start
/// or a move (forwarded as Down and Move) leaves the pointer tracked and carries button 1; an
/// end or a cancel (forwarded as Up and Cancel) forgets it and carries no button.
pub proof fn lemma_touch_buttons_follow_contact<P>(
    active: Map<u64, P>,
    id: u64,
    phase: TouchPhase,
    position: P,
    timestamp_micros: u64,
)
    ensures
        ({
            let packet = packet_for(id, phase, position, timestamp_micros);
            let after = tracked_after(active, id, phase, position);
            &&& packet.pointer_id == id
            &&& packet.position == position
            &&& packet.timestamp_micros == timestamp_micros
            &&& phase == TouchPhase::Started ==> packet.phase == PointerPhase::Down
            &&& phase == TouchPhase::Moved ==> packet.phase == PointerPhase::Move
            &&& phase == TouchPhase::Ended ==> packet.phase == PointerPhase::Up
            &&& phase == TouchPhase::Cancelled ==> packet.phase == PointerPhase::Cancel
            &&& after.contains_key(id) <==> (phase == TouchPhase::Started || phase
                == TouchPhase::Moved)
            &&& after.contains_key(id) ==> packet.buttons == 1u8 && after[id] == position
            &&& !after.contains_key(id) ==> packet.buttons == 0u8
        }),
{
}

/// Whether `packets` cancel exactly the touches of `active`, in increasing pointer id order, at
/// `timestamp_micros`.
pub open spec fn cancels_each<P>(packets: Seq<TouchPacket<P>>, active: Map<u64, P>, timestamp_micros: u64) -> bool {
    &&& packets.len() == active.dom().len()
    &&& forall|i: int| #![trigger packets[i]] 0 <= i < packets.len() ==> {
        &&& active.contains_key(packets[i].pointer_id)
        &&& packets[i].position == active[packets[i].pointer_id]
        &&& packets[i].phase == PointerPhase::Cancel
        &&& packets[i].buttons == NO_BUTTONS
        &&& packets[i].timestamp_micros == timestamp_micros
    }
    &&& forall|i: int, j: int| 0 <= i < j < packets.len() ==> packets[i].pointer_id < packets[j].pointer_id
    &&& forall|id: u64| active.contains_key(id) ==> exists|i: int| 0 <= i < packets.len() && #[trigger] packets[i].pointer_id == id
}

/// Normalizes platform touches into raw pointer packets.
pub struct TouchAdapter<P> {
    epoch: Instant,
    active: BTreeMap<u64, P>,
}

impl<P: Copy> TouchAdapter<P> {
    /// The touches currently down, by pointer id, with their latest positions.
    pub closed spec fn active_points(&self) -> Map<u64, P> {
        self.active@
    }

    /// Creates an empty normalizer whose clock starts now.
    pub fn new() -> (adapter: Self)
        ensures
            adapter.active_points() == Map::<u64, P>::empty(),
    {
        TouchAdapter { epoch: now(), active: BTreeMap::new() }
    }

    /// Converts one platform touch with an explicit monotonic timestamp.
    pub fn handle_at(&mut self, id: u64, phase: TouchPhase, position: P, timestamp_micros: u64) -> (packet: TouchPacket<P>)
        ensures
            packet == packet_for(id, phase, position, timestamp_micros),
            final(self).active_points() == tracked_after(old(self).active_points(), id, phase, position),
            final(self).active_points().contains_key(id) ==> packet.buttons == PRIMARY_BUTTON,
            !final(self).active_points().contains_key(id) ==> packet.buttons == NO_BUTTONS,
    {
        broadcast use vstd::std_specs::btree::group_btree_axioms;
        broadcast use vstd::laws_cmp::group_laws_cmp;

        let pointer_phase = match phase {
            TouchPhase::Started => {
                self.active.insert(id, position);
                PointerPhase::Down
            },
            TouchPhase::Moved => {
                self.active.insert(id, position);
                PointerPhase::Move
            },
            TouchPhase::Ended => {
                self.active.remove(&id);
                PointerPhase::Up
            },
            TouchPhase::Cancelled => {
                self.active.remove(&id);
                PointerPhase::Cancel
            },
        };
        let buttons: u8 = match pointer_phase {
            PointerPhase::Up | PointerPhase::Cancel => NO_BUTTONS,
            _ => PRIMARY_BUTTON,
        };
        TouchPacket { pointer_id: id, phase: pointer_phase, position, buttons, timestamp_micros }
    }

    /// Converts one platform touch, stamped with the microseconds since the adapter was created.
    pub fn handle(&mut self, id: u64, phase: TouchPhase, position: P) -> (packet: TouchPacket<P>)
        ensures
            packet == packet_for(id, phase, position, packet.timestamp_micros),
            final(self).active_points() == tracked_after(old(self).active_points(), id, phase, position),
    {
        let timestamp_micros: u64 = micros_since(&self.epoch);
        self.handle_at(id, phase, position, timestamp_micros)
    }

    /// Cancels every touch still down, in increasing pointer id order, with an explicit
    /// timestamp; afterwards no touch is down.
    pub fn cancel_all_at(&mut self, timestamp_micros: u64) -> (packets: Vec<TouchPacket<P>>)
        ensures
            cancels_each(packets@, old(self).active_points(), timestamp_micros),
            final(self).active_points() == Map::<u64, P>::empty(),
    {
        broadcast use vstd::std_specs::btree::group_btree_axioms;
        broadcast use vstd::laws_cmp::group_laws_cmp;

        let mut packets: Vec<TouchPacket<P>> = Vec::new();
        let entries = self.active.iter();
        let ghost active = self.active@;
        let ghost all = entries.remaining();
        assert(all.len() == active.dom().len());
        for entry in it: entries
            invariant
                it.seq() == all,
                all.len() == active.dom().len(),
                packets@.len() == it.index(),
                forall|i: int| #![trigger all[i]] 0 <= i < all.len() ==> active.contains_key(*all[i].0) && active[*all[i].0] == *all[i].1,
                forall|i: int| #![trigger packets@[i]] 0 <= i < packets@.len() ==> {
                    &&& packets@[i].pointer_id == *all[i].0
                    &&& packets@[i].position == *all[i].1
                    &&& packets@[i].phase == PointerPhase::Cancel
                    &&& packets@[i].buttons == NO_BUTTONS
                    &&& packets@[i].timestamp_micros == timestamp_micros
                },
        {
            let (id, position) = entry;
            packets.push(TouchPacket {
                pointer_id: *id,
                phase: PointerPhase::Cancel,
                position: *position,
                buttons: NO_BUTTONS,
                timestamp_micros,
            });
        }
        proof {
            let ids = all.map_values(|entry: (&u64, &P)| *entry.0);
            assert(increasing_seq(ids));
            assert forall|i: int, j: int| 0 <= i < j < packets@.len() implies packets@[i].pointer_id
                < packets@[j].pointer_id by {
                assert(ids[i] == *all[i].0);
                assert(ids[j] == *all[j].0);
                assert(vstd::laws_cmp::obeys_cmp::<u64>());
                assert(ids[i].cmp_spec(&ids[j]) is Less);
            }
            assert forall|id: u64| active.contains_key(id) implies exists|i: int|
                0 <= i < packets@.len() && #[trigger] packets@[i].pointer_id == id by {
                assert(all.contains((&id, &active[id])));
                let i = choose|i: int| 0 <= i < all.len() && all[i] == (&id, &active[id]);
                assert(packets@[i].pointer_id == id);
            }
        }
        self.active = BTreeMap::new();
        packets
    }

    /// Cancels every touch still down, stamped with the microseconds since the adapter was
    /// created; afterwards no touch is down.
    pub fn cancel_all(&mut self) -> (packets: Vec<TouchPacket<P>>)
        ensures
            packets@.len() > 0 ==> cancels_each(packets@, old(self).active_points(), packets@[0].timestamp_micros),
            packets@.len() == 0 ==> old(self).active_points().dom().len() == 0,
            final(self).active_points() == Map::<u64, P>::empty(),
    {
        let timestamp_micros: u64 = micros_since(&self.epoch);
        self.cancel_all_at(timestamp_micros)
    }
}

impl<P: Copy> Default for TouchAdapter<P> {
    fn default() -> (adapter: Self)
        ensures
            adapter.active_points() == Map::<u64, P>::empty(),
    {
        Self::new()
    }
}

} // verus!
