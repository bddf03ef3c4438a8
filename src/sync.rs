//! The ring of synchronisation objects, one set per frame in flight.
use vstd::prelude::*;
use vstd::arithmetic::div_mod::{lemma_add_mod_noop_right, lemma_small_mod, lemma_mod_add_multiples_vanish};

verus! {

/// How many frames may have GPU work outstanding at once.
pub const MAX_FRAMES_IN_FLIGHT: usize = 2;

/// The semaphores and fence of one frame in flight, as raw handles.
#[derive(Clone, Copy, Debug, PartialEq, Eq, Structural)]
pub struct SyncObjects {
    pub image_available_semaphores: u64,
    pub render_finished_semaphore: u64,
    pub fence: u64,
}

/// The ring as a value: its slots and the slot that `next` hands out.
pub ghost struct RingView {
    pub slots: Seq<SyncObjects>,
    pub current: int,
}

impl RingView {
    pub open spec fn wf(self) -> bool {
        self.slots.len() > 0 && 0 <= self.current < self.slots.len()
    }

    /// The ring after one call of `next`.
    pub open spec fn step(self) -> RingView {
        RingView { slots: self.slots, current: (self.current + 1) % (self.slots.len() as int) }
    }

    /// Call `k` of `next` (counting from zero) hands out slot `s`.
    pub open spec fn hands_out(self, k: nat, s: int) -> bool {
        self.after(k).current == s
    }

    /// The ring after `k` calls of `next`.
    pub open spec fn after(self, k: nat) -> RingView
        decreases k,
    {
        if k == 0 {
            self
        } else {
            self.after((k - 1) as nat).step()
        }
    }
}

/// A fixed ring of synchronisation objects, handed out round-robin.
pub struct InFlightFrames {
    sync_objects: Vec<SyncObjects>,
    current_frame: usize,
}

impl View for InFlightFrames {
    type V = RingView;

    closed spec fn view(&self) -> RingView {
        RingView { slots: self.sync_objects@, current: self.current_frame as int }
    }
}

impl InFlightFrames {
    #[verifier::type_invariant]
    spec fn inv(self) -> bool {
        self.sync_objects@.len() > 0 && self.current_frame < self.sync_objects@.len()
    }

    /// A ring over the given objects, starting at the first; each fence
    /// should be created signalled so that the first wait returns at once.
    pub fn new(sync_objects: Vec<SyncObjects>) -> (r: InFlightFrames)
        requires
            sync_objects@.len() > 0,
        ensures
            r@.slots == sync_objects@,
            r@.current == 0,
            r@.wf(),
    {
        InFlightFrames { sync_objects, current_frame: 0 }
    }

    /// The objects of the current slot; the ring then moves to the next slot,
    /// back to the first after the last.
    pub fn next(&mut self) -> (r: Option<SyncObjects>)
        ensures
            old(self)@.wf(),
            r == Some(old(self)@.slots[old(self)@.current]),
            final(self)@ == old(self)@.step(),
            final(self)@.wf(),
    {
        proof {
            use_type_invariant(&*self);
        }
        let next = self.sync_objects[self.current_frame];
        let n = self.sync_objects.len();
        self.current_frame = (self.current_frame + 1) % n;
        Some(next)
    }

    /// The slot that the next call of `next` hands out.
    pub fn current_frame(&self) -> (r: usize)
        ensures
            r == self@.current,
            self@.wf(),
    {
        proof {
            use_type_invariant(self);
        }
        self.current_frame
    }

    /// All the objects of the ring, in slot order.
    pub fn sync_objects(&self) -> (r: &Vec<SyncObjects>)
        ensures
            r@ == self@.slots,
            self@.wf(),
    {
        proof {
            use_type_invariant(self);
        }
        &self.sync_objects
    }
}

/// After `k` calls of `next`, the ring stands at slot `current + k` modulo
/// its size, with the same objects.
pub proof fn lemma_after_calls(v: RingView, k: nat)
    requires
        v.wf(),
    ensures
        v.after(k).slots == v.slots,
        v.after(k).current == (v.current + k) % (v.slots.len() as int),
        v.after(k).wf(),
    decreases k,
{
    let n = v.slots.len() as int;
    if k == 0 {
        lemma_small_mod(v.current as nat, n as nat);
    } else {
        lemma_after_calls(v, (k - 1) as nat);
        lemma_add_mod_noop_right(1, v.current + k - 1, n);
    }
}

/// From a fresh ring of `n` slots, `2n` calls of `next` hand out slot
/// `k mod n` at call `k`, so each slot exactly twice, in order.
pub proof fn lemma_two_rounds(v: RingView)
    requires
        v.wf(),
        v.current == 0,
    ensures
        forall|k: nat| k < 2 * v.slots.len() ==> #[trigger] v.after(k).current == (k as int) % (
        v.slots.len() as int),
        forall|s: int, k: nat|
            0 <= s < v.slots.len() && k < 2 * v.slots.len() ==> (#[trigger] v.hands_out(k, s) <==> (
            k == s || k == s + v.slots.len())),
{
    let n = v.slots.len() as int;
    assert forall|k: nat| k < 2 * n implies #[trigger] v.after(k).current == (k as int) % n && (k
        < n ==> (k as int) % n == k) && (k >= n ==> (k as int) % n == k - n) by {
        lemma_after_calls(v, k);
        if k < n {
            lemma_small_mod(k, n as nat);
        } else {
            lemma_small_mod((k - n) as nat, n as nat);
            lemma_mod_add_multiples_vanish(k - n, n);
        }
    }
}

} // verus!
