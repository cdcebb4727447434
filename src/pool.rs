use vstd::prelude::*;
use crate::geometry::{Point, Tint};
use crate::bunny::{Bunny, MAX_SPEED};
use crate::spawn::{BURST_SIZE, spawn_speed, spawn_tint, draw_speed_and_tint};

verus! {

/// The configured number of sprite slots.
pub const MAX_BUNNIES: usize = 500000;

/// A preallocated array of sprite slots of which a leading run is live.
/// Slots are never freed: the live run only grows, up to the capacity.
pub struct BunnyPool {
    bunnies: Vec<Bunny>,
    count: usize,
}

/// The live count after one burst of admissions from `count`.
pub open spec fn count_after_burst(count: nat, capacity: nat) -> nat {
    if count + BURST_SIZE <= capacity {
        (count + BURST_SIZE) as nat
    } else if count <= capacity {
        capacity
    } else {
        count
    }
}

/// The live count after one frame, given whether the spawn trigger was held.
pub open spec fn count_after_frame(count: nat, capacity: nat, spawn_active: bool) -> nat {
    if spawn_active {
        count_after_burst(count, capacity)
    } else {
        count
    }
}

/// The live count after a run of frames, one trigger sample per frame.
pub open spec fn count_after_frames(count: nat, capacity: nat, triggers: Seq<bool>) -> nat
    decreases triggers.len(),
{
    if triggers.len() == 0 {
        count
    } else {
        count_after_frames(
            count_after_frame(count, capacity, triggers[0]),
            capacity,
            triggers.drop_first(),
        )
    }
}

/// A freshly admitted sprite: at the pointer, with a drawn speed and tint.
pub open spec fn spawned_at(b: Bunny, pointer: Point) -> bool {
    &&& b.position == pointer
    &&& spawn_speed(b.speed.x)
    &&& spawn_speed(b.speed.y)
    &&& spawn_tint(b.color)
}

/// A sprite admitted at `pointer` and then stepped once.
pub open spec fn spawned_then_stepped(x: Bunny, pointer: Point, width: u16, height: u16) -> bool {
    exists|b: Bunny| spawned_at(b, pointer) && x == #[trigger] b.stepped(width, height)
}

/// A speed that `enlist` takes: each component within the speed bound.
pub open spec fn admissible_speed(speed: Point) -> bool {
    -MAX_SPEED <= speed.x <= MAX_SPEED && -MAX_SPEED <= speed.y <= MAX_SPEED
}

impl View for BunnyPool {
    type V = Seq<Bunny>;

    /// The live sprites, in slot order.
    closed spec fn view(&self) -> Seq<Bunny> {
        self.bunnies@.subrange(0, self.count as int)
    }
}

impl BunnyPool {
    /// The number of slots.
    pub closed spec fn spec_capacity(&self) -> nat {
        self.bunnies@.len()
    }

    /// The live count is within the slots, and every live sprite is within
    /// the coordinate and speed bounds.
    pub closed spec fn wf(&self) -> bool {
        &&& self.count <= self.bunnies@.len()
        &&& forall|i: int| 0 <= i < self.count ==> (#[trigger] self.bunnies@[i]).in_bounds()
    }

    /// An empty pool with `capacity` preallocated slots.
    pub fn with_capacity(capacity: usize) -> (r: BunnyPool)
        ensures
            r.wf(),
            r@ == Seq::<Bunny>::empty(),
            r.spec_capacity() == capacity,
    {
        let blank = Bunny {
            position: Point { x: 0, y: 0 },
            speed: Point { x: 0, y: 0 },
            color: Tint { r: 255, g: 255, b: 255, a: 255 },
        };
        let bunnies = vec![blank; capacity];
        let r = BunnyPool { bunnies, count: 0 };
        assert(r@ =~= Seq::<Bunny>::empty());
        r
    }

    /// An empty pool with the configured number of slots.
    pub fn new() -> (r: BunnyPool)
        ensures
            r.wf(),
            r@ == Seq::<Bunny>::empty(),
            r.spec_capacity() == MAX_BUNNIES,
    {
        BunnyPool::with_capacity(MAX_BUNNIES)
    }

    /// The number of live sprites.
    pub fn count(&self) -> (r: usize)
        requires
            self.wf(),
        ensures
            r == self@.len(),
    {
        self.count
    }

    /// The number of slots.
    pub fn capacity(&self) -> (r: usize)
        ensures
            r == self.spec_capacity(),
    {
        self.bunnies.len()
    }

    /// The live sprite at index `i`.
    pub fn get(&self, i: usize) -> (r: Bunny)
        requires
            self.wf(),
            i < self@.len(),
        ensures
            r == self@[i as int],
            r.in_bounds(),
    {
        self.bunnies[i]
    }

    /// Admits one sprite at `pointer` with the given speed and tint if a slot
    /// is free, and tells whether it did. A full pool is left as it is.
    pub fn enlist(&mut self, pointer: Point, speed: Point, color: Tint) -> (admitted: bool)
        requires
            old(self).wf(),
            pointer.is_pointer(),
            admissible_speed(speed),
        ensures
            final(self).wf(),
            final(self).spec_capacity() == old(self).spec_capacity(),
            admitted == (old(self)@.len() < old(self).spec_capacity()),
            admitted ==> final(self)@ == old(self)@.push(
                Bunny { position: pointer, speed, color },
            ),
            !admitted ==> final(self)@ == old(self)@,
    {
        if self.count < self.bunnies.len() {
            let b = Bunny { position: pointer, speed, color };
            let ghost before = self.bunnies@;
            self.bunnies.set(self.count, b);
            self.count = self.count + 1;
            assert(self@ =~= old(self)@.push(b));
            assert forall|i: int| 0 <= i < self.count implies (
            #[trigger] self.bunnies@[i]).in_bounds() by {
                if i < self.count - 1 {
                    assert(self.bunnies@[i] == before[i]);
                }
            }
            true
        } else {
            false
        }
    }

    /// Runs one burst of admissions at `pointer`: up to `BURST_SIZE`
    /// sprites, each with a freshly drawn speed and tint, while slots last.
    pub fn spawn_burst(&mut self, pointer: Point)
        requires
            old(self).wf(),
            pointer.is_pointer(),
        ensures
            final(self).wf(),
            final(self).spec_capacity() == old(self).spec_capacity(),
            final(self)@.len() == count_after_burst(
                old(self)@.len(),
                old(self).spec_capacity(),
            ),
            final(self)@.len() <= old(self)@.len() + BURST_SIZE,
            final(self)@.subrange(0, old(self)@.len() as int) == old(self)@,
            forall|i: int|
                old(self)@.len() <= i < final(self)@.len() ==> spawned_at(
                    #[trigger] final(self)@[i],
                    pointer,
                ),
    {
        let ghost start = self@;
        let ghost cap = self.spec_capacity();
        let mut k: usize = 0;
        while k < BURST_SIZE
            invariant
                self.wf(),
                pointer.is_pointer(),
                k <= BURST_SIZE,
                self.spec_capacity() == cap,
                cap == old(self).spec_capacity(),
                start == old(self)@,
                start.len() <= cap,
                self@.len() == if start.len() + k <= cap {
                    start.len() + k
                } else {
                    cap as int
                },
                self@.subrange(0, start.len() as int) == start,
                forall|i: int|
                    start.len() <= i < self@.len() ==> spawned_at(#[trigger] self@[i], pointer),
            decreases BURST_SIZE - k,
        {
            if self.count < self.bunnies.len() {
                let (speed, color) = draw_speed_and_tint();
                let ghost prev = self@;
                self.enlist(pointer, speed, color);
                assert(self@.subrange(0, start.len() as int) =~= prev.subrange(
                    0,
                    start.len() as int,
                ));
                assert forall|i: int|
                    start.len() <= i < self@.len() implies spawned_at(
                    #[trigger] self@[i],
                    pointer,
                ) by {
                    if i < prev.len() {
                        assert(self@[i] == prev[i]);
                    }
                }
            }
            k = k + 1;
        }
        assert(old(self)@.len() <= old(self).spec_capacity());
    }

    /// Moves every live sprite by one frame for a sprite image of `width` by
    /// `height` units, reflecting at the viewport edges.
    pub fn advance(&mut self, width: u16, height: u16)
        requires
            old(self).wf(),
        ensures
            final(self).wf(),
            final(self).spec_capacity() == old(self).spec_capacity(),
            final(self)@.len() == old(self)@.len(),
            forall|i: int|
                0 <= i < old(self)@.len() ==> #[trigger] final(self)@[i] == old(self)@[i].stepped(
                    width,
                    height,
                ),
    {
        let ghost start = self.bunnies@;
        let mut i: usize = 0;
        while i < self.count
            invariant
                self.wf(),
                self.count == old(self).count,
                self.bunnies@.len() == start.len(),
                start == old(self).bunnies@,
                i <= self.count,
                forall|j: int| 0 <= j < i ==> #[trigger] self.bunnies@[j] == start[j].stepped(width, height),
                forall|j: int| i <= j < self.bunnies@.len() ==> #[trigger] self.bunnies@[j] == start[j],
            decreases self.count - i,
        {
            let b = self.bunnies[i].step(width, height);
            self.bunnies.set(i, b);
            i = i + 1;
        }
    }

    /// One frame of the simulation: a burst of admissions at `pointer` if the
    /// spawn trigger is held, then one step of every live sprite.
    pub fn frame(&mut self, spawn_active: bool, pointer: Point, width: u16, height: u16)
        requires
            old(self).wf(),
            pointer.is_pointer(),
        ensures
            final(self).wf(),
            final(self).spec_capacity() == old(self).spec_capacity(),
            final(self)@.len() == count_after_frame(
                old(self)@.len(),
                old(self).spec_capacity(),
                spawn_active,
            ),
            forall|i: int|
                0 <= i < old(self)@.len() ==> #[trigger] final(self)@[i] == old(self)@[i].stepped(
                    width,
                    height,
                ),
            forall|i: int|
                old(self)@.len() <= i < final(self)@.len() ==> spawned_then_stepped(
                    #[trigger] final(self)@[i],
                    pointer,
                    width,
                    height,
                ),
    {
        let ghost start = self@;
        if spawn_active {
            self.spawn_burst(pointer);
        }
        let ghost mid = self@;
        assert forall|i: int| 0 <= i < start.len() implies mid[i] == start[i] by {
            assert(mid.subrange(0, start.len() as int)[i] == mid[i]);
        }
        self.advance(width, height);
        assert forall|i: int|
            start.len() <= i < self@.len() implies spawned_then_stepped(
            #[trigger] self@[i],
            pointer,
            width,
            height,
        ) by {
            assert(spawned_at(mid[i], pointer));
            assert(self@[i] == mid[i].stepped(width, height));
        }
    }
}

/// Over any run of frames, whatever the trigger does, the live count never
/// decreases from one frame to the next and never exceeds the capacity.
pub proof fn lemma_capacity_invariant(count: nat, capacity: nat, triggers: Seq<bool>)
    requires
        count <= capacity,
    ensures
        count <= count_after_frames(count, capacity, triggers) <= capacity,
        forall|k: int|
            0 <= k < triggers.len() ==> count_after_frames(count, capacity, triggers.take(k))
                <= #[trigger] count_after_frames(count, capacity, triggers.take(k + 1)),
    decreases triggers.len(),
{
    if triggers.len() > 0 {
        let next = count_after_frame(count, capacity, triggers[0]);
        let rest = triggers.drop_first();
        lemma_capacity_invariant(next, capacity, rest);
        assert forall|k: int|
            0 <= k < triggers.len() implies count_after_frames(count, capacity, triggers.take(k))
            <= #[trigger] count_after_frames(count, capacity, triggers.take(k + 1)) by {
            let longer = triggers.take(k + 1);
            assert(longer[0] == triggers[0]);
            assert(longer.drop_first() =~= rest.take(k));
            assert(count_after_frames(count, capacity, longer) == count_after_frames(
                next,
                capacity,
                rest.take(k),
            ));
            if k > 0 {
                let shorter = triggers.take(k);
                assert(shorter[0] == triggers[0]);
                assert(shorter.drop_first() =~= rest.take(k - 1));
                assert(count_after_frames(count, capacity, shorter) == count_after_frames(
                    next,
                    capacity,
                    rest.take(k - 1),
                ));
                assert(count_after_frames(next, capacity, rest.take(k - 1)) <= count_after_frames(
                    next,
                    capacity,
                    rest.take((k - 1) + 1),
                ));
            } else {
                assert(triggers.take(0).len() == 0);
                assert(rest.take(0).len() == 0);
            }
        }
    }
}

} // verus!
