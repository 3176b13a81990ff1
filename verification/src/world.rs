//! The pond: the pads that lie on the surface, and the clock that lets new
//! ones appear.

use vstd::prelude::*;
use crate::chance::{draw_between, draw_coordinate};
use crate::geometry::{Circle, Point, Rect, discs_overlap};
use crate::lifecycle::lemma_tick_keeps_wf;
use crate::nenuphar::{Nenuphar, NenupharState, NenupharView};
use crate::palette::Palette;

verus! {

/// The milliseconds between two attempts to let a pad appear.
pub const SPAWN_INTERVAL_MS: u64 = 500;

/// The least radius of a pad that appears on the surface.
pub const MIN_SPAWN_RADIUS: u32 = 20;

/// The pads on the surface and the time since the last attempt to add one.
pub struct World {
    entities: Vec<Nenuphar>,
    spawn_clock: u64,
}

/// What a world is, as a mathematical value.
pub struct WorldView {
    /// The pads on the surface, oldest first. None is ever removed.
    pub entities: Seq<NenupharView>,
    /// The milliseconds since the last attempt to add a pad.
    pub spawn_clock: nat,
}

/// Whether a disc overlaps one of the given pads that is not dead.
pub open spec fn overlaps_any_living(pads: Seq<NenupharView>, center: Point, radius: nat) -> bool {
    exists|i: int|
        0 <= i < pads.len() && !((#[trigger] pads[i]).state is Dead) && discs_overlap(
            pads[i].center,
            pads[i].radius as int,
            center,
            radius as int,
        )
}

/// The pads on the surface after one more asks for a place: it is taken in
/// at the end unless it overlaps one that is not dead.
pub open spec fn settled(pads: Seq<NenupharView>, c: NenupharView) -> Seq<NenupharView> {
    if overlaps_any_living(pads, c.center, c.radius) {
        pads
    } else {
        pads.push(c)
    }
}

/// The colour of the surface.
pub open spec fn background() -> Palette {
    Palette::Four
}

/// The values that chance may give for a pad that appears in a window.
pub open spec fn may_appear(window: Rect, center: Point, radius: nat, color: Palette) -> bool {
    &&& MIN_SPAWN_RADIUS <= radius <= window.spec_max_radius()
    &&& window.holds(center)
    &&& color != background()
}

/// One attempt to let a pad appear in a window: `pads` lie on the surface
/// before, `result` after. One pad is proposed, and it is taken in unless it
/// overlaps a pad that is not dead.
pub open spec fn spawns(window: Rect, pads: Seq<NenupharView>, result: Seq<NenupharView>) -> bool {
    exists|center: Point, radius: nat, color: Palette|
        #![trigger NenupharView::fresh(center, radius, color)]
        may_appear(window, center, radius, color) && result == settled(
            pads,
            NenupharView::fresh(center, radius, color),
        )
}

impl WorldView {
    /// What holds of every world at all times: each pad is well formed, and
    /// no two pads that are not dead overlap.
    pub open spec fn wf(self) -> bool {
        &&& forall|i: int| 0 <= i < self.entities.len() ==> (#[trigger] self.entities[i]).wf()
        &&& forall|i: int, j: int|
            0 <= i < j < self.entities.len() && !(self.entities[i].state is Dead) && !(
            self.entities[j].state is Dead) ==> !(#[trigger] self.entities[i]).overlaps(
                #[trigger] self.entities[j],
            )
    }

    /// The clock after a tick, before it is looked at. It stops at the
    /// largest number that 64 bits hold.
    pub open spec fn next_clock(self, elapsed: nat) -> nat {
        if self.spawn_clock + elapsed > u64::MAX {
            u64::MAX as nat
        } else {
            self.spawn_clock + elapsed
        }
    }

    /// Whether `post` can be this world one tick of `elapsed` milliseconds
    /// later, in the given window.
    ///
    /// Every pad goes through the tick. If the clock has then reached
    /// `SPAWN_INTERVAL_MS`, it starts again from 0 and one attempt is made to
    /// let a pad appear; if not, no pad appears.
    pub open spec fn ticks_to(self, post: WorldView, elapsed: nat, window: Rect) -> bool {
        &&& post.entities.len() >= self.entities.len()
        &&& forall|i: int|
            0 <= i < self.entities.len() ==> (#[trigger] self.entities[i]).ticks_to(
                post.entities[i],
                elapsed,
            )
        &&& if self.next_clock(elapsed) >= SPAWN_INTERVAL_MS {
            &&& post.spawn_clock == 0
            &&& spawns(window, post.entities.take(self.entities.len() as int), post.entities)
        } else {
            &&& post.spawn_clock == self.next_clock(elapsed)
            &&& post.entities.len() == self.entities.len()
        }
    }

    /// The discs of the first `count` pads that are not dead, each with all
    /// that it carries.
    pub open spec fn frame_prefix(self, count: nat) -> Seq<Circle>
        decreases count,
    {
        if count == 0 || count > self.entities.len() {
            Seq::empty()
        } else if self.entities[count - 1].state is Dead {
            self.frame_prefix((count - 1) as nat)
        } else {
            self.frame_prefix((count - 1) as nat) + self.entities[count - 1].drawn()
        }
    }

    /// The discs of one frame, in the order in which they are drawn: the pads
    /// of the surface from the oldest to the youngest, the dead ones left
    /// out, each with all that it carries.
    pub open spec fn frame(self) -> Seq<Circle> {
        self.frame_prefix(self.entities.len())
    }
}

impl View for World {
    type V = WorldView;

    closed spec fn view(&self) -> WorldView {
        WorldView {
            entities: crate::nenuphar::views(self.entities@),
            spawn_clock: self.spawn_clock as nat,
        }
    }
}

impl World {
    /// The view holds the clock as it is, and the views of the pads.
    proof fn lemma_view(&self)
        ensures
            self@.spawn_clock == self.spawn_clock,
            self@.entities.len() == self.entities.len(),
            forall|i: int| 0 <= i < self.entities.len() ==> #[trigger] self@.entities[i] == self.entities[i]@,
    {
        crate::nenuphar::lemma_views(self.entities@);
    }

    /// A world with no pad on it, and a clock at 0.
    pub fn new() -> (w: World)
        ensures
            w@ == (WorldView { entities: Seq::empty(), spawn_clock: 0 }),
            w@.wf(),
    {
        let w = World { entities: Vec::with_capacity(10), spawn_clock: 0 };
        proof {
            w.lemma_view();
            assert(w@.entities =~= Seq::empty());
        }
        w
    }

    /// The colour of the surface. No pad that appears on it has this colour.
    pub fn bg_color() -> (c: Palette)
        ensures
            c == background(),
    {
        Palette::Four
    }

    /// Proposes a pad to the surface. It is appended to the pads unless it
    /// overlaps one that is not dead. Returns whether it was.
    pub fn settle(&mut self, candidate: Nenuphar) -> (inserted: bool)
        requires
            old(self)@.wf(),
            candidate@.wf(),
        ensures
            final(self)@.wf(),
            final(self)@.spawn_clock == old(self)@.spawn_clock,
            final(self)@.entities == settled(old(self)@.entities, candidate@),
            inserted == !overlaps_any_living(
                old(self)@.entities,
                candidate@.center,
                candidate@.radius,
            ),
    {
        let ghost pre = self@;
        let mut crowded = false;
        let mut i: usize = 0;
        while i < self.entities.len()
            invariant
                i <= self.entities.len(),
                self@ == pre,
                crowded == overlaps_any_living(
                    pre.entities.take(i as int),
                    candidate@.center,
                    candidate@.radius,
                ),
            decreases self.entities.len() - i,
        {
            proof {
                self.lemma_view();
                lemma_overlaps_any_living_step(
                    pre.entities,
                    i as int,
                    candidate@.center,
                    candidate@.radius,
                );
            }
            if !is_dead(&self.entities[i]) && self.entities[i].overlaps(&candidate) {
                crowded = true;
            }
            i = i + 1;
        }
        proof {
            self.lemma_view();
            assert(pre.entities.take(i as int) =~= pre.entities);
        }
        let ghost before = *self;
        if !crowded {
            self.entities.push(candidate);
            proof {
                self.lemma_view();
                before.lemma_view();
                assert(self@.entities =~= pre.entities.push(candidate@));
                let post = self@;
                assert forall|a: int, b: int|
                    0 <= a < b < post.entities.len() && !(post.entities[a].state is Dead) && !(
                    post.entities[b].state is Dead) implies !(#[trigger] post.entities[a]).overlaps(
                    #[trigger] post.entities[b],
                ) by {
                    assert(post.entities[a] == pre.entities[a]);
                    assert(b < pre.entities.len() ==> post.entities[b] == pre.entities[b]);
                }
            }
        }
        !crowded
    }

    /// One attempt to let a pad appear in the window, with a radius, a centre
    /// and a colour that chance gives.
    pub fn pop_nenuphar(&mut self, window: Rect)
        requires
            old(self)@.wf(),
            window.admits(MIN_SPAWN_RADIUS as int),
        ensures
            final(self)@.wf(),
            final(self)@.spawn_clock == old(self)@.spawn_clock,
            spawns(window, old(self)@.entities, final(self)@.entities),
    {
        let radius: u32 = draw_between(MIN_SPAWN_RADIUS, window.max_radius());
        let position = Point {
            x: draw_coordinate(window.x_min(), window.x_max()),
            y: draw_coordinate(window.y_min(), window.y_max()),
        };
        let nenuphar = Nenuphar::new(position, radius, &World::bg_color());
        self.settle(nenuphar);
    }

    /// One frame of `elapsed_ms` milliseconds.
    ///
    /// The clock counts the time and every pad goes through the tick, the
    /// dead ones too, which it leaves as they are. If the clock has then
    /// reached `SPAWN_INTERVAL_MS`, it starts again from 0 and one attempt is
    /// made to let a pad appear in the window.
    pub fn update(&mut self, elapsed_ms: u64, window: Rect)
        requires
            old(self)@.wf(),
            window.admits(MIN_SPAWN_RADIUS as int),
        ensures
            final(self)@.wf(),
            old(self)@.ticks_to(final(self)@, elapsed_ms as nat, window),
    {
        let ghost pre = self@;
        proof {
            self.lemma_view();
        }
        self.spawn_clock = self.spawn_clock.saturating_add(elapsed_ms);
        let count: usize = self.entities.len();
        let mut i: usize = 0;
        while i < count
            invariant
                i <= count,
                count == self.entities.len(),
                count == old(self).entities.len(),
                self.spawn_clock == pre.next_clock(elapsed_ms as nat),
                pre == old(self)@,
                pre.wf(),
                pre.entities.len() == count,
                forall|j: int| 0 <= j < count ==> #[trigger] pre.entities[j] == old(self).entities[j]@,
                forall|j: int| i <= j < count ==> self.entities[j] == old(self).entities[j],
                forall|j: int|
                    0 <= j < i ==> (#[trigger] pre.entities[j]).ticks_to(
                        self.entities[j]@,
                        elapsed_ms as nat,
                    ) && self.entities[j]@.wf(),
            decreases count - i,
        {
            proof {
                assert(pre.entities[i as int].wf());
            }
            self.entities[i].update(elapsed_ms);
            i = i + 1;
        }
        proof {
            self.lemma_view();
            let mid = self@;
            assert forall|a: int, b: int|
                0 <= a < b < mid.entities.len() && !(mid.entities[a].state is Dead) && !(
                mid.entities[b].state is Dead) implies !(#[trigger] mid.entities[a]).overlaps(
                #[trigger] mid.entities[b],
            ) by {
                assert(pre.entities[a].ticks_to(mid.entities[a], elapsed_ms as nat));
                assert(pre.entities[b].ticks_to(mid.entities[b], elapsed_ms as nat));
            }
            assert forall|j: int| 0 <= j < mid.entities.len() implies (#[trigger] mid.entities[j]).wf() by {
                assert(pre.entities[j].ticks_to(mid.entities[j], elapsed_ms as nat));
            }
        }
        let ghost mid = self@;
        if self.spawn_clock >= SPAWN_INTERVAL_MS {
            self.spawn_clock = 0;
            proof {
                self.lemma_view();
            }
            self.pop_nenuphar(window);
            proof {
                let post = self@;
                let (center, radius, color) = choose|center: Point, radius: nat, color: Palette|
                    #![trigger NenupharView::fresh(center, radius, color)]
                    may_appear(window, center, radius, color) && post.entities == settled(
                        mid.entities,
                        NenupharView::fresh(center, radius, color),
                    );
                assert(post.entities.take(pre.entities.len() as int) =~= mid.entities);
                assert forall|j: int| 0 <= j < pre.entities.len() implies (
                #[trigger] pre.entities[j]).ticks_to(post.entities[j], elapsed_ms as nat) by {
                    assert(post.entities[j] == mid.entities[j]);
                }
            }
        }
    }

    /// Appends to `surface` the discs of one frame: those of every pad that
    /// is not dead, from the oldest to the youngest, each with all that it
    /// carries.
    pub fn draw(&self, surface: &mut Vec<Circle>)
        ensures
            final(surface)@ == old(surface)@ + self@.frame(),
    {
        proof {
            self.lemma_view();
        }
        let mut i: usize = 0;
        while i < self.entities.len()
            invariant
                i <= self.entities.len(),
                self.entities.len() == self@.entities.len(),
                forall|j: int|
                    0 <= j < self.entities.len() ==> #[trigger] self@.entities[j] == self.entities[j]@,
                surface@ == old(surface)@ + self@.frame_prefix(i as nat),
            decreases self.entities.len() - i,
        {
            if !is_dead(&self.entities[i]) {
                self.entities[i].draw(surface);
            }
            i = i + 1;
        }
    }

    /// The pads on the surface, oldest first.
    pub fn entities(&self) -> (pads: &Vec<Nenuphar>)
        ensures
            pads@.len() == self@.entities.len(),
            forall|i: int| 0 <= i < pads@.len() ==> #[trigger] pads@[i]@ == self@.entities[i],
    {
        proof {
            self.lemma_view();
        }
        &self.entities
    }

    /// The milliseconds since the last attempt to add a pad.
    pub fn spawn_clock(&self) -> (ms: u64)
        ensures
            ms == self@.spawn_clock,
    {
        self.spawn_clock
    }
}

/// Whether a pad is dead.
fn is_dead(pad: &Nenuphar) -> (b: bool)
    ensures
        b == (pad@.state is Dead),
{
    match pad.state() {
        NenupharState::Dead => true,
        _ => false,
    }
}

/// Taking one more pad into account adds its own overlap to the question.
proof fn lemma_overlaps_any_living_step(pads: Seq<NenupharView>, k: int, center: Point, radius: nat)
    requires
        0 <= k < pads.len(),
    ensures
        overlaps_any_living(pads.take(k + 1), center, radius) == (overlaps_any_living(
            pads.take(k),
            center,
            radius,
        ) || (!(pads[k].state is Dead) && discs_overlap(
            pads[k].center,
            pads[k].radius as int,
            center,
            radius as int,
        ))),
{
    let shorter = pads.take(k);
    let longer = pads.take(k + 1);
    if overlaps_any_living(longer, center, radius) {
        let i = choose|i: int|
            0 <= i < longer.len() && !((#[trigger] longer[i]).state is Dead) && discs_overlap(
                longer[i].center,
                longer[i].radius as int,
                center,
                radius as int,
            );
        if i < k {
            assert(shorter[i] == longer[i]);
        }
    }
    if overlaps_any_living(shorter, center, radius) {
        let i = choose|i: int|
            0 <= i < shorter.len() && !((#[trigger] shorter[i]).state is Dead) && discs_overlap(
                shorter[i].center,
                shorter[i].radius as int,
                center,
                radius as int,
            );
        assert(longer[i] == shorter[i]);
    }
    if !(pads[k].state is Dead) && discs_overlap(
        pads[k].center,
        pads[k].radius as int,
        center,
        radius as int,
    ) {
        assert(longer[k] == pads[k]);
    }
}

/// A tick keeps a well-formed world well formed.
pub proof fn lemma_world_tick_keeps_wf(pre: WorldView, post: WorldView, elapsed: nat, window: Rect)
    requires
        pre.wf(),
        window.admits(MIN_SPAWN_RADIUS as int),
        pre.ticks_to(post, elapsed, window),
    ensures
        post.wf(),
{
    let n = pre.entities.len() as int;
    let pads = post.entities.take(n);
    assert forall|j: int| 0 <= j < n implies (#[trigger] pads[j]).wf() by {
        lemma_tick_keeps_wf(pre.entities[j], post.entities[j], elapsed);
    }
    assert forall|a: int, b: int|
        0 <= a < b < n && !(pads[a].state is Dead) && !(pads[b].state is Dead) implies !(
    #[trigger] pads[a]).overlaps(#[trigger] pads[b]) by {
        assert(pre.entities[a].ticks_to(post.entities[a], elapsed));
        assert(pre.entities[b].ticks_to(post.entities[b], elapsed));
    }
    if pre.next_clock(elapsed) >= SPAWN_INTERVAL_MS {
        let (center, radius, color) = choose|center: Point, radius: nat, color: Palette|
            #![trigger NenupharView::fresh(center, radius, color)]
            may_appear(window, center, radius, color) && post.entities == settled(
                pads,
                NenupharView::fresh(center, radius, color),
            );
        let c = NenupharView::fresh(center, radius, color);
        if !overlaps_any_living(pads, c.center, c.radius) {
            assert forall|j: int| 0 <= j < post.entities.len() implies (
            #[trigger] post.entities[j]).wf() by {
                assert(j < n ==> post.entities[j] == pads[j]);
            }
            assert forall|a: int, b: int|
                0 <= a < b < post.entities.len() && !(post.entities[a].state is Dead) && !(
                post.entities[b].state is Dead) implies !(#[trigger] post.entities[a]).overlaps(
                #[trigger] post.entities[b],
            ) by {
                assert(post.entities[a] == pads[a]);
                assert(b < n ==> post.entities[b] == pads[b]);
            }
        }
    } else {
        assert(post.entities =~= pads);
    }
}

/// On a surface where no pad is left that is not dead, the attempt that
/// falls due succeeds: the tick that takes the clock to `SPAWN_INTERVAL_MS`
/// adds exactly one pad, which is live and of no size yet.
pub proof fn lemma_pad_appears_on_free_surface(pre: WorldView, post: WorldView, elapsed: nat, window: Rect)
    requires
        pre.ticks_to(post, elapsed, window),
        forall|i: int| 0 <= i < pre.entities.len() ==> (#[trigger] pre.entities[i]).state is Dead,
        pre.spawn_clock + elapsed >= SPAWN_INTERVAL_MS,
    ensures
        post.entities.len() == pre.entities.len() + 1,
        post.spawn_clock == 0,
        post.entities.last().state is Live,
        post.entities.last().apparent_radius == 0,
        MIN_SPAWN_RADIUS <= post.entities.last().radius <= window.spec_max_radius(),
        window.holds(post.entities.last().center),
        post.entities.last().color != background(),
{
    let n = pre.entities.len() as int;
    let pads = post.entities.take(n);
    let (center, radius, color) = choose|center: Point, radius: nat, color: Palette|
        #![trigger NenupharView::fresh(center, radius, color)]
        may_appear(window, center, radius, color) && post.entities == settled(
            pads,
            NenupharView::fresh(center, radius, color),
        );
    assert forall|j: int| 0 <= j < n implies (#[trigger] pads[j]).state is Dead by {
        assert(pre.entities[j].ticks_to(post.entities[j], elapsed));
    }
}

/// Between two attempts no pad appears, and the clock counts on.
pub proof fn lemma_no_pad_before_interval(pre: WorldView, post: WorldView, elapsed: nat, window: Rect)
    requires
        pre.ticks_to(post, elapsed, window),
        pre.spawn_clock + elapsed < SPAWN_INTERVAL_MS,
    ensures
        post.entities.len() == pre.entities.len(),
        post.spawn_clock == pre.spawn_clock + elapsed,
{
}

/// No pad is ever removed from the surface, and at most one is added by a
/// tick.
pub proof fn lemma_surface_only_grows(pre: WorldView, post: WorldView, elapsed: nat, window: Rect)
    requires
        pre.ticks_to(post, elapsed, window),
    ensures
        pre.entities.len() <= post.entities.len() <= pre.entities.len() + 1,
{
    if pre.next_clock(elapsed) >= SPAWN_INTERVAL_MS {
        let pads = post.entities.take(pre.entities.len() as int);
        let (center, radius, color) = choose|center: Point, radius: nat, color: Palette|
            #![trigger NenupharView::fresh(center, radius, color)]
            may_appear(window, center, radius, color) && post.entities == settled(
                pads,
                NenupharView::fresh(center, radius, color),
            );
    }
}

} // verus!
