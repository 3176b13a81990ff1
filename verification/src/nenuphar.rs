//! The lily pad: a disc that grows, carries smaller pads, ages and dies.

use vstd::prelude::*;
use crate::chance::draw_between;
use crate::geometry::{Circle, Point, disc_fits, disc_within, discs_overlap, lemma_within_fits, overlap};
use crate::palette::Palette;
use crate::polar::{FULL_TURN, lemma_polar_reach, polar_offset, polar_point};

verus! {

/// A pad of a smaller radius than this carries no pads of its own.
pub const MIN_PARENT_RADIUS: u32 = 20;

/// The least radius of a nested pad.
pub const MIN_CHILD_RADIUS: u32 = 10;

/// The milliseconds that a pad needs to grow by one unit of radius.
pub const GROWTH_PERIOD_MS: u64 = 6;

/// The milliseconds of life that one unit of radius is worth.
pub const LIFETIME_PER_RADIUS_MS: u64 = 300;

/// Where a pad stands in its life. The order is `Live`, `Dying`, `Dead`, and
/// no pad ever goes back.
#[derive(Clone, Copy, Debug, PartialEq, Eq, Structural)]
pub enum NenupharState {
    Live,
    Dead,
    Dying,
}

/// A lily pad and, inside it, the pads that it carries.
pub struct Nenuphar {
    color: Palette,
    center: Point,
    apparent_radius: u32,
    radius: u32,
    state: NenupharState,
    lifetime: u64,
    nested: Vec<Nenuphar>,
}

/// What a pad is, as a mathematical value.
pub struct NenupharView {
    pub color: Palette,
    pub center: Point,
    /// The size that the pad grows to.
    pub radius: nat,
    /// The size at which the pad is drawn now.
    pub apparent_radius: nat,
    pub state: NenupharState,
    /// The milliseconds that the pad has lived.
    pub lifetime: nat,
    /// The pads that it carries, oldest first.
    pub nested: Seq<NenupharView>,
}

/// The largest radius of a pad nested in a pad of the given radius: seven
/// tenths of it, rounded down.
pub open spec fn max_child_radius(radius: nat) -> nat {
    (7 * radius) / 10
}

/// Whether a disc overlaps one of the given pads.
pub open spec fn overlaps_any(pads: Seq<NenupharView>, center: Point, radius: nat) -> bool {
    exists|i: int|
        0 <= i < pads.len() && discs_overlap(
            (#[trigger] pads[i]).center,
            pads[i].radius as int,
            center,
            radius as int,
        )
}

/// The pads after one more asks to join them: it is taken in at the end
/// unless it overlaps one of them.
pub open spec fn joined(pads: Seq<NenupharView>, c: NenupharView) -> Seq<NenupharView> {
    if overlaps_any(pads, c.center, c.radius) {
        pads
    } else {
        pads.push(c)
    }
}

impl NenupharView {
    /// A pad as it is born: alive, of no size yet, with no time behind it and
    /// nothing inside.
    pub open spec fn fresh(center: Point, radius: nat, color: Palette) -> NenupharView {
        NenupharView {
            color,
            center,
            radius,
            apparent_radius: 0,
            state: NenupharState::Live,
            lifetime: 0,
            nested: Seq::empty(),
        }
    }

    /// Whether two pads overlap, going by the sizes that they grow to.
    pub open spec fn overlaps(self, other: NenupharView) -> bool {
        discs_overlap(self.center, self.radius as int, other.center, other.radius as int)
    }

    /// Whether `c` has the place, the size and the colour of a pad nested in
    /// this one.
    pub open spec fn hosts(self, c: NenupharView) -> bool {
        &&& MIN_CHILD_RADIUS <= c.radius <= max_child_radius(self.radius)
        &&& c.color != self.color
        &&& disc_within(c.center, c.radius as int, self.center, self.radius as int)
    }

    /// The pad that is proposed to this one when chance has given a radius, a
    /// distance, a direction in degrees and a colour.
    pub open spec fn sprout(self, radius: nat, distance: nat, angle: nat, color: Palette) -> NenupharView {
        NenupharView::fresh(
            Point {
                x: (self.center.x + polar_point(distance as int, angle as int).0) as i32,
                y: (self.center.y + polar_point(distance as int, angle as int).1) as i32,
            },
            radius,
            color,
        )
    }

    /// The values that chance may give for a pad nested in this one.
    pub open spec fn may_sprout(self, radius: nat, distance: nat, angle: nat, color: Palette) -> bool {
        &&& MIN_PARENT_RADIUS <= self.radius
        &&& MIN_CHILD_RADIUS <= radius <= max_child_radius(self.radius)
        &&& 1 <= distance <= self.radius - radius
        &&& angle < FULL_TURN
        &&& color != self.color
    }

    /// One attempt of this pad to take in a new pad: `pads` are those that it
    /// carries before, `result` those that it carries after. A pad below
    /// `MIN_PARENT_RADIUS` attempts nothing. Any other proposes one pad,
    /// which joins the others unless it overlaps one of them.
    pub open spec fn pops(self, pads: Seq<NenupharView>, result: Seq<NenupharView>) -> bool {
        if self.radius < MIN_PARENT_RADIUS {
            result == pads
        } else {
            exists|radius: nat, distance: nat, angle: nat, color: Palette|
                #![trigger self.sprout(radius, distance, angle, color)]
                self.may_sprout(radius, distance, angle, color) && result == joined(
                    pads,
                    self.sprout(radius, distance, angle, color),
                )
        }
    }

    /// This pad with other pads inside.
    pub open spec fn carrying(self, nested: Seq<NenupharView>) -> NenupharView {
        NenupharView { nested, ..self }
    }

    /// The lifetime after a tick. It stops at the largest number that 64 bits
    /// hold; a dead pad counts no more.
    pub open spec fn next_lifetime(self, elapsed: nat) -> nat {
        if self.state is Dead {
            self.lifetime
        } else if self.lifetime + elapsed > u64::MAX {
            u64::MAX as nat
        } else {
            self.lifetime + elapsed
        }
    }

    /// The apparent radius after a tick. A live pad grows by one unit for
    /// every `GROWTH_PERIOD_MS` of the tick, up to its radius; a dying pad
    /// shrinks by one unit, whatever the length of the tick.
    pub open spec fn next_apparent_radius(self, elapsed: nat) -> nat {
        match self.state {
            NenupharState::Live => {
                if self.apparent_radius + elapsed / (GROWTH_PERIOD_MS as nat) >= self.radius {
                    self.radius
                } else {
                    self.apparent_radius + elapsed / (GROWTH_PERIOD_MS as nat)
                }
            },
            NenupharState::Dying => {
                if self.apparent_radius > 0 {
                    (self.apparent_radius - 1) as nat
                } else {
                    0
                }
            },
            NenupharState::Dead => self.apparent_radius,
        }
    }

    /// The state after a tick. A live pad starts to die once it has lived
    /// more than `LIFETIME_PER_RADIUS_MS` for each unit of its radius; a dying
    /// pad is dead on the tick that finds it at size 0.
    pub open spec fn next_state(self, elapsed: nat) -> NenupharState {
        match self.state {
            NenupharState::Live => {
                if self.next_lifetime(elapsed) > LIFETIME_PER_RADIUS_MS * self.radius {
                    NenupharState::Dying
                } else {
                    NenupharState::Live
                }
            },
            NenupharState::Dying => {
                if self.apparent_radius > 0 {
                    NenupharState::Dying
                } else {
                    NenupharState::Dead
                }
            },
            NenupharState::Dead => NenupharState::Dead,
        }
    }

    /// Whether `post` can be this pad one tick of `elapsed` milliseconds
    /// later.
    ///
    /// Colour, centre and radius stay. Lifetime, apparent radius and state
    /// are those that the three functions above give. The pads inside a live
    /// pad each go through the same tick, and the pad then makes one attempt
    /// to take in a new one. The pads inside a dying or dead pad stay as
    /// they are.
    pub open spec fn ticks_to(self, post: NenupharView, elapsed: nat) -> bool
        decreases self,
    {
        &&& post.color == self.color
        &&& post.center == self.center
        &&& post.radius == self.radius
        &&& post.lifetime == self.next_lifetime(elapsed)
        &&& post.apparent_radius == self.next_apparent_radius(elapsed)
        &&& post.state == self.next_state(elapsed)
        &&& if self.state is Live {
            &&& post.nested.len() >= self.nested.len()
            &&& forall|i: int|
                0 <= i < self.nested.len() ==> (#[trigger] self.nested[i]).ticks_to(
                    post.nested[i],
                    elapsed,
                )
            &&& self.pops(post.nested.take(self.nested.len() as int), post.nested)
        } else {
            post.nested == self.nested
        }
    }

    /// The disc that shows this pad.
    pub open spec fn circle(self) -> Circle {
        Circle {
            center: self.center,
            radius: self.apparent_radius as u32,
            color: self.color.rgba(),
        }
    }

    /// The discs of this pad and of the first `count` pads inside it, each
    /// with all that it carries.
    pub open spec fn drawn_prefix(self, count: nat) -> Seq<Circle>
        decreases self, count,
    {
        if count == 0 || count > self.nested.len() {
            seq![self.circle()]
        } else {
            self.drawn_prefix((count - 1) as nat) + self.nested[count - 1].drawn_prefix(
                self.nested[count - 1].nested.len(),
            )
        }
    }

    /// The discs that show this pad and all that it carries, in the order in
    /// which they are drawn: a pad before the pads inside it, and these from
    /// the oldest to the youngest, whatever their state.
    pub open spec fn drawn(self) -> Seq<Circle> {
        self.drawn_prefix(self.nested.len())
    }

    /// What holds of every pad at all times.
    pub open spec fn wf(self) -> bool
        decreases self,
    {
        &&& self.apparent_radius <= self.radius
        &&& self.state is Dead ==> self.apparent_radius == 0
        &&& self.state is Live ==> self.lifetime <= LIFETIME_PER_RADIUS_MS * self.radius
        &&& self.lifetime <= u64::MAX
        &&& disc_fits(self.center, self.radius as int)
        &&& self.radius < MIN_PARENT_RADIUS ==> self.nested.len() == 0
        &&& forall|i: int|
            0 <= i < self.nested.len() ==> (#[trigger] self.nested[i]).wf() && self.hosts(
                self.nested[i],
            )
        &&& forall|i: int, j: int|
            0 <= i < j < self.nested.len() ==> !(#[trigger] self.nested[i]).overlaps(
                #[trigger] self.nested[j],
            )
    }
}

/// The pad that a well-formed pad proposes lies inside it, has a radius
/// between `MIN_CHILD_RADIUS` and seven tenths of its own, and another
/// colour; and it is well formed itself.
pub proof fn lemma_sprout_is_hosted(p: NenupharView, radius: nat, distance: nat, angle: nat, color: Palette)
    requires
        disc_fits(p.center, p.radius as int),
        p.may_sprout(radius, distance, angle, color),
    ensures
        p.hosts(p.sprout(radius, distance, angle, color)),
        p.sprout(radius, distance, angle, color).wf(),
        p.sprout(radius, distance, angle, color).center.x == p.center.x + polar_point(
            distance as int,
            angle as int,
        ).0,
        p.sprout(radius, distance, angle, color).center.y == p.center.y + polar_point(
            distance as int,
            angle as int,
        ).1,
{
    lemma_polar_reach(distance as int, angle as int);
    let dx = polar_point(distance as int, angle as int).0;
    let dy = polar_point(distance as int, angle as int).1;
    let c = p.sprout(radius, distance, angle, color);
    let reach = p.radius - radius;
    assert(dx * dx + dy * dy <= reach * reach) by (nonlinear_arith)
        requires
            dx * dx + dy * dy <= distance * distance,
            0 <= distance <= reach,
    ;
    lemma_within_fits(c.center, radius as int, p.center, p.radius as int);
}

/// The views of some pads, in their order.
pub closed spec fn views(pads: Seq<Nenuphar>) -> Seq<NenupharView>
    decreases pads,
{
    if pads.len() == 0 {
        Seq::empty()
    } else {
        views(pads.drop_last()).push(pads.last().view())
    }
}

/// `views` keeps the length and the order.
pub proof fn lemma_views(pads: Seq<Nenuphar>)
    ensures
        views(pads).len() == pads.len(),
        forall|i: int| 0 <= i < pads.len() ==> #[trigger] views(pads)[i] == pads[i]@,
    decreases pads.len(),
{
    if pads.len() > 0 {
        lemma_views(pads.drop_last());
        assert(views(pads) == views(pads.drop_last()).push(pads.last().view()));
    }
}

impl View for Nenuphar {
    type V = NenupharView;

    closed spec fn view(&self) -> NenupharView
        decreases self,
    {
        NenupharView {
            color: self.color,
            center: self.center,
            radius: self.radius as nat,
            apparent_radius: self.apparent_radius as nat,
            state: self.state,
            lifetime: self.lifetime as nat,
            nested: views(self.nested@),
        }
    }
}

/// Taking one more pad into account adds its own overlap to the question.
proof fn lemma_overlaps_any_step(pads: Seq<NenupharView>, k: int, center: Point, radius: nat)
    requires
        0 <= k < pads.len(),
    ensures
        overlaps_any(pads.take(k + 1), center, radius) == (overlaps_any(pads.take(k), center, radius)
            || discs_overlap(pads[k].center, pads[k].radius as int, center, radius as int)),
{
    let shorter = pads.take(k);
    let longer = pads.take(k + 1);
    if overlaps_any(longer, center, radius) {
        let i = choose|i: int|
            0 <= i < longer.len() && discs_overlap(
                (#[trigger] longer[i]).center,
                longer[i].radius as int,
                center,
                radius as int,
            );
        if i < k {
            assert(shorter[i] == longer[i]);
        }
    }
    if overlaps_any(shorter, center, radius) {
        let i = choose|i: int|
            0 <= i < shorter.len() && discs_overlap(
                (#[trigger] shorter[i]).center,
                shorter[i].radius as int,
                center,
                radius as int,
            );
        assert(longer[i] == shorter[i]);
    }
    if discs_overlap(pads[k].center, pads[k].radius as int, center, radius as int) {
        assert(longer[k] == pads[k]);
    }
}

impl Nenuphar {
    /// The view holds the fields as they are, and the views of the pads inside.
    proof fn lemma_view(&self)
        ensures
            self@.color == self.color,
            self@.center == self.center,
            self@.radius == self.radius,
            self@.apparent_radius == self.apparent_radius,
            self@.state == self.state,
            self@.lifetime == self.lifetime,
            self@.nested.len() == self.nested.len(),
            forall|i: int| 0 <= i < self.nested.len() ==> #[trigger] self@.nested[i] == self.nested[i]@,
    {
        lemma_views(self.nested@);
    }

    /// A new pad of the given colour.
    pub fn with_color(center: Point, radius: u32, color: Palette) -> (n: Nenuphar)
        requires
            disc_fits(center, radius as int),
        ensures
            n@ == NenupharView::fresh(center, radius as nat, color),
            n@.wf(),
    {
        let n = Nenuphar {
            color,
            apparent_radius: 0,
            radius,
            center,
            state: NenupharState::Live,
            lifetime: 0,
            nested: Vec::with_capacity(5),
        };
        proof {
            n.lemma_view();
        }
        n
    }

    /// A new pad, of a colour that chance picks among those that differ from
    /// `parent_color`.
    pub fn new(center: Point, radius: u32, parent_color: &Palette) -> (n: Nenuphar)
        requires
            disc_fits(center, radius as int),
        ensures
            n@ == NenupharView::fresh(center, radius as nat, n@.color),
            n@.color != *parent_color,
            n@.wf(),
    {
        Nenuphar::with_color(center, radius, parent_color.random_except())
    }

    /// Whether the two pads overlap: whether their centres are closer than
    /// the sum of the radii that they grow to.
    pub fn overlaps(&self, other: &Nenuphar) -> (b: bool)
        ensures
            b == self@.overlaps(other@),
    {
        overlap(self.center, self.radius, other.center, other.radius)
    }

    /// Proposes one pad to this one: of the given radius and colour, with its
    /// centre at the given distance from the centre of this pad, in the
    /// direction given in degrees. It is appended to the pads inside unless it
    /// overlaps one of them. Returns whether it was.
    pub fn place_child(&mut self, radius: u32, distance: u32, angle: u32, color: Palette) -> (inserted: bool)
        requires
            old(self)@.wf(),
            old(self)@.may_sprout(radius as nat, distance as nat, angle as nat, color),
        ensures
            final(self)@.wf(),
            final(self)@ == old(self)@.carrying(
                joined(
                    old(self)@.nested,
                    old(self)@.sprout(radius as nat, distance as nat, angle as nat, color),
                ),
            ),
            inserted == !overlaps_any(
                old(self)@.nested,
                old(self)@.sprout(radius as nat, distance as nat, angle as nat, color).center,
                radius as nat,
            ),
    {
        let ghost pre = self@;
        proof {
            self.lemma_view();
            lemma_sprout_is_hosted(pre, radius as nat, distance as nat, angle as nat, color);
        }
        let (dx, dy) = polar_offset(distance, angle);
        let center = Point {
            x: (self.center.x as i64 + dx) as i32,
            y: (self.center.y as i64 + dy) as i32,
        };
        let candidate = Nenuphar::with_color(center, radius, color);
        let mut crowded = false;
        let mut i: usize = 0;
        while i < self.nested.len()
            invariant
                i <= self.nested.len(),
                self@ == pre,
                crowded == overlaps_any(pre.nested.take(i as int), candidate@.center, candidate@.radius),
            decreases self.nested.len() - i,
        {
            proof {
                self.lemma_view();
                lemma_overlaps_any_step(pre.nested, i as int, candidate@.center, candidate@.radius);
            }
            if self.nested[i].overlaps(&candidate) {
                crowded = true;
            }
            i = i + 1;
        }
        proof {
            self.lemma_view();
            assert(pre.nested.take(i as int) =~= pre.nested);
        }
        let ghost before = *self;
        if !crowded {
            self.nested.push(candidate);
            proof {
                self.lemma_view();
                before.lemma_view();
                assert(self@.nested =~= pre.nested.push(candidate@));
            }
        }
        !crowded
    }

    /// One attempt to take in a new pad, with a radius, a distance, a
    /// direction and a colour that chance gives.
    pub fn pop_inner(&mut self)
        requires
            old(self)@.wf(),
        ensures
            final(self)@.wf(),
            final(self)@ == old(self)@.carrying(final(self)@.nested),
            old(self)@.pops(old(self)@.nested, final(self)@.nested),
    {
        if self.radius < MIN_PARENT_RADIUS {
            return;
        }
        let radius: u32 = draw_between(MIN_CHILD_RADIUS, ((self.radius as u64 * 7) / 10) as u32);
        let distance: u32 = draw_between(1, self.radius - radius);
        let angle: u32 = draw_between(0, FULL_TURN - 1);
        let color = self.color.random_except();
        self.place_child(radius, distance, angle, color);
    }

    /// One tick of `elapsed_ms` milliseconds.
    ///
    /// A live pad counts the time, grows, lets each pad inside go through the
    /// same tick, makes one attempt to take in a new pad, and starts to die
    /// once it has outlived its span. A dying pad counts the time and shrinks
    /// by one unit, or dies when nothing is left of it; the pads inside it no
    /// longer change. A dead pad stays as it is.
    pub fn update(&mut self, elapsed_ms: u64)
        requires
            old(self)@.wf(),
        ensures
            final(self)@.wf(),
            old(self)@.ticks_to(final(self)@, elapsed_ms as nat),
        decreases *old(self),
    {
        let ghost pre = self@;
        proof {
            self.lemma_view();
        }
        match self.state {
            NenupharState::Dead => {},
            NenupharState::Dying => {
                self.lifetime = self.lifetime.saturating_add(elapsed_ms);
                if self.apparent_radius > 0 {
                    self.apparent_radius = self.apparent_radius - 1;
                } else {
                    self.state = NenupharState::Dead;
                }
                proof {
                    self.lemma_view();
                    assert(self@.nested == pre.nested);
                }
            },
            NenupharState::Live => {
                self.lifetime = self.lifetime.saturating_add(elapsed_ms);
                let grown: u64 = self.apparent_radius as u64 + elapsed_ms / GROWTH_PERIOD_MS;
                if grown >= self.radius as u64 {
                    self.apparent_radius = self.radius;
                } else {
                    self.apparent_radius = grown as u32;
                }
                // The state is settled before the pads inside are visited:
                // neither depends on the other.
                if self.lifetime > LIFETIME_PER_RADIUS_MS * (self.radius as u64) {
                    self.state = NenupharState::Dying;
                }
                let count: usize = self.nested.len();
                let mut i: usize = 0;
                while i < count
                    invariant
                        i <= count,
                        count == self.nested.len(),
                        count == old(self).nested.len(),
                        self.color == old(self).color,
                        self.center == old(self).center,
                        self.radius == old(self).radius,
                        self.lifetime == pre.next_lifetime(elapsed_ms as nat),
                        self.apparent_radius == pre.next_apparent_radius(elapsed_ms as nat),
                        self.state == pre.next_state(elapsed_ms as nat),
                        pre == old(self)@,
                        pre.wf(),
                        pre.nested.len() == count,
                        forall|j: int| 0 <= j < count ==> #[trigger] pre.nested[j] == old(self).nested[j]@,
                        forall|j: int| i <= j < count ==> self.nested[j] == old(self).nested[j],
                        forall|j: int|
                            0 <= j < i ==> (#[trigger] pre.nested[j]).ticks_to(
                                self.nested[j]@,
                                elapsed_ms as nat,
                            ) && self.nested[j]@.wf(),
                    decreases count - i,
                {
                    proof {
                        assert(pre.nested[i as int].wf());
                    }
                    self.nested[i].update(elapsed_ms);
                    i = i + 1;
                }
                proof {
                    self.lemma_view();
                    let mid = self@;
                    assert forall|j: int| 0 <= j < mid.nested.len() implies (#[trigger] mid.nested[j]).wf()
                        && mid.hosts(mid.nested[j]) by {
                        assert(pre.nested[j].ticks_to(mid.nested[j], elapsed_ms as nat));
                    }
                    assert forall|j: int, k: int| 0 <= j < k < mid.nested.len() implies !(
                    #[trigger] mid.nested[j]).overlaps(#[trigger] mid.nested[k]) by {
                        assert(pre.nested[j].ticks_to(mid.nested[j], elapsed_ms as nat));
                        assert(pre.nested[k].ticks_to(mid.nested[k], elapsed_ms as nat));
                    }
                }
                let ghost mid = self@;
                self.pop_inner();
                proof {
                    let post = self@;
                    if mid.radius >= MIN_PARENT_RADIUS {
                        let (r, d, a, c) = choose|r: nat, d: nat, a: nat, c: Palette|
                            #![trigger mid.sprout(r, d, a, c)]
                            mid.may_sprout(r, d, a, c) && post.nested == joined(
                                mid.nested,
                                mid.sprout(r, d, a, c),
                            );
                        assert(pre.sprout(r, d, a, c) == mid.sprout(r, d, a, c));
                    }
                    assert(post.nested.take(pre.nested.len() as int) =~= mid.nested);
                    assert forall|j: int| 0 <= j < pre.nested.len() implies (
                    #[trigger] pre.nested[j]).ticks_to(post.nested[j], elapsed_ms as nat) by {
                        assert(post.nested[j] == mid.nested[j]);
                    }
                }
            },
        }
    }

    /// Appends to `surface` the discs that show this pad and all that it
    /// carries. The pad itself comes first, at its apparent radius; the pads
    /// inside follow in their order, dead ones too.
    pub fn draw(&self, surface: &mut Vec<Circle>)
        ensures
            final(surface)@ == old(surface)@ + self@.drawn(),
        decreases self,
    {
        proof {
            self.lemma_view();
        }
        surface.push(
            Circle { center: self.center, radius: self.apparent_radius, color: self.color.to_rgba() },
        );
        let mut i: usize = 0;
        while i < self.nested.len()
            invariant
                i <= self.nested.len(),
                self.nested.len() == self@.nested.len(),
                forall|j: int| 0 <= j < self.nested.len() ==> #[trigger] self@.nested[j] == self.nested[j]@,
                surface@ == old(surface)@ + self@.drawn_prefix(i as nat),
            decreases self.nested.len() - i,
        {
            self.nested[i].draw(surface);
            assert(self@.drawn_prefix((i + 1) as nat) == self@.drawn_prefix(i as nat)
                + self@.nested[i as int].drawn());
            i = i + 1;
        }
    }

    /// The colour of the pad. It never changes.
    pub fn color(&self) -> (c: Palette)
        ensures
            c == self@.color,
    {
        proof {
            self.lemma_view();
        }
        self.color
    }

    /// The centre of the pad. It never changes.
    pub fn center(&self) -> (c: Point)
        ensures
            c == self@.center,
    {
        proof {
            self.lemma_view();
        }
        self.center
    }

    /// The radius that the pad grows to. It never changes.
    pub fn radius(&self) -> (r: u32)
        ensures
            r == self@.radius,
    {
        proof {
            self.lemma_view();
        }
        self.radius
    }

    /// The radius at which the pad is drawn now.
    pub fn apparent_radius(&self) -> (r: u32)
        ensures
            r == self@.apparent_radius,
    {
        proof {
            self.lemma_view();
        }
        self.apparent_radius
    }

    /// Where the pad stands in its life.
    pub fn state(&self) -> (s: NenupharState)
        ensures
            s == self@.state,
    {
        proof {
            self.lemma_view();
        }
        self.state
    }

    /// The milliseconds that the pad has lived.
    pub fn lifetime(&self) -> (ms: u64)
        ensures
            ms == self@.lifetime,
    {
        proof {
            self.lemma_view();
        }
        self.lifetime
    }

    /// The pads inside this one, oldest first.
    pub fn nested(&self) -> (pads: &Vec<Nenuphar>)
        ensures
            pads@.len() == self@.nested.len(),
            forall|i: int| 0 <= i < pads@.len() ==> #[trigger] pads@[i]@ == self@.nested[i],
    {
        proof {
            self.lemma_view();
        }
        &self.nested
    }
}

} // verus!
