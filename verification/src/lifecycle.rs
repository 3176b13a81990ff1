//! What follows from the rules of a tick, for every pad and every run.

use vstd::prelude::*;
use crate::geometry::lemma_overlap_symmetric;
use crate::nenuphar::{
    LIFETIME_PER_RADIUS_MS, MIN_CHILD_RADIUS, MIN_PARENT_RADIUS, NenupharView, joined,
    lemma_sprout_is_hosted, overlaps_any,
};
use crate::palette::Palette;

verus! {

/// Overlap is symmetric: a pad overlaps another exactly when the other
/// overlaps it.
pub proof fn lemma_overlaps_symmetric(a: NenupharView, b: NenupharView)
    ensures
        a.overlaps(b) == b.overlaps(a),
{
    lemma_overlap_symmetric(a.center, a.radius as int, b.center, b.radius as int);
}

/// Every pad inside a well-formed pad has a radius between
/// `MIN_CHILD_RADIUS` and seven tenths of the radius of that pad, rounded
/// down, and a colour other than the colour of that pad.
pub proof fn lemma_nested_bounds(p: NenupharView, i: int)
    requires
        p.wf(),
        0 <= i < p.nested.len(),
    ensures
        MIN_CHILD_RADIUS <= p.nested[i].radius <= (7 * p.radius) / 10,
        p.nested[i].color != p.color,
        MIN_PARENT_RADIUS <= p.radius,
{
}

/// A tick keeps a well-formed pad well formed.
pub proof fn lemma_tick_keeps_wf(pre: NenupharView, post: NenupharView, elapsed: nat)
    requires
        pre.wf(),
        pre.ticks_to(post, elapsed),
    ensures
        post.wf(),
    decreases pre,
{
    if pre.state is Live {
        let n = pre.nested.len() as int;
        let kids = post.nested.take(n);
        assert forall|j: int| 0 <= j < n implies (#[trigger] kids[j]).wf() && post.hosts(kids[j]) by {
            lemma_tick_keeps_wf(pre.nested[j], post.nested[j], elapsed);
        }
        assert forall|j: int, k: int| 0 <= j < k < n implies !(#[trigger] kids[j]).overlaps(
            #[trigger] kids[k],
        ) by {
            assert(pre.nested[j].ticks_to(post.nested[j], elapsed));
            assert(pre.nested[k].ticks_to(post.nested[k], elapsed));
        }
        if pre.radius >= MIN_PARENT_RADIUS {
            let (r, d, a, c) = choose|r: nat, d: nat, a: nat, c: Palette|
                #![trigger pre.sprout(r, d, a, c)]
                pre.may_sprout(r, d, a, c) && post.nested == joined(kids, pre.sprout(r, d, a, c));
            let s = pre.sprout(r, d, a, c);
            lemma_sprout_is_hosted(pre, r, d, a, c);
            if !overlaps_any(kids, s.center, s.radius) {
                assert forall|j: int| 0 <= j < post.nested.len() implies (
                #[trigger] post.nested[j]).wf() && post.hosts(post.nested[j]) by {
                    assert(j < n ==> post.nested[j] == kids[j]);
                }
                assert forall|j: int, k: int| 0 <= j < k < post.nested.len() implies !(
                #[trigger] post.nested[j]).overlaps(#[trigger] post.nested[k]) by {
                    assert(post.nested[j] == kids[j]);
                    assert(k < n ==> post.nested[k] == kids[k]);
                }
            }
        }
    }
}

/// While a pad is live, a tick never makes it look smaller, and never
/// larger than its radius.
pub proof fn lemma_live_grows(pre: NenupharView, post: NenupharView, elapsed: nat)
    requires
        pre.wf(),
        pre.ticks_to(post, elapsed),
        pre.state is Live,
    ensures
        pre.apparent_radius <= post.apparent_radius <= post.radius,
        post.radius == pre.radius,
{
}

/// A live pad starts to die on the tick that takes its lifetime beyond
/// `LIFETIME_PER_RADIUS_MS` for each unit of its radius, and on no other.
pub proof fn lemma_live_span(pre: NenupharView, post: NenupharView, elapsed: nat)
    requires
        pre.wf(),
        pre.ticks_to(post, elapsed),
        pre.state is Live,
    ensures
        post.state is Dying <==> pre.lifetime + elapsed > LIFETIME_PER_RADIUS_MS * pre.radius,
        post.state is Live <==> pre.lifetime + elapsed <= LIFETIME_PER_RADIUS_MS * pre.radius,
{
}

/// A dying pad shrinks by exactly 1 on each tick while anything is left of
/// it, and is dead after the tick that finds it at size 0.
pub proof fn lemma_dying_shrinks(pre: NenupharView, post: NenupharView, elapsed: nat)
    requires
        pre.ticks_to(post, elapsed),
        pre.state is Dying,
    ensures
        pre.apparent_radius > 0 ==> post.state is Dying && post.apparent_radius
            == pre.apparent_radius - 1,
        pre.apparent_radius == 0 ==> post.state is Dead && post.apparent_radius == 0,
        post.nested == pre.nested,
{
}

/// A tick leaves a dead pad exactly as it is.
pub proof fn lemma_dead_stays(pre: NenupharView, post: NenupharView, elapsed: nat)
    requires
        pre.ticks_to(post, elapsed),
        pre.state is Dead,
    ensures
        post == pre,
{
}

/// A tick changes neither the colour, nor the centre, nor the radius of a
/// pad, and never takes time back from its lifetime.
pub proof fn lemma_tick_keeps_identity(pre: NenupharView, post: NenupharView, elapsed: nat)
    requires
        pre.wf(),
        pre.ticks_to(post, elapsed),
    ensures
        post.color == pre.color,
        post.center == pre.center,
        post.radius == pre.radius,
        post.lifetime >= pre.lifetime,
        pre.nested.len() <= post.nested.len() <= pre.nested.len() + 1,
{
    if pre.state is Live && pre.radius >= MIN_PARENT_RADIUS {
        let pads = post.nested.take(pre.nested.len() as int);
        let (r, d, a, c) = choose|r: nat, d: nat, a: nat, c: Palette|
            #![trigger pre.sprout(r, d, a, c)]
            pre.may_sprout(r, d, a, c) && post.nested == joined(pads, pre.sprout(r, d, a, c));
    }
}

/// No pad ever goes back: a dying pad does not live again, and a dead pad
/// stays dead.
pub proof fn lemma_state_is_one_way(pre: NenupharView, post: NenupharView, elapsed: nat)
    requires
        pre.ticks_to(post, elapsed),
    ensures
        pre.state is Dying ==> !(post.state is Live),
        pre.state is Dead ==> post.state is Dead,
{
}

/// A pad below `MIN_PARENT_RADIUS` carries nothing, before a tick and after.
pub proof fn lemma_small_pad_stays_bare(pre: NenupharView, post: NenupharView, elapsed: nat)
    requires
        pre.wf(),
        pre.ticks_to(post, elapsed),
        pre.radius < MIN_PARENT_RADIUS,
    ensures
        pre.nested.len() == 0,
        post.nested.len() == 0,
{
    lemma_tick_keeps_wf(pre, post, elapsed);
}

/// The pads inside a pad that is not live do not change.
pub proof fn lemma_nested_stop_with_parent(pre: NenupharView, post: NenupharView, elapsed: nat)
    requires
        pre.ticks_to(post, elapsed),
        !(pre.state is Live),
    ensures
        post.nested == pre.nested,
{
}

/// A run of ticks: each state of the pad leads to the next by one tick.
pub open spec fn is_run(states: Seq<NenupharView>, elapsed: Seq<nat>) -> bool {
    &&& states.len() == elapsed.len() + 1
    &&& forall|k: int|
        0 <= k < elapsed.len() ==> (#[trigger] states[k]).ticks_to(states[k + 1], elapsed[k])
}

/// From the tick on which a pad is dying at size `a`, whatever the lengths
/// of the ticks: after `k` more ticks, with `k` up to `a`, it is dying at
/// size `a - k`; after more than `a` ticks it is dead at size 0, and stays
/// so.
pub proof fn lemma_dying_countdown(states: Seq<NenupharView>, elapsed: Seq<nat>, k: int)
    requires
        is_run(states, elapsed),
        states[0].state is Dying,
        0 <= k < states.len(),
    ensures
        k <= states[0].apparent_radius ==> states[k].state is Dying && states[k].apparent_radius
            == states[0].apparent_radius - k,
        k > states[0].apparent_radius ==> states[k].state is Dead && states[k].apparent_radius == 0,
    decreases k,
{
    if k > 0 {
        lemma_dying_countdown(states, elapsed, k - 1);
    }
}

/// Throughout a run, while the pad is live its apparent radius never goes
/// down and never exceeds its radius.
pub proof fn lemma_live_run_grows(states: Seq<NenupharView>, elapsed: Seq<nat>, j: int, k: int)
    requires
        is_run(states, elapsed),
        states[0].wf(),
        0 <= j <= k < states.len(),
        states[k].state is Live,
    ensures
        states[j].state is Live,
        states[j].apparent_radius <= states[k].apparent_radius <= states[k].radius,
        states[k].radius == states[0].radius,
        states[k].wf(),
    decreases k,
{
    if k > 0 {
        lemma_live_run_grows(states, elapsed, if j < k { j } else { k - 1 }, k - 1);
        lemma_tick_keeps_wf(states[k - 1], states[k], elapsed[k - 1]);
    }
}

} // verus!
