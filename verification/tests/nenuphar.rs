use nenuphars::geometry::{distance_squared, Circle, Point};
use nenuphars::nenuphar::{
    Nenuphar, NenupharState, GROWTH_PERIOD_MS, LIFETIME_PER_RADIUS_MS, MIN_CHILD_RADIUS,
    MIN_PARENT_RADIUS,
};
use nenuphars::palette::Palette;

fn origin() -> Point {
    Point { x: 0, y: 0 }
}

fn pad(x: i32, y: i32, radius: u32) -> Nenuphar {
    Nenuphar::with_color(Point { x, y }, radius, Palette::One)
}

/// Holds every pad of the tree to what is true of all pads.
fn check_tree(p: &Nenuphar) {
    assert!(p.apparent_radius() <= p.radius());
    if p.state() == NenupharState::Dead {
        assert_eq!(p.apparent_radius(), 0);
    }
    if p.state() == NenupharState::Live {
        assert!(p.lifetime() <= 300 * p.radius() as u64);
    }
    if p.radius() < 20 {
        assert!(p.nested().is_empty());
    }
    let pads = p.nested();
    for (i, c) in pads.iter().enumerate() {
        assert!(10 <= c.radius());
        assert!(c.radius() as u64 <= 7 * p.radius() as u64 / 10);
        assert_ne!(c.color(), p.color());
        let room = (p.radius() - c.radius()) as u128;
        assert!(distance_squared(c.center(), p.center()) <= room * room);
        for other in pads[i + 1..].iter() {
            assert!(!c.overlaps(other));
            assert!(!other.overlaps(c));
        }
        check_tree(c);
    }
}

fn count(p: &Nenuphar) -> usize {
    1 + p.nested().iter().map(count).sum::<usize>()
}

fn preorder(p: &Nenuphar, out: &mut Vec<Circle>) {
    out.push(Circle { center: p.center(), radius: p.apparent_radius(), color: p.color().to_rgba() });
    for c in p.nested().iter() {
        preorder(c, out);
    }
}

fn snapshot(p: &Nenuphar, out: &mut Vec<(Point, u32, u32, NenupharState, u64, usize)>) {
    out.push((p.center(), p.radius(), p.apparent_radius(), p.state(), p.lifetime(), p.nested().len()));
    for c in p.nested().iter() {
        snapshot(c, out);
    }
}

#[test]
fn constants_of_the_rules() {
    assert_eq!(MIN_PARENT_RADIUS, 20);
    assert_eq!(MIN_CHILD_RADIUS, 10);
    assert_eq!(GROWTH_PERIOD_MS, 6);
    assert_eq!(LIFETIME_PER_RADIUS_MS, 300);
}

#[test]
fn with_color_makes_a_fresh_pad() {
    let p = Nenuphar::with_color(Point { x: 3, y: -4 }, 50, Palette::Two);
    assert_eq!(p.color(), Palette::Two);
    assert_eq!(p.center(), Point { x: 3, y: -4 });
    assert_eq!(p.radius(), 50);
    assert_eq!(p.apparent_radius(), 0);
    assert_eq!(p.state(), NenupharState::Live);
    assert_eq!(p.lifetime(), 0);
    assert!(p.nested().is_empty());
}

#[test]
fn new_takes_another_colour_than_the_parent() {
    for parent in [Palette::One, Palette::Two, Palette::Three, Palette::Four, Palette::Five] {
        for _ in 0..200 {
            let p = Nenuphar::new(Point { x: 1, y: 2 }, 30, &parent);
            assert_ne!(p.color(), parent);
            assert_eq!(p.center(), Point { x: 1, y: 2 });
            assert_eq!(p.radius(), 30);
            assert_eq!(p.apparent_radius(), 0);
            assert_eq!(p.state(), NenupharState::Live);
            assert_eq!(p.lifetime(), 0);
            assert!(p.nested().is_empty());
        }
    }
}

#[test]
fn overlaps_goes_by_the_target_radius() {
    let a = pad(0, 0, 20);
    let b = pad(10, 0, 20);
    let c = pad(40, 0, 20);
    assert_eq!(a.apparent_radius(), 0);
    assert!(a.overlaps(&b));
    assert!(b.overlaps(&a));
    assert!(!a.overlaps(&c));
    assert!(!c.overlaps(&a));
    assert!(b.overlaps(&c));
    assert!(a.overlaps(&a));
}

#[test]
fn live_pad_grows_one_unit_every_six_milliseconds() {
    let mut p = pad(0, 0, 15);
    p.update(5);
    assert_eq!(p.apparent_radius(), 0);
    p.update(6);
    assert_eq!(p.apparent_radius(), 1);
    p.update(16);
    assert_eq!(p.apparent_radius(), 3);
    p.update(59);
    assert_eq!(p.apparent_radius(), 12);
    p.update(17);
    assert_eq!(p.apparent_radius(), 14);
    p.update(1000);
    assert_eq!(p.apparent_radius(), 15);
    p.update(1000);
    assert_eq!(p.apparent_radius(), 15);
    assert_eq!(p.state(), NenupharState::Live);
    assert_eq!(p.lifetime(), 5 + 6 + 16 + 59 + 17 + 2000);
}

#[test]
fn live_pad_never_shrinks_nor_outgrows_its_radius() {
    let mut p = pad(0, 0, 100);
    let mut last = 0;
    for tick in 0..400u64 {
        p.update(tick % 40);
        if p.state() != NenupharState::Live {
            break;
        }
        assert!(p.apparent_radius() >= last);
        assert!(p.apparent_radius() <= 100);
        last = p.apparent_radius();
    }
    assert_eq!(last, 100);
}

#[test]
fn huge_tick_grows_to_the_radius_and_no_further() {
    let mut p = pad(0, 0, 15);
    p.update(u64::MAX);
    assert_eq!(p.apparent_radius(), 15);
    assert_eq!(p.lifetime(), u64::MAX);
    assert_eq!(p.state(), NenupharState::Dying);
    p.update(u64::MAX);
    assert_eq!(p.lifetime(), u64::MAX);
    assert_eq!(p.apparent_radius(), 14);
}

#[test]
fn pad_of_radius_100_starts_to_die_beyond_30000_ms() {
    let mut p = pad(0, 0, 100);
    for _ in 0..30 {
        p.update(1000);
        assert_eq!(p.state(), NenupharState::Live);
    }
    assert_eq!(p.lifetime(), 30000);
    assert_eq!(p.state(), NenupharState::Live);
    p.update(0);
    assert_eq!(p.state(), NenupharState::Live);
    p.update(1);
    assert_eq!(p.lifetime(), 30001);
    assert_eq!(p.state(), NenupharState::Dying);
}

#[test]
fn pad_of_radius_100_dies_on_the_tick_that_passes_the_span() {
    let mut p = pad(0, 0, 100);
    p.update(29999);
    assert_eq!(p.state(), NenupharState::Live);
    p.update(2);
    assert_eq!(p.lifetime(), 30001);
    assert_eq!(p.state(), NenupharState::Dying);
    assert_eq!(p.apparent_radius(), 100);
}

#[test]
fn dying_pad_shrinks_by_one_until_it_is_dead() {
    let mut p = pad(0, 0, 15);
    p.update(4500);
    assert_eq!(p.state(), NenupharState::Live);
    assert_eq!(p.apparent_radius(), 15);
    p.update(1);
    assert_eq!(p.state(), NenupharState::Dying);
    assert_eq!(p.apparent_radius(), 15);
    for left in (0..15u32).rev() {
        p.update(if left % 2 == 0 { 1 } else { 5000 });
        assert_eq!(p.state(), NenupharState::Dying);
        assert_eq!(p.apparent_radius(), left);
    }
    p.update(16);
    assert_eq!(p.state(), NenupharState::Dead);
    assert_eq!(p.apparent_radius(), 0);
}

#[test]
fn dead_pad_stays_as_it_is() {
    let mut p = pad(0, 0, 15);
    p.update(4501);
    for _ in 0..16 {
        p.update(10);
    }
    assert_eq!(p.state(), NenupharState::Dead);
    let lifetime = p.lifetime();
    assert_eq!(lifetime, 4501 + 160);
    for _ in 0..100 {
        p.update(1000);
        assert_eq!(p.state(), NenupharState::Dead);
        assert_eq!(p.apparent_radius(), 0);
        assert_eq!(p.lifetime(), lifetime);
        assert_eq!(p.radius(), 15);
        assert_eq!(p.center(), origin());
        assert_eq!(p.color(), Palette::One);
        assert!(p.nested().is_empty());
    }
}

#[test]
fn pad_of_radius_15_never_carries_anything() {
    let mut p = pad(0, 0, 15);
    for _ in 0..2000 {
        p.update(3);
        p.pop_inner();
        assert!(p.nested().is_empty());
    }
    let mut q = pad(0, 0, 19);
    for _ in 0..2000 {
        q.update(3);
        q.pop_inner();
        assert!(q.nested().is_empty());
    }
}

#[test]
fn pad_of_radius_20_takes_a_first_pad_at_once() {
    for _ in 0..200 {
        let mut p = pad(0, 0, 20);
        p.pop_inner();
        assert_eq!(p.nested().len(), 1);
        let c = &p.nested()[0];
        assert!(10 <= c.radius() && c.radius() <= 14);
        assert_ne!(c.color(), Palette::One);
        assert_eq!(c.state(), NenupharState::Live);
        assert_eq!(c.apparent_radius(), 0);
        assert_eq!(c.lifetime(), 0);
        assert!(c.nested().is_empty());
        check_tree(&p);
    }
}

#[test]
fn update_of_a_live_pad_makes_one_attempt() {
    let mut p = pad(0, 0, 100);
    p.update(16);
    assert_eq!(p.nested().len(), 1);
    let mut before = 1;
    for _ in 0..300 {
        p.update(16);
        let now = p.nested().len();
        assert!(now == before || now == before + 1);
        before = now;
        check_tree(&p);
    }
}

#[test]
fn place_child_puts_the_pad_where_the_polar_point_is() {
    let mut p = Nenuphar::with_color(Point { x: 100, y: -50 }, 100, Palette::One);
    assert!(p.place_child(20, 10, 0, Palette::Two));
    assert!(p.place_child(10, 80, 90, Palette::Three));
    assert!(p.place_child(15, 60, 210, Palette::Five));
    let pads = p.nested();
    assert_eq!(pads.len(), 3);
    assert_eq!(pads[0].center(), Point { x: 110, y: -50 });
    assert_eq!(pads[0].radius(), 20);
    assert_eq!(pads[0].color(), Palette::Two);
    assert_eq!(pads[1].center(), Point { x: 100, y: 30 });
    assert_eq!(pads[1].radius(), 10);
    assert_eq!(pads[1].color(), Palette::Three);
    assert_eq!(pads[2].center(), Point { x: 100 - 51, y: -50 - 30 });
    assert_eq!(pads[2].radius(), 15);
    assert_eq!(pads[2].color(), Palette::Five);
    for c in pads.iter() {
        assert_eq!(c.state(), NenupharState::Live);
        assert_eq!(c.apparent_radius(), 0);
        assert_eq!(c.lifetime(), 0);
        assert!(c.nested().is_empty());
    }
    check_tree(&p);
}

#[test]
fn candidate_ten_units_from_a_pad_of_radius_20_is_rejected() {
    let mut p = pad(0, 0, 100);
    assert!(p.place_child(20, 10, 0, Palette::Two));
    assert_eq!(p.nested().len(), 1);
    assert!(!p.place_child(20, 20, 0, Palette::Three));
    assert_eq!(p.nested().len(), 1);
    assert_eq!(p.nested()[0].center(), Point { x: 10, y: 0 });
    assert_eq!(p.nested()[0].color(), Palette::Two);
    assert_eq!(p.apparent_radius(), 0);
    assert_eq!(p.lifetime(), 0);
    assert_eq!(p.state(), NenupharState::Live);
}

#[test]
fn candidate_that_touches_is_taken_in() {
    let mut p = pad(0, 0, 100);
    assert!(p.place_child(20, 10, 0, Palette::Two));
    assert!(!p.place_child(20, 49, 0, Palette::Two));
    assert!(p.place_child(20, 50, 0, Palette::Two));
    assert!(p.place_child(20, 60, 180, Palette::Four));
    assert_eq!(p.nested().len(), 3);
    check_tree(&p);
}

#[test]
fn pads_inside_a_dying_pad_stop() {
    let mut p = pad(0, 0, 60);
    while p.state() == NenupharState::Live {
        p.update(16);
    }
    assert_eq!(p.state(), NenupharState::Dying);
    assert!(!p.nested().is_empty());
    let mut before = Vec::new();
    for c in p.nested().iter() {
        snapshot(c, &mut before);
    }
    for _ in 0..100 {
        p.update(16);
        let mut after = Vec::new();
        for c in p.nested().iter() {
            snapshot(c, &mut after);
        }
        assert_eq!(before, after);
    }
    assert_eq!(p.state(), NenupharState::Dead);
    check_tree(&p);
}

#[test]
fn pads_inside_a_live_pad_go_through_the_tick() {
    let mut p = pad(0, 0, 100);
    assert!(p.place_child(20, 10, 0, Palette::Two));
    p.update(60);
    assert_eq!(p.apparent_radius(), 10);
    assert_eq!(p.nested()[0].apparent_radius(), 10);
    assert_eq!(p.nested()[0].lifetime(), 60);
    assert_eq!(p.nested()[0].nested().len(), 1);
    p.update(6000);
    assert_eq!(p.nested()[0].apparent_radius(), 20);
    assert_eq!(p.nested()[0].state(), NenupharState::Dying);
    assert_eq!(p.state(), NenupharState::Live);
    check_tree(&p);
}

#[test]
fn tree_keeps_its_rules_through_a_long_run() {
    let mut p = pad(0, 0, 200);
    let mut pads = 1;
    for tick in 0..1500u64 {
        p.update(10 + tick % 13);
        let now = count(&p);
        assert!(now >= pads);
        pads = now;
        if tick % 50 == 0 {
            check_tree(&p);
        }
    }
    check_tree(&p);
    assert!(pads > 3);
}

#[test]
fn draw_gives_the_pad_and_then_what_it_carries() {
    let mut p = Nenuphar::with_color(origin(), 100, Palette::Four);
    assert!(p.place_child(20, 10, 0, Palette::Two));
    assert!(p.place_child(10, 80, 90, Palette::Three));
    p.update(0);
    let mut surface = Vec::new();
    p.draw(&mut surface);
    assert_eq!(surface[0], Circle { center: origin(), radius: 0, color: Palette::Four.to_rgba() });
    assert_eq!(
        surface[1],
        Circle { center: Point { x: 10, y: 0 }, radius: 0, color: Palette::Two.to_rgba() }
    );
    let mut expected = Vec::new();
    preorder(&p, &mut expected);
    assert_eq!(surface, expected);
    assert_eq!(surface.len(), count(&p));
}

#[test]
fn draw_appends_and_leaves_out_no_pad() {
    let mut p = pad(0, 0, 150);
    for _ in 0..600 {
        p.update(16);
    }
    let first = Circle { center: Point { x: 9, y: 9 }, radius: 9, color: Palette::One.to_rgba() };
    let mut surface = vec![first];
    p.draw(&mut surface);
    let mut expected = vec![first];
    preorder(&p, &mut expected);
    assert_eq!(surface, expected);
    assert_eq!(surface.len(), 1 + count(&p));
    assert_eq!(surface[1].radius, p.apparent_radius());
    assert_eq!(surface[1].color, Palette::One.to_rgba());
}

#[test]
fn draw_shows_dead_pads_that_are_carried() {
    let mut p = pad(0, 0, 100);
    assert!(p.place_child(10, 50, 0, Palette::Two));
    for _ in 0..1200 {
        p.update(16);
    }
    assert_eq!(p.state(), NenupharState::Live);
    assert_eq!(p.nested()[0].state(), NenupharState::Dead);
    let mut surface = Vec::new();
    p.draw(&mut surface);
    assert_eq!(surface.len(), count(&p));
    assert_eq!(
        surface[1],
        Circle { center: Point { x: 50, y: 0 }, radius: 0, color: Palette::Two.to_rgba() }
    );
}
