use nenuphars::chance::{draw_between, draw_coordinate};
use nenuphars::palette::{Palette, Rgba, COLOR_RETRIES, PALETTE_SIZE};

const ALL: [Palette; 5] = [
    Palette::One,
    Palette::Two,
    Palette::Three,
    Palette::Four,
    Palette::Five,
];

#[test]
fn palette_has_five_colours() {
    assert_eq!(PALETTE_SIZE, 5);
    assert!(COLOR_RETRIES >= 1);
}

#[test]
fn to_rgba_gives_the_fixed_channels() {
    assert_eq!(Palette::One.to_rgba(), Rgba { red: 74, green: 78, blue: 77, alpha: 255 });
    assert_eq!(Palette::Two.to_rgba(), Rgba { red: 14, green: 154, blue: 167, alpha: 255 });
    assert_eq!(Palette::Three.to_rgba(), Rgba { red: 61, green: 164, blue: 171, alpha: 255 });
    assert_eq!(Palette::Four.to_rgba(), Rgba { red: 246, green: 205, blue: 97, alpha: 255 });
    assert_eq!(Palette::Five.to_rgba(), Rgba { red: 254, green: 138, blue: 113, alpha: 255 });
}

#[test]
fn from_index_follows_the_enumeration() {
    assert_eq!(Palette::from_index(0), Palette::One);
    assert_eq!(Palette::from_index(1), Palette::Two);
    assert_eq!(Palette::from_index(2), Palette::Three);
    assert_eq!(Palette::from_index(3), Palette::Four);
    assert_eq!(Palette::from_index(4), Palette::Five);
}

#[test]
fn next_goes_round_the_enumeration() {
    assert_eq!(Palette::One.next(), Palette::Two);
    assert_eq!(Palette::Two.next(), Palette::Three);
    assert_eq!(Palette::Three.next(), Palette::Four);
    assert_eq!(Palette::Four.next(), Palette::Five);
    assert_eq!(Palette::Five.next(), Palette::One);
}

#[test]
fn random_except_never_gives_the_colour_back() {
    for current in ALL.iter() {
        for _ in 0..2000 {
            assert_ne!(current.random_except(), *current);
        }
    }
}

#[test]
fn random_except_reaches_every_other_colour() {
    let mut seen = [false; 5];
    for _ in 0..2000 {
        let c = Palette::Three.random_except();
        for (i, colour) in ALL.iter().enumerate() {
            if *colour == c {
                seen[i] = true;
            }
        }
    }
    assert_eq!(seen, [true, true, false, true, true]);
}

#[test]
fn random_reaches_every_colour() {
    let mut seen = [false; 5];
    for _ in 0..2000 {
        let c = Palette::random();
        for (i, colour) in ALL.iter().enumerate() {
            if *colour == c {
                seen[i] = true;
            }
        }
    }
    assert_eq!(seen, [true; 5]);
}

#[test]
fn draw_between_stays_in_the_closed_range() {
    let mut low_seen = false;
    let mut high_seen = false;
    for _ in 0..2000 {
        let r = draw_between(10, 14);
        assert!(10 <= r && r <= 14);
        low_seen = low_seen || r == 10;
        high_seen = high_seen || r == 14;
    }
    assert!(low_seen);
    assert!(high_seen);
}

#[test]
fn draw_between_of_one_value_gives_it() {
    for _ in 0..50 {
        assert_eq!(draw_between(20, 20), 20);
        assert_eq!(draw_between(u32::MAX, u32::MAX), u32::MAX);
        assert_eq!(draw_coordinate(-7, -7), -7);
        assert_eq!(draw_coordinate(i32::MAX, i32::MAX), i32::MAX);
    }
}

#[test]
fn draw_coordinate_stays_in_the_closed_range() {
    let mut negative = false;
    let mut positive = false;
    for _ in 0..2000 {
        let r = draw_coordinate(-400, 400);
        assert!(-400 <= r && r <= 400);
        negative = negative || r < 0;
        positive = positive || r > 0;
    }
    assert!(negative);
    assert!(positive);
}

#[test]
fn draw_coordinate_covers_the_whole_range_of_the_type() {
    for _ in 0..200 {
        let r = draw_coordinate(i32::MIN, i32::MAX);
        assert!(i32::MIN <= r && r <= i32::MAX);
    }
}
