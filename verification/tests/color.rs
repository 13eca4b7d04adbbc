use solar_raster::color::{Color, UNIT};

#[test]
fn lerp_at_zero_is_the_first_colour() {
    let pairs = [
        (Color::new(0, 0, 0), Color::new(255, 255, 255)),
        (Color::new(255, 100, 50), Color::new(0, 3, 200)),
        (Color::new(17, 17, 17), Color::new(17, 17, 17)),
        (Color::new(255, 255, 255), Color::new(0, 0, 0)),
    ];
    for (a, b) in pairs {
        assert_eq!(a.lerp(&b, 0), a);
    }
}

#[test]
fn lerp_at_one_is_the_second_colour() {
    let pairs = [
        (Color::new(0, 0, 0), Color::new(255, 255, 255)),
        (Color::new(255, 100, 50), Color::new(0, 3, 200)),
        (Color::new(17, 17, 17), Color::new(17, 17, 17)),
        (Color::new(255, 255, 255), Color::new(0, 0, 0)),
    ];
    for (a, b) in pairs {
        assert_eq!(a.lerp(&b, UNIT), b);
    }
}

#[test]
fn lerp_endpoints_hold_for_every_channel_value() {
    for v in 0..=255u8 {
        let a = Color::new(v, 255 - v, v / 2);
        let b = Color::new(255 - v, v, 255 - v / 2);
        assert_eq!(a.lerp(&b, 0), a);
        assert_eq!(a.lerp(&b, UNIT), b);
    }
}

#[test]
fn lerp_rounds_halves_up() {
    let black = Color::new(0, 0, 0);
    let white = Color::new(255, 255, 255);
    assert_eq!(black.lerp(&white, 500_000), Color::new(128, 128, 128));
    assert_eq!(white.lerp(&black, 500_000), Color::new(128, 128, 128));
}

#[test]
fn lerp_gives_exact_values_between_the_ends() {
    let a = Color::new(10, 200, 30);
    let b = Color::new(20, 100, 31);
    assert_eq!(a.lerp(&b, 250_000), Color::new(13, 175, 30));
    let c = Color::new(255, 0, 7);
    let d = Color::new(0, 255, 8);
    assert_eq!(c.lerp(&d, 333_333), Color::new(170, 85, 7));
}

#[test]
fn lerp_limits_the_weight_to_its_range() {
    let a = Color::new(12, 34, 56);
    let b = Color::new(200, 100, 0);
    assert_eq!(a.lerp(&b, -1), a);
    assert_eq!(a.lerp(&b, i32::MIN), a);
    assert_eq!(a.lerp(&b, UNIT + 1), b);
    assert_eq!(a.lerp(&b, i32::MAX), b);
}

#[test]
fn lerp_stays_between_its_colours() {
    let a = Color::new(40, 220, 90);
    let b = Color::new(200, 10, 90);
    let mut t = 0;
    while t <= UNIT {
        let c = a.lerp(&b, t);
        assert!(40 <= c.r && c.r <= 200);
        assert!(10 <= c.g && c.g <= 220);
        assert_eq!(c.b, 90);
        t += 12_345;
    }
}

#[test]
fn scale_multiplies_rounds_and_stops_at_white() {
    let c = Color::new(100, 200, 255);
    assert_eq!(c.scale(500_000), Color::new(50, 100, 128));
    assert_eq!(c.scale(1_500_000), Color::new(150, 255, 255));
    assert_eq!(c.scale(UNIT), c);
    assert_eq!(Color::new(1, 2, 3).scale(499_999), Color::new(0, 1, 1));
    assert_eq!(Color::new(1, 2, 3).scale(500_000), Color::new(1, 1, 2));
    assert_eq!(c.scale(i32::MAX), Color::new(255, 255, 255));
}

#[test]
fn scale_by_nothing_or_less_is_black() {
    let c = Color::new(10, 20, 30);
    assert_eq!(c.scale(0), Color::black());
    assert_eq!(c.scale(-5), Color::black());
    assert_eq!(c.scale(i32::MIN), Color::black());
}

#[test]
fn saturating_add_stops_at_white() {
    let a = Color::new(200, 100, 0);
    let b = Color::new(100, 100, 255);
    assert_eq!(a.saturating_add(&b), Color::new(255, 200, 255));
    assert_eq!(a.saturating_add(&Color::black()), a);
}

#[test]
fn hex_packs_red_green_blue() {
    assert_eq!(Color::new(0x12, 0x34, 0x56).to_hex(), 0x123456);
    assert_eq!(Color::new(255, 255, 255).to_hex(), 0xff_ffff);
    assert_eq!(Color::black().to_hex(), 0);
    assert_eq!(Color::from_hex(0x123456), Color::new(0x12, 0x34, 0x56));
    assert_eq!(Color::from_hex(0xab12_3456), Color::new(0x12, 0x34, 0x56));
}

#[test]
fn hex_round_trip_gives_the_colour_back() {
    for v in 0..=255u8 {
        let c = Color::new(v, v.wrapping_mul(7), 255 - v);
        assert_eq!(Color::from_hex(c.to_hex()), c);
    }
}
