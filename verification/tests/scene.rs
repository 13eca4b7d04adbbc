use solar_raster::cuerpo::{
    create_solar_system, BodyKind, Cuerpo, Vector3, BODY_COUNT, MAX_SPIN, MIN_SPIN, ORBITAL_SPEED,
    TAU,
};
use solar_raster::noise::{
    create_cloud_noise, create_noise, create_plant1_noise, create_plant2_noise,
    create_plant3_noise, create_rock_noise, create_sun_noise, create_water_noise, FractalType,
    NoiseConfig, NoiseType,
};
use solar_raster::stars::generate_stars;
use solar_raster::visibility::{
    is_drawn, is_in_camera, is_too_close, ClipPoint, DISAPPEARANCE_BUFFER,
};

fn place(x: f64, y: f64, z: f64) -> Vector3 {
    Vector3 {
        x: (x * 1_000_000.0).round() as i32,
        y: (y * 1_000_000.0).round() as i32,
        z: (z * 1_000_000.0).round() as i32,
    }
}

/// Where a body is in the world at an angle of its orbit.
fn on_orbit(radius: i32, angle: i64) -> (f64, f64, f64) {
    let r = radius as f64 / 1_000_000.0;
    let theta = angle as f64 / 1_000_000.0;
    (r * theta.cos(), 0.0, r * theta.sin())
}

#[test]
fn kinds_stand_in_the_order_of_the_scene() {
    let kinds = [
        BodyKind::Sun,
        BodyKind::Lava,
        BodyKind::Alien,
        BodyKind::Earth,
        BodyKind::Water,
        BodyKind::GasGiant,
        BodyKind::Rock,
    ];
    assert_eq!(BODY_COUNT, 7);
    for (i, kind) in kinds.iter().enumerate() {
        assert_eq!(BodyKind::from_index(i), *kind);
        assert_eq!(kind.index(), i);
    }
    assert_eq!(BodyKind::from_index(7), BodyKind::Rock);
    assert_eq!(BodyKind::from_index(usize::MAX), BodyKind::Rock);
}

#[test]
fn bodies_are_as_catalogued() {
    let table = [
        (BodyKind::Sun, "Sol", 1_000_000, 0, "assets/models/cuerpo2.obj"),
        (BodyKind::Lava, "Volcanis", 300_000, 2_000_000, "assets/models/cuerpo2.obj"),
        (BodyKind::Alien, "Morveth", 400_000, 3_000_000, "assets/models/cuerpo2.obj"),
        (BodyKind::Earth, "GaiaNova", 400_000, 4_000_000, "assets/models/cuerpo2.obj"),
        (BodyKind::Water, "Aquarion", 300_000, 5_000_000, "assets/models/cuerpo2.obj"),
        (BodyKind::GasGiant, "Stratos", 800_000, 7_000_000, "assets/models/saturno2.obj"),
        (BodyKind::Rock, "KratonV", 90_000, 8_000_000, "assets/models/asteroide.obj"),
    ];
    for (kind, name, scale, orbit_radius, mesh) in table {
        let body = Cuerpo::new(kind, 123, 456);
        assert_eq!(body.kind, kind);
        assert_eq!(body.name, name);
        assert_eq!(body.scale, scale);
        assert_eq!(body.orbit_radius, orbit_radius);
        assert_eq!(body.mesh, mesh);
        assert_eq!(body.rotation, Vector3 { x: 0, y: 0, z: 0 });
        assert_eq!(body.phase_offset, 123);
        assert_eq!(body.rotation_speed, 456);
        assert!(body.scale > 0 && body.orbit_radius >= 0);
    }
    assert_eq!(Cuerpo::new(BodyKind::Sun, 0, 0).translation, place(2.0, 0.0, -5.0));
    assert_eq!(Cuerpo::new(BodyKind::Earth, 0, 0).translation, place(4.0, 0.0, -8.0));
}

#[test]
fn solar_system_has_the_sun_and_six_planets() {
    let bodies = create_solar_system();
    assert_eq!(bodies.len(), 7);
    let names: Vec<&str> = bodies.iter().map(|b| b.name.as_str()).collect();
    assert_eq!(
        names,
        vec!["Sol", "Volcanis", "Morveth", "GaiaNova", "Aquarion", "Stratos", "KratonV"]
    );
    for (i, body) in bodies.iter().enumerate() {
        let catalogued = Cuerpo::new(BodyKind::from_index(i), 0, 0);
        assert_eq!(body.kind, catalogued.kind);
        assert_eq!(body.scale, catalogued.scale);
        assert_eq!(body.orbit_radius, catalogued.orbit_radius);
        assert_eq!(body.mesh, catalogued.mesh);
        assert_eq!(body.translation, catalogued.translation);
        assert_eq!(body.rotation, catalogued.rotation);
    }
}

#[test]
fn solar_system_draws_phases_and_spins_within_their_ranges() {
    let mut phases = Vec::new();
    let mut spins = Vec::new();
    for _ in 0..40 {
        let bodies = create_solar_system();
        assert_eq!(bodies[0].rotation_speed, 0);
        for (i, body) in bodies.iter().enumerate() {
            assert!(0 <= body.phase_offset && body.phase_offset < TAU);
            if i > 0 {
                assert!(MIN_SPIN <= body.rotation_speed && body.rotation_speed < MAX_SPIN);
                spins.push(body.rotation_speed);
            }
            phases.push(body.phase_offset);
        }
    }
    phases.sort();
    phases.dedup();
    assert!(phases.len() > 200);
    spins.sort();
    spins.dedup();
    assert!(spins.len() > 100);
    assert!(*spins.first().unwrap() < 20_000);
    assert!(*spins.last().unwrap() > 40_000);
    assert!(*phases.first().unwrap() < 1_000_000);
    assert!(*phases.last().unwrap() > 5_000_000);
}

#[test]
fn constants_of_the_scene() {
    assert_eq!(TAU, 6_283_185);
    assert!((TAU as f64 / 1_000_000.0 - std::f64::consts::TAU).abs() < 0.000_001);
    assert!(TAU as f64 / 1_000_000.0 <= std::f64::consts::TAU);
    assert_eq!(ORBITAL_SPEED, 10_000);
    assert_eq!(MIN_SPIN, 10_000);
    assert_eq!(MAX_SPIN, 50_000);
    assert_eq!(DISAPPEARANCE_BUFFER, 5_000_000);
}

#[test]
fn body_starts_on_the_first_axis_of_its_orbit() {
    let body = Cuerpo::new(BodyKind::Water, 0, 20_000);
    assert_eq!(body.orbit_radius, 5_000_000);
    assert_eq!(body.orbit_angle(0), 0);
    assert_eq!(on_orbit(body.orbit_radius, body.orbit_angle(0)), (5.0, 0.0, 0.0));
}

#[test]
fn body_is_on_the_third_axis_after_a_quarter_turn() {
    let quarter = Cuerpo::new(BodyKind::Water, 1_570_796, 0);
    let (x, y, z) = on_orbit(quarter.orbit_radius, quarter.orbit_angle(0));
    assert!(x.abs() < 0.000_01);
    assert_eq!(y, 0.0);
    assert!((z - 5.0).abs() < 0.000_01);

    let body = Cuerpo::new(BodyKind::Water, 796, 0);
    assert_eq!(body.orbit_angle(157), 1_570_796);
    let (x, _, z) = on_orbit(body.orbit_radius, body.orbit_angle(157));
    assert!(x.abs() < 0.000_01);
    assert!((z - 5.0).abs() < 0.000_01);
}

#[test]
fn orbit_angle_grows_by_the_orbital_speed() {
    let body = Cuerpo::new(BodyKind::Lava, 250_000, 30_000);
    assert_eq!(body.orbit_angle(0), 250_000);
    assert_eq!(body.orbit_angle(1), 260_000);
    assert_eq!(body.orbit_angle(100), 1_250_000);
    assert_eq!(body.orbit_angle(u32::MAX), 42_949_672_950_000 + 250_000);
    let back = Cuerpo::new(BodyKind::Lava, -250_000, 0);
    assert_eq!(back.orbit_angle(3), -220_000);
}

#[test]
fn spin_angle_grows_by_the_rotation_speed() {
    let body = Cuerpo::new(BodyKind::Lava, 250_000, 30_000);
    assert_eq!(body.spin_angle(0), 0);
    assert_eq!(body.spin_angle(1), 30_000);
    assert_eq!(body.spin_angle(1000), 30_000_000);
    let sun = Cuerpo::new(BodyKind::Sun, 0, 0);
    assert_eq!(sun.spin_angle(u32::MAX), 0);
    let extreme = Cuerpo::new(BodyKind::Rock, 0, i32::MIN);
    assert_eq!(extreme.spin_angle(u32::MAX), -(u32::MAX as i64) * 2_147_483_648);
    let other = Cuerpo::new(BodyKind::Rock, 0, i32::MAX);
    assert_eq!(other.spin_angle(u32::MAX), (u32::MAX as i64) * 2_147_483_647);
}

#[test]
fn noise_presets_are_as_tabled() {
    assert_eq!(
        create_cloud_noise(),
        NoiseConfig {
            seed: 12345,
            noise_type: NoiseType::OpenSimplex2,
            fractal_type: FractalType::FBm,
            octaves: None,
            frequency: 5_000,
            gain: Some(500_000),
            lacunarity: None,
        }
    );
    assert_eq!(
        create_water_noise(),
        NoiseConfig {
            seed: 34526,
            noise_type: NoiseType::Cellular,
            fractal_type: FractalType::FBm,
            octaves: Some(2),
            frequency: 100_000,
            gain: None,
            lacunarity: None,
        }
    );
    assert_eq!(
        create_rock_noise(),
        NoiseConfig {
            seed: 12345,
            noise_type: NoiseType::Cellular,
            fractal_type: FractalType::FBm,
            octaves: None,
            frequency: 100_000,
            gain: None,
            lacunarity: None,
        }
    );
    assert_eq!(
        create_sun_noise(),
        NoiseConfig {
            seed: 12345,
            noise_type: NoiseType::OpenSimplex2,
            fractal_type: FractalType::Ridged,
            octaves: Some(1),
            frequency: 64_000,
            gain: Some(800_000),
            lacunarity: Some(2_490_000),
        }
    );
    assert_eq!(
        create_plant1_noise(),
        NoiseConfig {
            seed: 121,
            noise_type: NoiseType::Perlin,
            fractal_type: FractalType::PingPong,
            octaves: Some(2),
            frequency: 15_000,
            gain: Some(800_000),
            lacunarity: Some(2_490_000),
        }
    );
    assert_eq!(
        create_plant2_noise(),
        NoiseConfig {
            seed: 111,
            noise_type: NoiseType::OpenSimplex2,
            fractal_type: FractalType::PingPong,
            octaves: Some(2),
            frequency: 40_000,
            gain: Some(800_000),
            lacunarity: Some(6_270_000),
        }
    );
    assert_eq!(
        create_plant3_noise(),
        NoiseConfig {
            seed: 92,
            noise_type: NoiseType::Cellular,
            fractal_type: FractalType::Ridged,
            octaves: Some(1),
            frequency: 13_000,
            gain: Some(800_000),
            lacunarity: Some(6_270_000),
        }
    );
}

#[test]
fn create_noise_picks_the_preset_of_the_body() {
    assert_eq!(create_noise(0), create_sun_noise());
    assert_eq!(create_noise(1), create_plant3_noise());
    assert_eq!(create_noise(2), create_plant1_noise());
    assert_eq!(create_noise(3), create_cloud_noise());
    assert_eq!(create_noise(4), create_water_noise());
    assert_eq!(create_noise(5), create_plant2_noise());
    assert_eq!(create_noise(6), create_rock_noise());
    assert_eq!(create_noise(7), create_rock_noise());
    assert_eq!(create_noise(usize::MAX), create_rock_noise());
}

#[test]
fn noise_presets_can_make_a_field() {
    for index in 0..8 {
        let config = create_noise(index);
        assert!(config.frequency > 0);
        assert!(config.octaves.map_or(true, |n| n >= 1));
        assert!(config.gain.map_or(true, |g| g >= 0));
        assert!(config.lacunarity.map_or(true, |l| l > 0));
    }
}

#[test]
fn stars_lie_on_the_frame() {
    let stars = generate_stars(500, 800, 600);
    assert_eq!(stars.len(), 500);
    for (x, y) in &stars {
        assert!(*x < 800);
        assert!(*y < 600);
    }
}

#[test]
fn stars_are_scattered() {
    let stars = generate_stars(500, 800, 600);
    let mut columns: Vec<usize> = stars.iter().map(|s| s.0).collect();
    columns.sort();
    columns.dedup();
    assert!(columns.len() > 100);
    let mut rows: Vec<usize> = stars.iter().map(|s| s.1).collect();
    rows.sort();
    rows.dedup();
    assert!(rows.len() > 100);
    assert!(stars.iter().any(|s| s.0 > 0));
    assert!(stars.iter().any(|s| s.1 > 0));
}

#[test]
fn stars_on_a_single_pixel_all_share_it() {
    let stars = generate_stars(20, 1, 1);
    assert_eq!(stars, vec![(0, 0); 20]);
}

#[test]
fn no_stars_where_there_is_no_frame_or_none_are_asked_for() {
    assert!(generate_stars(0, 800, 600).is_empty());
    assert!(generate_stars(500, 0, 600).is_empty());
    assert!(generate_stars(500, 800, 0).is_empty());
}

#[test]
fn body_too_close_to_the_eye_is_not_drawn() {
    let eye = place(0.0, 0.0, 20.0);
    let in_view = ClipPoint { x: 0, y: 0, z: 1, w: 2 };
    // 5.2 away from a body of size 0.3: nearer than 5.3.
    let near = place(0.0, 0.0, 14.8);
    assert!(is_too_close(&eye, &near, 300_000, DISAPPEARANCE_BUFFER));
    assert!(!is_drawn(&eye, &near, 300_000, &in_view));
    // 5.4 away: drawn.
    let far = place(0.0, 0.0, 14.6);
    assert!(!is_too_close(&eye, &far, 300_000, DISAPPEARANCE_BUFFER));
    assert!(is_drawn(&eye, &far, 300_000, &in_view));
}

#[test]
fn body_at_exactly_the_limit_is_not_drawn() {
    let eye = place(0.0, 0.0, 20.0);
    let in_view = ClipPoint { x: 0, y: 0, z: 1, w: 2 };
    let at_limit = place(0.0, 0.0, 14.7);
    assert!(is_too_close(&eye, &at_limit, 300_000, DISAPPEARANCE_BUFFER));
    assert!(!is_drawn(&eye, &at_limit, 300_000, &in_view));
    let just_beyond = Vector3 { x: 0, y: 0, z: 14_699_999 };
    assert!(!is_too_close(&eye, &just_beyond, 300_000, DISAPPEARANCE_BUFFER));
    assert!(is_drawn(&eye, &just_beyond, 300_000, &in_view));
}

#[test]
fn distance_is_taken_in_all_three_directions() {
    let eye = place(1.0, 2.0, 3.0);
    // (3, 4, 12) away: 13 in all.
    let body = place(4.0, 6.0, 15.0);
    assert!(is_too_close(&eye, &body, 8_000_000, 5_000_000));
    assert!(!is_too_close(&eye, &body, 7_999_999, 5_000_000));
    assert!(is_too_close(&body, &eye, 8_000_000, 5_000_000));
    assert!(is_too_close(&eye, &eye, 0, 0));
    assert!(!is_too_close(&eye, &eye, -1, 0));
    let low = Vector3 { x: i32::MIN, y: i32::MIN, z: i32::MIN };
    let high = Vector3 { x: i32::MAX, y: i32::MAX, z: i32::MAX };
    assert!(!is_too_close(&low, &high, i32::MAX, i32::MAX));
    assert!(is_too_close(&low, &low, i32::MAX, i32::MAX));
}

#[test]
fn body_out_of_view_is_not_drawn() {
    let eye = place(0.0, 0.0, 20.0);
    let body = place(5.0, 0.0, 0.0);
    assert!(is_drawn(&eye, &body, 300_000, &ClipPoint { x: 1, y: -2, z: 1, w: 2 }));
    assert!(!is_drawn(&eye, &body, 300_000, &ClipPoint { x: 3, y: 0, z: 1, w: 2 }));
    assert!(!is_drawn(&eye, &body, 300_000, &ClipPoint { x: 0, y: 0, z: -1, w: 2 }));
}

#[test]
fn frustum_holds_what_divides_into_its_ranges() {
    assert!(is_in_camera(&ClipPoint { x: 0, y: 0, z: 0, w: 1 }));
    assert!(is_in_camera(&ClipPoint { x: 5, y: -5, z: 5, w: 5 }));
    assert!(is_in_camera(&ClipPoint { x: -5, y: 5, z: 0, w: 5 }));
    assert!(!is_in_camera(&ClipPoint { x: 6, y: 0, z: 1, w: 5 }));
    assert!(!is_in_camera(&ClipPoint { x: -6, y: 0, z: 1, w: 5 }));
    assert!(!is_in_camera(&ClipPoint { x: 0, y: 6, z: 1, w: 5 }));
    assert!(!is_in_camera(&ClipPoint { x: 0, y: -6, z: 1, w: 5 }));
    assert!(!is_in_camera(&ClipPoint { x: 0, y: 0, z: 6, w: 5 }));
    assert!(!is_in_camera(&ClipPoint { x: 0, y: 0, z: -1, w: 5 }));
}

#[test]
fn frustum_divides_by_a_negative_w_as_well() {
    assert!(is_in_camera(&ClipPoint { x: 1, y: -1, z: -1, w: -2 }));
    assert!(is_in_camera(&ClipPoint { x: 2, y: 2, z: -2, w: -2 }));
    assert!(!is_in_camera(&ClipPoint { x: 1, y: -1, z: 1, w: -2 }));
    assert!(!is_in_camera(&ClipPoint { x: 3, y: 0, z: -1, w: -2 }));
    assert!(is_in_camera(&ClipPoint { x: 0, y: 0, z: 0, w: -2 }));
}

#[test]
fn frustum_holds_nothing_at_w_zero() {
    assert!(!is_in_camera(&ClipPoint { x: 0, y: 0, z: 0, w: 0 }));
    assert!(!is_in_camera(&ClipPoint { x: 1, y: 0, z: 0, w: 0 }));
}

#[test]
fn frustum_takes_the_largest_coordinates() {
    assert!(is_in_camera(&ClipPoint { x: i64::MIN, y: i64::MIN, z: i64::MIN, w: i64::MIN }));
    assert!(is_in_camera(&ClipPoint { x: i64::MAX, y: i64::MAX, z: i64::MAX, w: i64::MAX }));
    assert!(!is_in_camera(&ClipPoint { x: i64::MIN, y: 0, z: 0, w: i64::MAX }));
    assert!(is_in_camera(&ClipPoint { x: i64::MAX, y: 0, z: 0, w: i64::MIN }));
}
