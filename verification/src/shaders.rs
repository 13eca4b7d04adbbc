//! The fragment shaders: seven ways to turn noise into the colour of a
//! point on a body's surface.
//!
//! A shader reads what was sampled for the fragment and nothing else, so
//! equal samples give equal colours.

use crate::color::{Color, UNIT};
use crate::cuerpo::BodyKind;
use vstd::prelude::*;

verus! {

/// The least share of its colour that a lit surface keeps, however little
/// light falls on it.
pub const INTENSITY_FLOOR: i32 = 200_000;

/// What was sampled for one fragment, every value in millionths. A shader
/// leaves aside the fields it has no use for.
#[derive(Clone, Copy, Debug, PartialEq, Eq, Structural)]
pub struct Samples {
    /// The first value read from the body's noise field, from -1 to 1.
    pub first: i32,
    /// The second value read from the noise field, from -1 to 1.
    pub second: i32,
    /// The third value read from the noise field, from -1 to 1.
    pub third: i32,
    /// How far the point is land rather than sea; below 0.45 is sea.
    pub land: i32,
    /// The height of the point above the body's equator, in model space.
    pub latitude: i32,
    /// The strength of the glow at the point: the inverse of one plus its
    /// distance from the middle of the disc.
    pub glow: i32,
    /// The share of light that reaches the point.
    pub intensity: i32,
}

/// The colour with the given channels.
pub open spec fn rgb(r: u8, g: u8, b: u8) -> Color {
    Color { r, g, b }
}

/// A noise value mapped from the range -1 to 1 onto the range 0 to 1.
/// Values outside the range count as the nearer end of it.
pub open spec fn unit_noise(n: int) -> int {
    if n <= -UNIT {
        0
    } else if n >= UNIT {
        UNIT as int
    } else {
        (n + UNIT) / 2
    }
}

/// The share `num / den` in millionths, rounded down, and limited to the
/// range from 0 to 1.
pub open spec fn ratio(num: int, den: int) -> int {
    if num <= 0 {
        0
    } else if num >= den {
        UNIT as int
    } else {
        num * UNIT / den
    }
}

/// The light on a surface: the intensity, but never less than the floor.
pub open spec fn lit(intensity: int) -> int {
    if intensity < INTENSITY_FLOOR {
        INTENSITY_FLOOR as int
    } else {
        intensity
    }
}

/// The sun: a surface between orange and yellow that brightens with the
/// noise, and a red glow on top that fades away from the middle of the
/// disc. The sun shines by itself, so the light on the fragment plays no
/// part.
pub open spec fn sun_color(s: Samples) -> Color {
    let heat = unit_noise(s.first as int);
    let surface = rgb(255, 100, 50).spec_lerp(rgb(255, 165, 50), heat).spec_lerp(
        rgb(255, 220, 100),
        heat / 2,
    );
    let glow = rgb(255, 50, 0).spec_scale(s.glow as int).spec_scale(600_000);
    surface.spec_saturating_add(glow)
}

/// The lava planet before light: brown rock with streams of lava that are
/// the hotter the more lava noise there is.
pub open spec fn lava_surface(s: Samples) -> Color {
    let crust = unit_noise(s.first as int);
    let lava = unit_noise(s.second as int);
    let rock = rgb(100, 60, 30).spec_lerp(rgb(255, 69, 0), lava * 2 / 5);
    let molten = rgb(255, 69, 0).spec_lerp(rgb(255, 0, 0), lava);
    let cooled = rgb(160, 82, 45).spec_lerp(molten, crust);
    rock.spec_lerp(cooled, crust / 2)
}

/// The alien planet before light: five bands of purple, chosen by the
/// noise.
pub open spec fn alien_surface(s: Samples) -> Color {
    let n = unit_noise(s.first as int);
    if n < 200_000 {
        rgb(30, 10, 40)
    } else if n < 300_000 {
        rgb(110, 60, 160)
    } else if n < 500_000 {
        rgb(130, 90, 190)
    } else if n < 700_000 {
        rgb(150, 110, 210)
    } else {
        rgb(140, 80, 200)
    }
}

/// The ground of the earth-like planet: white caps beyond a latitude of
/// 0.8, and between them sea, beach, lowland and highland by the land
/// factor.
pub open spec fn earth_ground(s: Samples) -> Color {
    let land = s.land as int;
    if s.latitude > 800_000 || s.latitude < -800_000 {
        rgb(255, 255, 255)
    } else if land < 450_000 {
        rgb(0, 70, 130).spec_lerp(rgb(0, 105, 148), ratio(land, 450_000))
    } else if land < 500_000 {
        rgb(0, 105, 148).spec_lerp(rgb(237, 201, 175), ratio(land - 450_000, 50_000))
    } else if land < 800_000 {
        rgb(237, 201, 175).spec_lerp(rgb(34, 139, 34), ratio(land - 500_000, 300_000))
    } else {
        rgb(34, 139, 34).spec_lerp(rgb(85, 170, 85), ratio(land - 800_000, 200_000))
    }
}

/// The earth-like planet before light: its ground, half veiled in white
/// where the noise is above 0.5 and there is a cloud.
pub open spec fn earth_surface(s: Samples) -> Color {
    let ground = earth_ground(s);
    let sky = if s.first > 500_000 {
        rgb(255, 255, 255)
    } else {
        ground
    };
    sky.spec_lerp(ground, 500_000)
}

/// The water planet before light: deep blue that whitens with the waves
/// and is darkened again by the ripples on them.
pub open spec fn water_surface(s: Samples) -> Color {
    let wave = unit_noise(s.first as int);
    let ripple = unit_noise(s.second as int);
    rgb(0, 50, 150).spec_lerp(rgb(255, 255, 255), wave).spec_lerp(rgb(0, 50, 150), ripple / 2)
}

/// The gas giant before light: pale clouds tinted by two layers of gas.
pub open spec fn gas_giant_surface(s: Samples) -> Color {
    let cloud = unit_noise(s.first as int);
    let warm = unit_noise(s.second as int);
    let cold = unit_noise(s.third as int);
    let warm_gas = rgb(200, 150, 50).spec_lerp(rgb(50, 100, 255), warm);
    let cold_gas = rgb(50, 100, 255).spec_lerp(rgb(120, 90, 200), cold);
    rgb(240, 240, 240).spec_lerp(rgb(200, 150, 50), cloud).spec_lerp(warm_gas, warm).spec_lerp(
        cold_gas,
        cold,
    )
}

/// How rough the rock is at a point: seven parts of the coarse noise to
/// three parts of the fine.
pub open spec fn roughness(s: Samples) -> int {
    (unit_noise(s.first as int) * 7 + unit_noise(s.second as int) * 3) / 10
}

/// Bare rock before light: brown that lightens with the roughness and is
/// drawn towards black by half of it.
pub open spec fn rock_surface(s: Samples) -> Color {
    rgb(15, 10, 5).spec_lerp(rgb(200, 150, 100), roughness(s)).spec_lerp(
        rgb(0, 0, 0),
        roughness(s) / 2,
    )
}

/// The colour of a body's surface before light falls on it. The sun has
/// none: it is not lit.
pub open spec fn surface(kind: BodyKind, s: Samples) -> Color {
    match kind {
        BodyKind::Sun => sun_color(s),
        BodyKind::Lava => lava_surface(s),
        BodyKind::Alien => alien_surface(s),
        BodyKind::Earth => earth_surface(s),
        BodyKind::Water => water_surface(s),
        BodyKind::GasGiant => gas_giant_surface(s),
        BodyKind::Rock => rock_surface(s),
    }
}

/// The colour of a fragment of a body of the given kind: the sun's own
/// colour, and for every other body its surface in the light that reaches
/// the fragment.
pub open spec fn shade(kind: BodyKind, s: Samples) -> Color {
    match kind {
        BodyKind::Sun => sun_color(s),
        _ => surface(kind, s).spec_scale(lit(s.intensity as int)),
    }
}

fn noise_to_unit(n: i32) -> (u: i32)
    ensures
        u == unit_noise(n as int),
        0 <= u <= UNIT,
{
    if n <= -UNIT {
        0
    } else if n >= UNIT {
        UNIT
    } else {
        (n + UNIT) / 2
    }
}

fn share(num: i32, den: i32) -> (t: i32)
    requires
        den > 0,
    ensures
        t == ratio(num as int, den as int),
        0 <= t <= UNIT,
{
    if num <= 0 {
        0
    } else if num >= den {
        UNIT
    } else {
        assert(0 <= (num as int) * (UNIT as int) < (den as int) * (UNIT as int))
            by (nonlinear_arith)
            requires
                0 < num < den,
        ;
        assert(((num as int) * (UNIT as int)) / (den as int) < UNIT) by (nonlinear_arith)
            requires
                0 <= (num as int) * (UNIT as int) < (den as int) * (UNIT as int),
                den > 0,
        ;
        assert(((num as int) * (UNIT as int)) / (den as int) >= 0) by (nonlinear_arith)
            requires
                0 <= (num as int) * (UNIT as int),
                den > 0,
        ;
        ((num as i64) * (UNIT as i64) / (den as i64)) as i32
    }
}

fn light(intensity: i32) -> (f: i32)
    ensures
        f == lit(intensity as int),
{
    if intensity < INTENSITY_FLOOR {
        INTENSITY_FLOOR
    } else {
        intensity
    }
}

/// Shades a fragment of the sun. Reads `first` as the heat of the surface
/// and `glow`.
pub fn sun_shader(samples: &Samples) -> (color: Color)
    ensures
        color == sun_color(*samples),
        color == shade(BodyKind::Sun, *samples),
{
    let heat = noise_to_unit(samples.first);
    let surface = Color::new(255, 100, 50).lerp(&Color::new(255, 165, 50), heat).lerp(
        &Color::new(255, 220, 100),
        heat / 2,
    );
    let glow = Color::new(255, 50, 0).scale(samples.glow).scale(600_000);
    surface.saturating_add(&glow)
}

/// Shades a fragment of the lava planet. Reads `first` as the noise of the
/// crust, `second` as the noise of the lava, and `intensity`.
pub fn lava_planet_shader(samples: &Samples) -> (color: Color)
    ensures
        color == lava_surface(*samples).spec_scale(lit(samples.intensity as int)),
        color == shade(BodyKind::Lava, *samples),
{
    let crust = noise_to_unit(samples.first);
    let lava = noise_to_unit(samples.second);
    let lava_color = Color::new(255, 69, 0);
    let rock = Color::new(100, 60, 30).lerp(&lava_color, lava * 2 / 5);
    let molten = lava_color.lerp(&Color::new(255, 0, 0), lava);
    let cooled = Color::new(160, 82, 45).lerp(&molten, crust);
    rock.lerp(&cooled, crust / 2).scale(light(samples.intensity))
}

/// Shades a fragment of the alien planet. Reads `first` as the noise that
/// picks the band, and `intensity`.
pub fn planet1_shader(samples: &Samples) -> (color: Color)
    ensures
        color == alien_surface(*samples).spec_scale(lit(samples.intensity as int)),
        color == shade(BodyKind::Alien, *samples),
{
    let n = noise_to_unit(samples.first);
    let band = if n < 200_000 {
        Color::new(30, 10, 40)
    } else if n < 300_000 {
        Color::new(110, 60, 160)
    } else if n < 500_000 {
        Color::new(130, 90, 190)
    } else if n < 700_000 {
        Color::new(150, 110, 210)
    } else {
        Color::new(140, 80, 200)
    };
    band.scale(light(samples.intensity))
}

fn earth_ground_color(samples: &Samples) -> (color: Color)
    ensures
        color == earth_ground(*samples),
{
    let land = samples.land;
    let deep_ocean = Color::new(0, 70, 130);
    let shallow_ocean = Color::new(0, 105, 148);
    let beach = Color::new(237, 201, 175);
    let lowland = Color::new(34, 139, 34);
    let highland = Color::new(85, 170, 85);
    if samples.latitude > 800_000 || samples.latitude < -800_000 {
        Color::new(255, 255, 255)
    } else if land < 450_000 {
        deep_ocean.lerp(&shallow_ocean, share(land, 450_000))
    } else if land < 500_000 {
        shallow_ocean.lerp(&beach, share(land - 450_000, 50_000))
    } else if land < 800_000 {
        beach.lerp(&lowland, share(land - 500_000, 300_000))
    } else {
        lowland.lerp(&highland, share(land - 800_000, 200_000))
    }
}

/// Shades a fragment of the earth-like planet. Reads `latitude`, `land`,
/// `first` as the noise of the clouds, and `intensity`.
pub fn earth_map_shader(samples: &Samples) -> (color: Color)
    ensures
        color == earth_surface(*samples).spec_scale(lit(samples.intensity as int)),
        color == shade(BodyKind::Earth, *samples),
{
    let ground = earth_ground_color(samples);
    let sky = if samples.first > 500_000 {
        Color::new(255, 255, 255)
    } else {
        ground
    };
    sky.lerp(&ground, 500_000).scale(light(samples.intensity))
}

/// Shades a fragment of the water planet. Reads `first` as the noise of
/// the waves, `second` as the noise of the ripples, and `intensity`.
pub fn water_shader(samples: &Samples) -> (color: Color)
    ensures
        color == water_surface(*samples).spec_scale(lit(samples.intensity as int)),
        color == shade(BodyKind::Water, *samples),
{
    let wave = noise_to_unit(samples.first);
    let ripple = noise_to_unit(samples.second);
    let deep = Color::new(0, 50, 150);
    deep.lerp(&Color::new(255, 255, 255), wave).lerp(&deep, ripple / 2).scale(
        light(samples.intensity),
    )
}

/// Shades a fragment of the gas giant. Reads `first` as the noise of the
/// clouds, `second` and `third` as the noise of the two layers of gas, and
/// `intensity`.
pub fn gas_giant_shader(samples: &Samples) -> (color: Color)
    ensures
        color == gas_giant_surface(*samples).spec_scale(lit(samples.intensity as int)),
        color == shade(BodyKind::GasGiant, *samples),
{
    let cloud = noise_to_unit(samples.first);
    let warm = noise_to_unit(samples.second);
    let cold = noise_to_unit(samples.third);
    let yellow = Color::new(200, 150, 50);
    let blue = Color::new(50, 100, 255);
    let warm_gas = yellow.lerp(&blue, warm);
    let cold_gas = blue.lerp(&Color::new(120, 90, 200), cold);
    Color::new(240, 240, 240).lerp(&yellow, cloud).lerp(&warm_gas, warm).lerp(&cold_gas, cold).scale(
        light(samples.intensity),
    )
}

/// Shades a fragment of bare rock. Reads `first` as the coarse noise,
/// `second` as the fine noise, and `intensity`.
pub fn rock_shader(samples: &Samples) -> (color: Color)
    ensures
        color == rock_surface(*samples).spec_scale(lit(samples.intensity as int)),
        color == shade(BodyKind::Rock, *samples),
{
    let coarse = noise_to_unit(samples.first);
    let fine = noise_to_unit(samples.second);
    let rough: i32 = (coarse * 7 + fine * 3) / 10;
    Color::new(15, 10, 5).lerp(&Color::new(200, 150, 100), rough).lerp(
        &Color::new(0, 0, 0),
        rough / 2,
    ).scale(light(samples.intensity))
}

/// Shades a fragment of the body drawn at `index` of the scene's list with
/// the shader of its kind.
pub fn fragment_shader(samples: &Samples, index: usize) -> (color: Color)
    ensures
        color == shade(BodyKind::spec_from_index(index as int), *samples),
{
    match BodyKind::from_index(index) {
        BodyKind::Sun => sun_shader(samples),
        BodyKind::Lava => lava_planet_shader(samples),
        BodyKind::Alien => planet1_shader(samples),
        BodyKind::Earth => earth_map_shader(samples),
        BodyKind::Water => water_shader(samples),
        BodyKind::GasGiant => gas_giant_shader(samples),
        BodyKind::Rock => rock_shader(samples),
    }
}

/// The samples with every noise value limited to the range from -1 to 1.
pub open spec fn clamp_noise(s: Samples) -> Samples {
    Samples {
        first: clamp_symmetric(s.first as int) as i32,
        second: clamp_symmetric(s.second as int) as i32,
        third: clamp_symmetric(s.third as int) as i32,
        ..s
    }
}

/// `n` limited to the range from `-UNIT` to `UNIT`.
pub open spec fn clamp_symmetric(n: int) -> int {
    if n < -UNIT {
        -UNIT
    } else if n > UNIT {
        UNIT as int
    } else {
        n
    }
}

/// The sun is not lit: its colour is the same in any light.
pub proof fn lemma_sun_ignores_light(s: Samples, intensity: i32)
    ensures
        shade(BodyKind::Sun, Samples { intensity, ..s }) == shade(BodyKind::Sun, s),
{
}

/// No lit body is darker than in light of the floor's strength: whatever
/// light is weaker than the floor shades as the floor does.
pub proof fn lemma_light_has_floor(kind: BodyKind, s: Samples)
    requires
        kind != BodyKind::Sun,
        s.intensity <= INTENSITY_FLOOR,
    ensures
        shade(kind, s) == shade(kind, Samples { intensity: INTENSITY_FLOOR, ..s }),
{
}

/// Noise beyond the ends of its range shades as the nearer end does, for
/// every kind of body.
pub proof fn lemma_noise_is_limited(kind: BodyKind, s: Samples)
    ensures
        shade(kind, clamp_noise(s)) == shade(kind, s),
{
}

} // verus!
