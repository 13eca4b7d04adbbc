//! How the noise field of each body is set up.
//!
//! The library holds the settings; the field itself is made from them by
//! whoever samples it.

use crate::cuerpo::BodyKind;
use vstd::prelude::*;

verus! {

/// The algorithm that makes the noise.
#[derive(Clone, Copy, Debug, PartialEq, Eq, Structural)]
pub enum NoiseType {
    OpenSimplex2,
    Perlin,
    Cellular,
}

/// How the octaves of the noise are put together.
#[derive(Clone, Copy, Debug, PartialEq, Eq, Structural)]
pub enum FractalType {
    /// A single layer, not a fractal.
    Off,
    FBm,
    Ridged,
    PingPong,
}

/// The settings of a noise field. Frequency, gain and lacunarity are in
/// millionths. A setting that is `None` is left as the noise generator has
/// it by default.
#[derive(Clone, Copy, Debug, PartialEq, Eq)]
pub struct NoiseConfig {
    pub seed: i32,
    pub noise_type: NoiseType,
    pub fractal_type: FractalType,
    pub octaves: Option<i32>,
    pub frequency: i32,
    pub gain: Option<i32>,
    pub lacunarity: Option<i32>,
}

impl NoiseConfig {
    /// What must hold of settings for them to make a field: a frequency
    /// above zero and, where they are set, at least one octave, a gain
    /// that is not negative and a lacunarity above zero.
    pub open spec fn wf(self) -> bool {
        &&& self.frequency > 0
        &&& self.octaves matches Some(n) ==> n >= 1
        &&& self.gain matches Some(g) ==> g >= 0
        &&& self.lacunarity matches Some(l) ==> l > 0
    }
}

/// Smooth noise in layers, for clouds.
pub open spec fn cloud_noise() -> NoiseConfig {
    NoiseConfig {
        seed: 12345,
        noise_type: NoiseType::OpenSimplex2,
        fractal_type: FractalType::FBm,
        octaves: None,
        frequency: 5_000,
        gain: Some(500_000),
        lacunarity: None,
    }
}

/// Cells in two layers, for waves.
pub open spec fn water_noise() -> NoiseConfig {
    NoiseConfig {
        seed: 34526,
        noise_type: NoiseType::Cellular,
        fractal_type: FractalType::FBm,
        octaves: Some(2),
        frequency: 100_000,
        gain: None,
        lacunarity: None,
    }
}

/// Cells in layers, for rock.
pub open spec fn rock_noise() -> NoiseConfig {
    NoiseConfig {
        seed: 12345,
        noise_type: NoiseType::Cellular,
        fractal_type: FractalType::FBm,
        octaves: None,
        frequency: 100_000,
        gain: None,
        lacunarity: None,
    }
}

/// Ridges of smooth noise, for the surface of the sun.
pub open spec fn sun_noise() -> NoiseConfig {
    NoiseConfig {
        seed: 12345,
        noise_type: NoiseType::OpenSimplex2,
        fractal_type: FractalType::Ridged,
        octaves: Some(1),
        frequency: 64_000,
        gain: Some(800_000),
        lacunarity: Some(2_490_000),
    }
}

/// Folded gradient noise, for the bands of the alien planet.
pub open spec fn plant1_noise() -> NoiseConfig {
    NoiseConfig {
        seed: 121,
        noise_type: NoiseType::Perlin,
        fractal_type: FractalType::PingPong,
        octaves: Some(2),
        frequency: 15_000,
        gain: Some(800_000),
        lacunarity: Some(2_490_000),
    }
}

/// Folded smooth noise, for the gas of the giant.
pub open spec fn plant2_noise() -> NoiseConfig {
    NoiseConfig {
        seed: 111,
        noise_type: NoiseType::OpenSimplex2,
        fractal_type: FractalType::PingPong,
        octaves: Some(2),
        frequency: 40_000,
        gain: Some(800_000),
        lacunarity: Some(6_270_000),
    }
}

/// Ridges between cells, for streams of lava.
pub open spec fn plant3_noise() -> NoiseConfig {
    NoiseConfig {
        seed: 92,
        noise_type: NoiseType::Cellular,
        fractal_type: FractalType::Ridged,
        octaves: Some(1),
        frequency: 13_000,
        gain: Some(800_000),
        lacunarity: Some(6_270_000),
    }
}

/// The settings of the noise field of a body of the given kind.
pub open spec fn noise_preset(kind: BodyKind) -> NoiseConfig {
    match kind {
        BodyKind::Sun => sun_noise(),
        BodyKind::Lava => plant3_noise(),
        BodyKind::Alien => plant1_noise(),
        BodyKind::Earth => cloud_noise(),
        BodyKind::Water => water_noise(),
        BodyKind::GasGiant => plant2_noise(),
        BodyKind::Rock => rock_noise(),
    }
}

/// The settings for clouds.
pub fn create_cloud_noise() -> (config: NoiseConfig)
    ensures
        config == cloud_noise(),
{
    NoiseConfig {
        seed: 12345,
        noise_type: NoiseType::OpenSimplex2,
        fractal_type: FractalType::FBm,
        octaves: None,
        frequency: 5_000,
        gain: Some(500_000),
        lacunarity: None,
    }
}

/// The settings for waves.
pub fn create_water_noise() -> (config: NoiseConfig)
    ensures
        config == water_noise(),
{
    NoiseConfig {
        seed: 34526,
        noise_type: NoiseType::Cellular,
        fractal_type: FractalType::FBm,
        octaves: Some(2),
        frequency: 100_000,
        gain: None,
        lacunarity: None,
    }
}

/// The settings for rock.
pub fn create_rock_noise() -> (config: NoiseConfig)
    ensures
        config == rock_noise(),
{
    NoiseConfig {
        seed: 12345,
        noise_type: NoiseType::Cellular,
        fractal_type: FractalType::FBm,
        octaves: None,
        frequency: 100_000,
        gain: None,
        lacunarity: None,
    }
}

/// The settings for the surface of the sun.
pub fn create_sun_noise() -> (config: NoiseConfig)
    ensures
        config == sun_noise(),
{
    NoiseConfig {
        seed: 12345,
        noise_type: NoiseType::OpenSimplex2,
        fractal_type: FractalType::Ridged,
        octaves: Some(1),
        frequency: 64_000,
        gain: Some(800_000),
        lacunarity: Some(2_490_000),
    }
}

/// The settings for the alien planet.
pub fn create_plant1_noise() -> (config: NoiseConfig)
    ensures
        config == plant1_noise(),
{
    NoiseConfig {
        seed: 121,
        noise_type: NoiseType::Perlin,
        fractal_type: FractalType::PingPong,
        octaves: Some(2),
        frequency: 15_000,
        gain: Some(800_000),
        lacunarity: Some(2_490_000),
    }
}

/// The settings for the gas giant.
pub fn create_plant2_noise() -> (config: NoiseConfig)
    ensures
        config == plant2_noise(),
{
    NoiseConfig {
        seed: 111,
        noise_type: NoiseType::OpenSimplex2,
        fractal_type: FractalType::PingPong,
        octaves: Some(2),
        frequency: 40_000,
        gain: Some(800_000),
        lacunarity: Some(6_270_000),
    }
}

/// The settings for the lava planet.
pub fn create_plant3_noise() -> (config: NoiseConfig)
    ensures
        config == plant3_noise(),
{
    NoiseConfig {
        seed: 92,
        noise_type: NoiseType::Cellular,
        fractal_type: FractalType::Ridged,
        octaves: Some(1),
        frequency: 13_000,
        gain: Some(800_000),
        lacunarity: Some(6_270_000),
    }
}

/// The settings of the noise field of the body drawn at `index` of the
/// scene's list. Positions past the end of the list get the settings for
/// rock.
pub fn create_noise(index: usize) -> (config: NoiseConfig)
    ensures
        config == noise_preset(BodyKind::spec_from_index(index as int)),
        config.wf(),
{
    match index {
        0 => create_sun_noise(),
        1 => create_plant3_noise(),
        2 => create_plant1_noise(),
        3 => create_cloud_noise(),
        4 => create_water_noise(),
        5 => create_plant2_noise(),
        6 => create_rock_noise(),
        _ => create_rock_noise(),
    }
}

/// The settings of every kind of body make a field.
pub proof fn lemma_presets_are_well_formed(kind: BodyKind)
    ensures
        noise_preset(kind).wf(),
{
}

} // verus!
