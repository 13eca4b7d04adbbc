//! The bodies of the scene: what each one is, where it orbits and how it
//! spins.

use crate::color::UNIT;
use crate::random::random_in_range;
use vstd::prelude::*;

verus! {

/// A full turn in millionths of a radian, rounded down.
pub const TAU: i32 = 6_283_185;

/// The slowest spin a planet is given, in millionths of a radian per tick.
pub const MIN_SPIN: i32 = 10_000;

/// The bound below which every planet's spin lies, in millionths of a
/// radian per tick.
pub const MAX_SPIN: i32 = 50_000;

/// How many bodies the scene holds: one of each kind.
pub const BODY_COUNT: usize = 7;

/// The angle by which every body moves along its orbit in one tick, in
/// millionths of a radian.
pub const ORBITAL_SPEED: i32 = 10_000;

/// A point or an offset in world space, each coordinate in millionths.
#[derive(Clone, Copy, Debug, PartialEq, Eq, Structural)]
pub struct Vector3 {
    pub x: i32,
    pub y: i32,
    pub z: i32,
}

/// What a body is made of. The kind selects the shading and the noise
/// field of the body.
#[derive(Clone, Copy, Debug, PartialEq, Eq, Structural)]
pub enum BodyKind {
    Sun,
    Lava,
    Alien,
    Earth,
    Water,
    GasGiant,
    Rock,
}

impl BodyKind {
    /// The kind that is drawn at a position of the scene's list. Positions
    /// past the end of the list, the spacecraft's among them, are drawn as
    /// rock.
    pub open spec fn spec_from_index(index: int) -> BodyKind {
        if index == 0 {
            BodyKind::Sun
        } else if index == 1 {
            BodyKind::Lava
        } else if index == 2 {
            BodyKind::Alien
        } else if index == 3 {
            BodyKind::Earth
        } else if index == 4 {
            BodyKind::Water
        } else if index == 5 {
            BodyKind::GasGiant
        } else {
            BodyKind::Rock
        }
    }

    /// The position of the kind in the scene's list.
    pub open spec fn spec_index(self) -> int {
        match self {
            BodyKind::Sun => 0,
            BodyKind::Lava => 1,
            BodyKind::Alien => 2,
            BodyKind::Earth => 3,
            BodyKind::Water => 4,
            BodyKind::GasGiant => 5,
            BodyKind::Rock => 6,
        }
    }

    /// The radius of the body's model in world space, in millionths.
    pub open spec fn spec_scale(self) -> int {
        match self {
            BodyKind::Sun => 1_000_000,
            BodyKind::Lava => 300_000,
            BodyKind::Alien => 400_000,
            BodyKind::Earth => 400_000,
            BodyKind::Water => 300_000,
            BodyKind::GasGiant => 800_000,
            BodyKind::Rock => 90_000,
        }
    }

    /// The radius of the body's orbit, in millionths.
    pub open spec fn spec_orbit_radius(self) -> int {
        match self {
            BodyKind::Sun => 0,
            BodyKind::Lava => 2_000_000,
            BodyKind::Alien => 3_000_000,
            BodyKind::Earth => 4_000_000,
            BodyKind::Water => 5_000_000,
            BodyKind::GasGiant => 7_000_000,
            BodyKind::Rock => 8_000_000,
        }
    }

    /// The body's name.
    pub open spec fn spec_name(self) -> Seq<char> {
        match self {
            BodyKind::Sun => "Sol"@,
            BodyKind::Lava => "Volcanis"@,
            BodyKind::Alien => "Morveth"@,
            BodyKind::Earth => "GaiaNova"@,
            BodyKind::Water => "Aquarion"@,
            BodyKind::GasGiant => "Stratos"@,
            BodyKind::Rock => "KratonV"@,
        }
    }

    /// The path of the mesh that gives the body its shape.
    pub open spec fn spec_mesh(self) -> Seq<char> {
        match self {
            BodyKind::GasGiant => "assets/models/saturno2.obj"@,
            BodyKind::Rock => "assets/models/asteroide.obj"@,
            _ => "assets/models/cuerpo2.obj"@,
        }
    }

    /// The body's resting place before it is put on its orbit.
    pub open spec fn spec_translation(self) -> Vector3 {
        match self {
            BodyKind::Sun => Vector3 { x: 2_000_000, y: 0, z: (-5_000_000int) as i32 },
            _ => Vector3 { x: 4_000_000, y: 0, z: (-8_000_000int) as i32 },
        }
    }

    /// The kind drawn at `index` of the scene's list.
    pub fn from_index(index: usize) -> (kind: BodyKind)
        ensures
            kind == Self::spec_from_index(index as int),
    {
        match index {
            0 => BodyKind::Sun,
            1 => BodyKind::Lava,
            2 => BodyKind::Alien,
            3 => BodyKind::Earth,
            4 => BodyKind::Water,
            5 => BodyKind::GasGiant,
            _ => BodyKind::Rock,
        }
    }

    /// The position of the kind in the scene's list.
    pub fn index(&self) -> (index: usize)
        ensures
            index == self.spec_index(),
            index < BODY_COUNT,
            Self::spec_from_index(index as int) == *self,
    {
        match self {
            BodyKind::Sun => 0,
            BodyKind::Lava => 1,
            BodyKind::Alien => 2,
            BodyKind::Earth => 3,
            BodyKind::Water => 4,
            BodyKind::GasGiant => 5,
            BodyKind::Rock => 6,
        }
    }
}

/// One body of the scene. Lengths are in millionths of a world unit and
/// angles in millionths of a radian.
pub struct Cuerpo {
    pub name: String,
    pub kind: BodyKind,
    pub translation: Vector3,
    pub rotation: Vector3,
    pub scale: i32,
    /// Where the vertices of the body's model are read from.
    pub mesh: String,
    pub orbit_radius: i32,
    /// The angle at which the body stands on its orbit at tick 0.
    pub phase_offset: i32,
    /// The angle by which the body turns about its axis in one tick.
    pub rotation_speed: i32,
}

impl Cuerpo {
    /// What must hold of a body: it has a size, and its orbit has a radius
    /// that is not negative.
    pub open spec fn wf(&self) -> bool {
        &&& self.scale > 0
        &&& self.orbit_radius >= 0
    }

    /// The body is the scene's body of its kind.
    pub open spec fn is_catalogued(&self) -> bool {
        &&& self.name@ == self.kind.spec_name()
        &&& self.mesh@ == self.kind.spec_mesh()
        &&& self.translation == self.kind.spec_translation()
        &&& self.rotation == (Vector3 { x: 0, y: 0, z: 0 })
        &&& self.scale == self.kind.spec_scale()
        &&& self.orbit_radius == self.kind.spec_orbit_radius()
    }

    /// The scene's body of the given kind, with the given place on its
    /// orbit at tick 0 and the given spin.
    pub fn new(kind: BodyKind, phase_offset: i32, rotation_speed: i32) -> (body: Cuerpo)
        ensures
            body.kind == kind,
            body.is_catalogued(),
            body.wf(),
            body.phase_offset == phase_offset,
            body.rotation_speed == rotation_speed,
    {
        let name: &str = match kind {
            BodyKind::Sun => "Sol",
            BodyKind::Lava => "Volcanis",
            BodyKind::Alien => "Morveth",
            BodyKind::Earth => "GaiaNova",
            BodyKind::Water => "Aquarion",
            BodyKind::GasGiant => "Stratos",
            BodyKind::Rock => "KratonV",
        };
        let mesh: &str = match kind {
            BodyKind::GasGiant => "assets/models/saturno2.obj",
            BodyKind::Rock => "assets/models/asteroide.obj",
            _ => "assets/models/cuerpo2.obj",
        };
        let translation = match kind {
            BodyKind::Sun => Vector3 { x: 2_000_000, y: 0, z: -5_000_000 },
            _ => Vector3 { x: 4_000_000, y: 0, z: -8_000_000 },
        };
        let scale: i32 = match kind {
            BodyKind::Sun => UNIT,
            BodyKind::Lava => 300_000,
            BodyKind::Alien => 400_000,
            BodyKind::Earth => 400_000,
            BodyKind::Water => 300_000,
            BodyKind::GasGiant => 800_000,
            BodyKind::Rock => 90_000,
        };
        let orbit_radius: i32 = match kind {
            BodyKind::Sun => 0,
            BodyKind::Lava => 2_000_000,
            BodyKind::Alien => 3_000_000,
            BodyKind::Earth => 4_000_000,
            BodyKind::Water => 5_000_000,
            BodyKind::GasGiant => 7_000_000,
            BodyKind::Rock => 8_000_000,
        };
        Cuerpo {
            name: name.to_string(),
            kind,
            translation,
            rotation: Vector3 { x: 0, y: 0, z: 0 },
            scale,
            mesh: mesh.to_string(),
            orbit_radius,
            phase_offset,
            rotation_speed,
        }
    }
}

impl Cuerpo {
    /// The angle at which the body stands on its orbit at a tick, in
    /// millionths of a radian: the angle it started at and the way it has
    /// come since. The body is then at `radius * cos(angle)` along the
    /// first axis and `radius * sin(angle)` along the third.
    pub open spec fn spec_orbit_angle(&self, tick: u32) -> int {
        tick * ORBITAL_SPEED + self.phase_offset
    }

    /// The angle by which the body has turned about its axis at a tick,
    /// in millionths of a radian.
    pub open spec fn spec_spin_angle(&self, tick: u32) -> int {
        tick * self.rotation_speed
    }

    /// The angle at which the body stands on its orbit at a tick.
    pub fn orbit_angle(&self, tick: u32) -> (angle: i64)
        ensures
            angle == self.spec_orbit_angle(tick),
    {
        let speed: i64 = ORBITAL_SPEED as i64;
        assert(speed == 10_000);
        (tick as i64) * speed + self.phase_offset as i64
    }

    /// The angle by which the body has turned about its axis at a tick.
    pub fn spin_angle(&self, tick: u32) -> (angle: i64)
        ensures
            angle == self.spec_spin_angle(tick),
    {
        assert(-0x7fff_ffff_8000_0000 <= (tick as int) * (self.rotation_speed as int)
            <= 0x7fff_ffff_0000_0000) by (nonlinear_arith)
            requires
                0 <= tick <= 0xffff_ffff,
                -0x8000_0000 <= self.rotation_speed <= 0x7fff_ffff,
        ;
        (tick as i64) * (self.rotation_speed as i64)
    }
}

/// What holds of the scene however the random draws fall: the bodies stand
/// in the order of their kinds, each is the catalogued body of its kind,
/// each starts somewhere on its orbit, the sun does not spin and every
/// planet spins at a speed from `MIN_SPIN` up to, not including, `MAX_SPIN`.
pub open spec fn is_solar_system(bodies: Seq<Cuerpo>) -> bool {
    &&& bodies.len() == BODY_COUNT
    &&& forall|i: int|
        0 <= i < bodies.len() ==> {
            &&& (#[trigger] bodies[i]).kind == BodyKind::spec_from_index(i)
            &&& bodies[i].is_catalogued()
            &&& bodies[i].wf()
            &&& 0 <= bodies[i].phase_offset < TAU
            &&& i == 0 ==> bodies[i].rotation_speed == 0
            &&& i > 0 ==> MIN_SPIN <= bodies[i].rotation_speed < MAX_SPIN
        }
}

/// Builds the scene: the sun and its six planets, each at a random place
/// on its orbit, each planet with a random spin.
pub fn create_solar_system() -> (bodies: Vec<Cuerpo>)
    ensures
        is_solar_system(bodies@),
{
    let mut rng = rand::thread_rng();
    let mut bodies: Vec<Cuerpo> = Vec::new();
    let mut index: usize = 0;
    while index < BODY_COUNT
        invariant
            index <= BODY_COUNT,
            bodies.len() == index,
            forall|i: int|
                0 <= i < bodies.len() ==> {
                    &&& (#[trigger] bodies[i]).kind == BodyKind::spec_from_index(i)
                    &&& bodies[i].is_catalogued()
                    &&& bodies[i].wf()
                    &&& 0 <= bodies[i].phase_offset < TAU
                    &&& i == 0 ==> bodies[i].rotation_speed == 0
                    &&& i > 0 ==> MIN_SPIN <= bodies[i].rotation_speed < MAX_SPIN
                },
        decreases BODY_COUNT - index,
    {
        let phase = random_in_range(&mut rng, 0, TAU as usize) as i32;
        let spin: i32 = if index == 0 {
            0
        } else {
            random_in_range(&mut rng, MIN_SPIN as usize, MAX_SPIN as usize) as i32
        };
        let body = Cuerpo::new(BodyKind::from_index(index), phase, spin);
        bodies.push(body);
        index += 1;
    }
    bodies
}

} // verus!
