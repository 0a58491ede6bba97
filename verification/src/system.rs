//! An ordered collection of orbiting bodies and the flat export buffer a
//! renderer reads: repeating `[radius, x, y]` triples in insertion order,
//! rewritten in full on every tick.

use vstd::prelude::*;

use crate::math::MAX_COORD;
use crate::planet::{perihelion_of, InvalidConfiguration, Planet};

verus! {

/// One body's initial conditions: the observed world-space point, the
/// semi-major axis, and the visual radius.
#[derive(Clone, Copy, Debug)]
pub struct BodyConfig {
    pub initial_x: i64,
    pub initial_y: i64,
    pub semi_major_axis: i64,
    pub radius: i64,
}

/// The machine bounds the integrator works within: coordinates within the
/// coordinate range, the semi-major axis positive.
pub open spec fn config_in_range(c: BodyConfig) -> bool {
    &&& -MAX_COORD <= c.initial_x <= MAX_COORD
    &&& -MAX_COORD <= c.initial_y <= MAX_COORD
    &&& 0 < c.semi_major_axis <= MAX_COORD
}

/// A configuration admits a bound orbit exactly when the observed point's
/// perihelion distance stays under the semi-major axis.
pub open spec fn config_valid(c: BodyConfig) -> bool {
    perihelion_of(c.initial_x as int, c.initial_y as int) < c.semi_major_axis
}

/// Whole-system construction failure, naming the first body whose
/// parameters admit no bound orbit.
#[derive(Clone, Copy, Debug, PartialEq, Eq, Structural)]
pub struct ConfigError {
    pub index: usize,
}

/// The bodies in insertion order, plus the flat export buffer of
/// `[radius, x, y]` triples that always mirrors their current positions.
#[derive(Debug)]
pub struct System {
    pub planets: Vec<Planet>,
    pub planets_coords: Vec<i64>,
}

impl System {
    /// The system's invariant: every body well-formed, and the buffer one
    /// `[radius, x, y]` triple per body, in insertion order, holding each
    /// body's current world-space position.
    pub open spec fn wf(self) -> bool {
        &&& forall|i: int| 0 <= i < self.planets@.len() ==> (#[trigger] self.planets@[i]).wf()
        &&& self.planets_coords@.len() == 3 * self.planets@.len()
        &&& forall|i: int|
            0 <= i < self.planets@.len() ==> {
                &&& self.planets_coords@[3 * i] == (#[trigger] self.planets@[i]).radius
                &&& self.planets_coords@[3 * i + 1] == self.planets@[i].spec_world_x()
                &&& self.planets_coords@[3 * i + 2] == self.planets@[i].spec_world_y()
            }
    }

    /// Read one body's `[x, y]` out of the export buffer.
    fn get_planet_coords(&self, planet_num: usize) -> (r: (i64, i64))
        requires
            3 * planet_num + 2 < self.planets_coords@.len(),
        ensures
            r.0 == self.planets_coords@[3 * planet_num + 1],
            r.1 == self.planets_coords@[3 * planet_num + 2],
    {
        let total = self.planets_coords.len();
        assert(3 * planet_num + 2 < total);
        let starting_index = planet_num * 3;
        (self.planets_coords[starting_index + 1], self.planets_coords[starting_index + 2])
    }

    /// Overwrite one body's `[x, y]` slots in the export buffer.
    fn set_planet_coords(&mut self, planet_num: usize, x: i64, y: i64)
        requires
            3 * planet_num + 2 < old(self).planets_coords@.len(),
        ensures
            final(self).planets == old(self).planets,
            final(self).planets_coords@ == old(self).planets_coords@.update(
                3 * planet_num + 1,
                x,
            ).update(3 * planet_num + 2, y),
    {
        let total = self.planets_coords.len();
        assert(3 * planet_num + 2 < total);
        let starting_index = planet_num * 3;
        self.planets_coords[starting_index + 1] = x;
        self.planets_coords[starting_index + 2] = y;
    }

    /// Build a system from an ordered list of per-body initial conditions.
    /// Each body is derived in insertion order; the first invalid one fails
    /// the whole construction, naming its index, and no partial system is
    /// made.  On success the buffer holds each body's radius and its exact
    /// caller-supplied initial position.
    pub fn new(configs: &Vec<BodyConfig>) -> (r: Result<System, ConfigError>)
        requires
            forall|i: int| 0 <= i < configs@.len() ==> config_in_range(#[trigger] configs@[i]),
        ensures
            (r is Ok) <==> (forall|i: int|
                0 <= i < configs@.len() ==> config_valid(#[trigger] configs@[i])),
            r matches Ok(s) ==> {
                &&& s.wf()
                &&& s.planets@.len() == configs@.len()
                &&& forall|i: int|
                    0 <= i < configs@.len() ==> (#[trigger] s.planets@[i]).is_derived_from(
                        configs@[i].radius as int,
                        configs@[i].initial_x as int,
                        configs@[i].initial_y as int,
                        configs@[i].semi_major_axis as int,
                    )
                &&& forall|i: int|
                    0 <= i < configs@.len() ==> {
                        &&& s.planets_coords@[3 * i] == (#[trigger] configs@[i]).radius
                        &&& s.planets_coords@[3 * i + 1] == configs@[i].initial_x
                        &&& s.planets_coords@[3 * i + 2] == configs@[i].initial_y
                    }
            },
            r matches Err(e) ==> {
                &&& e.index < configs@.len()
                &&& !config_valid(configs@[e.index as int])
                &&& forall|j: int| 0 <= j < e.index ==> config_valid(#[trigger] configs@[j])
            },
    {
        let mut planets: Vec<Planet> = Vec::new();
        let mut index: usize = 0;
        while index < configs.len()
            invariant
                index <= configs@.len(),
                planets@.len() == index,
                forall|i: int| 0 <= i < configs@.len() ==> config_in_range(#[trigger] configs@[i]),
                forall|j: int| 0 <= j < index ==> config_valid(#[trigger] configs@[j]),
                forall|j: int| 0 <= j < index ==> (#[trigger] planets@[j]).wf(),
                forall|j: int|
                    0 <= j < index ==> (#[trigger] planets@[j]).is_derived_from(
                        configs@[j].radius as int,
                        configs@[j].initial_x as int,
                        configs@[j].initial_y as int,
                        configs@[j].semi_major_axis as int,
                    ),
                forall|j: int|
                    0 <= j < index ==> (#[trigger] planets@[j]).spec_world_x()
                        == configs@[j].initial_x && planets@[j].spec_world_y()
                        == configs@[j].initial_y,
            decreases configs@.len() - index,
        {
            let c = configs[index];
            match Planet::new(c.radius, c.initial_x, c.initial_y, c.semi_major_axis) {
                Ok(p) => planets.push(p),
                Err(InvalidConfiguration) => {
                    return Err(ConfigError { index });
                },
            }
            index += 1;
        }

        let mut planets_coords: Vec<i64> = Vec::new();
        let mut filled: usize = 0;
        while filled < planets.len()
            invariant
                filled <= planets@.len(),
                planets_coords@.len() == 3 * filled,
                forall|j: int| 0 <= j < planets@.len() ==> (#[trigger] planets@[j]).wf(),
                forall|j: int|
                    0 <= j < filled ==> {
                        &&& planets_coords@[3 * j] == (#[trigger] planets@[j]).radius
                        &&& planets_coords@[3 * j + 1] == planets@[j].spec_world_x()
                        &&& planets_coords@[3 * j + 2] == planets@[j].spec_world_y()
                    },
            decreases planets@.len() - filled,
        {
            let p = planets[filled];
            let coords = p.world_position();
            planets_coords.push(p.radius);
            planets_coords.push(coords.0);
            planets_coords.push(coords.1);
            filled += 1;
        }

        let result = System { planets, planets_coords };
        proof {
            assert forall|i: int| 0 <= i < configs@.len() implies {
                &&& result.planets_coords@[3 * i] == (#[trigger] configs@[i]).radius
                &&& result.planets_coords@[3 * i + 1] == configs@[i].initial_x
                &&& result.planets_coords@[3 * i + 2] == configs@[i].initial_y
            } by {
                assert(result.planets@[i].is_derived_from(
                    configs@[i].radius as int,
                    configs@[i].initial_x as int,
                    configs@[i].initial_y as int,
                    configs@[i].semi_major_axis as int,
                ));
            }
        }
        Ok(result)
    }

    /// A fresh copy of the per-body data as the buffer holds it right now:
    /// one `[radius, x, y]` triple per body in insertion order.
    pub fn initial_planet_data(&self) -> (r: Vec<i64>)
        requires
            self.wf(),
        ensures
            r@ == self.planets_coords@,
    {
        let mut data: Vec<i64> = Vec::new();
        let mut index: usize = 0;
        while index < self.planets.len()
            invariant
                self.wf(),
                index <= self.planets@.len(),
                data@.len() == 3 * index,
                data@ == self.planets_coords@.subrange(0, 3 * index as int),
            decreases self.planets@.len() - index,
        {
            let planet = self.planets[index];
            let coords = self.get_planet_coords(index);
            data.push(planet.radius);
            data.push(coords.0);
            data.push(coords.1);
            proof {
                assert(data@ =~= self.planets_coords@.subrange(0, 3 * (index + 1) as int));
            }
            index += 1;
        }
        proof {
            assert(data@ =~= self.planets_coords@);
        }
        data
    }

    /// The live export buffer by reference: valid until the next tick.
    pub fn planets_coordinates(&self) -> (r: &Vec<i64>)
        ensures
            r@ == self.planets_coords@,
    {
        &self.planets_coords
    }

    /// Advance every body one tick in insertion order, rewrite the whole
    /// export buffer from the new positions, and hand the buffer back.
    pub fn tick(&mut self) -> (r: &Vec<i64>)
        requires
            old(self).wf(),
        ensures
            final(self).wf(),
            final(self).planets@.len() == old(self).planets@.len(),
            forall|i: int|
                0 <= i < old(self).planets@.len() ==> final(self).planets@[i] == (
                #[trigger] old(self).planets@[i]).spec_advance(),
            r@ == final(self).planets_coords@,
            r@.len() == 3 * final(self).planets@.len(),
    {
        let ghost orig: System = *old(self);
        let mut index: usize = 0;
        while index < self.planets.len()
            invariant
                orig.wf(),
                index <= orig.planets@.len(),
                self.planets@.len() == orig.planets@.len(),
                self.planets_coords@.len() == orig.planets_coords@.len(),
                forall|j: int|
                    0 <= j < index ==> self.planets@[j] == (
                    #[trigger] orig.planets@[j]).spec_advance(),
                forall|j: int|
                    index <= j < orig.planets@.len() ==> self.planets@[j] == #[trigger] orig.planets@[j],
                forall|j: int| 0 <= j < orig.planets@.len() ==> (#[trigger] self.planets@[j]).wf(),
                forall|j: int|
                    0 <= j < orig.planets@.len() ==> {
                        &&& self.planets_coords@[3 * j] == (#[trigger] self.planets@[j]).radius
                        &&& self.planets_coords@[3 * j + 1] == self.planets@[j].spec_world_x()
                        &&& self.planets_coords@[3 * j + 2] == self.planets@[j].spec_world_y()
                    },
            decreases orig.planets@.len() - index,
        {
            let mut planet = self.planets[index];
            let coords = planet.tick();
            self.planets[index] = planet;
            self.set_planet_coords(index, coords.0, coords.1);
            index += 1;
        }
        self.planets_coordinates()
    }
}

} // verus!
