use vstd::prelude::*;

verus! {

/// A planet record as the store holds it: `id` is the surrogate key the store
/// assigned, `swapi_id` the identifier of the remote catalog.
#[derive(Clone, Debug, PartialEq, Eq)]
pub struct Planet {
    pub id: i32,
    pub swapi_id: i32,
    pub name: String,
    pub climate: String,
    pub terrain: String,
    pub orbital_period_days: String,
}

/// A candidate record, not yet stored: it has no surrogate key.
#[derive(Clone, Debug, PartialEq, Eq)]
pub struct NewPlanet {
    pub swapi_id: i32,
    pub name: String,
    pub climate: String,
    pub terrain: String,
    pub orbital_period_days: String,
}

/// A planet as the remote catalog describes it. The catalog calls the last
/// field `orbital_period`.
#[derive(Clone, Debug, PartialEq, Eq)]
pub struct SwapiPlanet {
    pub name: String,
    pub climate: String,
    pub terrain: String,
    pub orbital_period_days: String,
}

/// The candidate built from what the remote catalog returned for `id`:
/// `id` becomes the external key, the descriptive fields are taken as they are.
pub open spec fn candidate_of(id: i32, fetched: SwapiPlanet) -> NewPlanet {
    NewPlanet {
        swapi_id: id,
        name: fetched.name,
        climate: fetched.climate,
        terrain: fetched.terrain,
        orbital_period_days: fetched.orbital_period_days,
    }
}

impl NewPlanet {
    /// Builds the candidate record for external id `id` from a remote answer.
    pub fn from_fetched(id: i32, fetched: SwapiPlanet) -> (r: NewPlanet)
        ensures
            r == candidate_of(id, fetched),
    {
        NewPlanet {
            swapi_id: id,
            name: fetched.name,
            climate: fetched.climate,
            terrain: fetched.terrain,
            orbital_period_days: fetched.orbital_period_days,
        }
    }
}

/// The stored form of `candidate` once the store assigned it surrogate key `id`.
pub open spec fn stored_as(id: i32, candidate: NewPlanet) -> Planet {
    Planet {
        id,
        swapi_id: candidate.swapi_id,
        name: candidate.name,
        climate: candidate.climate,
        terrain: candidate.terrain,
        orbital_period_days: candidate.orbital_period_days,
    }
}

impl Planet {
    /// A field-by-field copy, equal to `self`.
    pub fn copied(&self) -> (r: Planet)
        ensures
            r == *self,
    {
        Planet {
            id: self.id,
            swapi_id: self.swapi_id,
            name: self.name.clone(),
            climate: self.climate.clone(),
            terrain: self.terrain.clone(),
            orbital_period_days: self.orbital_period_days.clone(),
        }
    }

    /// The stored row for `candidate` under surrogate key `id`.
    pub fn stored(id: i32, candidate: NewPlanet) -> (r: Planet)
        ensures
            r == stored_as(id, candidate),
    {
        Planet {
            id,
            swapi_id: candidate.swapi_id,
            name: candidate.name,
            climate: candidate.climate,
            terrain: candidate.terrain,
            orbital_period_days: candidate.orbital_period_days,
        }
    }
}

} // verus!
