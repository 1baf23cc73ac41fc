use vstd::prelude::*;
use crate::models::{NewPlanet, Planet, stored_as};

verus! {

/// The record store could not serve a request (a pool or query failure).
#[derive(Debug, PartialEq, Eq)]
pub struct StoreError {
    pub message: String,
}

/// Durable keyed storage of planet records, looked up by external id.
pub trait PlanetRepository {
    /// The stored record for external id `planet_id`, if there is one.
    fn find_planet_by_id(&self, planet_id: i32) -> Result<Option<Planet>, StoreError>;

    /// Persists `new_planet` as one atomic unit and returns the stored row.
    fn insert_planet(&self, new_planet: &NewPlanet) -> Result<Planet, StoreError>;
}

/// Decides whether lookups skip the local store.
pub trait FeatureFlag {
    /// True when every lookup must ask the remote catalog.
    fn is_forcing_api_call(&self) -> bool;
}

/// The first row of `rows` with external id `swapi_id`.
pub open spec fn first_match(rows: Seq<Planet>, swapi_id: i32) -> Option<Planet>
    decreases rows.len(),
{
    if rows.len() == 0 {
        None
    } else if rows[0].swapi_id == swapi_id {
        Some(rows[0])
    } else {
        first_match(rows.drop_first(), swapi_id)
    }
}

/// An in-memory record store. Surrogate keys are handed out as 1, 2, 3, ...
/// in insertion order; rows are never updated or deleted.
pub struct MemoryStore {
    rows: Vec<Planet>,
}

impl View for MemoryStore {
    type V = Seq<Planet>;

    closed spec fn view(&self) -> Seq<Planet> {
        self.rows@
    }
}

impl MemoryStore {
    /// Every row carries the surrogate key of its position, counted from 1.
    pub closed spec fn well_formed(&self) -> bool {
        forall|i: int| 0 <= i < self.rows@.len() ==> #[trigger] self.rows@[i].id == i + 1
    }

    /// An empty store.
    pub fn new() -> (r: MemoryStore)
        ensures
            r.well_formed(),
            r@ == Seq::<Planet>::empty(),
    {
        MemoryStore { rows: Vec::new() }
    }

    /// Number of stored rows.
    pub fn len(&self) -> (r: usize)
        ensures
            r == self@.len(),
    {
        self.rows.len()
    }

    /// The first stored row with external id `swapi_id`, if any.
    pub fn find(&self, swapi_id: i32) -> (r: Option<Planet>)
        ensures
            r == first_match(self@, swapi_id),
    {
        let mut i: usize = 0;
        assert(self.rows@.subrange(0, self.rows@.len() as int) =~= self.rows@);
        while i < self.rows.len()
            invariant
                i <= self.rows@.len(),
                first_match(self.rows@.subrange(i as int, self.rows@.len() as int), swapi_id)
                    == first_match(self.rows@, swapi_id),
            decreases self.rows@.len() - i,
        {
            let ghost rest = self.rows@.subrange(i as int, self.rows@.len() as int);
            assert(rest.drop_first() =~= self.rows@.subrange(i + 1, self.rows@.len() as int));
            if self.rows[i].swapi_id == swapi_id {
                return Some(self.rows[i].copied());
            }
            i = i + 1;
        }
        assert(self.rows@.subrange(i as int, self.rows@.len() as int) =~= Seq::<Planet>::empty());
        None
    }

    /// Stores `candidate` under the next surrogate key and returns the row.
    pub fn insert(&mut self, candidate: NewPlanet) -> (r: Result<Planet, StoreError>)
        requires
            old(self).well_formed(),
        ensures
            final(self).well_formed(),
            old(self)@.len() < i32::MAX ==> {
                &&& r == Ok::<Planet, StoreError>(stored_as((old(self)@.len() + 1) as i32, candidate))
                &&& final(self)@ == old(self)@.push(stored_as((old(self)@.len() + 1) as i32, candidate))
            },
            old(self)@.len() >= i32::MAX ==> r is Err && final(self)@ == old(self)@,
    {
        if self.rows.len() >= i32::MAX as usize {
            return Err(StoreError { message: String::from_str("surrogate keys exhausted") });
        }
        let id = (self.rows.len() + 1) as i32;
        let row = Planet::stored(id, candidate);
        self.rows.push(row.copied());
        Ok(row)
    }
}

} // verus!
