use vstd::prelude::*;
use crate::models::{NewPlanet, Planet, SwapiPlanet, candidate_of};
use crate::store::StoreError;

verus! {

/// How a lookup ends.
#[derive(Debug, PartialEq, Eq)]
pub enum LookupOutcome {
    /// The record, from the store or freshly stored.
    Found(Planet),
    /// Neither the store nor the remote catalog gave a record.
    NotFound,
    /// The store failed.
    InternalError,
}

/// The next thing a lookup asks its caller to do, or its end.
#[derive(Debug, PartialEq, Eq)]
pub enum Step {
    /// Look the external id up in the record store.
    FindStored(i32),
    /// Ask the remote catalog for the external id.
    Fetch(i32),
    /// Insert the candidate into the record store.
    Insert(NewPlanet),
    /// Deliver the stored row to every subscriber, then report back.
    Publish(Planet),
    /// Answer the request.
    Done(LookupOutcome),
}

/// The first step of a lookup of `id` under bypass decision `bypass`.
pub open spec fn start_step(id: i32, bypass: bool) -> Step {
    if bypass {
        Step::Fetch(id)
    } else {
        Step::FindStored(id)
    }
}

/// The step after the store answered the find of `id` with `found`.
pub open spec fn after_find_step(id: i32, found: Result<Option<Planet>, StoreError>) -> Step {
    match found {
        Err(_) => Step::Done(LookupOutcome::InternalError),
        Ok(Some(p)) => Step::Done(LookupOutcome::Found(p)),
        Ok(None) => Step::Fetch(id),
    }
}

/// The step after the remote catalog answered for `id` with `fetched`.
pub open spec fn after_fetch_step(id: i32, fetched: Option<SwapiPlanet>) -> Step {
    match fetched {
        None => Step::Done(LookupOutcome::NotFound),
        Some(c) => Step::Insert(candidate_of(id, c)),
    }
}

/// The step after the store answered an insert with `inserted`.
pub open spec fn after_insert_step(inserted: Result<Planet, StoreError>) -> Step {
    match inserted {
        Err(_) => Step::Done(LookupOutcome::InternalError),
        Ok(p) => Step::Publish(p),
    }
}

/// The step after `published` went out to the subscribers.
pub open spec fn after_publish_step(published: Planet) -> Step {
    Step::Done(LookupOutcome::Found(published))
}

/// First step of a lookup of external id `id`; `bypass` is the flag's answer.
/// Without bypass the store is asked first, with it the remote catalog.
pub fn start(id: i32, bypass: bool) -> (r: Step)
    ensures
        r == start_step(id, bypass),
{
    if bypass {
        Step::Fetch(id)
    } else {
        Step::FindStored(id)
    }
}

/// Step after the store answered the lookup of `id`: a stored record is
/// served as it is, a store failure ends the lookup, a miss goes remote.
pub fn after_find(id: i32, found: Result<Option<Planet>, StoreError>) -> (r: Step)
    ensures
        r == after_find_step(id, found),
{
    match found {
        Err(_) => Step::Done(LookupOutcome::InternalError),
        Ok(Some(p)) => Step::Done(LookupOutcome::Found(p)),
        Ok(None) => Step::Fetch(id),
    }
}

/// Step after the remote catalog answered for `id`: absence (which covers
/// transport failures) ends in not-found, a candidate is to be stored.
pub fn after_fetch(id: i32, fetched: Option<SwapiPlanet>) -> (r: Step)
    ensures
        r == after_fetch_step(id, fetched),
{
    match fetched {
        None => Step::Done(LookupOutcome::NotFound),
        Some(c) => Step::Insert(NewPlanet::from_fetched(id, c)),
    }
}

/// Step after the store answered the insert: the stored row is published,
/// a store failure ends the lookup with nothing published.
pub fn after_insert(inserted: Result<Planet, StoreError>) -> (r: Step)
    ensures
        r == after_insert_step(inserted),
{
    match inserted {
        Err(_) => Step::Done(LookupOutcome::InternalError),
        Ok(p) => Step::Publish(p),
    }
}

/// Step after the stored row went out to the subscribers: whatever became of
/// each delivery, the lookup answers with that row.
pub fn after_publish(published: Planet) -> (r: Step)
    ensures
        r == after_publish_step(published),
{
    Step::Done(LookupOutcome::Found(published))
}

impl LookupOutcome {
    /// The HTTP status the outcome is answered with.
    pub fn status_code(&self) -> (r: u16)
        ensures
            self is Found ==> r == 200,
            self is NotFound ==> r == 404,
            self is InternalError ==> r == 500,
    {
        match self {
            LookupOutcome::Found(_) => 200,
            LookupOutcome::NotFound => 404,
            LookupOutcome::InternalError => 500,
        }
    }
}

/// The step that follows `step` when the store answers finds with `stored`,
/// the remote catalog answers with `fetched` and the store answers an insert
/// of a candidate `c` with `inserted(c)`.
pub open spec fn next_step(
    step: Step,
    stored: Result<Option<Planet>, StoreError>,
    fetched: Option<SwapiPlanet>,
    inserted: spec_fn(NewPlanet) -> Result<Planet, StoreError>,
) -> Step {
    match step {
        Step::FindStored(id) => after_find_step(id, stored),
        Step::Fetch(id) => after_fetch_step(id, fetched),
        Step::Insert(c) => after_insert_step(inserted(c)),
        Step::Publish(p) => after_publish_step(p),
        Step::Done(o) => Step::Done(o),
    }
}

/// The steps taken from `step` on, for at most `fuel` more steps.
pub open spec fn run_from(
    step: Step,
    stored: Result<Option<Planet>, StoreError>,
    fetched: Option<SwapiPlanet>,
    inserted: spec_fn(NewPlanet) -> Result<Planet, StoreError>,
    fuel: nat,
) -> Seq<Step>
    decreases fuel,
{
    if fuel == 0 || step is Done {
        seq![step]
    } else {
        seq![step] + run_from(next_step(step, stored, fetched, inserted), stored, fetched, inserted, (fuel - 1) as nat)
    }
}

/// Every step of a whole lookup of `id`, the last one its answer. A lookup
/// takes at most five steps.
pub open spec fn lookup_trace(
    id: i32,
    bypass: bool,
    stored: Result<Option<Planet>, StoreError>,
    fetched: Option<SwapiPlanet>,
    inserted: spec_fn(NewPlanet) -> Result<Planet, StoreError>,
) -> Seq<Step> {
    run_from(start_step(id, bypass), stored, fetched, inserted, 4)
}

/// A lookup without bypass of an id the store holds answers with the stored
/// record after asking the store once: the remote catalog is not asked and
/// nothing is published.
pub proof fn lemma_stored_record_served(
    id: i32,
    p: Planet,
    fetched: Option<SwapiPlanet>,
    inserted: spec_fn(NewPlanet) -> Result<Planet, StoreError>,
)
    ensures
        lookup_trace(id, false, Ok(Some(p)), fetched, inserted)
            == seq![Step::FindStored(id), Step::Done(LookupOutcome::Found(p))],
        forall|k: int|
            0 <= k < lookup_trace(id, false, Ok(Some(p)), fetched, inserted).len() ==> {
                &&& !(#[trigger] lookup_trace(id, false, Ok(Some(p)), fetched, inserted)[k] is Fetch)
                &&& !(lookup_trace(id, false, Ok(Some(p)), fetched, inserted)[k] is Publish)
            },
{
    reveal_with_fuel(run_from, 3);
    let t = lookup_trace(id, false, Ok(Some(p)), fetched, inserted);
    assert(t =~= seq![Step::FindStored(id), Step::Done(LookupOutcome::Found(p))]);
}

/// With bypass, a lookup asks the remote catalog first, whatever the store
/// holds, and never asks the store for a record.
pub proof fn lemma_bypass_always_fetches(
    id: i32,
    stored: Result<Option<Planet>, StoreError>,
    fetched: Option<SwapiPlanet>,
    inserted: spec_fn(NewPlanet) -> Result<Planet, StoreError>,
)
    ensures
        lookup_trace(id, true, stored, fetched, inserted)[0] == Step::Fetch(id),
        forall|k: int|
            0 <= k < lookup_trace(id, true, stored, fetched, inserted).len()
                ==> !(#[trigger] lookup_trace(id, true, stored, fetched, inserted)[k] is FindStored),
{
    reveal_with_fuel(run_from, 5);
    let t = lookup_trace(id, true, stored, fetched, inserted);
    match fetched {
        None => {
            assert(t =~= seq![Step::Fetch(id), Step::Done(LookupOutcome::NotFound)]);
        },
        Some(c) => {
            let cand = candidate_of(id, c);
            match inserted(cand) {
                Ok(q) => {
                    assert(t =~= seq![
                        Step::Fetch(id),
                        Step::Insert(cand),
                        Step::Publish(q),
                        Step::Done(LookupOutcome::Found(q)),
                    ]);
                },
                Err(_) => {
                    assert(t =~= seq![
                        Step::Fetch(id),
                        Step::Insert(cand),
                        Step::Done(LookupOutcome::InternalError),
                    ]);
                },
            }
        },
    }
}

/// When the remote catalog gives nothing, a lookup inserts nothing and
/// publishes nothing; if it got as far as asking the catalog, it answers
/// not-found.
pub proof fn lemma_absent_fetch_not_found(
    id: i32,
    bypass: bool,
    stored: Result<Option<Planet>, StoreError>,
    inserted: spec_fn(NewPlanet) -> Result<Planet, StoreError>,
)
    ensures
        forall|k: int|
            0 <= k < lookup_trace(id, bypass, stored, None, inserted).len() ==> {
                &&& !(#[trigger] lookup_trace(id, bypass, stored, None, inserted)[k] is Insert)
                &&& !(lookup_trace(id, bypass, stored, None, inserted)[k] is Publish)
            },
        bypass || stored == Ok::<Option<Planet>, StoreError>(None) ==> lookup_trace(
            id,
            bypass,
            stored,
            None,
            inserted,
        ).last() == Step::Done(LookupOutcome::NotFound),
{
    reveal_with_fuel(run_from, 4);
    let t = lookup_trace(id, bypass, stored, None, inserted);
    if bypass {
        assert(t =~= seq![Step::Fetch(id), Step::Done(LookupOutcome::NotFound)]);
    } else {
        match stored {
            Ok(Some(p)) => {
                assert(t =~= seq![Step::FindStored(id), Step::Done(LookupOutcome::Found(p))]);
            },
            Ok(None) => {
                assert(t =~= seq![
                    Step::FindStored(id),
                    Step::Fetch(id),
                    Step::Done(LookupOutcome::NotFound),
                ]);
            },
            Err(_) => {
                assert(t =~= seq![Step::FindStored(id), Step::Done(LookupOutcome::InternalError)]);
            },
        }
    }
}

/// The steps a lookup takes before it asks the remote catalog, when it does.
pub open spec fn before_fetch(id: i32, bypass: bool) -> Seq<Step> {
    if bypass {
        Seq::empty()
    } else {
        seq![Step::FindStored(id)]
    }
}

/// When the remote catalog gives a candidate, the lookup inserts exactly that
/// candidate, keyed by the requested id, once. If the store accepts it, the
/// row the store returned is what is published, after the insert, and what
/// the lookup answers; if the store fails, nothing is published.
pub proof fn lemma_fetched_candidate_stored_once(
    id: i32,
    bypass: bool,
    stored: Result<Option<Planet>, StoreError>,
    fetched: SwapiPlanet,
    inserted: spec_fn(NewPlanet) -> Result<Planet, StoreError>,
)
    requires
        bypass || stored == Ok::<Option<Planet>, StoreError>(None),
    ensures
        inserted(candidate_of(id, fetched)) is Ok ==> lookup_trace(id, bypass, stored, Some(fetched), inserted)
            == before_fetch(id, bypass) + seq![
                Step::Fetch(id),
                Step::Insert(candidate_of(id, fetched)),
                Step::Publish(inserted(candidate_of(id, fetched))->Ok_0),
                Step::Done(LookupOutcome::Found(inserted(candidate_of(id, fetched))->Ok_0)),
            ],
        inserted(candidate_of(id, fetched)) is Err ==> lookup_trace(id, bypass, stored, Some(fetched), inserted)
            == before_fetch(id, bypass) + seq![
                Step::Fetch(id),
                Step::Insert(candidate_of(id, fetched)),
                Step::Done(LookupOutcome::InternalError),
            ],
{
    reveal_with_fuel(run_from, 5);
    let t = lookup_trace(id, bypass, stored, Some(fetched), inserted);
    let cand = candidate_of(id, fetched);
    match inserted(cand) {
        Ok(q) => {
            assert(t =~= before_fetch(id, bypass) + seq![
                Step::Fetch(id),
                Step::Insert(cand),
                Step::Publish(q),
                Step::Done(LookupOutcome::Found(q)),
            ]);
        },
        Err(_) => {
            assert(t =~= before_fetch(id, bypass) + seq![
                Step::Fetch(id),
                Step::Insert(cand),
                Step::Done(LookupOutcome::InternalError),
            ]);
        },
    }
}

} // verus!
