use planet_lookup::config::Settings;
use planet_lookup::models::{NewPlanet, Planet, SwapiPlanet};
use planet_lookup::store::MemoryStore;

fn candidate(swapi_id: i32, name: &str) -> NewPlanet {
    NewPlanet {
        swapi_id,
        name: name.into(),
        climate: "temperate".into(),
        terrain: "grasslands".into(),
        orbital_period_days: "364".into(),
    }
}

#[test]
fn insert_assigns_increasing_surrogate_ids() {
    let mut s = MemoryStore::new();
    let a = s.insert(candidate(2, "Alderaan")).unwrap();
    let b = s.insert(candidate(3, "Yavin IV")).unwrap();
    assert_eq!(a.id, 1);
    assert_eq!(b.id, 2);
    assert_eq!(b.swapi_id, 3);
    assert_eq!(b.name, "Yavin IV");
    assert_eq!(s.len(), 2);
}

#[test]
fn find_returns_first_match_or_none() {
    let mut s = MemoryStore::new();
    assert_eq!(s.find(2), None);
    s.insert(candidate(2, "Alderaan")).unwrap();
    s.insert(candidate(2, "Alderaan again")).unwrap();
    let found = s.find(2).unwrap();
    assert_eq!(found.id, 1);
    assert_eq!(found.name, "Alderaan");
    assert_eq!(s.find(7), None);
}

#[test]
fn from_fetched_maps_fields() {
    let c = NewPlanet::from_fetched(
        5,
        SwapiPlanet {
            name: "Dagobah".into(),
            climate: "murky".into(),
            terrain: "swamp".into(),
            orbital_period_days: "341".into(),
        },
    );
    assert_eq!(c, candidate_like(5, "Dagobah", "murky", "swamp", "341"));
}

fn candidate_like(swapi_id: i32, name: &str, climate: &str, terrain: &str, period: &str) -> NewPlanet {
    NewPlanet {
        swapi_id,
        name: name.into(),
        climate: climate.into(),
        terrain: terrain.into(),
        orbital_period_days: period.into(),
    }
}

#[test]
fn stored_row_keeps_candidate_fields() {
    let row = Planet::stored(11, candidate(4, "Hoth"));
    assert_eq!(row.id, 11);
    assert_eq!(row.swapi_id, 4);
    assert_eq!(row.name, "Hoth");
    assert_eq!(row.copied(), row);
}

#[test]
fn settings_hold_database_url() {
    let s = Settings::with_database_url("mysql://localhost/planets".to_string());
    assert_eq!(s.db.url, "mysql://localhost/planets");
}
