use vstd::prelude::*;

verus! {

/// Connection settings of the record store.
pub struct DatabaseSettings {
    pub url: String,
}

/// Settings the service is started with.
pub struct Settings {
    pub db: DatabaseSettings,
}

impl Settings {
    /// Settings that point the record store at `url`.
    pub fn with_database_url(url: String) -> (r: Settings)
        ensures
            r.db.url@ == url@,
    {
        Settings { db: DatabaseSettings { url } }
    }
}

} // verus!
