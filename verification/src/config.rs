//! Process-wide configuration, supplied once at startup and read-only after:
//! listen address, storage connection string, token signing secret, allowed
//! cross-origin sources. Reading it from the environment is the surrounding
//! program's business; the core only carries the values.

use vstd::prelude::*;

verus! {

pub struct AppConfig {
    pub host: String,
    pub port: u16,
    pub database_url: String,
    pub jwt_secret: String,
    pub cors_origins: Vec<String>,
}

} // verus!
