//! The pre-resolved directory configuration handed to every request.
//!
//! The paths are resolved once at startup, outside the library, and are
//! read-only afterwards; the library carries them as plain strings.

use vstd::prelude::*;

verus! {

pub struct PathSettings {
    pub logging_path: String,
    pub settings_database_path: String,
    pub database_path: String,
}

impl Clone for PathSettings {
    fn clone(&self) -> (r: Self)
        ensures
            r == *self,
    {
        PathSettings {
            logging_path: self.logging_path.clone(),
            settings_database_path: self.settings_database_path.clone(),
            database_path: self.database_path.clone(),
        }
    }
}

} // verus!
