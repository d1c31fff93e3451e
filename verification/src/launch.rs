//! The settings the service starts with.

use vstd::prelude::*;

verus! {

/// How the service connects to its database.
#[derive(Debug, PartialEq, Clone)]
pub struct DatabaseConfig {
    pub url: String,
    pub pool_size: u32,
    pub timeout: u32,
}

/// The database settings of the service: the given URL, a pool of 10
/// connections and a 5 second timeout.
pub fn database_config(url: String) -> (config: DatabaseConfig)
    ensures
        config.url == url,
        config.pool_size == 10,
        config.timeout == 5,
{
    DatabaseConfig { url, pool_size: 10, timeout: 5 }
}

/// Which temporary directory a `temp_dir` setting asks for.
pub open spec fn temp_dir_choice(setting: Result<Option<String>, String>) -> Option<String> {
    match setting {
        Ok(Some(p)) => Some(p),
        _ => None,
    }
}

/// The directory for temporary files that the service makes sure exists:
/// the `temp_dir` setting when it is present and a string, else none.
pub fn temp_dir_path(setting: Result<Option<String>, String>) -> (path: Option<String>)
    ensures
        path == (match setting {
            Ok(Some(p)) => Some(p),
            _ => None::<String>,
        }),
        path == temp_dir_choice(setting),
{
    match setting {
        Ok(Some(p)) => Some(p),
        _ => None,
    }
}

/// The temporary directory is exactly the `temp_dir` setting when it is a
/// string; a setting that is missing, or not a string, asks for none.
pub proof fn temp_dir_law(dir: String, error: String)
    ensures
        temp_dir_choice(Ok(Some(dir))) == Some(dir),
        temp_dir_choice(Ok(None)) == None::<String>,
        temp_dir_choice(Err(error)) == None::<String>,
{
}

} // verus!
