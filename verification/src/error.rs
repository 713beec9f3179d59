use vstd::prelude::*;

verus! {

/// The error kinds every fallible operation of this crate reports.
///
/// `Database` and `Network` exist for the storage and networking
/// collaborators that sit outside this crate; the manager itself only
/// produces `Configuration` (no usable browser install, bad profile
/// directory), `Cdp` (the spawned process could not be started) and
/// `NotFound` (an operation named a tab id that is not tracked).
#[derive(Debug, PartialEq, Eq)]
pub enum BrowserError {
    Database(String),
    Cdp(String),
    Network(String),
    Configuration(String),
    NotFound(String),
}

impl Clone for BrowserError {
    fn clone(&self) -> (r: Self)
        ensures
            r == *self,
    {
        match self {
            BrowserError::Database(m) => BrowserError::Database(m.clone()),
            BrowserError::Cdp(m) => BrowserError::Cdp(m.clone()),
            BrowserError::Network(m) => BrowserError::Network(m.clone()),
            BrowserError::Configuration(m) => BrowserError::Configuration(m.clone()),
            BrowserError::NotFound(m) => BrowserError::NotFound(m.clone()),
        }
    }
}

impl BrowserError {
    /// The human-readable text of the error, prefixed with its kind.
    pub fn message(&self) -> (r: String)
        ensures
            r@ == match self {
                BrowserError::Database(m) => "Database error: "@ + m@,
                BrowserError::Cdp(m) => "CDP error: "@ + m@,
                BrowserError::Network(m) => "Network error: "@ + m@,
                BrowserError::Configuration(m) => "Configuration error: "@ + m@,
                BrowserError::NotFound(m) => "Not found: "@ + m@,
            },
    {
        match self {
            BrowserError::Database(m) => "Database error: ".to_owned().concat(m.as_str()),
            BrowserError::Cdp(m) => "CDP error: ".to_owned().concat(m.as_str()),
            BrowserError::Network(m) => "Network error: ".to_owned().concat(m.as_str()),
            BrowserError::Configuration(m) => "Configuration error: ".to_owned().concat(m.as_str()),
            BrowserError::NotFound(m) => "Not found: ".to_owned().concat(m.as_str()),
        }
    }
}

} // verus!
