use vstd::prelude::*;

verus! {

/// Settings of the service, read from the environment at startup.
pub struct Config {
    /// Connection URL of the document store.
    pub mongodb_url: String,
}

impl Config {
    pub fn new(mongodb_url: String) -> (r: Config)
        ensures
            r.mongodb_url == mongodb_url,
    {
        Config { mongodb_url }
    }
}

} // verus!
