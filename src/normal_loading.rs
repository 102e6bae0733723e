use vstd::prelude::*;

verus! {

/// The top-level section of a configuration that is loaded once and never reloaded.
#[derive(Clone, Debug)]
pub struct Global {
    pub cool_string: String,
}

/// A configuration that is loaded once, at startup.
#[derive(Debug)]
pub struct Config {
    pub global: Global,
}

impl Config {
    /// The configuration made of the decoded top-level section.
    pub fn new(global: Global) -> (r: Config)
        ensures
            r.global == global,
    {
        Config { global }
    }
}

} // verus!
