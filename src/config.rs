//! Settings read from the environment.
use vstd::prelude::*;

verus! {

/// An environment variable the server reads, with its default if it has one.
pub enum Arg {
    NoDefault(&'static str),
    WithDefault(&'static str, &'static str),
}

impl Arg {
    /// The name of the variable.
    pub fn name(&self) -> (r: String)
        ensures
            r@ == match self {
                Arg::NoDefault(n) => n@,
                Arg::WithDefault(n, _) => n@,
            },
    {
        match self {
            Arg::NoDefault(name) | Arg::WithDefault(name, _) => (*name).to_owned(),
        }
    }

    /// The value to use where the variable is not set, if there is one.
    pub fn default_value(&self) -> (r: Option<&'static str>)
        ensures
            r == match self {
                Arg::NoDefault(_) => None,
                Arg::WithDefault(_, d) => Some(*d),
            },
    {
        match self {
            Arg::NoDefault(_) => None,
            Arg::WithDefault(_, d) => Some(*d),
        }
    }
}

} // verus!
