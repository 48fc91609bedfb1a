use vstd::prelude::*;

verus! {

/// Global settings of the application, read once at start.
#[derive(Debug)]
pub struct ConfigContext {
    pub title: String,
    pub api_host: String,
}

} // verus!
