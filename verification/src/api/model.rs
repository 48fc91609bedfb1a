use std::collections::HashMap;
use std::path::PathBuf;
use vstd::prelude::*;

verus! {

/// `PathBuf` is only carried through: nothing here reads inside it.
#[verifier::external_type_specification]
#[verifier::external_body]
pub struct ExPathBuf(PathBuf);

/// One package as the index server lists it (remote fields) or as the local
/// `dpm list` reports it (local fields too).
#[derive(Debug, Clone)]
pub struct DpmCellInfo {
    pub name: String,
    pub ver: String,
    pub descript: String,
    pub license: Option<String>,
    pub md5: Option<String>,
    pub cont_size: Option<u64>,
    pub url: Option<String>,
    pub runtime: String,
    pub min_runtime_ver: Option<u32>,
    pub max_runtime_ver: Option<u32>,
    pub scripts: Option<HashMap<String, String>>,
    pub install_path: Option<PathBuf>,
}

/// State of the request for the package index.
#[derive(PartialEq, Eq, Structural, Clone, Copy, Debug)]
pub enum ERequestStatu {
    Idle,
    Requesting,
    Error,
}

/// State of the last `dpm` command that was run.
#[derive(PartialEq, Eq, Structural, Clone, Copy, Debug)]
pub enum ECmdStatu {
    Idle,
    Running,
    Error,
}

} // verus!
