use vstd::prelude::*;

verus! {

#[verifier::external_type_specification]
#[verifier::external_body]
pub struct ExParseError(url::ParseError);

#[verifier::external_type_specification]
#[verifier::external_body]
pub struct ExUreqError(ureq::Error);

#[verifier::external_type_specification]
#[verifier::external_body]
pub struct ExIoError(std::io::Error);

/// Everything that can go wrong while asking the index server for a list.
#[derive(Debug)]
pub enum ApiError {
    ApiFailed(String),
    UrlError(url::ParseError),
    ReqError(ureq::Error),
    SerdeJson(std::io::Error),
}

} // verus!
