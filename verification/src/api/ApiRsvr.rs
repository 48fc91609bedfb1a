use crate::error::ApiError;
use vstd::prelude::*;
use vstd::string::StringExecFns;

verus! {

/// What `url::Url::parse` makes of a text: the serialization of the parsed
/// URL (`Url::as_str`), or `None` where the text is no absolute URL.
pub uninterp spec fn url_parse(input: Seq<char>) -> Option<Seq<char>>;

/// Calls `url::Url::parse` on `input` and hands back the serialization of the
/// result (`Url::as_str`), or the parser's error. Claimed: the result is the
/// one `url_parse` names for `input`, `Ok` exactly where it is `Some`.
#[verifier::external_body]
fn parse_url(input: &str) -> (r: Result<String, url::ParseError>)
    ensures
        match r {
            Ok(s) => url_parse(input@) == Some(s@),
            Err(_) => url_parse(input@) is None,
        },
{
    match url::Url::parse(input) {
        Ok(u) => Ok(u.as_str().to_string()),
        Err(e) => Err(e),
    }
}

/// The address the index server is asked for when the host is not configured.
pub open spec fn default_host() -> Seq<char> {
    "https://api.picboo.ink"@
}

/// The text handed to the URL parser for `path` under `host`.
pub open spec fn joined(host: Seq<char>, path: Seq<char>) -> Seq<char> {
    host + "/"@ + path
}

/// The host of the index server: the value of `DPM_HOST` when it is set,
/// else the default server.
pub fn core_host(dpm_host: Option<String>) -> (r: String)
    ensures
        match dpm_host {
            Some(h) => r@ == h@,
            None => r@ == default_host(),
        },
        dpm_host is None ==> r@ == "https://api.picboo.ink"@,
{
    match dpm_host {
        Some(h) => h,
        None => "https://api.picboo.ink".to_owned(),
    }
}

fn join_host_path(host: &str, path: &str) -> (r: String)
    ensures
        r@ == joined(host@, path@),
        r@ == host@ + "/"@ + path@,
{
    host.to_owned().concat("/").concat(path)
}

/// The address of `path` on the index server `host`, as the URL parser
/// writes it out. The joined text must be an absolute URL.
pub fn url(host: &str, path: &str) -> (r: String)
    requires
        url_parse(joined(host@, path@)) is Some,
    ensures
        url_parse(joined(host@, path@)) == Some(r@),
        url_parse(host@ + "/"@ + path@) == Some(r@),
{
    let u_str = join_host_path(host, path);
    match parse_url(u_str.as_str()) {
        Ok(s) => s,
        Err(_) => {
            proof {
                assert(false);
            }
            String::new()
        },
    }
}

/// Prepares the request for the package list of `pm_type`: the address to
/// fetch, or the URL error when `host` and `pm_type` do not make one.
pub fn get_pmlist(host: &str, pm_type: &str) -> (r: Result<String, ApiError>)
    ensures
        match url_parse(joined(host@, pm_type@)) {
            Some(u) => r matches Ok(s) && s@ == u,
            None => r matches Err(ApiError::UrlError(_)),
        },
        r matches Ok(s) ==> url_parse(host@ + "/"@ + pm_type@) == Some(s@),
        r is Err ==> url_parse(host@ + "/"@ + pm_type@) is None && r matches Err(
            ApiError::UrlError(_),
        ),
{
    let u_str = join_host_path(host, pm_type);
    match parse_url(u_str.as_str()) {
        Ok(_) => Ok(url(host, pm_type)),
        Err(e) => Err(ApiError::UrlError(e)),
    }
}

} // verus!
