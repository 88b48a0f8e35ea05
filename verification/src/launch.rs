use vstd::prelude::*;

verus! {

/// The `url` crate's parsed URL; opaque here.
#[verifier::external_type_specification]
#[verifier::external_body]
pub struct ExUrl(url::Url);

/// The `url` crate's reason for refusing a URL; opaque here.
#[verifier::external_type_specification]
#[verifier::external_body]
pub struct ExUrlParseError(url::ParseError);

/// What `url::Url::parse` returns for the text: the parsed absolute URL or
/// the reason it is refused.
pub uninterp spec fn url_parse(input: Seq<char>) -> Result<url::Url, url::ParseError>;

/// Calls `url::Url::parse`. Claimed: its result (the URL or the error) is
/// `url_parse` of the input text, a function of that text alone. What the
/// parsed URL holds is not spelled out.
#[verifier::external_body]
fn parse_url(input: &str) -> (r: Result<url::Url, url::ParseError>)
    ensures
        r == url_parse(input@),
{
    url::Url::parse(input)
}

/// Why the kiosk cannot start.
pub enum LaunchError {
    /// The target URL does not parse; the kiosk exits with status 1.
    InvalidUrl { input: String, reason: url::ParseError },
}

/// The target URL given the result of parsing `input`: the parsed URL, or an
/// error that carries the input and the parser's reason.
pub fn target_url_from(input: &str, parsed: Result<url::Url, url::ParseError>) -> (r: Result<
    url::Url,
    LaunchError,
>)
    ensures
        r is Ok <==> parsed is Ok,
        r matches Ok(u) ==> parsed == Ok::<url::Url, url::ParseError>(u),
        r matches Err(LaunchError::InvalidUrl { input: i, reason: e }) ==> i@ == input@ && parsed
            == Err::<url::Url, url::ParseError>(e),
{
    match parsed {
        Ok(u) => Ok(u),
        Err(e) => Err(LaunchError::InvalidUrl { input: String::from_str(input), reason: e }),
    }
}

/// Parses the kiosk's target URL: the parsed URL, or `InvalidUrl` with the
/// input and the parser's reason.
pub fn target_url(input: &str) -> (r: Result<url::Url, LaunchError>)
    ensures
        r is Ok <==> url_parse(input@) is Ok,
        r matches Ok(u) ==> url_parse(input@) == Ok::<url::Url, url::ParseError>(u),
        r matches Err(LaunchError::InvalidUrl { input: i, reason: e }) ==> i@ == input@
            && url_parse(input@) == Err::<url::Url, url::ParseError>(e),
{
    let parsed = parse_url(input);
    target_url_from(input, parsed)
}

} // verus!
