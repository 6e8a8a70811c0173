//! Upstream discovery and the derivation of the mirror address.
//!
//! The upstream address is the first hosted-git URL in the listing of a
//! working copy's remotes. The mirror address keeps the upstream path, query
//! and fragment, puts the path under the mirror namespace, and points at the
//! gateway's scheme, host and port.

use crate::command::{CommandOutput, OutputView};
use crate::record::text_of;
use regex::Regex;
use url::Url;
use vstd::prelude::*;
use vstd::string::*;

verus! {

/// The pattern an upstream address must match, in the syntax of the `regex`
/// crate.
pub const UPSTREAM_PATTERN: &'static str = "https://github\\.com/[^\\s]+";

/// Scheme of the mirror gateway.
pub const MIRROR_SCHEME: &'static str = "http";

/// Host of the mirror gateway.
pub const MIRROR_HOST: &'static str = "localhost";

/// Port of the mirror gateway.
pub const MIRROR_PORT: u16 = 8000;

/// Path segment under which every mirrored repository lives on the gateway.
pub const MIRROR_NAMESPACE: &'static str = "/third-part";

/// Longest text, in bytes of UTF-8, that is handed to the URL parser: a
/// sixty-fourth of the `u32::MAX` positions that the parser can count. Parsing
/// and the setters can lengthen a text, by percent-encoding and by the ASCII
/// form of a host name; the margin keeps every text they can make of texts
/// within this limit inside what the parser can count.
pub const MAX_URL_BYTES: usize = 67108863;

/// Length of `text` in bytes of UTF-8.
pub open spec fn byte_len(text: Seq<char>) -> nat {
    vstd::utf8::encode_utf8(text).len()
}

/// Whether `text` is short enough for the URL parser.
pub open spec fn fits(text: Seq<char>) -> bool {
    byte_len(text) <= MAX_URL_BYTES
}

/// Whether `Regex::new` of the `regex` crate accepts `pattern` on a machine
/// whose pointers are `pointer_bits` wide. The width is an argument because
/// the matcher holds the compiled pattern to a size limit in bytes, and the
/// states it counts are twice as large with pointers of 64 bits as with
/// pointers of 32.
pub uninterp spec fn regex_accepts(pattern: Seq<char>, pointer_bits: u32) -> bool;

/// What `Regex::find` of the `regex` crate returns for the regex compiled from
/// `pattern` on `haystack`: the text of the leftmost match, if there is one.
pub uninterp spec fn regex_first_match(pattern: Seq<char>, haystack: Seq<char>) -> Option<Seq<char>>;

/// The serialization of the URL that `Url::parse` of the `url` crate returns
/// for `input`; `None` where it returns an error.
pub uninterp spec fn url_serialization(input: Seq<char>) -> Option<Seq<char>>;

/// What `Url::path` returns for the URL parsed from `url`; `None` where `url`
/// does not parse.
pub uninterp spec fn url_path(url: Seq<char>) -> Option<Seq<char>>;

/// The serialization of the URL parsed from `url` after `Url::set_host` with
/// `host`; `None` where `url` does not parse or the host is refused.
pub uninterp spec fn url_with_host(url: Seq<char>, host: Seq<char>) -> Option<Seq<char>>;

/// The serialization of the URL parsed from `url` after `Url::set_scheme` with
/// `scheme`; `None` where `url` does not parse or the scheme is refused.
pub uninterp spec fn url_with_scheme(url: Seq<char>, scheme: Seq<char>) -> Option<Seq<char>>;

/// The serialization of the URL parsed from `url` after `Url::set_port` with
/// `port`; `None` where `url` does not parse or the port is refused.
pub uninterp spec fn url_with_port(url: Seq<char>, port: u16) -> Option<Seq<char>>;

/// The serialization of the URL parsed from `url` after `Url::set_path` with
/// `path`; `None` where `url` does not parse.
pub uninterp spec fn url_with_path(url: Seq<char>, path: Seq<char>) -> Option<Seq<char>>;

/// Compiles `pattern` with `Regex::new` and searches `haystack` with
/// `Regex::find`. Trusted: the result is `Ok` exactly where `Regex::new`
/// accepts the pattern on this machine, and then holds the text of the match
/// that `Regex::find` reports.
#[verifier::external_body]
fn first_match(pattern: &str, haystack: &str) -> (found: Result<Option<String>, ()>)
    ensures
        found is Ok <==> regex_accepts(pattern@, usize::BITS),
        found matches Ok(hit) ==> text_of(hit) == regex_first_match(pattern@, haystack@),
{
    match Regex::new(pattern) {
        Ok(compiled) => Ok(compiled.find(haystack).map(|hit| hit.as_str().to_owned())),
        Err(_) => Err(()),
    }
}

/// Parses `input` with `Url::parse` and returns the URL's serialization.
/// Trusted: the result is the function of `input` named `url_serialization`.
#[verifier::external_body]
fn parse_url(input: &str) -> (url: Option<String>)
    requires
        fits(input@),
    ensures
        text_of(url) == url_serialization(input@),
{
    match Url::parse(input) {
        Ok(parsed) => Some(String::from(parsed)),
        Err(_) => None,
    }
}

/// Reads the path of the URL written in `url` with `Url::path`. Trusted: the
/// result is the function of `url` named `url_path`.
#[verifier::external_body]
fn path_of_url(url: &str) -> (path: Option<String>)
    requires
        fits(url@),
    ensures
        text_of(path) == url_path(url@),
{
    match Url::parse(url) {
        Ok(parsed) => Some(parsed.path().to_owned()),
        Err(_) => None,
    }
}

/// Replaces the host of the URL written in `url` with `Url::set_host`.
/// Trusted: the result is the function of `url` and `host` named
/// `url_with_host`.
#[verifier::external_body]
fn replace_host(url: &str, host: &str) -> (replaced: Option<String>)
    requires
        fits(url@),
        fits(host@),
    ensures
        text_of(replaced) == url_with_host(url@, host@),
{
    let mut parsed = Url::parse(url).ok()?;
    parsed.set_host(Some(host)).ok()?;
    Some(String::from(parsed))
}

/// Replaces the scheme of the URL written in `url` with `Url::set_scheme`.
/// Trusted: the result is the function of `url` and `scheme` named
/// `url_with_scheme`.
#[verifier::external_body]
fn replace_scheme(url: &str, scheme: &str) -> (replaced: Option<String>)
    requires
        fits(url@),
        fits(scheme@),
    ensures
        text_of(replaced) == url_with_scheme(url@, scheme@),
{
    let mut parsed = Url::parse(url).ok()?;
    parsed.set_scheme(scheme).ok()?;
    Some(String::from(parsed))
}

/// Replaces the port of the URL written in `url` with `Url::set_port`.
/// Trusted: the result is the function of `url` and `port` named
/// `url_with_port`.
#[verifier::external_body]
fn replace_port(url: &str, port: u16) -> (replaced: Option<String>)
    requires
        fits(url@),
    ensures
        text_of(replaced) == url_with_port(url@, port),
{
    let mut parsed = Url::parse(url).ok()?;
    parsed.set_port(Some(port)).ok()?;
    Some(String::from(parsed))
}

/// Replaces the path of the URL written in `url` with `Url::set_path`.
/// Trusted: the result is the function of `url` and `path` named
/// `url_with_path`.
#[verifier::external_body]
fn replace_path(url: &str, path: &str) -> (replaced: Option<String>)
    requires
        fits(url@),
        fits(path@),
    ensures
        text_of(replaced) == url_with_path(url@, path@),
{
    let mut parsed = Url::parse(url).ok()?;
    parsed.set_path(path);
    Some(String::from(parsed))
}

/// Why no mirror address could be derived from an upstream address.
#[derive(Clone, Copy, Debug, PartialEq, Eq, Structural)]
pub enum ResolveError {
    /// The upstream pattern is not a regular expression the matcher accepts.
    PatternRejected,
    /// A text is longer than `MAX_URL_BYTES`.
    TooLong,
    /// The upstream address is not an absolute URL.
    Unparsable,
    /// The upstream address cannot carry the gateway's host, scheme, port or
    /// a path.
    Rejected,
}

/// The addresses derived from one upstream address.
#[derive(Debug, PartialEq, Eq)]
pub struct Resolution {
    /// The upstream address in its normal form.
    pub upstream_url: String,
    /// The upstream path under the mirror namespace.
    pub mirror_path: String,
    /// The address on the mirror gateway.
    pub mirror_url: String,
}

/// The mathematical content of a [`Resolution`].
pub ghost struct ResolutionView {
    pub upstream_url: Seq<char>,
    pub mirror_path: Seq<char>,
    pub mirror_url: Seq<char>,
}

impl View for Resolution {
    type V = ResolutionView;

    open spec fn view(&self) -> ResolutionView {
        ResolutionView {
            upstream_url: self.upstream_url@,
            mirror_path: self.mirror_path@,
            mirror_url: self.mirror_url@,
        }
    }
}

/// The content of a resolution result.
pub open spec fn outcome_view(outcome: Result<Resolution, ResolveError>) -> Result<
    ResolutionView,
    ResolveError,
> {
    match outcome {
        Ok(resolution) => Ok(resolution@),
        Err(error) => Err(error),
    }
}

/// The upstream path `path` under the mirror namespace.
pub open spec fn mirror_path_of(path: Seq<char>) -> Seq<char> {
    MIRROR_NAMESPACE@ + path
}

/// One step of a derivation: the step's result if the URL library produced
/// one that is short enough to go on with.
pub open spec fn accepted(step: Option<Seq<char>>) -> Result<Seq<char>, ResolveError> {
    match step {
        None => Err(ResolveError::Rejected),
        Some(text) => if fits(text) {
            Ok(text)
        } else {
            Err(ResolveError::TooLong)
        },
    }
}

/// The URL `url` moved to the gateway: its host, then its scheme, then its
/// port replaced by the gateway's.
pub open spec fn at_gateway(url: Seq<char>) -> Result<Seq<char>, ResolveError> {
    match accepted(url_with_host(url, MIRROR_HOST@)) {
        Err(error) => Err(error),
        Ok(hosted) => match accepted(url_with_scheme(hosted, MIRROR_SCHEME@)) {
            Err(error) => Err(error),
            Ok(schemed) => accepted(url_with_port(schemed, MIRROR_PORT)),
        },
    }
}

/// The addresses derived from an upstream address whose normal form is
/// `normal`: the path of the upstream address goes under the mirror
/// namespace, and the address itself goes to the gateway with that path.
pub open spec fn mirrored(normal: Seq<char>) -> Result<ResolutionView, ResolveError> {
    match url_path(normal) {
        None => Err(ResolveError::Unparsable),
        Some(path) => if !fits(mirror_path_of(path)) {
            Err(ResolveError::TooLong)
        } else {
            match at_gateway(normal) {
                Err(error) => Err(error),
                Ok(gateway) => match url_with_path(gateway, mirror_path_of(path)) {
                    None => Err(ResolveError::Rejected),
                    Some(mirror_url) => Ok(
                        ResolutionView {
                            upstream_url: normal,
                            mirror_path: mirror_path_of(path),
                            mirror_url,
                        },
                    ),
                },
            }
        },
    }
}

/// The addresses derived from the upstream address `upstream`, or the reason
/// why there are none. A function of `upstream` alone.
pub open spec fn resolution_of(upstream: Seq<char>) -> Result<ResolutionView, ResolveError> {
    if !fits(upstream) {
        Err(ResolveError::TooLong)
    } else {
        match url_serialization(upstream) {
            None => Err(ResolveError::Unparsable),
            Some(normal) => if fits(normal) {
                mirrored(normal)
            } else {
                Err(ResolveError::TooLong)
            },
        }
    }
}

/// Whether `text` is short enough for the URL parser.
pub fn within_limit(text: &str) -> (short: bool)
    ensures
        short == fits(text@),
{
    text.as_bytes().len() <= MAX_URL_BYTES
}

/// The gateway's constants are short enough for the URL parser.
proof fn lemma_constants_fit()
    ensures
        fits(MIRROR_HOST@),
        fits(MIRROR_SCHEME@),
{
    reveal_strlit("localhost");
    reveal_strlit("http");
    vstd::utf8::is_ascii_chars_encode_utf8(MIRROR_HOST@);
    vstd::utf8::is_ascii_chars_encode_utf8(MIRROR_SCHEME@);
}

/// Whether the matcher accepts `pattern` on this machine.
pub open spec fn accepts(pattern: Seq<char>) -> bool {
    regex_accepts(pattern, usize::BITS)
}

/// The outcome of searching `listing` for `pattern`: the first text that
/// matches, if the matcher accepts the pattern.
pub open spec fn search_of(pattern: Seq<char>, listing: Seq<char>) -> Result<
    Option<Seq<char>>,
    ResolveError,
> {
    if accepts(pattern) {
        Ok(regex_first_match(pattern, listing))
    } else {
        Err(ResolveError::PatternRejected)
    }
}

/// The content of a search result.
pub open spec fn search_view(found: Result<Option<String>, ResolveError>) -> Result<
    Option<Seq<char>>,
    ResolveError,
> {
    match found {
        Ok(hit) => Ok(text_of(hit)),
        Err(error) => Err(error),
    }
}

/// The first text in `listing` that matches `pattern`, a regular expression
/// in the syntax of the `regex` crate. A pattern that the matcher does not
/// accept gives `Err(PatternRejected)`.
pub fn find_matching(pattern: &str, listing: &str) -> (found: Result<Option<String>, ResolveError>)
    ensures
        search_view(found) == search_of(pattern@, listing@),
{
    match first_match(pattern, listing) {
        Ok(hit) => Ok(hit),
        Err(_) => Err(ResolveError::PatternRejected),
    }
}

/// The upstream address in the listing of a working copy's remotes: the first
/// text that matches [`UPSTREAM_PATTERN`]. `Ok(None)` means that the working
/// copy has no recognizable upstream.
pub fn find_upstream(listing: &str) -> (found: Result<Option<String>, ResolveError>)
    ensures
        search_view(found) == search_of(UPSTREAM_PATTERN@, listing@),
{
    find_matching(UPSTREAM_PATTERN, listing)
}

/// Puts an upstream path under the mirror namespace.
pub fn mirror_path(path: &str) -> (moved: String)
    ensures
        moved@ == mirror_path_of(path@),
{
    MIRROR_NAMESPACE.to_owned().concat(path)
}

/// Moves the URL `url` to the gateway. See [`at_gateway`].
fn move_to_gateway(url: &str) -> (moved: Result<String, ResolveError>)
    requires
        fits(url@),
    ensures
        moved matches Ok(text) ==> at_gateway(url@) == Ok::<Seq<char>, ResolveError>(text@),
        moved matches Err(error) ==> at_gateway(url@) == Err::<Seq<char>, ResolveError>(error),
{
    proof {
        lemma_constants_fit();
    }
    let hosted = match replace_host(url, MIRROR_HOST) {
        Some(text) => text,
        None => { return Err(ResolveError::Rejected); },
    };
    if !within_limit(hosted.as_str()) {
        return Err(ResolveError::TooLong);
    }
    let schemed = match replace_scheme(hosted.as_str(), MIRROR_SCHEME) {
        Some(text) => text,
        None => { return Err(ResolveError::Rejected); },
    };
    if !within_limit(schemed.as_str()) {
        return Err(ResolveError::TooLong);
    }
    let ported = match replace_port(schemed.as_str(), MIRROR_PORT) {
        Some(text) => text,
        None => { return Err(ResolveError::Rejected); },
    };
    if !within_limit(ported.as_str()) {
        return Err(ResolveError::TooLong);
    }
    Ok(ported)
}

/// Derives the mirror address of the upstream address `upstream`.
///
/// The upstream address is put in its normal form. The mirror address keeps
/// its path, query and fragment, with the path under [`MIRROR_NAMESPACE`],
/// and carries [`MIRROR_SCHEME`], [`MIRROR_HOST`] and [`MIRROR_PORT`]. The
/// result depends on `upstream` alone.
pub fn resolve(upstream: &str) -> (outcome: Result<Resolution, ResolveError>)
    ensures
        outcome_view(outcome) == resolution_of(upstream@),
{
    if !within_limit(upstream) {
        return Err(ResolveError::TooLong);
    }
    let normal = match parse_url(upstream) {
        Some(text) => text,
        None => { return Err(ResolveError::Unparsable); },
    };
    if !within_limit(normal.as_str()) {
        return Err(ResolveError::TooLong);
    }
    let path = match path_of_url(normal.as_str()) {
        Some(text) => text,
        None => { return Err(ResolveError::Unparsable); },
    };
    let namespaced = mirror_path(path.as_str());
    if !within_limit(namespaced.as_str()) {
        return Err(ResolveError::TooLong);
    }
    let gateway = match move_to_gateway(normal.as_str()) {
        Ok(text) => text,
        Err(error) => { return Err(error); },
    };
    match replace_path(gateway.as_str(), namespaced.as_str()) {
        Some(mirror_url) => Ok(Resolution { upstream_url: normal, mirror_path: namespaced, mirror_url }),
        None => Err(ResolveError::Rejected),
    }
}

impl ResolveError {
    /// The text recorded as a repository's error message for this error.
    pub open spec fn message_text(self) -> Seq<char> {
        match self {
            ResolveError::PatternRejected => "upstream pattern is not a valid regular expression"@,
            ResolveError::TooLong => "upstream address is too long"@,
            ResolveError::Unparsable => "upstream address is not an absolute URL"@,
            ResolveError::Rejected => "upstream address cannot be moved to the mirror gateway"@,
        }
    }

    /// The text recorded as a repository's error message for this error.
    pub fn message(&self) -> (text: String)
        ensures
            text@ == self.message_text(),
    {
        match self {
            ResolveError::PatternRejected => "upstream pattern is not a valid regular expression".to_owned(),
            ResolveError::TooLong => "upstream address is too long".to_owned(),
            ResolveError::Unparsable => "upstream address is not an absolute URL".to_owned(),
            ResolveError::Rejected => "upstream address cannot be moved to the mirror gateway".to_owned(),
        }
    }
}

/// What the listing of a working copy's remotes says about its upstream.
#[derive(Debug, PartialEq, Eq)]
pub enum Survey {
    /// The listing command itself failed; `message` is its standard error
    /// text, verbatim.
    ListingFailed { message: String },
    /// The search for an upstream address was refused, or the address found
    /// has no mirror address.
    Unresolvable { error: ResolveError },
    /// No remote points at a recognizable upstream.
    NoUpstream,
    /// The upstream address and the mirror address derived from it.
    Resolved { resolution: Resolution },
}

/// The mathematical content of a [`Survey`].
pub ghost enum SurveyView {
    ListingFailed { message: Seq<char> },
    Unresolvable { error: ResolveError },
    NoUpstream,
    Resolved { resolution: ResolutionView },
}

impl View for Survey {
    type V = SurveyView;

    open spec fn view(&self) -> SurveyView {
        match self {
            Survey::ListingFailed { message } => SurveyView::ListingFailed { message: message@ },
            Survey::Unresolvable { error } => SurveyView::Unresolvable { error: *error },
            Survey::NoUpstream => SurveyView::NoUpstream,
            Survey::Resolved { resolution } => SurveyView::Resolved { resolution: resolution@ },
        }
    }
}

/// What a listing says about the upstream: the failure of the listing
/// command, or else what the search for [`UPSTREAM_PATTERN`] in its standard
/// output and the resolution of the address found give.
pub open spec fn survey_of(listing: OutputView) -> SurveyView {
    if !listing.success {
        SurveyView::ListingFailed { message: listing.stderr }
    } else {
        match search_of(UPSTREAM_PATTERN@, listing.stdout) {
            Err(error) => SurveyView::Unresolvable { error },
            Ok(None) => SurveyView::NoUpstream,
            Ok(Some(upstream)) => match resolution_of(upstream) {
                Ok(resolution) => SurveyView::Resolved { resolution },
                Err(error) => SurveyView::Unresolvable { error },
            },
        }
    }
}

/// Reads the outcome of the listing command: finds the upstream address in
/// its standard output and derives the mirror address.
pub fn survey(listing: CommandOutput) -> (findings: Survey)
    ensures
        findings@ == survey_of(listing@),
{
    if !listing.success {
        return Survey::ListingFailed { message: listing.stderr };
    }
    match find_upstream(listing.stdout.as_str()) {
        Err(error) => Survey::Unresolvable { error },
        Ok(None) => Survey::NoUpstream,
        Ok(Some(upstream)) => match resolve(upstream.as_str()) {
            Ok(resolution) => Survey::Resolved { resolution },
            Err(error) => Survey::Unresolvable { error },
        },
    }
}

/// Determinism of resolution. Whatever two resolutions of one upstream
/// address return, they return the same: the same addresses or the same
/// error.
pub proof fn law_resolution_is_deterministic(
    upstream: Seq<char>,
    first: Result<ResolutionView, ResolveError>,
    second: Result<ResolutionView, ResolveError>,
)
    requires
        first == resolution_of(upstream),
        second == resolution_of(upstream),
    ensures
        first == second,
{
}

/// The mirror path is the namespace followed by the path of the upstream
/// address in its normal form, character for character: nothing of the path
/// is cut off or rewritten. The mirror address is the upstream address at the
/// gateway with exactly that path.
pub proof fn law_mirror_path_keeps_upstream_path(upstream: Seq<char>)
    requires
        resolution_of(upstream) is Ok,
    ensures
        ({
            let resolution = resolution_of(upstream)->Ok_0;
            let path = url_path(resolution.upstream_url)->0;
            let gateway = at_gateway(resolution.upstream_url)->Ok_0;
            let namespace = MIRROR_NAMESPACE@;
            &&& url_serialization(upstream) == Some(resolution.upstream_url)
            &&& url_path(resolution.upstream_url) is Some
            &&& at_gateway(resolution.upstream_url) is Ok
            &&& resolution.mirror_path.len() == namespace.len() + path.len()
            &&& resolution.mirror_path.subrange(0, namespace.len() as int) == namespace
            &&& resolution.mirror_path.subrange(
                namespace.len() as int,
                resolution.mirror_path.len() as int,
            ) == path
            &&& url_with_path(gateway, resolution.mirror_path) == Some(resolution.mirror_url)
        }),
{
    let resolution = resolution_of(upstream)->Ok_0;
    let path = url_path(resolution.upstream_url)->0;
    let namespace = MIRROR_NAMESPACE@;
    assert(resolution.mirror_path == namespace + path);
    assert(resolution.mirror_path.subrange(0, namespace.len() as int) =~= namespace);
    assert(resolution.mirror_path.subrange(
        namespace.len() as int,
        resolution.mirror_path.len() as int,
    ) =~= path);
}

} // verus!
