//! Probe targets: the two base URLs of a run, each joined with the request
//! identifier.

use crate::config::Config;
use crate::identifier::{generate, is_identifier_for};
use url::{ParseError, Url};
use vstd::prelude::*;

verus! {

/// What the URL parser objects to in a base URL or in a reference resolved
/// against it.
#[derive(Clone, Copy, Debug, PartialEq, Eq, Structural)]
pub enum UrlFault {
    EmptyHost,
    IdnaError,
    InvalidPort,
    InvalidIpv4Address,
    InvalidIpv6Address,
    InvalidDomainCharacter,
    RelativeUrlWithoutBase,
    RelativeUrlWithCannotBeABaseBase,
    Overflow,
    /// An objection that neither parsing nor resolving raises today.
    Other,
}

impl UrlFault {
    /// The fault in words.
    pub open spec fn spec_message(self) -> Seq<char> {
        match self {
            UrlFault::EmptyHost => "empty host"@,
            UrlFault::IdnaError => "invalid international domain name"@,
            UrlFault::InvalidPort => "invalid port number"@,
            UrlFault::InvalidIpv4Address => "invalid IPv4 address"@,
            UrlFault::InvalidIpv6Address => "invalid IPv6 address"@,
            UrlFault::InvalidDomainCharacter => "invalid domain character"@,
            UrlFault::RelativeUrlWithoutBase => "relative URL without a base"@,
            UrlFault::RelativeUrlWithCannotBeABaseBase => "relative URL with a cannot-be-a-base base"@,
            UrlFault::Overflow => "URLs more than 4 GB are not supported"@,
            UrlFault::Other => "malformed URL"@,
        }
    }

    /// The text a fault is surfaced to the user with.
    pub fn message(&self) -> (text: String)
        ensures
            text@ == self.spec_message(),
    {
        match self {
            UrlFault::EmptyHost => "empty host".to_owned(),
            UrlFault::IdnaError => "invalid international domain name".to_owned(),
            UrlFault::InvalidPort => "invalid port number".to_owned(),
            UrlFault::InvalidIpv4Address => "invalid IPv4 address".to_owned(),
            UrlFault::InvalidIpv6Address => "invalid IPv6 address".to_owned(),
            UrlFault::InvalidDomainCharacter => "invalid domain character".to_owned(),
            UrlFault::RelativeUrlWithoutBase => "relative URL without a base".to_owned(),
            UrlFault::RelativeUrlWithCannotBeABaseBase => {
                "relative URL with a cannot-be-a-base base".to_owned()
            },
            UrlFault::Overflow => "URLs more than 4 GB are not supported".to_owned(),
            UrlFault::Other => "malformed URL".to_owned(),
        }
    }
}

/// The serialised URL that results from parsing `base` as an absolute URL and
/// resolving `reference` against it, or the fault of the step that failed.
pub uninterp spec fn url_join(base: Seq<char>, reference: Seq<char>) -> Result<Seq<char>, UrlFault>;

/// A join result, its text taken as a sequence of characters.
pub open spec fn joined_text(joined: Result<String, UrlFault>) -> Result<Seq<char>, UrlFault> {
    match joined {
        Ok(text) => Ok(text@),
        Err(fault) => Err(fault),
    }
}

/// The base as the parser writes it, without its fragment: what resolving the
/// empty reference gives.
pub open spec fn bare_base(base: Seq<char>) -> Result<Seq<char>, UrlFault> {
    url_join(base, Seq::<char>::empty())
}

/// ASCII letters and digits, `-`, `_` and `~`: the characters that stand for
/// themselves in a path segment.
pub open spec fn is_segment_char(c: char) -> bool {
    ('0' <= c <= '9') || ('a' <= c <= 'z') || ('A' <= c <= 'Z') || c == '-' || c == '_' || c == '~'
}

/// One or more segment characters, nothing else. Such a reference is neither
/// an absolute URL, nor a dot segment, nor does it open a query, a fragment
/// or a path of its own.
pub open spec fn is_plain_segment(reference: Seq<char>) -> bool {
    &&& reference.len() > 0
    &&& forall|i: int| 0 <= i < reference.len() ==> is_segment_char(#[trigger] reference[i])
}

/// A serialised `http` or `https` URL.
pub open spec fn is_web_url(url: Seq<char>) -> bool {
    seq!['h', 't', 't', 'p', ':', '/', '/'].is_prefix_of(url) || seq![
        'h',
        't',
        't',
        'p',
        's',
        ':',
        '/',
        '/',
    ].is_prefix_of(url)
}

/// `url` up to its query: what stands before the first `?`.
pub open spec fn before_query(url: Seq<char>) -> Seq<char> {
    match url.index_of_first('?') {
        Some(at) => url.take(at),
        None => url,
    }
}

/// The path of `url` without its last segment: `url` up to its query, and of
/// that what stands up to and including the last `/`.
pub open spec fn directory_of(url: Seq<char>) -> Seq<char> {
    match before_query(url).index_of_last('/') {
        Some(at) => before_query(url).take(at + 1),
        None => Seq::<char>::empty(),
    }
}

/// The join rule for the case this crate is made for: a plain reference
/// replaces the last path segment of a web base, and the query of the base
/// is dropped.
pub open spec fn replaces_last_segment(base: Seq<char>, reference: Seq<char>) -> bool {
    bare_base(base) matches Ok(bare) ==> (is_plain_segment(reference) && is_web_url(bare)
        ==> url_join(base, reference) == Ok::<Seq<char>, UrlFault>(directory_of(bare) + reference))
}

/// Resolves `reference` against `base` with `url::Url::join`; `base` becomes
/// the receiver of that call through `url::Url::parse`. A `url::ParseError`
/// comes back as the `UrlFault` of the same name, one that has none here as
/// `UrlFault::Other`.
///
/// Trusted: both calls depend on their text arguments alone, so the outcome
/// has a name, `url_join`. One case is spelled out. For a non-empty reference
/// of segment characters the parser finds no scheme and enters its relative
/// state with a path character: it copies the base up to the query, pops the
/// path back to its last `/`, which an `http` or `https` URL always has and
/// which is the last `/` before the query, and appends the reference, which
/// needs no percent-encoding and is no dot segment. For the empty reference
/// it copies the base up to the fragment, which is how the base is named
/// here.
#[verifier::external_body]
fn join_url(base: &str, reference: &str) -> (joined: Result<String, UrlFault>)
    ensures
        joined_text(joined) == url_join(base@, reference@),
        bare_base(base@) matches Ok(bare) ==> (is_plain_segment(reference@) && is_web_url(bare)
            ==> joined_text(joined) == Ok::<Seq<char>, UrlFault>(directory_of(bare) + reference@)),
{
    let fault = match Url::parse(base).and_then(|parsed| parsed.join(reference)) {
        Ok(target) => return Ok(target.into()),
        Err(ParseError::EmptyHost) => UrlFault::EmptyHost,
        Err(ParseError::IdnaError) => UrlFault::IdnaError,
        Err(ParseError::InvalidPort) => UrlFault::InvalidPort,
        Err(ParseError::InvalidIpv4Address) => UrlFault::InvalidIpv4Address,
        Err(ParseError::InvalidIpv6Address) => UrlFault::InvalidIpv6Address,
        Err(ParseError::InvalidDomainCharacter) => UrlFault::InvalidDomainCharacter,
        Err(ParseError::RelativeUrlWithoutBase) => UrlFault::RelativeUrlWithoutBase,
        Err(ParseError::RelativeUrlWithCannotBeABaseBase) => UrlFault::RelativeUrlWithCannotBeABaseBase,
        Err(ParseError::Overflow) => UrlFault::Overflow,
        Err(_) => UrlFault::Other,
    };
    Err(fault)
}

/// One of the two endpoints of a run.
#[derive(Clone, Copy, Debug, PartialEq, Eq, Structural)]
pub enum Endpoint {
    /// The endpoint whose route is expected to be accepted.
    Valid,
    /// The endpoint whose route is expected to be dropped.
    Invalid,
}

/// A base URL that yields no probe target. Fatal: no probe is sent.
#[derive(Clone, Copy, Debug, PartialEq, Eq, Structural)]
pub struct ConfigError {
    /// The endpoint whose base URL is at fault.
    pub endpoint: Endpoint,
    /// What the URL parser objected to.
    pub cause: UrlFault,
}

/// What a run is going to probe.
#[derive(Debug)]
pub struct ProbePlan {
    /// The identifier both targets end in.
    pub identifier: String,
    /// Target of the probe that is expected to succeed.
    pub valid_target: String,
    /// Target of the probe that is expected to fail.
    pub invalid_target: String,
    /// Overall timeout of each request, in seconds.
    pub timeout_secs: u64,
}

/// The plan for two join results, or the error of the first one that failed,
/// the valid endpoint taking precedence.
pub open spec fn spec_assemble(
    identifier: String,
    valid: Result<String, UrlFault>,
    invalid: Result<String, UrlFault>,
    timeout_secs: u64,
) -> Result<ProbePlan, ConfigError> {
    match (valid, invalid) {
        (Err(cause), _) => Err(ConfigError { endpoint: Endpoint::Valid, cause }),
        (Ok(_), Err(cause)) => Err(ConfigError { endpoint: Endpoint::Invalid, cause }),
        (Ok(valid_target), Ok(invalid_target)) => Ok(
            ProbePlan { identifier, valid_target, invalid_target, timeout_secs },
        ),
    }
}

/// What `plan` returns, over the two named join results: the error of the
/// first join that failed, or a plan that holds what the joins gave.
pub open spec fn plan_matches(
    planned: Result<ProbePlan, ConfigError>,
    identifier: Seq<char>,
    valid: Result<Seq<char>, UrlFault>,
    invalid: Result<Seq<char>, UrlFault>,
    timeout_secs: u64,
) -> bool {
    match (valid, invalid) {
        (Err(cause), _) => planned == Err::<ProbePlan, ConfigError>(
            ConfigError { endpoint: Endpoint::Valid, cause },
        ),
        (Ok(_), Err(cause)) => planned == Err::<ProbePlan, ConfigError>(
            ConfigError { endpoint: Endpoint::Invalid, cause },
        ),
        (Ok(valid_target), Ok(invalid_target)) => {
            &&& planned matches Ok(p)
            &&& p.identifier@ == identifier
            &&& p.valid_target@ == valid_target
            &&& p.invalid_target@ == invalid_target
            &&& p.timeout_secs == timeout_secs
        },
    }
}

/// Resolves `identifier` as a path relative to `base`: the identifier takes
/// the place of the last path segment of the base.
pub fn resolve(base: &str, identifier: &str) -> (joined: Result<String, UrlFault>)
    ensures
        joined_text(joined) == url_join(base@, identifier@),
        replaces_last_segment(base@, identifier@),
{
    join_url(base, identifier)
}

/// Builds the plan of a run from the two resolved targets.
pub fn assemble(
    identifier: String,
    valid: Result<String, UrlFault>,
    invalid: Result<String, UrlFault>,
    timeout_secs: u64,
) -> (planned: Result<ProbePlan, ConfigError>)
    ensures
        planned == spec_assemble(identifier, valid, invalid, timeout_secs),
{
    match valid {
        Err(cause) => Err(ConfigError { endpoint: Endpoint::Valid, cause }),
        Ok(valid_target) => match invalid {
            Err(cause) => Err(ConfigError { endpoint: Endpoint::Invalid, cause }),
            Ok(invalid_target) => Ok(
                ProbePlan { identifier, valid_target, invalid_target, timeout_secs },
            ),
        },
    }
}

/// What a run with identifier `identifier` plans under `config`: both base
/// URLs are resolved against that one identifier, by the join rule.
pub open spec fn planned_for(
    planned: Result<ProbePlan, ConfigError>,
    config: Config,
    identifier: Seq<char>,
) -> bool {
    &&& plan_matches(
        planned,
        identifier,
        url_join(config.valid_url@, identifier),
        url_join(config.invalid_url@, identifier),
        config.timeout as u64,
    )
    &&& replaces_last_segment(config.valid_url@, identifier)
    &&& replaces_last_segment(config.invalid_url@, identifier)
}

/// Resolves both base URLs of `config` against the same `identifier`.
pub fn plan(config: &Config, identifier: &str) -> (planned: Result<ProbePlan, ConfigError>)
    ensures
        planned_for(planned, *config, identifier@),
{
    let valid = resolve(config.valid_url.as_str(), identifier);
    let invalid = resolve(config.invalid_url.as_str(), identifier);
    assemble(identifier.to_owned(), valid, invalid, config.timeout_secs())
}

/// Opens a run: draws its identifier and resolves both targets with it.
/// Either both targets are known afterwards, or no probe is to be sent.
pub fn prepare(config: &Config) -> (planned: Result<ProbePlan, ConfigError>)
    ensures
        exists|identifier: Seq<char>|
            is_identifier_for(identifier, config.alphabet@) && planned_for(
                planned,
                *config,
                identifier,
            ),
{
    let identifier = generate(config.alphabet.as_str());
    let planned = plan(config, identifier.as_str());
    assert(is_identifier_for(identifier@, config.alphabet@) && planned_for(
        planned,
        *config,
        identifier@,
    ));
    planned
}

/// An identifier drawn from a non-empty alphabet of segment characters is a
/// plain segment, so the join rule applies to it.
pub proof fn lemma_identifier_is_plain_segment(identifier: Seq<char>, alphabet: Seq<char>)
    requires
        alphabet.len() > 0,
        forall|i: int| 0 <= i < alphabet.len() ==> is_segment_char(#[trigger] alphabet[i]),
        is_identifier_for(identifier, alphabet),
    ensures
        is_plain_segment(identifier),
{
    assert forall|i: int| 0 <= i < identifier.len() implies is_segment_char(
        #[trigger] identifier[i],
    ) by {
        let k = choose|k: int| 0 <= k < alphabet.len() && alphabet[k] == identifier[i];
        assert(is_segment_char(alphabet[k]));
    }
}

/// The directory of a URL is a prefix of it, and of what stands before its
/// query.
pub proof fn lemma_directory_is_prefix(url: Seq<char>)
    ensures
        directory_of(url).is_prefix_of(before_query(url)),
        before_query(url).is_prefix_of(url),
        directory_of(url).is_prefix_of(url),
{
    url.index_of_first_ensures('?');
    before_query(url).index_of_last_ensures('/');
}

/// Round trip of the join. Where an identifier has replaced the last path
/// segment of a base, cutting the identifier off the target again leaves the
/// directory of the base: a prefix of the base that ends where its last path
/// segment began.
pub proof fn lemma_strip_identifier_gives_directory(bare: Seq<char>, identifier: Seq<char>)
    ensures
        ({
            let target = directory_of(bare) + identifier;
            let prefix = target.subrange(0, target.len() - identifier.len());
            &&& prefix == directory_of(bare)
            &&& prefix.is_prefix_of(bare)
            &&& prefix + identifier == target
        }),
{
    lemma_directory_is_prefix(bare);
    let target = directory_of(bare) + identifier;
    assert(target.subrange(0, target.len() - identifier.len()) == directory_of(bare));
}

/// A base without a query that ends in `/` is its own directory: the
/// identifier is appended to it.
pub proof fn lemma_directory_of_directory(url: Seq<char>)
    requires
        url.len() > 0,
        url.last() == '/',
        !url.contains('?'),
    ensures
        directory_of(url) == url,
{
    url.index_of_first_ensures('?');
    url.index_of_last_ensures('/');
}

} // verus!
