//! The two URLs of the flow, built with the `url` crate.

use vstd::prelude::*;
use vstd::string::*;
use vstd::utf8::encode_utf8;

verus! {

/// Base of the provider's OAuth2 endpoints.
pub const AUTH_BASE_URL: &'static str = "https://id.twitch.tv/oauth2/";

/// The scope that the flow asks for.
pub const SCOPE: &'static str = "channel:manage:redemptions";

/// `url::Url`: a parsed URL. Nothing inside it is visible here; what the
/// contracts say of one, they say of its serialization.
#[verifier::external_type_specification]
#[verifier::external_body]
pub struct ExUrl(url::Url);

/// `url::ParseError`: the reasons for which the `url` crate refuses a
/// string, an enum without fields whose variants are read as they are.
#[verifier::external_type_specification]
pub struct ExParseError(url::ParseError);

/// The serialization of a parsed URL, which `Url::as_str` returns.
pub uninterp spec fn url_text(url: url::Url) -> Seq<char>;

/// What `Url::parse` makes of `input`: the serialization of the URL it
/// parsed, or the reason for which it refused.
pub uninterp spec fn parsed_url(input: Seq<char>) -> Result<Seq<char>, url::ParseError>;

/// What `Url::join` makes of `reference` against the URL serialized as
/// `base`.
pub uninterp spec fn joined_url(base: Seq<char>, reference: Seq<char>) -> Result<
    Seq<char>,
    url::ParseError,
>;

/// The serialization of the URL `text` after `name=value` was appended to
/// its query with `query_pairs_mut().append_pair(name, value)`.
pub uninterp spec fn with_query_pair(text: Seq<char>, name: Seq<char>, value: Seq<char>) -> Seq<
    char,
>;

/// Whether the URL serialized as `text` has a host, as `Url::has_host` says.
pub uninterp spec fn url_has_host(text: Seq<char>) -> bool;

/// Calls `Url::parse`. Trusted, not proved: that the outcome depends on
/// `input` alone. The contract gives it a name, `parsed_url`, and ties the
/// returned URL to it by its serialization.
#[verifier::external_body]
pub(crate) fn parse_url(input: &str) -> (result: Result<url::Url, url::ParseError>)
    ensures
        match result {
            Ok(url) => parsed_url(input@) == Ok::<Seq<char>, url::ParseError>(url_text(url)),
            Err(error) => parsed_url(input@) == Err::<Seq<char>, url::ParseError>(error),
        },
{
    url::Url::parse(input)
}

/// Calls `Url::join`, which parses `reference` with `base` as the base URL.
/// Trusted, not proved: that the outcome depends on the serialization of
/// `base` and on `reference` alone. The contract gives it a name,
/// `joined_url`.
#[verifier::external_body]
pub(crate) fn join_url(base: &url::Url, reference: &str) -> (result: Result<
    url::Url,
    url::ParseError,
>)
    ensures
        match result {
            Ok(url) => joined_url(url_text(*base), reference@) == Ok::<
                Seq<char>,
                url::ParseError,
            >(url_text(url)),
            Err(error) => joined_url(url_text(*base), reference@) == Err::<
                Seq<char>,
                url::ParseError,
            >(error),
        },
{
    base.join(reference)
}

/// Calls `Url::has_host`. Trusted, not proved: that the answer depends on
/// the serialization alone. The contract gives it a name, `url_has_host`.
#[verifier::external_body]
pub(crate) fn has_host(url: &url::Url) -> (present: bool)
    ensures
        present == url_has_host(url_text(*url)),
{
    url.has_host()
}

/// Calls `Url::as_str`, which returns the serialization: the text that
/// `url_text` stands for.
#[verifier::external_body]
pub(crate) fn url_as_str(url: &url::Url) -> (text: &str)
    ensures
        text@ == url_text(*url),
{
    url.as_str()
}

/// Whether a pair can be appended to the URL serialized as `text` without
/// its serialization growing beyond what the `url` crate can index: every
/// byte of the pair takes at most three bytes, and at most three separators
/// are added.
pub open spec fn pair_fits(text: Seq<char>, name: Seq<char>, value: Seq<char>) -> bool {
    encode_utf8(text).len() + 3 * encode_utf8(name).len() + 3 * encode_utf8(value).len() + 3
        <= u32::MAX
}

/// Calls `Url::query_pairs_mut` and, on the serializer it returns,
/// `append_pair`, which writes `name=value` in the form encoding of
/// `application/x-www-form-urlencoded` behind the query, after a `&` where
/// the query already holds a pair. The `url` crate indexes the serialization
/// with `u32` and panics beyond that, which the precondition rules out.
/// Trusted, not proved: that the new serialization depends on the old one
/// and the pair alone. The contract gives it a name, `with_query_pair`.
#[verifier::external_body]
pub(crate) fn append_query_pair(url: &mut url::Url, name: &str, value: &str)
    requires
        pair_fits(url_text(*old(url)), name@, value@),
    ensures
        url_text(*final(url)) == with_query_pair(url_text(*old(url)), name@, value@),
{
    url.query_pairs_mut().append_pair(name, value);
}

/// Why an endpoint URL could not be built.
#[derive(Debug, PartialEq, Eq)]
pub enum UrlError {
    /// The base, or the segment joined to it, is not a URL.
    Parse(url::ParseError),
    /// The URL would be longer than the `url` crate can hold.
    TooLong,
}

/// One query parameter as a mathematical value.
pub type Pair = (Seq<char>, Seq<char>);

/// The serialization `text` with `pairs` appended to its query in order, or
/// `None` where one of them no longer fits.
pub open spec fn with_pairs(text: Seq<char>, pairs: Seq<Pair>) -> Option<Seq<char>>
    decreases pairs.len(),
{
    if pairs.len() == 0 {
        Some(text)
    } else {
        match with_pairs(text, pairs.drop_last()) {
            Some(so_far) => if pair_fits(so_far, pairs.last().0, pairs.last().1) {
                Some(with_query_pair(so_far, pairs.last().0, pairs.last().1))
            } else {
                None
            },
            None => None,
        }
    }
}

/// The URL of the endpoint `segment` under `base` with `pairs` as its query.
pub open spec fn endpoint_url(base: Seq<char>, segment: Seq<char>, pairs: Seq<Pair>) -> Result<
    Seq<char>,
    UrlError,
> {
    match parsed_url(base) {
        Err(error) => Err(UrlError::Parse(error)),
        Ok(parsed) => match joined_url(parsed, segment) {
            Err(error) => Err(UrlError::Parse(error)),
            Ok(joined) => match with_pairs(joined, pairs) {
                Some(text) => Ok(text),
                None => Err(UrlError::TooLong),
            },
        },
    }
}

/// A list of query parameters as a mathematical value.
pub open spec fn pairs_of(pairs: Seq<(&str, &str)>) -> Seq<Pair> {
    Seq::new(pairs.len(), |i: int| (pairs[i].0@, pairs[i].1@))
}

/// What a builder returns, as a mathematical value.
pub open spec fn built(result: Result<String, UrlError>) -> Result<Seq<char>, UrlError> {
    match result {
        Ok(text) => Ok(text@),
        Err(error) => Err(error),
    }
}

/// Whether the serialization of `url` leaves room for one more pair.
fn has_room(url: &url::Url, name: &str, value: &str) -> (fits: bool)
    ensures
        fits == pair_fits(url_text(*url), name@, value@),
{
    let text_len: usize = url_as_str(url).as_bytes().len();
    let name_len: usize = name.as_bytes().len();
    let value_len: usize = value.as_bytes().len();
    let total: u128 = text_len as u128 + 3 * (name_len as u128) + 3 * (value_len as u128) + 3;
    total <= 0xffff_ffff
}

/// Builds `base` joined with `segment`, with `pairs` appended to the query
/// in order.
pub fn build_endpoint_url(base: &str, segment: &str, pairs: &Vec<(&str, &str)>) -> (result:
    Result<String, UrlError>)
    ensures
        built(result) == endpoint_url(base@, segment@, pairs_of(pairs@)),
{
    let parsed = match parse_url(base) {
        Ok(url) => url,
        Err(error) => {
            return Err(UrlError::Parse(error));
        },
    };
    let mut url = match join_url(&parsed, segment) {
        Ok(url) => url,
        Err(error) => {
            return Err(UrlError::Parse(error));
        },
    };
    let ghost parsed_text = url_text(parsed);
    let ghost joined = url_text(url);
    let mut i: usize = 0;
    while i < pairs.len()
        invariant
            i <= pairs.len(),
            parsed_url(base@) == Ok::<Seq<char>, url::ParseError>(parsed_text),
            joined_url(parsed_text, segment@) == Ok::<Seq<char>, url::ParseError>(joined),
            with_pairs(joined, pairs_of(pairs@).subrange(0, i as int)) == Some(url_text(url)),
        decreases pairs.len() - i,
    {
        let (name, value) = pairs[i];
        proof {
            let done = pairs_of(pairs@).subrange(0, i as int);
            let next = pairs_of(pairs@).subrange(0, i + 1);
            assert(next.drop_last() =~= done);
            assert(next.last() == (name@, value@));
            if !pair_fits(url_text(url), name@, value@) {
                lemma_with_pairs_stays_none(joined, pairs_of(pairs@), i + 1);
            }
        }
        if !has_room(&url, name, value) {
            return Err(UrlError::TooLong);
        }
        append_query_pair(&mut url, name, value);
        i = i + 1;
    }
    assert(pairs_of(pairs@).subrange(0, i as int) =~= pairs_of(pairs@));
    Ok(String::from_str(url_as_str(&url)))
}

/// Once a pair does not fit, no longer list of pairs does.
pub proof fn lemma_with_pairs_stays_none(text: Seq<char>, pairs: Seq<Pair>, upto: int)
    requires
        0 <= upto <= pairs.len(),
        with_pairs(text, pairs.subrange(0, upto)) is None,
    ensures
        with_pairs(text, pairs) is None,
    decreases pairs.len() - upto,
{
    if upto < pairs.len() {
        assert(pairs.subrange(0, upto + 1).drop_last() =~= pairs.subrange(0, upto));
        lemma_with_pairs_stays_none(text, pairs, upto + 1);
    } else {
        assert(pairs.subrange(0, upto) =~= pairs);
    }
}

/// The parameters of the authorization URL, in the order in which they
/// appear.
pub open spec fn authorization_pairs(
    client_id: Seq<char>,
    redirect_uri: Seq<char>,
    scope: Seq<char>,
    state: Seq<char>,
) -> Seq<Pair> {
    seq![
        ("client_id"@, client_id),
        ("redirect_uri"@, redirect_uri),
        ("response_type"@, "code"@),
        ("scope"@, scope),
        ("force_verify"@, "true"@),
        ("state"@, state),
    ]
}

/// The parameters of the token URL, in the order in which they appear.
pub open spec fn token_pairs(
    client_id: Seq<char>,
    client_secret: Seq<char>,
    redirect_uri: Seq<char>,
    code: Seq<char>,
) -> Seq<Pair> {
    seq![
        ("client_id"@, client_id),
        ("client_secret"@, client_secret),
        ("redirect_uri"@, redirect_uri),
        ("code"@, code),
        ("grant_type"@, "authorization_code"@),
    ]
}

/// The URL at which the user authorizes the client: `authorize` under
/// `base`, with the client, the redirect target, the scope and the CSRF
/// state.
pub fn authorization_url(
    base: &str,
    client_id: &str,
    redirect_uri: &str,
    scope: &str,
    state: &str,
) -> (result: Result<String, UrlError>)
    ensures
        built(result) == endpoint_url(
            base@,
            "authorize"@,
            authorization_pairs(client_id@, redirect_uri@, scope@, state@),
        ),
{
    let mut pairs: Vec<(&str, &str)> = Vec::new();
    pairs.push(("client_id", client_id));
    pairs.push(("redirect_uri", redirect_uri));
    pairs.push(("response_type", "code"));
    pairs.push(("scope", scope));
    pairs.push(("force_verify", "true"));
    pairs.push(("state", state));
    assert(pairs_of(pairs@) =~= authorization_pairs(client_id@, redirect_uri@, scope@, state@));
    build_endpoint_url(base, "authorize", &pairs)
}

/// The URL to which the authorization code is posted in exchange for the
/// tokens: `token` under `base`.
pub fn token_url(
    base: &str,
    client_id: &str,
    client_secret: &str,
    redirect_uri: &str,
    code: &str,
) -> (result: Result<String, UrlError>)
    ensures
        built(result) == endpoint_url(
            base@,
            "token"@,
            token_pairs(client_id@, client_secret@, redirect_uri@, code@),
        ),
{
    let mut pairs: Vec<(&str, &str)> = Vec::new();
    pairs.push(("client_id", client_id));
    pairs.push(("client_secret", client_secret));
    pairs.push(("redirect_uri", redirect_uri));
    pairs.push(("code", code));
    pairs.push(("grant_type", "authorization_code"));
    assert(pairs_of(pairs@) =~= token_pairs(client_id@, client_secret@, redirect_uri@, code@));
    build_endpoint_url(base, "token", &pairs)
}

} // verus!
