//! From the address that the user typed to the socket address to listen on.
//!
//! The address is tried as a URL first and as a bare host second. This
//! module decides what is looked up and what is made of the answer; the
//! lookups themselves are the caller's.

use vstd::prelude::*;
use vstd::string::*;
use crate::flags::Error;
use crate::urls::{has_host, parse_url, parsed_url, url_has_host, url_text};

verus! {

/// The port of a bare host that names none.
pub const DEFAULT_PORT: u16 = 8080;

/// An IP address by its bytes in network order.
#[derive(Clone, Copy, Debug, PartialEq, Eq)]
pub enum IpAddress {
    V4([u8; 4]),
    V6([u8; 16]),
}

/// An IP address and a port.
#[derive(Clone, Copy, Debug, PartialEq, Eq)]
pub struct SocketAddress {
    pub ip: IpAddress,
    pub port: u16,
}

/// The value of a decimal digit, `None` for any other character.
pub open spec fn digit_of(c: char) -> Option<nat> {
    if c == '0' {
        Some(0)
    } else if c == '1' {
        Some(1)
    } else if c == '2' {
        Some(2)
    } else if c == '3' {
        Some(3)
    } else if c == '4' {
        Some(4)
    } else if c == '5' {
        Some(5)
    } else if c == '6' {
        Some(6)
    } else if c == '7' {
        Some(7)
    } else if c == '8' {
        Some(8)
    } else if c == '9' {
        Some(9)
    } else {
        None
    }
}

/// Whether `text` consists of decimal digits only.
pub open spec fn all_digits(text: Seq<char>) -> bool {
    forall|i: int| 0 <= i < text.len() ==> (#[trigger] digit_of(text[i])) is Some
}

/// The number that the digits of `text` denote.
pub open spec fn digits_value(text: Seq<char>) -> nat
    decreases text.len(),
{
    if text.len() == 0 {
        0
    } else {
        digits_value(text.drop_last()) * 10 + match digit_of(text.last()) {
            Some(d) => d,
            None => 0,
        }
    }
}

/// The port that `text` denotes: one or more decimal digits whose value is
/// at most 65535.
pub open spec fn port_of(text: Seq<char>) -> Option<u16> {
    if text.len() > 0 && all_digits(text) && digits_value(text) <= 65535 {
        Some(digits_value(text) as u16)
    } else {
        None
    }
}

/// Whether `address` has the form `host:port` with its only colon at `i`.
pub open spec fn splits_at(address: Seq<char>, i: int) -> bool {
    &&& 0 <= i < address.len()
    &&& address[i] == ':'
    &&& forall|j: int| 0 <= j < address.len() && j != i ==> address[j] != ':'
    &&& port_of(address.subrange(i + 1, address.len() as int)) is Some
}

/// Host and port that a bare address stands for. With exactly one colon and
/// a port behind it, the address is `host:port`; any other address is a
/// host as a whole, with the default port.
pub open spec fn bare_target(address: Seq<char>) -> (Seq<char>, u16) {
    if exists|i: int| splits_at(address, i) {
        let i = choose|i: int| splits_at(address, i);
        (address.subrange(0, i), port_of(address.subrange(i + 1, address.len() as int))->0)
    } else {
        (address, DEFAULT_PORT)
    }
}

/// A prefix of a numeral denotes no more than the numeral.
pub proof fn lemma_digits_value_prefix(text: Seq<char>, k: int)
    requires
        0 <= k <= text.len(),
    ensures
        digits_value(text.subrange(0, k)) <= digits_value(text),
    decreases text.len(),
{
    if k == text.len() {
        assert(text.subrange(0, k) =~= text);
    } else {
        assert(text.drop_last().subrange(0, k) =~= text.subrange(0, k));
        lemma_digits_value_prefix(text.drop_last(), k);
    }
}

/// A numeral holds no colon.
pub proof fn lemma_digits_hold_no_colon(text: Seq<char>)
    requires
        all_digits(text),
    ensures
        forall|i: int| 0 <= i < text.len() ==> text[i] != ':',
{
    assert forall|i: int| 0 <= i < text.len() implies text[i] != ':' by {
        assert(digit_of(text[i]) is Some);
    }
}

/// A bare address without a colon is a host, taken with the default port.
pub proof fn lemma_plain_host_gets_default_port(address: Seq<char>)
    requires
        forall|i: int| 0 <= i < address.len() ==> address[i] != ':',
    ensures
        bare_target(address) == (address, DEFAULT_PORT),
{
    assert forall|i: int| !splits_at(address, i) by {}
}

/// A host without a colon, a colon and a port make a bare address that
/// stands for that host and that port.
pub proof fn lemma_host_and_port_are_split(host: Seq<char>, port_text: Seq<char>, port: u16)
    requires
        forall|i: int| 0 <= i < host.len() ==> host[i] != ':',
        port_of(port_text) == Some(port),
    ensures
        bare_target(host + seq![':'] + port_text) == (host, port),
{
    let address = host + seq![':'] + port_text;
    let at = host.len() as int;
    lemma_digits_hold_no_colon(port_text);
    assert(address.subrange(at + 1, address.len() as int) =~= port_text);
    assert(address.subrange(0, at) =~= host);
    assert(splits_at(address, at));
    let chosen = choose|i: int| splits_at(address, i);
    assert(chosen == at);
}

fn digit_value(c: char) -> (digit: Option<u32>)
    ensures
        match digit {
            Some(d) => digit_of(c) == Some(d as nat),
            None => digit_of(c) is None,
        },
{
    if c == '0' {
        Some(0)
    } else if c == '1' {
        Some(1)
    } else if c == '2' {
        Some(2)
    } else if c == '3' {
        Some(3)
    } else if c == '4' {
        Some(4)
    } else if c == '5' {
        Some(5)
    } else if c == '6' {
        Some(6)
    } else if c == '7' {
        Some(7)
    } else if c == '8' {
        Some(8)
    } else if c == '9' {
        Some(9)
    } else {
        None
    }
}

/// Reads the port written in `address` from character `from` to the end.
fn parse_port(address: &str, from: usize) -> (port: Option<u16>)
    requires
        from <= address@.len(),
    ensures
        port == port_of(address@.subrange(from as int, address@.len() as int)),
{
    let len: usize = address.unicode_len();
    let ghost text = address@.subrange(from as int, len as int);
    if from == len {
        return None;
    }
    let mut value: u32 = 0;
    let mut k: usize = from;
    while k < len
        invariant
            from <= k <= len,
            len == address@.len(),
            text == address@.subrange(from as int, len as int),
            all_digits(text.subrange(0, k - from)),
            value == digits_value(text.subrange(0, k - from)),
            value <= 65535,
        decreases len - k,
    {
        let c = address.get_char(k);
        let ghost before = text.subrange(0, k - from);
        let ghost after = text.subrange(0, k + 1 - from);
        proof {
            assert(after.drop_last() =~= before);
            assert(after.last() == c);
            assert(text[k - from] == c);
        }
        match digit_value(c) {
            None => {
                return None;
            },
            Some(d) => {
                let next: u32 = value * 10 + d;
                proof {
                    assert(next == digits_value(after));
                    assert forall|i: int| 0 <= i < after.len() implies (#[trigger] digit_of(
                        after[i],
                    )) is Some by {
                        if i < before.len() {
                            assert(after[i] == before[i]);
                        }
                    }
                }
                if next > 65535 {
                    proof {
                        lemma_digits_value_prefix(text, k + 1 - from);
                    }
                    return None;
                }
                value = next;
            },
        }
        k = k + 1;
    }
    assert(text.subrange(0, k - from) =~= text);
    Some(value as u16)
}

/// A lookup of the address as a URL that is still to be made.
pub struct UrlLookup {
    /// The address as the user typed it.
    pub address: String,
    /// The URL to resolve, which has a host.
    pub url: url::Url,
}

/// A lookup of the address as a bare host that is still to be made.
pub struct BareLookup {
    /// The address as the user typed it.
    pub address: String,
    pub host: String,
    pub port: u16,
}

/// What a lookup came back with.
pub enum LookupOutcome {
    /// The resolver failed.
    Failed(std::io::Error),
    /// The resolver answered with these addresses, possibly none.
    Found(Vec<SocketAddress>),
}

/// What the address is, before anything is looked up.
pub enum AddressForm {
    /// A URL with a host.
    Url(url::Url),
    /// Not a URL, or a URL without a host: a bare host.
    Bare,
    /// A URL with broken syntax.
    Malformed(url::ParseError),
}

/// What to do first with an address.
pub enum Resolution {
    Url(UrlLookup),
    Bare(BareLookup),
    Failed(Error),
}

/// What the lookup of the URL led to.
pub enum UrlVerdict {
    Resolved(SocketAddress),
    /// The URL led to no address: the address is tried as a bare host.
    Retry(BareLookup),
    Failed(Error),
}

/// Whether `form` is the form of `address`. A string that is no absolute
/// URL, and a URL that has no host, are bare hosts; other parse errors are
/// errors of syntax.
pub open spec fn is_form_of(form: AddressForm, address: Seq<char>) -> bool {
    match parsed_url(address) {
        Ok(text) => if url_has_host(text) {
            form matches AddressForm::Url(url) && url_text(url) == text
        } else {
            form is Bare
        },
        Err(error) => if error == url::ParseError::RelativeUrlWithoutBase {
            form is Bare
        } else {
            form == AddressForm::Malformed(error)
        },
    }
}

/// Whether `lookup` is the lookup of `address` as a bare host.
pub open spec fn is_bare_lookup(lookup: BareLookup, address: Seq<char>) -> bool {
    &&& lookup.address@ == address
    &&& (lookup.host@, lookup.port) == bare_target(address)
}

/// Whether `resolution` is what an address of the given form starts with.
pub open spec fn is_plan_of(resolution: Resolution, address: Seq<char>, form: AddressForm) -> bool {
    match form {
        AddressForm::Url(url) => resolution matches Resolution::Url(lookup) && lookup.address@
            == address && lookup.url == url,
        AddressForm::Bare => resolution matches Resolution::Bare(lookup) && is_bare_lookup(
            lookup,
            address,
        ),
        AddressForm::Malformed(error) => resolution matches Resolution::Failed(
            Error::UrlParse(cause),
        ) && cause == error,
    }
}

/// Tells what `address` is, by parsing it as a URL.
pub fn classify(address: &str) -> (form: AddressForm)
    ensures
        is_form_of(form, address@),
{
    match parse_url(address) {
        Ok(url) => {
            if has_host(&url) {
                AddressForm::Url(url)
            } else {
                AddressForm::Bare
            }
        },
        Err(error) => match error {
            url::ParseError::RelativeUrlWithoutBase => AddressForm::Bare,
            _ => AddressForm::Malformed(error),
        },
    }
}

/// The lookup of `address` as a bare host: `host:port` where the address
/// has that form, the whole address with the default port where not.
pub fn bare_lookup(address: String) -> (lookup: BareLookup)
    ensures
        is_bare_lookup(lookup, address@),
{
    let text = address.as_str();
    let len: usize = text.unicode_len();
    let mut colons: u8 = 0;
    let mut first: usize = 0;
    let mut second: usize = 0;
    let mut i: usize = 0;
    while i < len
        invariant
            i <= len,
            len == text@.len(),
            colons <= 2,
            colons == 0 ==> forall|j: int| 0 <= j < i ==> text@[j] != ':',
            colons == 1 ==> first < i && text@[first as int] == ':' && forall|j: int|
                0 <= j < i && j != first ==> text@[j] != ':',
            colons == 2 ==> first < second < i && text@[first as int] == ':' && text@[second as int]
                == ':',
        decreases len - i,
    {
        if text.get_char(i) == ':' {
            if colons == 0 {
                first = i;
                colons = 1;
            } else if colons == 1 {
                second = i;
                colons = 2;
            }
        }
        i = i + 1;
    }
    if colons == 1 {
        match parse_port(text, first + 1) {
            Some(port) => {
                let host = String::from_str(text.substring_char(0, first));
                proof {
                    assert(splits_at(text@, first as int));
                    let chosen = choose|i: int| splits_at(text@, i);
                    assert(chosen == first);
                }
                return BareLookup { address, host, port };
            },
            None => {
                assert forall|i: int| !splits_at(text@, i) by {
                    if splits_at(text@, i) {
                        assert(i == first);
                    }
                }
            },
        }
    } else if colons == 2 {
        assert forall|i: int| !splits_at(text@, i) by {
            if splits_at(text@, i) {
                assert(text@[first as int] == ':');
                assert(text@[second as int] == ':');
            }
        }
    } else {
        assert forall|i: int| !splits_at(text@, i) by {}
    }
    let host = address.clone();
    BareLookup { address, host, port: DEFAULT_PORT }
}

/// What to do first with `address`, given what it is.
pub fn plan(address: String, form: AddressForm) -> (resolution: Resolution)
    ensures
        is_plan_of(resolution, address@, form),
{
    match form {
        AddressForm::Url(url) => Resolution::Url(UrlLookup { address, url }),
        AddressForm::Bare => Resolution::Bare(bare_lookup(address)),
        AddressForm::Malformed(error) => Resolution::Failed(Error::UrlParse(error)),
    }
}

/// What to do first with `address`.
pub fn begin(address: String) -> (resolution: Resolution)
    ensures
        exists|form: AddressForm|
            is_form_of(form, address@) && is_plan_of(resolution, address@, form),
{
    let form = classify(address.as_str());
    plan(address, form)
}

impl UrlLookup {
    /// What the outcome of this lookup leads to: a failed lookup is an I/O
    /// error, the first address found is the result, and no address sends
    /// the address to the bare-host lookup.
    pub open spec fn verdict_on(self, outcome: LookupOutcome, verdict: UrlVerdict) -> bool {
        match outcome {
            LookupOutcome::Failed(error) => verdict matches UrlVerdict::Failed(Error::Io(cause))
                && cause == error,
            LookupOutcome::Found(found) => if found@.len() > 0 {
                verdict == UrlVerdict::Resolved(found@[0])
            } else {
                verdict matches UrlVerdict::Retry(lookup) && is_bare_lookup(lookup, self.address@)
            },
        }
    }

    /// Takes the outcome of resolving `self.url`.
    pub fn finish(self, outcome: LookupOutcome) -> (verdict: UrlVerdict)
        ensures
            self.verdict_on(outcome, verdict),
    {
        match outcome {
            LookupOutcome::Failed(error) => UrlVerdict::Failed(Error::Io(error)),
            LookupOutcome::Found(found) => {
                if found.len() > 0 {
                    UrlVerdict::Resolved(found[0])
                } else {
                    UrlVerdict::Retry(bare_lookup(self.address))
                }
            },
        }
    }
}

impl BareLookup {
    /// What the outcome of this lookup leads to: the first address found,
    /// or the verdict that the address is invalid.
    pub open spec fn result_on(self, outcome: LookupOutcome, result: Result<SocketAddress, Error>)
        -> bool {
        match outcome {
            LookupOutcome::Found(found) if found@.len() > 0 => result == Ok::<
                SocketAddress,
                Error,
            >(found@[0]),
            _ => result matches Err(Error::InvalidAddress(address)) && address@ == self.address@,
        }
    }

    /// Takes the outcome of resolving `self.host` with `self.port`.
    pub fn finish(self, outcome: LookupOutcome) -> (result: Result<SocketAddress, Error>)
        ensures
            self.result_on(outcome, result),
    {
        match outcome {
            LookupOutcome::Found(found) => {
                if found.len() > 0 {
                    Ok(found[0])
                } else {
                    Err(Error::InvalidAddress(self.address))
                }
            },
            LookupOutcome::Failed(_) => Err(Error::InvalidAddress(self.address)),
        }
    }
}

} // verus!
