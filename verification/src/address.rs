//! Server addresses. The `url` crate parses, joins and serialises them; this
//! module keeps what the rest of the crate reads of the outcome, as text.

use crate::error::ApiError;
use vstd::prelude::*;
use vstd::string::*;
use vstd::utf8::*;

verus! {

/// The error type of the `url` crate's parser, carried as an opaque value.
#[verifier::external_type_specification]
#[verifier::external_body]
pub struct ExParseError(url::ParseError);

/// What an [`Address`] holds, as mathematical text.
pub struct AddressView {
    /// The address as the `url` crate serialises it.
    pub text: Seq<char>,
    /// Its scheme, without the colon.
    pub scheme: Seq<char>,
}

/// An absolute URL that the `url` crate has accepted: its serialisation and
/// its scheme.
#[derive(Debug, Clone, PartialEq, Eq)]
pub struct Address {
    text: String,
    scheme: String,
}

impl View for Address {
    type V = AddressView;

    closed spec fn view(&self) -> AddressView {
        AddressView { text: self.text@, scheme: self.scheme@ }
    }
}

/// What `url::Url::parse` makes of `input`: the serialisation and scheme of
/// the parsed URL, or `None` where the parser rejects the input.
pub uninterp spec fn url_parse(input: Seq<char>) -> Option<AddressView>;

/// The serialisation of `url::Url::join` applied to the URL that `base`
/// parses to and to `reference`, or `None` where either step is rejected.
pub uninterp spec fn url_join(base: Seq<char>, reference: Seq<char>) -> Option<Seq<char>>;

/// The serialisation of the URL that `url` parses to after one more
/// form-encoded pair has been appended to its query, or `None` where `url`
/// is rejected.
pub uninterp spec fn url_append_pair(url: Seq<char>, key: Seq<char>, value: Seq<char>) -> Option<
    Seq<char>,
>;

/// The longest text, in bytes, that this crate hands to the query builder.
/// The `url` crate does not support URLs of 4 GiB and more; three parts of at
/// most this size stay below that after percent-encoding.
pub const MAX_PART_BYTES: usize = 0x1000_0000;

/// The number of bytes in the UTF-8 encoding of `s`.
pub open spec fn byte_len(s: Seq<char>) -> nat {
    encode_utf8(s).len()
}

/// Calls `url::Url::parse` and keeps the serialisation (`Url::as_str`) and
/// the scheme (`Url::scheme`) of what it returns. The contract names the
/// outcome [`url_parse`] of the input; it says nothing more of it.
#[verifier::external_body]
fn parse_url(input: &str) -> (r: Result<Address, url::ParseError>)
    ensures
        match r {
            Ok(a) => url_parse(input@) == Some(a@),
            Err(_) => url_parse(input@) is None,
        },
{
    match url::Url::parse(input) {
        Ok(u) => Ok(Address { text: u.as_str().to_string(), scheme: u.scheme().to_string() }),
        Err(e) => Err(e),
    }
}

/// Parses `base` with `url::Url::parse` and calls `url::Url::join` on it
/// with `reference`. The contract names the serialisation of the outcome
/// [`url_join`] of the two texts.
#[verifier::external_body]
fn join_url(base: &str, reference: &str) -> (r: Result<String, url::ParseError>)
    ensures
        match r {
            Ok(s) => url_join(base@, reference@) == Some(s@),
            Err(_) => url_join(base@, reference@) is None,
        },
{
    Ok(String::from(url::Url::parse(base)?.join(reference)?))
}

/// Parses `url` with `url::Url::parse` and appends one pair through
/// `url::Url::query_pairs_mut` and `Serializer::append_pair`. The contract
/// names the serialisation of the outcome [`url_append_pair`] of the three
/// texts. The size bound keeps the URL under the 4 GiB beyond which
/// `query_pairs_mut` and the serializer it returns panic.
#[verifier::external_body]
fn append_pair_url(url: &str, key: &str, value: &str) -> (r: Result<String, url::ParseError>)
    requires
        byte_len(url@) <= MAX_PART_BYTES,
        byte_len(key@) <= MAX_PART_BYTES,
        byte_len(value@) <= MAX_PART_BYTES,
    ensures
        match r {
            Ok(s) => url_append_pair(url@, key@, value@) == Some(s@),
            Err(_) => url_append_pair(url@, key@, value@) is None,
        },
{
    let mut parsed = url::Url::parse(url)?;
    parsed.query_pairs_mut().append_pair(key, value);
    Ok(String::from(parsed))
}

/// The URL that comes of appending one query pair to `url`, where there is
/// a URL to append to and all three texts are within [`MAX_PART_BYTES`].
pub open spec fn with_pair(url: Option<Seq<char>>, key: Seq<char>, value: Seq<char>) -> Option<
    Seq<char>,
> {
    match url {
        Some(text) => if byte_len(text) <= MAX_PART_BYTES && byte_len(key) <= MAX_PART_BYTES
            && byte_len(value) <= MAX_PART_BYTES {
            url_append_pair(text, key, value)
        } else {
            None
        },
        None => None,
    }
}

/// Whether `r` reports `wanted`: the text itself, or `InvalidUrl` where
/// there is none.
pub open spec fn yields_url(r: Result<String, ApiError>, wanted: Option<Seq<char>>) -> bool {
    match wanted {
        Some(text) => r matches Ok(s) && s@ == text,
        None => r matches Err(e) && e@ is InvalidUrl,
    }
}

/// Appends the query pair `key=value`, form-encoded, to the URL `url`.
pub fn add_query_pair(url: &str, key: &str, value: &str) -> (r: Result<String, ApiError>)
    ensures
        yields_url(r, with_pair(Some(url@), key@, value@)),
{
    if url.as_bytes().len() > MAX_PART_BYTES || key.as_bytes().len() > MAX_PART_BYTES
        || value.as_bytes().len() > MAX_PART_BYTES {
        return Err(ApiError::InvalidUrl(String::from_str("address too long")));
    }
    match append_pair_url(url, key, value) {
        Ok(text) => Ok(text),
        Err(e) => Err(ApiError::InvalidUrl(e.to_string())),
    }
}

impl Address {
    /// Parses an absolute URL, or says what the parser objects to.
    pub fn try_parse(input: &str) -> (r: Result<Address, String>)
        ensures
            match r {
                Ok(a) => url_parse(input@) == Some(a@),
                Err(_) => url_parse(input@) is None,
            },
    {
        match parse_url(input) {
            Ok(a) => Ok(a),
            Err(e) => Err(e.to_string()),
        }
    }

    /// Parses an absolute URL. Fails with `InvalidUrl` exactly when the
    /// parser rejects the input.
    pub fn parse(input: &str) -> (r: Result<Address, ApiError>)
        ensures
            match r {
                Ok(a) => url_parse(input@) == Some(a@),
                Err(e) => url_parse(input@) is None && e@ is InvalidUrl,
            },
    {
        match Address::try_parse(input) {
            Ok(a) => Ok(a),
            Err(detail) => Err(ApiError::InvalidUrl(detail)),
        }
    }

    /// Resolves `reference` against this address, as a browser resolves a
    /// link against the page that holds it.
    pub fn join(&self, reference: &str) -> (r: Result<String, ApiError>)
        ensures
            yields_url(r, url_join(self@.text, reference@)),
    {
        match join_url(self.text.as_str(), reference) {
            Ok(text) => Ok(text),
            Err(e) => Err(ApiError::InvalidUrl(e.to_string())),
        }
    }

    /// The serialised address.
    pub fn as_str(&self) -> (s: &str)
        ensures
            s@ == self@.text,
    {
        self.text.as_str()
    }

    /// The scheme, without the colon.
    pub fn scheme(&self) -> (s: &str)
        ensures
            s@ == self@.scheme,
    {
        self.scheme.as_str()
    }
}

} // verus!
