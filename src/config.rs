//! Operator configuration: two endpoint URLs and two token addresses, all
//! validated when the configuration is built.
use vstd::prelude::*;
use crate::abi::{address_bytes_of, address_text_ok, parse_address, Address};

verus! {

/// The URL parser accepts the text.
pub uninterp spec fn url_accepted(s: Seq<char>) -> bool;

/// Relies on url's `Url::parse`: whether it accepts the text, which depends
/// on the text alone.
#[verifier::external_body]
pub(crate) fn url_parses(s: &str) -> (r: bool)
    ensures
        r == url_accepted(s@),
{
    url::Url::parse(s).is_ok()
}

/// The four fields of a configuration document, as text.
#[derive(Clone, Debug, PartialEq, Eq)]
pub struct RawConfig {
    pub url_one: String,
    pub url_two: String,
    pub token_one: String,
    pub token_two: String,
}

/// A field of the configuration, in the order in which it is validated.
#[derive(Clone, Copy, Debug, PartialEq, Eq)]
pub enum ConfigField {
    UrlOne,
    UrlTwo,
    TokenOne,
    TokenTwo,
}

/// A configuration field whose text is not a valid value; the text is kept.
#[derive(Clone, Debug, PartialEq, Eq)]
pub enum ConfigError {
    InvalidUrl(ConfigField, String),
    InvalidAddress(ConfigField, String),
}

/// A validated configuration.
#[derive(Debug, PartialEq, Eq)]
pub struct Config {
    url_one: String,
    url_two: String,
    token_address_one: Address,
    token_address_two: Address,
}

/// What validating the four fields gives: the first invalid field, in the
/// order url_one, url_two, token_one, token_two, or the four values.
pub open spec fn parse_outcome(raw: RawConfig) -> Result<
    (Seq<char>, Seq<char>, Seq<u8>, Seq<u8>),
    ConfigError,
> {
    if !url_accepted(raw.url_one@) {
        Err(ConfigError::InvalidUrl(ConfigField::UrlOne, raw.url_one))
    } else if !url_accepted(raw.url_two@) {
        Err(ConfigError::InvalidUrl(ConfigField::UrlTwo, raw.url_two))
    } else if !address_text_ok(raw.token_one@) {
        Err(ConfigError::InvalidAddress(ConfigField::TokenOne, raw.token_one))
    } else if !address_text_ok(raw.token_two@) {
        Err(ConfigError::InvalidAddress(ConfigField::TokenTwo, raw.token_two))
    } else {
        Ok(
            (
                raw.url_one@,
                raw.url_two@,
                address_bytes_of(raw.token_one@),
                address_bytes_of(raw.token_two@),
            ),
        )
    }
}

impl Config {
    /// Both URLs were accepted by the URL parser.
    #[verifier::type_invariant]
    spec fn urls_accepted(&self) -> bool {
        url_accepted(self.url_one@) && url_accepted(self.url_two@)
    }

    /// The configuration's four values.
    pub closed spec fn view(&self) -> (Seq<char>, Seq<char>, Seq<u8>, Seq<u8>) {
        (
            self.url_one@,
            self.url_two@,
            self.token_address_one.bytes@,
            self.token_address_two.bytes@,
        )
    }

    /// Validates the four fields, stopping at the first invalid one.
    pub fn parse(raw: RawConfig) -> (r: Result<Config, ConfigError>)
        ensures
            match parse_outcome(raw) {
                Ok(v) => r is Ok && r->Ok_0@ == v,
                Err(e) => r == Err::<Config, ConfigError>(e),
            },
    {
        let RawConfig { url_one, url_two, token_one, token_two } = raw;
        if !url_parses(url_one.as_str()) {
            return Err(ConfigError::InvalidUrl(ConfigField::UrlOne, url_one));
        }
        if !url_parses(url_two.as_str()) {
            return Err(ConfigError::InvalidUrl(ConfigField::UrlTwo, url_two));
        }
        let token_address_one = match parse_address(token_one.as_str()) {
            Some(a) => a,
            None => return Err(ConfigError::InvalidAddress(ConfigField::TokenOne, token_one)),
        };
        let token_address_two = match parse_address(token_two.as_str()) {
            Some(a) => a,
            None => return Err(ConfigError::InvalidAddress(ConfigField::TokenTwo, token_two)),
        };
        Ok(Config { url_one, url_two, token_address_one, token_address_two })
    }

    pub fn url_one(&self) -> (r: &String)
        ensures
            r@ == self@.0,
            url_accepted(r@),
    {
        proof {
            use_type_invariant(self);
        }
        &self.url_one
    }

    pub fn url_two(&self) -> (r: &String)
        ensures
            r@ == self@.1,
            url_accepted(r@),
    {
        proof {
            use_type_invariant(self);
        }
        &self.url_two
    }

    pub fn token_address_one(&self) -> (r: Address)
        ensures
            r.bytes@ == self@.2,
    {
        self.token_address_one
    }

    pub fn token_address_two(&self) -> (r: Address)
        ensures
            r.bytes@ == self@.3,
    {
        self.token_address_two
    }
}

/// When every field is valid, the configuration holds the two URL texts
/// unchanged and the two addresses that the token texts spell.
pub proof fn valid_fields_round_trip(raw: RawConfig)
    requires
        url_accepted(raw.url_one@),
        url_accepted(raw.url_two@),
        address_text_ok(raw.token_one@),
        address_text_ok(raw.token_two@),
    ensures
        parse_outcome(raw) == Ok::<(Seq<char>, Seq<char>, Seq<u8>, Seq<u8>), ConfigError>(
            (
                raw.url_one@,
                raw.url_two@,
                address_bytes_of(raw.token_one@),
                address_bytes_of(raw.token_two@),
            ),
        ),
{
}

/// An invalid field is reported by name, with its text, once the fields
/// validated before it are valid.
pub proof fn invalid_field_is_named(raw: RawConfig)
    ensures
        !url_accepted(raw.url_one@) ==> parse_outcome(raw) == Err::<
            (Seq<char>, Seq<char>, Seq<u8>, Seq<u8>),
            ConfigError,
        >(ConfigError::InvalidUrl(ConfigField::UrlOne, raw.url_one)),
        url_accepted(raw.url_one@) && !url_accepted(raw.url_two@) ==> parse_outcome(raw) == Err::<
            (Seq<char>, Seq<char>, Seq<u8>, Seq<u8>),
            ConfigError,
        >(ConfigError::InvalidUrl(ConfigField::UrlTwo, raw.url_two)),
        url_accepted(raw.url_one@) && url_accepted(raw.url_two@) && !address_text_ok(
            raw.token_one@,
        ) ==> parse_outcome(raw) == Err::<
            (Seq<char>, Seq<char>, Seq<u8>, Seq<u8>),
            ConfigError,
        >(ConfigError::InvalidAddress(ConfigField::TokenOne, raw.token_one)),
        url_accepted(raw.url_one@) && url_accepted(raw.url_two@) && address_text_ok(raw.token_one@)
            && !address_text_ok(raw.token_two@) ==> parse_outcome(raw) == Err::<
            (Seq<char>, Seq<char>, Seq<u8>, Seq<u8>),
            ConfigError,
        >(ConfigError::InvalidAddress(ConfigField::TokenTwo, raw.token_two)),
{
}

} // verus!
