//! Per-module configuration.
//!
//! Each engine type has a configuration document in TOML form, parsed with
//! unknown-field rejection: these policy configurations declare no fields,
//! so a document is accepted exactly when it is a valid TOML document that
//! defines no key.  TOML parsing itself is done by the `toml` crate behind
//! one trusted wrapper; the strict-schema check on the parsed keys is
//! verified code.

use vstd::prelude::*;

verus! {

/// Why a configuration document was rejected.
#[derive(Clone, Copy, PartialEq, Eq, Structural, Debug)]
pub enum ConfigError {
    /// Not a valid TOML document.
    Parse,
    /// The document defines a key this configuration does not declare.
    UnknownField,
}

/// The top-level keys of the TOML document `s`, in document order, or
/// `None` when `s` is not a valid TOML document.
pub uninterp spec fn toml_document_keys(s: Seq<char>) -> Option<Seq<Seq<char>>>;

/// Relies on `toml::from_str::<toml::Table>`: parses a TOML document into
/// its top-level table and hands back the table's keys in order; the parse
/// fails exactly when the text is not a valid TOML document.
#[verifier::external_body]
fn parse_toml_keys(s: &str) -> (r: Option<Vec<String>>)
    ensures
        r is Some <==> toml_document_keys(s@) is Some,
        r matches Some(keys) ==> keys.deep_view() == toml_document_keys(s@)->Some_0,
{
    match toml::from_str::<toml::Table>(s) {
        Ok(table) => Some(table.keys().cloned().collect()),
        Err(_) => None,
    }
}

/// Whether `s` parses as a TOML document that defines no key: the accepted
/// form of a configuration document with no declared fields.
pub open spec fn spec_empty_document(s: Seq<char>) -> bool {
    toml_document_keys(s) == Some(Seq::<Seq<char>>::empty())
}

/// What a field-less configuration accepts: no document at all, or a TOML
/// document that defines no key.
pub open spec fn spec_config_accepted(config: Option<&str>) -> bool {
    match config {
        None => true,
        Some(s) => spec_empty_document(s@),
    }
}

/// Checks a document against the empty schema: valid TOML, no keys.
fn check_empty_schema(s: &str) -> (r: Result<(), ConfigError>)
    ensures
        r is Ok <==> spec_empty_document(s@),
        r matches Err(e) ==> (e == ConfigError::Parse <==> toml_document_keys(s@) is None),
{
    match parse_toml_keys(s) {
        Some(keys) => {
            proof {
                assert(keys.deep_view().len() == keys@.len());
            }
            if keys.len() == 0 {
                proof {
                    assert(toml_document_keys(s@)->Some_0 =~= Seq::<Seq<char>>::empty());
                }
                Ok(())
            } else {
                Err(ConfigError::UnknownField)
            }
        },
        None => Err(ConfigError::Parse),
    }
}

/// Accepts or rejects a field-less configuration document.
pub fn accept_empty_config(config: Option<&str>) -> (r: Result<(), ConfigError>)
    ensures
        r is Ok <==> spec_config_accepted(config),
{
    match config {
        None => Ok(()),
        Some(s) => check_empty_schema(s),
    }
}

/// Configuration of the null (pass-through) engine.  It declares no fields.
#[derive(Clone, Copy, PartialEq, Eq, Structural, Debug)]
pub struct NullConfig {}

impl NullConfig {
    /// Parses a configuration document, accepting it exactly when it is
    /// absent or a valid TOML document with no keys.
    pub fn new(config: Option<&str>) -> (r: Result<NullConfig, ConfigError>)
        ensures
            r is Ok <==> spec_config_accepted(config),
            r matches Ok(c) ==> c == (NullConfig {}),
    {
        match accept_empty_config(config) {
            Ok(()) => Ok(NullConfig {}),
            Err(e) => Err(e),
        }
    }
}

/// Configuration of the cache engine.  It declares no fields.
#[derive(Clone, Copy, PartialEq, Eq, Structural, Debug)]
pub struct CacheConfig {}

impl CacheConfig {
    pub fn new(config: Option<&str>) -> (r: Result<CacheConfig, ConfigError>)
        ensures
            r is Ok <==> spec_config_accepted(config),
            r matches Ok(c) ==> c == (CacheConfig {}),
    {
        match accept_empty_config(config) {
            Ok(()) => Ok(CacheConfig {}),
            Err(e) => Err(e),
        }
    }
}

/// Configuration of the learning-cache engine.  It declares no fields.
#[allow(non_camel_case_types)]
#[derive(Clone, Copy, PartialEq, Eq, Structural, Debug)]
pub struct cachehackConfig {}

impl cachehackConfig {
    pub fn new(config: Option<&str>) -> (r: Result<cachehackConfig, ConfigError>)
        ensures
            r is Ok <==> spec_config_accepted(config),
            r matches Ok(c) ==> c == (cachehackConfig {}),
    {
        match accept_empty_config(config) {
            Ok(()) => Ok(cachehackConfig {}),
            Err(e) => Err(e),
        }
    }
}

/// Configuration of the admission-control engine.  It declares no fields.
#[allow(non_camel_case_types)]
#[derive(Clone, Copy, PartialEq, Eq, Structural, Debug)]
pub struct circuitbreakerConfig {}

impl circuitbreakerConfig {
    pub fn new(config: Option<&str>) -> (r: Result<circuitbreakerConfig, ConfigError>)
        ensures
            r is Ok <==> spec_config_accepted(config),
            r matches Ok(c) ==> c == (circuitbreakerConfig {}),
    {
        match accept_empty_config(config) {
            Ok(()) => Ok(circuitbreakerConfig {}),
            Err(e) => Err(e),
        }
    }
}

/// Configuration of the sender-side encryption engine.  It declares no
/// fields.
#[derive(Clone, Copy, PartialEq, Eq, Structural, Debug)]
pub struct GenencryptclientConfig {}

impl GenencryptclientConfig {
    pub fn new(config: Option<&str>) -> (r: Result<GenencryptclientConfig, ConfigError>)
        ensures
            r is Ok <==> spec_config_accepted(config),
            r matches Ok(c) ==> c == (GenencryptclientConfig {}),
    {
        match accept_empty_config(config) {
            Ok(()) => Ok(GenencryptclientConfig {}),
            Err(e) => Err(e),
        }
    }
}

/// Configuration of the server-side decryption engine.  It declares no
/// fields.
#[derive(Clone, Copy, PartialEq, Eq, Structural, Debug)]
pub struct DecryptServerConfig {}

impl DecryptServerConfig {
    pub fn new(config: Option<&str>) -> (r: Result<DecryptServerConfig, ConfigError>)
        ensures
            r is Ok <==> spec_config_accepted(config),
            r matches Ok(c) ==> c == (DecryptServerConfig {}),
    {
        match accept_empty_config(config) {
            Ok(()) => Ok(DecryptServerConfig {}),
            Err(e) => Err(e),
        }
    }
}

/// Configuration of the access-control engine.  It declares no fields.
#[derive(Clone, Copy, PartialEq, Eq, Structural, Debug)]
pub struct HelloAclSenderConfig {}

impl HelloAclSenderConfig {
    pub fn new(config: Option<&str>) -> (r: Result<HelloAclSenderConfig, ConfigError>)
        ensures
            r is Ok <==> spec_config_accepted(config),
            r matches Ok(c) ==> c == (HelloAclSenderConfig {}),
    {
        match accept_empty_config(config) {
            Ok(()) => Ok(HelloAclSenderConfig {}),
            Err(e) => Err(e),
        }
    }
}

/// Configuration of the load-balancer engine.  It declares no fields.
#[derive(Clone, Copy, PartialEq, Eq, Structural, Debug)]
pub struct LoadBalancerConfig {}

impl LoadBalancerConfig {
    pub fn new(config: Option<&str>) -> (r: Result<LoadBalancerConfig, ConfigError>)
        ensures
            r is Ok <==> spec_config_accepted(config),
            r matches Ok(c) ==> c == (LoadBalancerConfig {}),
    {
        match accept_empty_config(config) {
            Ok(()) => Ok(LoadBalancerConfig {}),
            Err(e) => Err(e),
        }
    }
}

} // verus!
