//! The layered configuration source that the settings are read from.
//!
//! The source is a `config::Config` into which the caller has merged the
//! settings documents. This module declares that type to the verifier and
//! states what its lookups return; nothing here is proved.

use crate::configuration::field::is_field_key;
use vstd::prelude::*;

verus! {

/// `config::Config`, of which the verifier sees nothing but the two maps below.
#[verifier::external_type_specification]
#[verifier::external_body]
pub struct ExConfig(config::Config);

/// `config::ConfigError`, which the lookups fail with.
#[verifier::external_type_specification]
#[verifier::external_body]
pub struct ExConfigError(config::ConfigError);

/// The entries of `source` that read as text: a key is in the map exactly
/// when `Config::get_str` succeeds for it, and is mapped to the text returned.
pub uninterp spec fn text_entries(source: config::Config) -> Map<Seq<char>, Seq<char>>;

/// The entries of `source` that read as an integer: a key is in the map
/// exactly when `Config::get_int` succeeds for it, and is mapped to the
/// integer returned.
pub uninterp spec fn integer_entries(source: config::Config) -> Map<Seq<char>, i64>;

/// `Config::get_str`: the text under `key` in the merged documents, or an
/// error where there is no value under `key` or the value is not a scalar.
/// The contract only ties the call to [`text_entries`]. The keys of the
/// fields are plain dotted paths, which the lookup walks without indexing.
#[verifier::external_body]
pub(crate) fn lookup_text(source: &config::Config, key: &str) -> (found: Result<
    String,
    config::ConfigError,
>)
    requires
        is_field_key(key@),
    ensures
        match found {
            Ok(text) => text_entries(*source).contains_key(key@) && text_entries(*source)[key@]
                == text@,
            Err(_) => !text_entries(*source).contains_key(key@),
        },
{
    source.get_str(key)
}

/// `Config::get_int`: the integer under `key` in the merged documents, or an
/// error where there is no value under `key` or the value does not convert
/// to an integer. The contract only ties the call to [`integer_entries`].
/// The keys of the fields are plain dotted paths, which the lookup walks
/// without indexing.
#[verifier::external_body]
pub(crate) fn lookup_integer(source: &config::Config, key: &str) -> (found: Result<
    i64,
    config::ConfigError,
>)
    requires
        is_field_key(key@),
    ensures
        match found {
            Ok(number) => integer_entries(*source).contains_key(key@) && integer_entries(
                *source,
            )[key@] == number,
            Err(_) => !integer_entries(*source).contains_key(key@),
        },
{
    source.get_int(key)
}

} // verus!
