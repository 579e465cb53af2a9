//! Structured error identities: a stable composite code, a caller-facing app
//! code, a client-safe message, the full diagnostic server message, and a
//! deterministic content hash for correlating identical failures across logs.
//!
//! A schema read from a tagged-union error definition ([`schema`]) drives the
//! generation of an exhaustive conversion impl ([`codegen`]); at run time the
//! generated code builds an [`ErrorInfo`] record through [`ErrorInfo::try_new`],
//! which hashes and encodes the rendered server message ([`encode`]).

pub mod codegen;
pub mod encode;
pub mod schema;

use crate::encode::hash_string_of;
use vstd::prelude::*;
use vstd::string::to_string_from_display_ensures;

verus! {

/// The structured identity of one error occurrence: the parsed caller-facing
/// code, the composite class code, the content hash of the server message,
/// the client-safe static text, and the full diagnostic text.
#[derive(Debug)]
pub struct ErrorInfo<T> {
    pub app_code: T,
    pub code: String,
    pub hash: String,
    pub client_msg: String,
    pub server_msg: String,
}

/// The capability an app-code type must offer: parsing from the string
/// literal baked into the schema, with a typed error on failure.
pub trait ParseCode: Sized {
    type Err;

    fn parse_code(s: &str) -> Result<Self, Self::Err>;
}

/// The conversion capability a generated mapping implements: turn an error
/// instance into its structured record, or surface the app-code parse error.
pub trait ToErrorInfo {
    type T: ParseCode;

    fn to_error_info(&self) -> Result<ErrorInfo<Self::T>, <Self::T as ParseCode>::Err>;
}

impl<T: ParseCode> ErrorInfo<T> {
    /// Assembles the record once the app code has been parsed: a parse
    /// success yields the fully-built record, a parse failure is returned
    /// as is and no record is built.
    pub fn from_parts(
        parsed: Result<T, T::Err>,
        code: String,
        client_msg: String,
        server_msg: String,
    ) -> (r: Result<Self, T::Err>)
        ensures
            parsed matches Ok(v) ==> (r matches Ok(info)
                && info.app_code == v
                && info.code@ == code@
                && info.client_msg@ == client_msg@
                && info.server_msg == server_msg
                && info.hash@ == hash_string_of(server_msg@)),
            parsed matches Err(e) ==> r == Result::<Self, T::Err>::Err(e),
    {
        match parsed {
            Ok(app_code) => {
                let hash = crate::encode::encode_hash(
                    crate::encode::hash_message(server_msg.as_str()),
                );
                Ok(ErrorInfo { app_code, code, hash, client_msg, server_msg })
            },
            Err(e) => Err(e),
        }
    }

    /// Builds the record for one error occurrence: renders the source to its
    /// display text, hashes and encodes that text, parses the app code, and
    /// assembles the whole; a failed parse fails the construction as a whole.
    pub fn try_new<S: core::fmt::Display>(
        app_code: &str,
        code: &str,
        client_msg: &str,
        server_msg: S,
    ) -> (r: Result<Self, T::Err>)
        ensures
            r matches Ok(info) ==> (info.code@ == code@
                && info.client_msg@ == client_msg@
                && to_string_from_display_ensures(&server_msg, info.server_msg)
                && info.hash@ == hash_string_of(info.server_msg@)),
    {
        let rendered = server_msg.to_string();
        let parsed = T::parse_code(app_code);
        Self::from_parts(parsed, code.to_owned(), client_msg.to_owned(), rendered)
    }
}

} // verus!
