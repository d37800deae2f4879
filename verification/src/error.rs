//! Error type for the crate.

use vstd::prelude::*;

verus! {

/// A filesystem path, carried through unchanged.
#[verifier::external_type_specification]
#[verifier::external_body]
pub struct ExPathBuf(std::path::PathBuf);

/// Errors from credential reading, token minting, and backend queries.
#[derive(Debug)]
#[non_exhaustive]
pub enum Error {
    /// The RSI Launcher install (and thus its `app.asar` decryption key) could
    /// not be located.
    LauncherNotFound,
    /// The launcher store file doesn't exist.
    StoreNotFound(std::path::PathBuf),
    /// Reading or decrypting the launcher store failed.
    Store(String),
    /// The store decrypted but a required credential field was missing.
    MissingCredential {
        /// Which field was missing (e.g. `"session token"`).
        what: &'static str,
    },
    /// A token-mint step returned a non-success envelope.
    Mint {
        /// The launcher v3 endpoint that failed.
        step: &'static str,
        /// The envelope's `success` field (1 = ok).
        success: i64,
        /// The envelope's `code` field, if any.
        code: Option<String>,
    },
    /// HTTP transport error during the mint flow, as its display text.
    Http(String),
    /// gRPC channel/transport error (connect, TLS, …), as its display text.
    Transport(String),
    /// A gRPC call returned a non-OK status, as its display text.
    Rpc(String),
    /// A value couldn't be parsed/validated (endpoint URL, JWT header, …).
    Invalid(String),
    /// The account has no current character (no player record, or an empty
    /// player JWT).
    NoCurrentPlayer,
}

impl Error {
    /// This is [`Error::MissingCredential`] naming the field `what`.
    pub open spec fn is_missing(&self, what: Seq<char>) -> bool {
        match self {
            Error::MissingCredential { what: w } => w@ == what,
            _ => false,
        }
    }

    /// This is [`Error::Store`] with the message `msg`.
    pub open spec fn is_store(&self, msg: Seq<char>) -> bool {
        match self {
            Error::Store(m) => m@ == msg,
            _ => false,
        }
    }

    /// This is [`Error::Mint`] for `step`, with the envelope's `success` and
    /// `code`.
    pub open spec fn is_mint(&self, step: Seq<char>, success: i64, code: Option<Seq<char>>) -> bool {
        match self {
            Error::Mint { step: s, success: n, code: c } => s@ == step && *n == success
                && crate::text::opt_view(*c) == code,
            _ => false,
        }
    }

    /// This is [`Error::Invalid`] with the message `msg`.
    pub open spec fn is_invalid(&self, msg: Seq<char>) -> bool {
        match self {
            Error::Invalid(m) => m@ == msg,
            _ => false,
        }
    }
}

/// Convenience alias for results in this crate.
pub type Result<T> = std::result::Result<T, Error>;

} // verus!
