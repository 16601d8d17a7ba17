use vstd::prelude::*;

verus! {

/// The enum kinds whose values are persisted as strings.
#[derive(Clone, Copy, Debug, PartialEq, Eq, Structural)]
pub enum DbEnumKind {
    EventKind,
    IntegrationKind,
    Encryption,
    OAuthProvider,
    LdapEncryptionKind,
    AuthMethod,
    Role,
    NotificationRecipient,
}

/// A failed conversion; each kind of failure is a variant of its own.
#[derive(Clone, Debug, PartialEq, Eq)]
pub enum ConvertError {
    /// A persisted string outside the vocabulary of enum `kind`.
    InvalidEnumValue { kind: DbEnumKind, raw: String },
    /// A token that this codec did not produce.
    IdentifierDecodeFailure,
    /// Bytes that are not valid UTF-8 where text is required.
    EncodingFailure,
    /// A number that does not fit the target integer width.
    IntegerOverflow,
}

impl ConvertError {
    /// This error reports `raw` as outside the vocabulary of `kind`.
    pub open spec fn is_invalid_enum(&self, kind: DbEnumKind, raw: Seq<char>) -> bool {
        match self {
            ConvertError::InvalidEnumValue { kind: k, raw: r } => k == kind && r@ == raw,
            _ => false,
        }
    }
}

} // verus!
