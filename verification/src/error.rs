use vstd::prelude::*;

verus! {

/// Everything that can abort a command. Each failure ends the command at
/// once; nothing is retried.
#[derive(Clone, Debug, PartialEq, Eq)]
pub enum LutError {
    /// No configuration document exists at either of the two known places.
    ConfigNotFound,
    /// A configuration document exists but cannot be understood.
    ConfigUnreadable,
    /// The signing key could not be read, or its bytes are no key pair.
    KeypairReadError,
    /// The carried text is not the base58 form of a 32-byte address.
    InvalidAddress(String),
    /// Neither a list of addresses nor an address file was given.
    NoAddressesProvided,
    /// The address file could not be read.
    FileReadError,
    /// The address file is not a JSON array of strings.
    JsonParseError,
    /// A query to the network failed.
    RpcError,
    /// The transaction could not be signed, sent or confirmed; the text is
    /// the cause.
    SubmissionFailed(String),
    /// Account bytes that are no header followed by whole 32-byte entries.
    MalformedAccount,
}

} // verus!
