//! The errors of the consumer that its own logic raises.
use vstd::prelude::*;

use crate::address::HexError;

verus! {

/// The errors of the application. Errors that I/O hands back (database,
/// network, queue) stay with the code that does the I/O; these are the ones
/// that the logic itself decides on, with the address parse error that
/// `alloy` gives, as `HexError`.
#[derive(Debug)]
pub enum ConsumerError {
    AccountNotFound,
    AtomNotFound,
    AtomDataNotFound,
    AddressParse(String),
    AlloyHex(HexError),
    AppConfigNotFound,
    BlockTimestampError(String),
    ConsumerTypeParse(String),
    ContractVersionNotFound,
    ByteObjectError(String),
    ContractVersionParse(String),
    EnvironmentNameNotFound,
    FailedToGetBytes,
    IndexerDatabaseUrlNotFound,
    IndexerSchemaNotFound,
    LogLevelParse(String),
    InvalidCaip10,
    InvalidCaip22,
    UnsupportedChain(i64),
    ChainRpcNotConfigured(i64),
    UnsupportedTokenUri(String),
    DecodingError(String),
    SsrfBlocked(String),
    ResponseTooLarge(usize, usize),
    TokenIdTooLong(usize),
    IndexerSourceParse(String),
    LabelNotFound,
    LogDecodingError(String),
    MaxRetriesExceeded,
    VaultNotFound(String),
    NotFound,
    PoisonErrorMutex(String),
    Shutdown,
    UnsuportedMode,
    TermNotFound,
}

} // verus!
