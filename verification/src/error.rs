//! The failures of the wallet engine, and the code that each is reported
//! under.
//!
//! A failure is built once, where it happens, and never changed afterwards.
//! A variant that wraps a failure of a lower layer holds that failure's
//! description. Callers outside the engine see a failure only as a
//! message and a code; the codes are a fixed vocabulary, and one of them,
//! `id_invalid_pin`, makes the caller count a wrong PIN.

use crate::locks::{poison_description, poison_text};
use crate::text::{debug_quote, debug_quoted, decimal, decimal_string, join2, join3, join5};
use std::sync::{MutexGuard, PoisonError, RwLockReadGuard, RwLockWriteGuard};
use vstd::pervasive::arbitrary;
use vstd::prelude::*;
use vstd::std_specs::convert::FromSpecImpl;
use vstd::string::*;

verus! {

/// What can go wrong in the wallet engine.
#[derive(Debug, Clone, PartialEq, Eq)]
pub enum Error {
    /// A new subaccount was asked for while the last one is unused.
    AccountGapsDisallowed,
    /// A socket address that cannot be read.
    AddrParse(String),
    /// An asset id was left empty on Liquid.
    AssetEmpty,
    /// A text that is no base64.
    Base64DecodeError(String),
    /// A failure of the Bitcoin library.
    Bitcoin(String),
    /// A key derivation failure.
    BitcoinBIP32Error(String),
    /// Bytes that are no consensus encoding.
    BitcoinConsensus(String),
    /// A hash of the wrong length.
    BitcoinHashes(String),
    /// A text that is no hexadecimal.
    BitcoinHexError(String),
    /// A key that cannot be read.
    BitcoinKeyError(String),
    /// A failure of the Electrum client.
    ClientError(String),
    /// A failure of the shared wallet layer.
    Common(String),
    /// Bytes that are no Elements encoding.
    ElementsEncode(String),
    /// A partially signed transaction that cannot be handled.
    ElementsPset(String),
    /// A transaction was asked for without addressees.
    EmptyAddressees,
    /// A block cipher failure.
    Encryption(String),
    /// A fee rate under the minimum, which is given in satoshi per kilobyte.
    FeeRateBelowMinimum(u64),
    /// A JSON text that could not be read or written.
    JSON(String),
    /// The wallet holds too little for the transaction.
    InsufficientFunds,
    /// An address that cannot be paid to.
    InvalidAddress,
    /// An amount that cannot be sent.
    InvalidAmount,
    /// An asset id that is not known.
    InvalidAssetId,
    /// An Electrum server URL that cannot be used.
    InvalidElectrumUrl(String),
    /// Block headers that do not verify.
    InvalidHeaders,
    /// A cipher key or nonce of the wrong length.
    InvalidKeyIvLength(String),
    /// A mnemonic that is not valid.
    InvalidMnemonic,
    /// A wrong PIN. The caller counts these: after a small number in a row the
    /// server deletes the key. No other failure may move that counter.
    InvalidPin,
    /// A replacement request whose fields do not fit together.
    InvalidReplacementRequest,
    /// A signature hash type that is not valid.
    InvalidSigHash,
    /// An owned byte string that is no UTF-8.
    InvalidStringUtf8(String),
    /// A byte slice that is no UTF-8.
    InvalidStrUtf8(String),
    /// A subaccount number that the wallet does not have.
    InvalidSubaccount(u32),
    /// Two extended public keys that should agree and do not.
    MismatchingXpubs(String, String),
    /// The master blinding key is needed and missing.
    MissingMasterBlindingKey,
    /// A thread panicked while it held a mutex; the text describes it.
    MutexPoisonError(String),
    /// An address that is not confidential where one is required.
    NonConfidentialAddress,
    /// The PIN service could not be reached or failed; says nothing about the
    /// PIN itself.
    PinError,
    /// A partially signed transaction and a transaction with different ids.
    PsetAndTxMismatch(String, String),
    /// A partially signed transaction that cannot be blinded.
    PsetBlindError(String),
    /// A thread panicked while it held a read-write lock; the text describes
    /// it.
    RwLockPoisonError(String),
    /// A script that the wallet does not hold.
    ScriptPubkeyNotFound,
    /// A failure of the elliptic curve library.
    Secp256k1(String),
    /// A failure of the zero-knowledge extension of the curve library.
    Secp256k1Zkp(String),
    /// A channel whose receiver is gone.
    Send(String),
    /// A send-all request that cannot be built.
    SendAll,
    /// A CBOR document that could not be read or written.
    SerdeCborError(String),
    /// A slice of the wrong length.
    SliceConversionError(String),
    /// An input or output failure.
    StdIOError(String),
    /// The store was used before it was loaded.
    StoreNotLoaded,
    /// A transaction that the wallet does not hold, named by its id.
    TxNotFound(String),
    /// An output that cannot be unblinded.
    UnblindError(String),
    /// A call that the backend does not know.
    UnknownCall,
    /// A signature hash type that is not supported.
    UnsupportedSigHash,
    /// An HTTP request that failed.
    UreqError(String),
    /// A signature hash that cannot be computed.
    Sighash(String),
    /// The wallet was used before it was initialised.
    WalletNotInitialized,
    /// A method that nothing answers to: its name, and whether it was asked of
    /// a session.
    MethodNotFound { method: String, in_session: bool },
    /// A file that is missing, named by its path.
    FileNotExist(String),
    /// Any other failure, described by its text.
    Generic(String),
    /// A failure of the asset registry.
    Registry(crate::registry::Error),
}

/// Whether `code` belongs to the vocabulary of codes that callers may see.
pub open spec fn is_wire_code(code: Seq<char>) -> bool {
    ||| code == "id_insufficient_funds"@
    ||| code == "id_invalid_address"@
    ||| code == "id_nonconfidential_addresses_not"@
    ||| code == "id_invalid_amount"@
    ||| code == "id_invalid_asset_id"@
    ||| code == "id_fee_rate_is_below_minimum"@
    ||| code == "id_connection_failed"@
    ||| code == "id_invalid_pin"@
    ||| code == "id_unknown"@
}

/// The description of a method that nothing answers to: the method's name
/// between quotes, after a few words that say whether it was asked of a
/// session.
pub open spec fn method_not_found_text(method: Seq<char>, in_session: bool) -> Seq<char> {
    if in_session {
        "session method not found: "@ + debug_quoted(method)
    } else {
        "method not found: "@ + debug_quoted(method)
    }
}

impl Error {
    /// The code that the failure is reported under: a fixed table, with
    /// `id_unknown` for every failure that has no code of its own.
    pub open spec fn code_spec(&self) -> Seq<char> {
        match self {
            Error::InsufficientFunds => "id_insufficient_funds"@,
            Error::InvalidAddress => "id_invalid_address"@,
            Error::NonConfidentialAddress => "id_nonconfidential_addresses_not"@,
            Error::InvalidAmount => "id_invalid_amount"@,
            Error::InvalidAssetId => "id_invalid_asset_id"@,
            Error::FeeRateBelowMinimum(_) => "id_fee_rate_is_below_minimum"@,
            Error::PinError => "id_connection_failed"@,
            Error::InvalidPin => "id_invalid_pin"@,
            _ => "id_unknown"@,
        }
    }

    /// The description of the failure.
    pub open spec fn message_spec(&self) -> Seq<char> {
        match self {
            Error::AccountGapsDisallowed => "cannot create a new subaccount while the last one is unused"@,
            Error::AddrParse(s) => "could not parse SocketAddr `"@ + s@ + "`"@,
            Error::AssetEmpty => "`asset_id` cannot be empty in Liquid"@,
            Error::Base64DecodeError(s) => s@,
            Error::Bitcoin(s) => s@,
            Error::BitcoinBIP32Error(s) => s@,
            Error::BitcoinConsensus(s) => s@,
            Error::BitcoinHashes(s) => s@,
            Error::BitcoinHexError(s) => s@,
            Error::BitcoinKeyError(s) => s@,
            Error::ClientError(s) => s@,
            Error::Common(s) => s@,
            Error::ElementsEncode(s) => s@,
            Error::ElementsPset(s) => s@,
            Error::EmptyAddressees => "addressees cannot be empty"@,
            Error::Encryption(s) => s@,
            Error::FeeRateBelowMinimum(n) => "fee rate is below the minimum of "@ + decimal(*n as nat)
                + "sat/kb"@,
            Error::JSON(s) => s@,
            Error::InsufficientFunds => "insufficient funds"@,
            Error::InvalidAddress => "invalid address"@,
            Error::InvalidAmount => "invalid amount"@,
            Error::InvalidAssetId => "invalid asset id"@,
            Error::InvalidElectrumUrl(s) => "Invalid Electrum URL: "@ + s@,
            Error::InvalidHeaders => "invalid headers"@,
            Error::InvalidKeyIvLength(s) => s@,
            Error::InvalidMnemonic => "invalid mnemonic"@,
            Error::InvalidPin => "id_invalid_pin"@,
            Error::InvalidReplacementRequest => "invalid replacement request fields"@,
            Error::InvalidSigHash => "invalid sighash"@,
            Error::InvalidStringUtf8(s) => s@,
            Error::InvalidStrUtf8(s) => s@,
            Error::InvalidSubaccount(n) => "invalid subaccount "@ + decimal(*n as nat),
            Error::MismatchingXpubs(a, b) => "Xpubs mismatch ("@ + a@ + " vs "@ + b@ + ")"@,
            Error::MissingMasterBlindingKey => "Master blinding key is missing but we need it"@,
            Error::MutexPoisonError(s) => "Mutex is poisoned: "@ + s@,
            Error::NonConfidentialAddress => "non confidential address"@,
            Error::PinError => "id_connection_failed"@,
            Error::PsetAndTxMismatch(a, b) => "PSET and Tx mismatch ("@ + a@ + " vs "@ + b@ + ")"@,
            Error::PsetBlindError(s) => s@,
            Error::RwLockPoisonError(s) => "RW lock is poisoned: "@ + s@,
            Error::ScriptPubkeyNotFound => "Scriptpubkey not found"@,
            Error::Secp256k1(s) => s@,
            Error::Secp256k1Zkp(s) => s@,
            Error::Send(s) => s@,
            Error::SendAll => "sendall error"@,
            Error::SerdeCborError(s) => s@,
            Error::SliceConversionError(s) => s@,
            Error::StdIOError(s) => s@,
            Error::StoreNotLoaded => "attempt to access the store without calling load_store first"@,
            Error::TxNotFound(s) => "Transaction not found ("@ + s@ + ")"@,
            Error::UnblindError(s) => s@,
            Error::UnknownCall => "unknown call"@,
            Error::UnsupportedSigHash => "unsupported sighash"@,
            Error::UreqError(s) => s@,
            Error::Sighash(s) => s@,
            Error::WalletNotInitialized => "wallet is not initialized"@,
            Error::MethodNotFound { method, in_session } => method_not_found_text(
                method@,
                *in_session,
            ),
            Error::FileNotExist(s) => s@ + " do not exist"@,
            Error::Generic(s) => s@,
            Error::Registry(e) => e.message_spec(),
        }
    }

    /// The code that the failure is reported under. Every failure has exactly
    /// one, it is never empty, and it is `id_invalid_pin` for a wrong PIN
    /// and for nothing else.
    pub fn to_gdk_code(&self) -> (r: String)
        ensures
            r@ == self.code_spec(),
            is_wire_code(r@),
            r@.len() > 0,
            r@ == "id_invalid_pin"@ <==> self is InvalidPin,
    {
        proof {
            lemma_code_is_enumerated(*self);
            lemma_invalid_pin_only(*self);
        }
        match self {
            Error::InsufficientFunds => String::from_str("id_insufficient_funds"),
            Error::InvalidAddress => String::from_str("id_invalid_address"),
            Error::NonConfidentialAddress => String::from_str("id_nonconfidential_addresses_not"),
            Error::InvalidAmount => String::from_str("id_invalid_amount"),
            Error::InvalidAssetId => String::from_str("id_invalid_asset_id"),
            Error::FeeRateBelowMinimum(_) => String::from_str("id_fee_rate_is_below_minimum"),
            Error::PinError => String::from_str("id_connection_failed"),
            Error::InvalidPin => String::from_str("id_invalid_pin"),
            _ => String::from_str("id_unknown"),
        }
    }

    /// The description of the failure, as a string.
    pub fn to_string(&self) -> (r: String)
        ensures
            r@ == self.message_spec(),
    {
        match self {
            Error::AccountGapsDisallowed => String::from_str("cannot create a new subaccount while the last one is unused"),
            Error::AddrParse(s) => join3("could not parse SocketAddr `", s.as_str(), "`"),
            Error::AssetEmpty => String::from_str("`asset_id` cannot be empty in Liquid"),
            Error::Base64DecodeError(s) => s.clone(),
            Error::Bitcoin(s) => s.clone(),
            Error::BitcoinBIP32Error(s) => s.clone(),
            Error::BitcoinConsensus(s) => s.clone(),
            Error::BitcoinHashes(s) => s.clone(),
            Error::BitcoinHexError(s) => s.clone(),
            Error::BitcoinKeyError(s) => s.clone(),
            Error::ClientError(s) => s.clone(),
            Error::Common(s) => s.clone(),
            Error::ElementsEncode(s) => s.clone(),
            Error::ElementsPset(s) => s.clone(),
            Error::EmptyAddressees => String::from_str("addressees cannot be empty"),
            Error::Encryption(s) => s.clone(),
            Error::FeeRateBelowMinimum(n) => {
                let digits = decimal_string(*n);
                join3("fee rate is below the minimum of ", digits.as_str(), "sat/kb")
            },
            Error::JSON(s) => s.clone(),
            Error::InsufficientFunds => String::from_str("insufficient funds"),
            Error::InvalidAddress => String::from_str("invalid address"),
            Error::InvalidAmount => String::from_str("invalid amount"),
            Error::InvalidAssetId => String::from_str("invalid asset id"),
            Error::InvalidElectrumUrl(s) => join2("Invalid Electrum URL: ", s.as_str()),
            Error::InvalidHeaders => String::from_str("invalid headers"),
            Error::InvalidKeyIvLength(s) => s.clone(),
            Error::InvalidMnemonic => String::from_str("invalid mnemonic"),
            Error::InvalidPin => String::from_str("id_invalid_pin"),
            Error::InvalidReplacementRequest => String::from_str("invalid replacement request fields"),
            Error::InvalidSigHash => String::from_str("invalid sighash"),
            Error::InvalidStringUtf8(s) => s.clone(),
            Error::InvalidStrUtf8(s) => s.clone(),
            Error::InvalidSubaccount(n) => {
                let digits = decimal_string(*n as u64);
                join2("invalid subaccount ", digits.as_str())
            },
            Error::MismatchingXpubs(a, b) => join5("Xpubs mismatch (", a.as_str(), " vs ", b.as_str(), ")"),
            Error::MissingMasterBlindingKey => String::from_str("Master blinding key is missing but we need it"),
            Error::MutexPoisonError(s) => join2("Mutex is poisoned: ", s.as_str()),
            Error::NonConfidentialAddress => String::from_str("non confidential address"),
            Error::PinError => String::from_str("id_connection_failed"),
            Error::PsetAndTxMismatch(a, b) => join5("PSET and Tx mismatch (", a.as_str(), " vs ", b.as_str(), ")"),
            Error::PsetBlindError(s) => s.clone(),
            Error::RwLockPoisonError(s) => join2("RW lock is poisoned: ", s.as_str()),
            Error::ScriptPubkeyNotFound => String::from_str("Scriptpubkey not found"),
            Error::Secp256k1(s) => s.clone(),
            Error::Secp256k1Zkp(s) => s.clone(),
            Error::Send(s) => s.clone(),
            Error::SendAll => String::from_str("sendall error"),
            Error::SerdeCborError(s) => s.clone(),
            Error::SliceConversionError(s) => s.clone(),
            Error::StdIOError(s) => s.clone(),
            Error::StoreNotLoaded => String::from_str("attempt to access the store without calling load_store first"),
            Error::TxNotFound(s) => join3("Transaction not found (", s.as_str(), ")"),
            Error::UnblindError(s) => s.clone(),
            Error::UnknownCall => String::from_str("unknown call"),
            Error::UnsupportedSigHash => String::from_str("unsupported sighash"),
            Error::UreqError(s) => s.clone(),
            Error::Sighash(s) => s.clone(),
            Error::WalletNotInitialized => String::from_str("wallet is not initialized"),
            Error::MethodNotFound { method, in_session } => {
                let quoted = debug_quote(method.as_str());
                if *in_session {
                    join2("session method not found: ", quoted.as_str())
                } else {
                    join2("method not found: ", quoted.as_str())
                }
            },
            Error::FileNotExist(s) => join2(s.as_str(), " do not exist"),
            Error::Generic(s) => s.clone(),
            Error::Registry(e) => e.to_string(),
        }
    }
}

/// The codes have nine different lengths, so no two of them are the same
/// text.
pub proof fn lemma_code_lengths()
    ensures
        "id_insufficient_funds"@.len() == 21,
        "id_invalid_address"@.len() == 18,
        "id_nonconfidential_addresses_not"@.len() == 32,
        "id_invalid_amount"@.len() == 17,
        "id_invalid_asset_id"@.len() == 19,
        "id_fee_rate_is_below_minimum"@.len() == 28,
        "id_connection_failed"@.len() == 20,
        "id_invalid_pin"@.len() == 14,
        "id_unknown"@.len() == 10,
{
    reveal_strlit("id_insufficient_funds");
    reveal_strlit("id_invalid_address");
    reveal_strlit("id_nonconfidential_addresses_not");
    reveal_strlit("id_invalid_amount");
    reveal_strlit("id_invalid_asset_id");
    reveal_strlit("id_fee_rate_is_below_minimum");
    reveal_strlit("id_connection_failed");
    reveal_strlit("id_invalid_pin");
    reveal_strlit("id_unknown");
}

/// Every failure has a code, the code is one of the vocabulary, and it is
/// not empty.
pub proof fn lemma_code_is_enumerated(e: Error)
    ensures
        is_wire_code(e.code_spec()),
        e.code_spec().len() > 0,
{
    lemma_code_lengths();
}

/// A wrong PIN is the only failure reported as `id_invalid_pin`. A failure
/// of the PIN service is reported as `id_connection_failed`, which is
/// another code.
pub proof fn lemma_invalid_pin_only(e: Error)
    ensures
        e.code_spec() == "id_invalid_pin"@ <==> e is InvalidPin,
        e is PinError ==> e.code_spec() == "id_connection_failed"@,
        "id_connection_failed"@ != "id_invalid_pin"@,
{
    lemma_code_lengths();
}

/// A function that, whenever it is called, makes the catch-all failure
/// with the text `str`.
pub fn fn_err(str: &str) -> (f: impl Fn() -> Error + '_)
    ensures
        f.requires(()),
        forall|e: Error| f.ensures((), e) ==> (e matches Error::Generic(s) && s@ == str@),
{
    move || -> (e: Error)
        ensures
            e matches Error::Generic(s) && s@ == str@,
        { Error::Generic(String::from_str(str)) }
}

/// A bare text becomes the catch-all failure.
impl From<String> for Error {
    fn from(err: String) -> (r: Error) {
        Error::Generic(err)
    }
}

impl FromSpecImpl<String> for Error {
    open spec fn obeys_from_spec() -> bool {
        true
    }

    open spec fn from_spec(err: String) -> Error {
        Error::Generic(err)
    }
}

/// A poisoned read-write lock, met while reading, becomes
/// `RwLockPoisonError` with the standard library's description of the
/// poisoning.
impl<T> From<PoisonError<RwLockReadGuard<'_, T>>> for Error {
    fn from(err: PoisonError<RwLockReadGuard<'_, T>>) -> (r: Error)
        ensures
            r matches Error::RwLockPoisonError(description) && description@ == poison_description(),
    {
        Error::RwLockPoisonError(poison_text(&err))
    }
}

impl<T> FromSpecImpl<PoisonError<RwLockReadGuard<'_, T>>> for Error {
    open spec fn obeys_from_spec() -> bool {
        false
    }

    open spec fn from_spec(err: PoisonError<RwLockReadGuard<'_, T>>) -> Error {
        arbitrary()
    }
}

/// A poisoned read-write lock, met while writing, becomes
/// `RwLockPoisonError` with the standard library's description of the
/// poisoning.
impl<T> From<PoisonError<RwLockWriteGuard<'_, T>>> for Error {
    fn from(err: PoisonError<RwLockWriteGuard<'_, T>>) -> (r: Error)
        ensures
            r matches Error::RwLockPoisonError(description) && description@ == poison_description(),
    {
        Error::RwLockPoisonError(poison_text(&err))
    }
}

impl<T> FromSpecImpl<PoisonError<RwLockWriteGuard<'_, T>>> for Error {
    open spec fn obeys_from_spec() -> bool {
        false
    }

    open spec fn from_spec(err: PoisonError<RwLockWriteGuard<'_, T>>) -> Error {
        arbitrary()
    }
}

/// A poisoned mutex becomes `MutexPoisonError` with the standard library's
/// description of the poisoning.
impl<T> From<PoisonError<MutexGuard<'_, T>>> for Error {
    fn from(err: PoisonError<MutexGuard<'_, T>>) -> (r: Error)
        ensures
            r matches Error::MutexPoisonError(description) && description@ == poison_description(),
    {
        Error::MutexPoisonError(poison_text(&err))
    }
}

impl<T> FromSpecImpl<PoisonError<MutexGuard<'_, T>>> for Error {
    open spec fn obeys_from_spec() -> bool {
        false
    }

    open spec fn from_spec(err: PoisonError<MutexGuard<'_, T>>) -> Error {
        arbitrary()
    }
}

} // verus!
