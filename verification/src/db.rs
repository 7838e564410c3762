use vstd::prelude::*;
use vstd::string::StringExecFns;

use crate::types::Block;
use crate::types::ConsensusSeal;
use crate::types::Transaction;

verus! {

/// A table of the database: a key type and the value types it is set
/// with and read back as.
pub trait Mappable {
    type Key;
    type SetValue;
    type GetValue;
}

/// A 32-byte identifier, the key form of most tables.
#[derive(Clone, Copy, Debug, PartialEq, Eq)]
pub struct Bytes32 {
    pub bytes: [u8; 32],
}

/// The unique identifier of a smart contract.
#[derive(Clone, Copy, Debug, PartialEq, Eq)]
pub struct ContractId {
    pub bytes: [u8; 32],
}

/// The unique identifier of a bridged message.
#[derive(Clone, Copy, Debug, PartialEq, Eq)]
pub struct MessageId {
    pub bytes: [u8; 32],
}

/// A transaction output as an input to a later transaction: the
/// transaction it came from and the output's index in it.
#[derive(Clone, Copy, Debug, PartialEq, Eq)]
pub struct UtxoId {
    pub tx_id: Bytes32,
    pub output_index: u8,
}

/// An unspent coin as stored.
#[derive(Clone, Copy, Debug, PartialEq, Eq, Structural)]
pub struct Coin {
    pub amount: u64,
    pub block_created: u32,
}

/// A bridged message as stored.
#[derive(Clone, Copy, Debug, PartialEq, Eq, Structural)]
pub struct Message {
    pub amount: u64,
    pub da_height: u64,
}

/// A receipt of a hidden internal operation.
#[derive(Clone, Copy, Debug, PartialEq, Eq, Structural)]
pub struct Receipt {
    pub gas_used: u64,
}

/// The table of blocks generated by validators.
pub struct FuelBlocks;

impl Mappable for FuelBlocks {
    type Key = Bytes32;

    type SetValue = Block;

    type GetValue = Block;
}

/// The latest UTXO of each contract: the unique id of its state. Each
/// transaction consumes the old one and produces a new one.
pub struct ContractsLatestUtxo;

impl Mappable for ContractsLatestUtxo {
    type Key = ContractId;

    type SetValue = UtxoId;

    type GetValue = UtxoId;
}

/// Receipts of hidden internal operations, by transaction.
pub struct Receipts;

impl Mappable for Receipts {
    type Key = Bytes32;

    type SetValue = Vec<Receipt>;

    type GetValue = Vec<Receipt>;
}

/// The consensus metadata of sealed (finalized) blocks.
pub struct SealedBlockConsensus;

impl Mappable for SealedBlockConsensus {
    type Key = Bytes32;

    type SetValue = ConsensusSeal;

    type GetValue = ConsensusSeal;
}

/// The table of coins, each represented by its unique UTXO id.
pub struct Coins;

impl Mappable for Coins {
    type Key = UtxoId;

    type SetValue = Coin;

    type GetValue = Coin;
}

/// The table of bridged messages.
pub struct Messages;

impl Mappable for Messages {
    type Key = MessageId;

    type SetValue = Message;

    type GetValue = Message;
}

/// The table of confirmed transactions.
pub struct Transactions;

impl Mappable for Transactions {
    type Key = Bytes32;

    type SetValue = Transaction;

    type GetValue = Transaction;
}

/// Errors of the database layer.
#[derive(Debug)]
#[non_exhaustive]
pub enum Error {
    Codec,
    ChainAlreadyInitialized,
    ChainUninitialized,
    InvalidDatabaseVersion,
    /// An error of the underlying datastore, carried as its rendering.
    DatabaseError(String),
    /// Any other error, carried as its rendering.
    Other(String),
}

impl Error {
    /// The display form of the error.
    pub open spec fn spec_message(self) -> Seq<char> {
        match self {
            Error::Codec => "error performing binary serialization"@,
            Error::ChainAlreadyInitialized => "Failed to initialize chain"@,
            Error::ChainUninitialized => "Chain is not yet initialized"@,
            Error::InvalidDatabaseVersion => "Invalid database version"@,
            Error::DatabaseError(s) => "error occurred in the underlying datastore `"@ + s@
                + "`"@,
            Error::Other(s) => s@,
        }
    }

    /// Renders the error for display.
    pub fn message(&self) -> (r: String)
        ensures
            r@ == self.spec_message(),
    {
        match self {
            Error::Codec => String::from_str("error performing binary serialization"),
            Error::ChainAlreadyInitialized => String::from_str("Failed to initialize chain"),
            Error::ChainUninitialized => String::from_str("Chain is not yet initialized"),
            Error::InvalidDatabaseVersion => String::from_str("Invalid database version"),
            Error::DatabaseError(s) => {
                let mut m = String::from_str("error occurred in the underlying datastore `");
                m.append(s.as_str());
                m.append("`");
                m
            },
            Error::Other(s) => String::from_str(s.as_str()),
        }
    }
}

/// Errors of the key-value store.
#[derive(Debug)]
pub enum KvStoreError {
    /// A generic error of the store, carried as its rendering.
    Error(String),
    /// A resource of the named type was not found; the second field
    /// names the place in the source that asked for it.
    NotFound(&'static str, &'static str),
}

impl KvStoreError {
    /// The display form of the error.
    pub open spec fn spec_message(self) -> Seq<char> {
        match self {
            KvStoreError::Error(_) => "generic error occurred"@,
            KvStoreError::NotFound(t, at) => "resource of type `"@ + t@
                + "` was not found at the: "@ + at@,
        }
    }

    /// Renders the error for display.
    pub fn message(&self) -> (r: String)
        ensures
            r@ == self.spec_message(),
    {
        match self {
            KvStoreError::Error(_) => String::from_str("generic error occurred"),
            KvStoreError::NotFound(t, at) => {
                let mut m = String::from_str("resource of type `");
                m.append(t);
                m.append("` was not found at the: ");
                m.append(at);
                m
            },
        }
    }
}

/// Commits pending state changes into the database.
pub trait Transactional {
    /// Commits the pending state changes into the database.
    fn commit(self) -> Result<(), Error>;

    /// The same as `commit`, for a boxed transaction.
    fn commit_box(self: Box<Self>) -> Result<(), Error>;
}

/// A database transaction over a `Database` instance.
pub trait DatabaseTransaction<Database>: Transactional {
    /// The database the transaction runs against.
    fn database(&self) -> &Database;

    /// The database the transaction runs against, mutably.
    fn database_mut(&mut self) -> &mut Database;
}

} // verus!
