use vstd::prelude::*;

use crate::errors::ImportError;
use crate::types::Block;
use crate::types::BlockId;
use crate::types::SealedBlock;
use crate::types::SealedBlockHeader;
use crate::types::SourcePeer;
use crate::types::Transaction;

verus! {

/// Returns true if the header is at the expected height.
pub fn validate_header_height(expected_height: u32, header: &SealedBlockHeader) -> (r: bool)
    ensures
        r == (header.entity.height == expected_height),
{
    header.entity.height == expected_height
}

/// What the header stage hands downstream for one requested height.
pub open spec fn spec_resolve_header(
    requested: u32,
    response: Result<Option<SourcePeer<SealedBlockHeader>>, ImportError>,
) -> Result<Option<SourcePeer<SealedBlockHeader>>, ImportError> {
    match response {
        Err(e) => Err(e),
        Ok(None) => Ok(None),
        Ok(Some(h)) => if h.data.entity.height == requested {
            Ok(Some(h))
        } else {
            Ok(None)
        },
    }
}

/// The header stage's treatment of one transport response: a transport
/// error propagates; no header at all, or a header whose advertised
/// height differs from the requested one, is dropped silently and the
/// height counts as missing.
pub fn resolve_header_response(
    requested: u32,
    response: Result<Option<SourcePeer<SealedBlockHeader>>, ImportError>,
) -> (r: Result<Option<SourcePeer<SealedBlockHeader>>, ImportError>)
    ensures
        r == spec_resolve_header(requested, response),
{
    match response {
        Err(e) => Err(e),
        Ok(None) => Ok(None),
        Ok(Some(h)) => {
            if validate_header_height(requested, &h.data) {
                Ok(Some(h))
            } else {
                Ok(None)
            }
        },
    }
}

/// What the block stage decides once the consensus seal check came back.
#[derive(Clone, Debug, PartialEq, Eq)]
pub enum SealVerdict {
    /// The seal is valid: wait for data availability, then fetch the
    /// block's transactions.
    Proceed,
    /// The seal was rejected under current consensus rules: the height
    /// counts as missing, no error.
    Skip,
    /// The evaluator's own machinery failed.
    Fail(ImportError),
}

/// The block stage's treatment of the seal check: an evaluator error
/// propagates; a rejected seal skips the height; a valid seal proceeds.
pub fn after_seal_check(result: Result<bool, ImportError>) -> (r: SealVerdict)
    ensures
        match result {
            Ok(valid) => r == (if valid {
                SealVerdict::Proceed
            } else {
                SealVerdict::Skip
            }),
            Err(e) => r == SealVerdict::Fail(e),
        },
{
    match result {
        Ok(true) => SealVerdict::Proceed,
        Ok(false) => SealVerdict::Skip,
        Err(e) => SealVerdict::Fail(e),
    }
}

/// The follow-up transaction request for a validated header: aimed at
/// the same peer that supplied the header, asking for the block the
/// header identifies.
pub fn block_request(header: &SourcePeer<SealedBlockHeader>) -> (r: SourcePeer<BlockId>)
    ensures
        r.peer_id == header.peer_id,
        r.data == header.data.entity.id_spec(),
{
    SourcePeer { peer_id: header.peer_id, data: header.data.entity.id() }
}

/// What block assembly makes of one transaction response.
pub open spec fn spec_sealed_block_from(
    header: SealedBlockHeader,
    response: Result<Option<Vec<Transaction>>, ImportError>,
) -> Result<Option<SealedBlock>, ImportError> {
    match response {
        Err(e) => Err(e),
        Ok(None) => Ok(None),
        Ok(Some(txs)) => if txs@.len() == header.entity.transactions_count {
            Ok(
                Some(
                    SealedBlock {
                        entity: Block { header: header.entity, transactions: txs },
                        consensus: header.consensus,
                    },
                ),
            )
        } else {
            Ok(None)
        },
    }
}

/// Assembles the sealed block for one height from the transaction
/// response: a transport error propagates; a peer without the block, or
/// a transaction list the block's integrity check refuses, leaves the
/// height missing; otherwise the header's seal is carried over onto the
/// assembled block.
pub fn sealed_block_from_transactions(
    header: SealedBlockHeader,
    response: Result<Option<Vec<Transaction>>, ImportError>,
) -> (r: Result<Option<SealedBlock>, ImportError>)
    ensures
        r == spec_sealed_block_from(header, response),
{
    match response {
        Err(e) => Err(e),
        Ok(None) => Ok(None),
        Ok(Some(txs)) => {
            match Block::try_from_executed(header.entity, txs) {
                Some(block) => Ok(Some(SealedBlock { entity: block, consensus: header.consensus })),
                None => Ok(None),
            }
        },
    }
}

/// A block that leaves the assembly stage sits exactly at the height of
/// the header it was assembled from.
pub proof fn lemma_assembled_height(
    header: SealedBlockHeader,
    response: Result<Option<Vec<Transaction>>, ImportError>,
)
    ensures
        spec_sealed_block_from(header, response) matches Ok(Some(bb)) ==> bb.height()
            == header.entity.height,
{
    match response {
        Err(_) => {},
        Ok(None) => {},
        Ok(Some(txs)) => {
            assert(spec_sealed_block_from(header, response) == (if txs@.len()
                == header.entity.transactions_count {
                Ok::<Option<SealedBlock>, ImportError>(
                    Some(
                        SealedBlock {
                            entity: Block { header: header.entity, transactions: txs },
                            consensus: header.consensus,
                        },
                    ),
                )
            } else {
                Ok(None)
            }));
        },
    }
}

} // verus!
