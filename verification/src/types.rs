use vstd::prelude::*;

verus! {

/// An inclusive, non-empty range of block heights.
#[derive(Clone, Copy, Debug, PartialEq, Eq, Structural)]
pub struct HeightRange {
    /// Lowest height of the range.
    pub start: u32,
    /// Highest height of the range.
    pub end: u32,
}

impl HeightRange {
    /// A range is well formed when it holds at least one height.
    pub open spec fn wf(self) -> bool {
        self.start <= self.end
    }

    /// Number of heights in the range.
    pub open spec fn len(self) -> int {
        self.end - self.start + 1
    }

    /// Whether a height lies inside the range.
    pub open spec fn contains(self, h: int) -> bool {
        self.start <= h <= self.end
    }

    /// The set of heights the range covers.
    pub open spec fn heights(self) -> Set<int> {
        Set::new(|h: int| self.start <= h <= self.end)
    }

    /// Number of heights in the range, as a machine integer.
    pub fn length(&self) -> (n: u64)
        requires
            self.wf(),
        ensures
            n == self.len(),
    {
        (self.end - self.start) as u64 + 1
    }
}

/// An opaque tag naming the peer that supplied a value. The core never
/// inspects it; it only hands it back to the transport so follow-up
/// requests can be biased toward the same peer.
#[derive(Clone, Copy, Debug, PartialEq, Eq, Structural)]
pub struct PeerId {
    pub id: u64,
}

/// A value together with the peer that supplied it.
#[derive(Clone, Debug, PartialEq, Eq)]
pub struct SourcePeer<T> {
    pub peer_id: PeerId,
    pub data: T,
}

/// The consensus seal attached to a header or block. Opaque to the core:
/// only the consensus port can judge it.
#[derive(Clone, Debug, PartialEq, Eq)]
pub struct ConsensusSeal {
    pub signature: Vec<u8>,
}

/// A deterministic identifier of a block, derivable from its header.
#[derive(Clone, Copy, Debug, PartialEq, Eq, Structural)]
pub struct BlockId {
    pub height: u32,
    pub application_hash: u64,
}

/// The part of a block header the importer reads.
#[derive(Clone, Copy, Debug, PartialEq, Eq, Structural)]
pub struct BlockHeader {
    /// Chain height of the block.
    pub height: u32,
    /// Data-availability watermark the block depends on.
    pub da_height: u64,
    /// Number of transactions the block declares; block assembly checks
    /// the fetched transaction list against it.
    pub transactions_count: u64,
    /// Hash carried for observability only.
    pub application_hash: u64,
}

impl BlockHeader {
    /// The identifier the header determines.
    pub open spec fn id_spec(self) -> BlockId {
        BlockId { height: self.height, application_hash: self.application_hash }
    }

    pub fn id(&self) -> (r: BlockId)
        ensures
            r == self.id_spec(),
    {
        BlockId { height: self.height, application_hash: self.application_hash }
    }
}

/// A header together with its consensus seal.
#[derive(Clone, Debug, PartialEq, Eq)]
pub struct SealedBlockHeader {
    pub entity: BlockHeader,
    pub consensus: ConsensusSeal,
}

/// A single transaction, opaque to the core.
#[derive(Clone, Debug, PartialEq, Eq)]
pub struct Transaction {
    pub bytes: Vec<u8>,
}

/// A block assembled from a validated header and its transaction list.
#[derive(Clone, Debug, PartialEq, Eq)]
pub struct Block {
    pub header: BlockHeader,
    pub transactions: Vec<Transaction>,
}

impl Block {
    /// Assembles a block from a header and an ordered transaction list.
    /// The internal integrity check accepts the pair exactly when the
    /// list length matches the count the header declares.
    pub fn try_from_executed(header: BlockHeader, transactions: Vec<Transaction>) -> (r: Option<
        Block,
    >)
        ensures
            transactions@.len() == header.transactions_count ==> r == Some(
                Block { header, transactions },
            ),
            transactions@.len() != header.transactions_count ==> r is None,
    {
        if transactions.len() as u64 == header.transactions_count {
            Some(Block { header, transactions })
        } else {
            None
        }
    }
}

/// A block together with its consensus seal.
#[derive(Clone, Debug, PartialEq, Eq)]
pub struct SealedBlock {
    pub entity: Block,
    pub consensus: ConsensusSeal,
}

impl SealedBlock {
    /// The chain height the block sits at.
    pub open spec fn height(self) -> u32 {
        self.entity.header.height
    }

    pub fn block_height(&self) -> (h: u32)
        ensures
            h == self.height(),
    {
        self.entity.header.height
    }
}

} // verus!
