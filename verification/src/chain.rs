//! The chain: an ordered, append-only sequence of blocks in which every
//! block stores the hash of the one before it.

use crate::block::{
    genesis_data, header_digest, none_accepted, zero_hash, Block, BlockView, MiningError,
    MAX_DATA_LEN, MAX_PROOF,
};
use crate::bytes::be_value;
use crate::clock::current_timestamp;
use crate::digest::same_hash;
use crate::target::{target_value, DIFFICULTY};
use vstd::prelude::*;

verus! {

/// What a chain holds, as plain values: its blocks in chain order, the
/// difficulty they are mined at, and the iteration ceiling of each search.
pub struct ChainView {
    pub blocks: Seq<BlockView>,
    pub difficulty: nat,
    pub max_proof: u64,
}

impl ChainView {
    /// Every block but the first stores the hash of the block before it.
    pub open spec fn linked(self) -> bool {
        forall|i: int|
            0 < i < self.blocks.len() ==> (#[trigger] self.blocks[i]).prev_hash == self.blocks[i
                - 1].hash
    }

    /// Every block's hash is the digest of its fields and lies below the
    /// target, and the blocks are linked.
    pub open spec fn consistent(self) -> bool {
        &&& forall|i: int|
            0 <= i < self.blocks.len() ==> (#[trigger] self.blocks[i]).valid(self.difficulty)
        &&& self.linked()
    }

    /// The chain with `block` after its last block.
    pub open spec fn with_block(self, block: BlockView) -> ChainView {
        ChainView { blocks: self.blocks.push(block), ..self }
    }

    /// This chain is its genesis block alone, mined at `timestamp`.
    pub open spec fn is_genesis_of(self, timestamp: i64, difficulty: nat, max_proof: u64) -> bool {
        &&& self.difficulty == difficulty
        &&& self.max_proof == max_proof
        &&& self.blocks.len() == 1
        &&& self.blocks[0].mined_from(
            timestamp,
            zero_hash(),
            genesis_data(),
            difficulty,
            max_proof,
        )
    }

    /// `block` is what mining `data` at `timestamp` on top of this chain
    /// produces: it follows the last block.
    pub open spec fn mines_next(self, timestamp: i64, data: Seq<u8>, block: BlockView) -> bool {
        &&& self.blocks.len() > 0
        &&& block.mined_from(
            timestamp,
            self.blocks.last().hash,
            data,
            self.difficulty,
            self.max_proof,
        )
    }

    /// Mining `data` at `timestamp` on top of this chain finds no nonce below
    /// the iteration ceiling.
    pub open spec fn search_fails(self, timestamp: i64, data: Seq<u8>) -> bool {
        &&& self.blocks.len() > 0
        &&& none_accepted(
            timestamp,
            self.blocks.last().hash,
            data,
            self.difficulty,
            self.max_proof,
        )
    }
}

/// Appending keeps a chain consistent: where the chain is consistent, and the
/// new block is valid and stores the hash of the last block, the longer
/// chain is consistent too.
pub proof fn lemma_append_keeps_consistent(chain: ChainView, block: BlockView)
    requires
        chain.consistent(),
        block.valid(chain.difficulty),
        chain.blocks.len() > 0 ==> block.prev_hash == chain.blocks.last().hash,
    ensures
        chain.with_block(block).consistent(),
{
    let longer = chain.with_block(block);
    assert forall|i: int| 0 <= i < longer.blocks.len() implies (#[trigger] longer.blocks[i]).valid(
        longer.difficulty,
    ) by {
        if i < chain.blocks.len() {
            assert(longer.blocks[i] == chain.blocks[i]);
        }
    }
    assert forall|i: int| 0 < i < longer.blocks.len() implies (#[trigger] longer.blocks[i]).prev_hash
        == longer.blocks[i - 1].hash by {
        if i < chain.blocks.len() {
            assert(longer.blocks[i] == chain.blocks[i]);
        }
        assert(longer.blocks[i - 1] == chain.blocks[i - 1]);
    }
}

/// In a consistent chain every block carries the digest of its own fields,
/// every hash lies below the target, and every block but the first stores
/// the hash of the block before it.
pub proof fn lemma_consistent_chain(chain: ChainView, i: int)
    requires
        chain.consistent(),
        0 <= i < chain.blocks.len(),
    ensures
        chain.blocks[i].hash == header_digest(
            chain.blocks[i].timestamp,
            chain.blocks[i].prev_hash,
            chain.blocks[i].nonce,
            chain.blocks[i].data,
        ),
        be_value(chain.blocks[i].hash) < target_value(chain.difficulty),
        i > 0 ==> chain.blocks[i].prev_hash == chain.blocks[i - 1].hash,
{
}

/// The ledger.
#[derive(Debug)]
pub struct Blockchain {
    blocks: Vec<Block>,
    difficulty: usize,
    max_proof: u64,
}

impl View for Blockchain {
    type V = ChainView;

    closed spec fn view(&self) -> ChainView {
        ChainView {
            blocks: Seq::new(self.blocks@.len(), |i: int| self.blocks@[i]@),
            difficulty: self.difficulty as nat,
            max_proof: self.max_proof,
        }
    }
}

impl Blockchain {
    /// Initializes a new blockchain with a genesis block, mined at the
    /// current time with the reference difficulty and iteration ceiling.
    pub fn new() -> (made: Result<Blockchain, MiningError>)
        ensures
            match made {
                Ok(chain) => {
                    &&& chain@.is_genesis_of(
                        chain@.blocks[0].timestamp,
                        DIFFICULTY as nat,
                        MAX_PROOF,
                    )
                    &&& chain@.consistent()
                },
                Err(e) => {
                    &&& e == MiningError::IterationLimitExceeded
                    &&& exists|timestamp: i64|
                        none_accepted(
                            timestamp,
                            zero_hash(),
                            genesis_data(),
                            DIFFICULTY as nat,
                            MAX_PROOF,
                        )
                },
            },
    {
        Blockchain::with_genesis(current_timestamp(), DIFFICULTY, MAX_PROOF)
    }

    /// Initializes a new blockchain with a genesis block mined at
    /// `timestamp`. Fails, like any mining, when no nonce below `max_proof`
    /// meets the target.
    pub fn with_genesis(timestamp: i64, difficulty: usize, max_proof: u64) -> (made: Result<
        Blockchain,
        MiningError,
    >)
        ensures
            match made {
                Ok(chain) => {
                    &&& chain@.is_genesis_of(timestamp, difficulty as nat, max_proof)
                    &&& chain@.consistent()
                },
                Err(e) => {
                    &&& e == MiningError::IterationLimitExceeded
                    &&& none_accepted(
                        timestamp,
                        zero_hash(),
                        genesis_data(),
                        difficulty as nat,
                        max_proof,
                    )
                },
            },
    {
        match Block::mine_genesis(timestamp, difficulty, max_proof) {
            Ok(block) => {
                let mut blocks: Vec<Block> = Vec::new();
                blocks.push(block);
                Ok(Blockchain { blocks, difficulty, max_proof })
            },
            Err(e) => Err(e),
        }
    }

    /// Takes over stored blocks as a chain, without checking them:
    /// `validate` tells whether they are consistent. No blocks give a chain
    /// without a genesis block, to which nothing can be added.
    pub fn from_blocks(blocks: Vec<Block>, difficulty: usize, max_proof: u64) -> (chain: Blockchain)
        ensures
            chain@.blocks.len() == blocks@.len(),
            forall|i: int| 0 <= i < blocks@.len() ==> chain@.blocks[i] == blocks@[i]@,
            chain@.difficulty == difficulty,
            chain@.max_proof == max_proof,
    {
        Blockchain { blocks, difficulty, max_proof }
    }

    /// Adds a newly-mined block that carries `data`, stamped with the
    /// current time. Adding a block to an empty blockchain is an error: a
    /// genesis block needs to be created first. On an error the chain is
    /// left as it was.
    pub fn add_block(&mut self, data: &[u8]) -> (added: Result<(), MiningError>)
        requires
            data@.len() <= MAX_DATA_LEN,
        ensures
            match added {
                Ok(()) => {
                    &&& final(self)@ == old(self)@.with_block(final(self)@.blocks.last())
                    &&& old(self)@.mines_next(
                        final(self)@.blocks.last().timestamp,
                        data@,
                        final(self)@.blocks.last(),
                    )
                },
                Err(MiningError::NoParent) => {
                    &&& old(self)@.blocks.len() == 0
                    &&& *final(self) == *old(self)
                },
                Err(MiningError::IterationLimitExceeded) => {
                    &&& exists|timestamp: i64| old(self)@.search_fails(timestamp, data@)
                    &&& *final(self) == *old(self)
                },
            },
            added is Ok ==> final(self)@.blocks.last().valid(old(self)@.difficulty),
            added is Ok ==> final(self)@.blocks.last().prev_hash == old(self)@.blocks.last().hash,
            old(self)@.blocks.is_prefix_of(final(self)@.blocks),
            old(self)@.consistent() ==> final(self)@.consistent(),
    {
        self.add_block_at(current_timestamp(), data)
    }

    /// Adds a block that carries `data`, mined at `timestamp` against the
    /// hash of the current last block. On an error the chain is left as it
    /// was.
    pub fn add_block_at(&mut self, timestamp: i64, data: &[u8]) -> (added: Result<(), MiningError>)
        requires
            data@.len() <= MAX_DATA_LEN,
        ensures
            match added {
                Ok(()) => {
                    &&& final(self)@ == old(self)@.with_block(final(self)@.blocks.last())
                    &&& old(self)@.mines_next(timestamp, data@, final(self)@.blocks.last())
                },
                Err(MiningError::NoParent) => {
                    &&& old(self)@.blocks.len() == 0
                    &&& *final(self) == *old(self)
                },
                Err(MiningError::IterationLimitExceeded) => {
                    &&& old(self)@.search_fails(timestamp, data@)
                    &&& *final(self) == *old(self)
                },
            },
            added is Ok ==> final(self)@.blocks.last().valid(old(self)@.difficulty),
            added is Ok ==> final(self)@.blocks.last().prev_hash == old(self)@.blocks.last().hash,
            old(self)@.blocks.is_prefix_of(final(self)@.blocks),
            old(self)@.consistent() ==> final(self)@.consistent(),
    {
        let len = self.blocks.len();
        if len == 0 {
            return Err(MiningError::NoParent);
        }
        let prev_hash = self.blocks[len - 1].hash();
        match Block::mine(timestamp, &prev_hash, data, self.difficulty, self.max_proof) {
            Ok(block) => {
                self.blocks.push(block);
                proof {
                    assert(self@.blocks =~= old(self)@.blocks.push(block@));
                }
                Ok(())
            },
            Err(e) => Err(e),
        }
    }

    /// Recomputes every block's digest and tells whether the chain is
    /// consistent: each stored hash is the digest of its block and lies below
    /// the target, and each block but the first stores the hash of the block
    /// before it.
    pub fn validate(&self) -> (consistent: bool)
        ensures
            consistent == self@.consistent(),
    {
        let mut index: usize = 0;
        while index < self.blocks.len()
            invariant
                index <= self.blocks@.len(),
                forall|i: int|
                    0 <= i < index ==> (#[trigger] self@.blocks[i]).valid(self@.difficulty),
                forall|i: int|
                    0 < i < index ==> (#[trigger] self@.blocks[i]).prev_hash == self@.blocks[i
                        - 1].hash,
            decreases self.blocks@.len() - index,
        {
            let block = &self.blocks[index];
            if !block.is_valid(self.difficulty) {
                assert(!self@.blocks[index as int].valid(self@.difficulty));
                return false;
            }
            if index > 0 {
                let parent_hash = self.blocks[index - 1].hash();
                if !same_hash(&block.prev_hash(), &parent_hash) {
                    assert(self@.blocks[index as int].prev_hash != self@.blocks[index
                        - 1].hash);
                    return false;
                }
            }
            index += 1;
        }
        true
    }

    /// The blocks, in chain order.
    pub fn blocks(&self) -> (blocks: &Vec<Block>)
        ensures
            blocks@.len() == self@.blocks.len(),
            forall|i: int| 0 <= i < blocks@.len() ==> blocks@[i]@ == self@.blocks[i],
    {
        &self.blocks
    }

    /// The number of blocks.
    pub fn len(&self) -> (len: usize)
        ensures
            len == self@.blocks.len(),
    {
        self.blocks.len()
    }

    /// The difficulty that the blocks are mined at.
    pub fn difficulty(&self) -> (difficulty: usize)
        ensures
            difficulty == self@.difficulty,
    {
        self.difficulty
    }

    /// The iteration ceiling of each mining search.
    pub fn max_proof(&self) -> (max_proof: u64)
        ensures
            max_proof == self@.max_proof,
    {
        self.max_proof
    }

    /// Sets the iteration ceiling of the mining searches to come.
    pub fn set_max_proof(&mut self, max_proof: u64)
        ensures
            final(self)@ == (ChainView { max_proof, ..old(self)@ }),
    {
        self.max_proof = max_proof;
    }
}

} // verus!
