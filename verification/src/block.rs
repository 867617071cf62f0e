//! Blocks, their byte serialization, and the mining search.

use crate::bytes::{
    be_value, convert_i64_to_u64, convert_u64_to_u8_array, i64_le_bytes, u64_le_bytes,
};
use crate::clock::current_timestamp;
use crate::digest::{same_hash, sha256, sha256_spec, Sha256Hash};
use crate::target::{
    below_target, big_value, difficulty_target, hash_below, meets_target, target_value, DIFFICULTY,
};
use vstd::prelude::*;
use vstd::slice::slice_to_vec;
use vstd::string::StringSliceAdditionalSpecFns;
use vstd::utf8::is_ascii_chars_encode_utf8;

verus! {

/// Reference iteration ceiling of the mining search. It only bounds the
/// search; it is no parameter of the ledger.
pub const MAX_PROOF: u64 = 100_000_000;

/// The longest payload a block can carry: with the 48 header bytes in front
/// of it, it still has to be a message that SHA-256 is defined for.
pub const MAX_DATA_LEN: u64 = 0x1fff_ffff_ffff_ffcf;

/// Why a block could not be produced.
#[derive(Debug, Clone, Copy, PartialEq, Eq, Structural)]
pub enum MiningError {
    /// The search tried every nonce below the iteration ceiling and none met
    /// the target.
    IterationLimitExceeded,
    /// A block was to be appended to a chain that has no block to follow.
    NoParent,
}

impl MiningError {
    /// A sentence for the user.
    pub fn message(&self) -> (text: &'static str)
        ensures
            text@ == match *self {
                MiningError::IterationLimitExceeded => "Could not mine block, hit iteration limit"@,
                MiningError::NoParent => "Could not mine block, the chain has no parent block"@,
            },
    {
        match self {
            MiningError::IterationLimitExceeded => "Could not mine block, hit iteration limit",
            MiningError::NoParent => "Could not mine block, the chain has no parent block",
        }
    }
}

/// The previous-hash field of a block that has no parent: 32 zero bytes.
pub open spec fn zero_hash() -> Seq<u8> {
    Seq::new(32, |i: int| 0u8)
}

/// The payload of every genesis block.
pub open spec fn genesis_data() -> Seq<u8> {
    "Genesis block".spec_bytes()
}

/// The genesis payload is the 13 ASCII bytes of the text "Genesis block".
pub proof fn lemma_genesis_data()
    ensures
        genesis_data() == seq![
            0x47u8, 0x65, 0x6e, 0x65, 0x73, 0x69, 0x73, 0x20,
            0x62, 0x6c, 0x6f, 0x63, 0x6b,
        ],
{
    reveal_strlit("Genesis block");
    let chars = "Genesis block"@;
    is_ascii_chars_encode_utf8(chars);
    assert(genesis_data() =~= seq![
        0x47u8, 0x65, 0x6e, 0x65, 0x73, 0x69, 0x73, 0x20,
        0x62, 0x6c, 0x6f, 0x63, 0x6b,
    ]);
}

/// The bytes that are hashed for a block: the timestamp in 8 little-endian
/// bytes, the parent's hash, the nonce in 8 little-endian bytes, the payload.
pub open spec fn header_bytes(timestamp: i64, prev_hash: Seq<u8>, nonce: u64, data: Seq<u8>) -> Seq<
    u8,
> {
    i64_le_bytes(timestamp) + prev_hash + u64_le_bytes(nonce) + data
}

/// The digest of a block with the given fields.
pub open spec fn header_digest(timestamp: i64, prev_hash: Seq<u8>, nonce: u64, data: Seq<u8>) -> Seq<
    u8,
> {
    sha256_spec(header_bytes(timestamp, prev_hash, nonce, data))
}

/// Whether `nonce` makes the digest of the block fall below the target.
pub open spec fn nonce_accepted(
    timestamp: i64,
    prev_hash: Seq<u8>,
    data: Seq<u8>,
    difficulty: nat,
    nonce: u64,
) -> bool {
    below_target(header_digest(timestamp, prev_hash, nonce, data), difficulty)
}

/// Whether `nonce` is the least nonce below `max_proof` that is accepted.
pub open spec fn first_accepted(
    timestamp: i64,
    prev_hash: Seq<u8>,
    data: Seq<u8>,
    difficulty: nat,
    max_proof: u64,
    nonce: u64,
) -> bool {
    &&& nonce < max_proof
    &&& nonce_accepted(timestamp, prev_hash, data, difficulty, nonce)
    &&& forall|n: u64|
        n < nonce ==> !#[trigger] nonce_accepted(timestamp, prev_hash, data, difficulty, n)
}

/// Whether no nonce below `max_proof` is accepted.
pub open spec fn none_accepted(
    timestamp: i64,
    prev_hash: Seq<u8>,
    data: Seq<u8>,
    difficulty: nat,
    max_proof: u64,
) -> bool {
    forall|n: u64|
        n < max_proof ==> !#[trigger] nonce_accepted(timestamp, prev_hash, data, difficulty, n)
}

/// What a block holds, as plain values.
pub struct BlockView {
    pub timestamp: i64,
    pub prev_hash: Seq<u8>,
    pub hash: Seq<u8>,
    pub nonce: u64,
    pub data: Seq<u8>,
}

impl BlockView {
    /// The stored hash is the digest of the stored fields.
    pub open spec fn hash_matches(self) -> bool {
        self.hash == header_digest(self.timestamp, self.prev_hash, self.nonce, self.data)
    }

    /// The stored hash is the digest of the stored fields and lies below the
    /// target of `difficulty`.
    pub open spec fn valid(self, difficulty: nat) -> bool {
        self.hash_matches() && below_target(self.hash, difficulty)
    }

    /// This is the block that mining produces from the given inputs: it
    /// carries them, its nonce is the first accepted one, and its hash is
    /// the digest under that nonce.
    pub open spec fn mined_from(
        self,
        timestamp: i64,
        prev_hash: Seq<u8>,
        data: Seq<u8>,
        difficulty: nat,
        max_proof: u64,
    ) -> bool {
        &&& self.timestamp == timestamp
        &&& self.prev_hash == prev_hash
        &&& self.data == data
        &&& first_accepted(timestamp, prev_hash, data, difficulty, max_proof, self.nonce)
        &&& self.hash == header_digest(timestamp, prev_hash, self.nonce, data)
    }
}

/// A mined block is valid: its hash is the digest of its own fields under its
/// own nonce, and that hash, read as a big-endian integer, lies below the
/// target.
pub proof fn lemma_mined_block_is_valid(
    block: BlockView,
    timestamp: i64,
    prev_hash: Seq<u8>,
    data: Seq<u8>,
    difficulty: nat,
    max_proof: u64,
)
    requires
        block.mined_from(timestamp, prev_hash, data, difficulty, max_proof),
    ensures
        block.hash == header_digest(block.timestamp, block.prev_hash, block.nonce, block.data),
        be_value(block.hash) < target_value(difficulty),
        block.valid(difficulty),
{
}

/// Mining is deterministic: two blocks mined from the same timestamp, parent
/// hash, payload, difficulty and iteration ceiling have the same nonce and
/// the same hash, and so are the same block.
pub proof fn lemma_mining_is_deterministic(
    first: BlockView,
    second: BlockView,
    timestamp: i64,
    prev_hash: Seq<u8>,
    data: Seq<u8>,
    difficulty: nat,
    max_proof: u64,
)
    requires
        first.mined_from(timestamp, prev_hash, data, difficulty, max_proof),
        second.mined_from(timestamp, prev_hash, data, difficulty, max_proof),
    ensures
        first.nonce == second.nonce,
        first.hash == second.hash,
        first == second,
{
    // Neither nonce is below the other: the smaller one would be an accepted
    // nonce below the first accepted one.
    if first.nonce < second.nonce {
        assert(!nonce_accepted(timestamp, prev_hash, data, difficulty, first.nonce));
    } else if second.nonce < first.nonce {
        assert(!nonce_accepted(timestamp, prev_hash, data, difficulty, second.nonce));
    }
}

/// Mining does not both succeed and fail on the same inputs: where a block
/// is mined from them, it is not so that no nonce below the ceiling is
/// accepted.
pub proof fn lemma_success_excludes_failure(
    block: BlockView,
    timestamp: i64,
    prev_hash: Seq<u8>,
    data: Seq<u8>,
    difficulty: nat,
    max_proof: u64,
)
    requires
        block.mined_from(timestamp, prev_hash, data, difficulty, max_proof),
    ensures
        !none_accepted(timestamp, prev_hash, data, difficulty, max_proof),
{
}

/// A larger iteration ceiling does not change a block that a smaller one
/// already finds.
pub proof fn lemma_ceiling_does_not_change_block(
    block: BlockView,
    timestamp: i64,
    prev_hash: Seq<u8>,
    data: Seq<u8>,
    difficulty: nat,
    max_proof: u64,
    larger: u64,
)
    requires
        block.mined_from(timestamp, prev_hash, data, difficulty, max_proof),
        max_proof <= larger,
    ensures
        block.mined_from(timestamp, prev_hash, data, difficulty, larger),
{
}

/// Serializes the fields of a block for hashing.
pub fn serialize_header(timestamp: i64, prev_hash: &Sha256Hash, nonce: u64, data: &[u8]) -> (bytes:
    Vec<u8>)
    ensures
        bytes@ == header_bytes(timestamp, prev_hash@, nonce, data@),
{
    let mut vec: Vec<u8> = Vec::new();
    let timestamp_bytes = convert_u64_to_u8_array(convert_i64_to_u64(timestamp));
    let nonce_bytes = convert_u64_to_u8_array(nonce);
    vec.extend_from_slice(timestamp_bytes.as_slice());
    vec.extend_from_slice(prev_hash.as_slice());
    vec.extend_from_slice(nonce_bytes.as_slice());
    vec.extend_from_slice(data);
    vec
}

/// Hashes the fields of a block under `nonce`.
pub fn digest_header(timestamp: i64, prev_hash: &Sha256Hash, nonce: u64, data: &[u8]) -> (hash:
    Sha256Hash)
    requires
        data@.len() <= MAX_DATA_LEN,
    ensures
        hash@ == header_digest(timestamp, prev_hash@, nonce, data@),
{
    let bytes = serialize_header(timestamp, prev_hash, nonce, data);
    sha256(bytes.as_slice())
}

/// Searches the nonces `0, 1, ..` below `max_proof`, in this order, for the
/// first whose digest lies below the target, and returns it with that
/// digest.
pub fn proof_of_work(
    timestamp: i64,
    prev_hash: &Sha256Hash,
    data: &[u8],
    difficulty: usize,
    max_proof: u64,
) -> (found: Result<(Sha256Hash, u64), MiningError>)
    requires
        data@.len() <= MAX_DATA_LEN,
    ensures
        match found {
            Ok((hash, nonce)) => {
                &&& first_accepted(
                    timestamp,
                    prev_hash@,
                    data@,
                    difficulty as nat,
                    max_proof,
                    nonce,
                )
                &&& hash@ == header_digest(timestamp, prev_hash@, nonce, data@)
            },
            Err(e) => {
                &&& e == MiningError::IterationLimitExceeded
                &&& none_accepted(timestamp, prev_hash@, data@, difficulty as nat, max_proof)
            },
        },
{
    let target = difficulty_target(difficulty);
    let mut proof: u64 = 0;
    while proof < max_proof
        invariant
            proof <= max_proof,
            data@.len() <= MAX_DATA_LEN,
            big_value(target) == target_value(difficulty as nat),
            forall|n: u64|
                n < proof ==> !#[trigger] nonce_accepted(
                    timestamp,
                    prev_hash@,
                    data@,
                    difficulty as nat,
                    n,
                ),
        decreases max_proof - proof,
    {
        let hash = digest_header(timestamp, prev_hash, proof, data);
        if hash_below(&hash, &target) {
            return Ok((hash, proof));
        }
        proof += 1;
    }
    Err(MiningError::IterationLimitExceeded)
}

/// One unit of the ledger.
#[derive(Debug)]
pub struct Block {
    timestamp: i64,
    prev_hash: Sha256Hash,
    hash: Sha256Hash,
    nonce: u64,
    data: Vec<u8>,
}

impl View for Block {
    type V = BlockView;

    closed spec fn view(&self) -> BlockView {
        BlockView {
            timestamp: self.timestamp,
            prev_hash: self.prev_hash@,
            hash: self.hash@,
            nonce: self.nonce,
            data: self.data@,
        }
    }
}

impl Clone for Block {
    fn clone(&self) -> (copy: Block)
        ensures
            copy@ == self@,
    {
        proof {
            use_type_invariant(self);
        }
        let data = self.data.clone();
        Block {
            timestamp: self.timestamp,
            prev_hash: self.prev_hash,
            hash: self.hash,
            nonce: self.nonce,
            data,
        }
    }
}

impl Block {
    #[verifier::type_invariant]
    spec fn payload_fits(self) -> bool {
        self.data@.len() <= MAX_DATA_LEN
    }

    /// Mines a block that carries `data` and follows the block whose hash is
    /// `prev_hash`, stamped with the current time, at the reference
    /// difficulty and iteration ceiling.
    pub fn new(data: &[u8], prev_hash: &Sha256Hash) -> (mined: Result<Block, MiningError>)
        requires
            data@.len() <= MAX_DATA_LEN,
        ensures
            match mined {
                Ok(block) => block@.mined_from(
                    block@.timestamp,
                    prev_hash@,
                    data@,
                    DIFFICULTY as nat,
                    MAX_PROOF,
                ),
                Err(e) => {
                    &&& e == MiningError::IterationLimitExceeded
                    &&& exists|timestamp: i64|
                        none_accepted(timestamp, prev_hash@, data@, DIFFICULTY as nat, MAX_PROOF)
                },
            },
    {
        Block::mine(current_timestamp(), prev_hash, data, DIFFICULTY, MAX_PROOF)
    }

    /// Mines a genesis block, a block with no parent, stamped with the
    /// current time, at the reference difficulty and iteration ceiling.
    pub fn genesis() -> (mined: Result<Block, MiningError>)
        ensures
            match mined {
                Ok(block) => block@.mined_from(
                    block@.timestamp,
                    zero_hash(),
                    genesis_data(),
                    DIFFICULTY as nat,
                    MAX_PROOF,
                ),
                Err(e) => {
                    &&& e == MiningError::IterationLimitExceeded
                    &&& exists|timestamp: i64|
                        none_accepted(
                            timestamp,
                            zero_hash(),
                            genesis_data(),
                            DIFFICULTY as nat,
                            MAX_PROOF,
                        )
                },
            },
    {
        Block::mine_genesis(current_timestamp(), DIFFICULTY, MAX_PROOF)
    }

    /// Mines the block with the given timestamp, parent hash and payload:
    /// finds the first nonce below `max_proof` whose digest lies below the
    /// target of `difficulty`. Fails when there is none.
    pub fn mine(
        timestamp: i64,
        prev_hash: &Sha256Hash,
        data: &[u8],
        difficulty: usize,
        max_proof: u64,
    ) -> (mined: Result<Block, MiningError>)
        requires
            data@.len() <= MAX_DATA_LEN,
        ensures
            match mined {
                Ok(block) => block@.mined_from(
                    timestamp,
                    prev_hash@,
                    data@,
                    difficulty as nat,
                    max_proof,
                ),
                Err(e) => {
                    &&& e == MiningError::IterationLimitExceeded
                    &&& none_accepted(timestamp, prev_hash@, data@, difficulty as nat, max_proof)
                },
            },
            mined is Ok ==> mined->Ok_0@.valid(difficulty as nat),
    {
        match proof_of_work(timestamp, prev_hash, data, difficulty, max_proof) {
            Ok((hash, nonce)) => {
                let payload = slice_to_vec(data);
                Ok(Block { timestamp, prev_hash: *prev_hash, hash, nonce, data: payload })
            },
            Err(e) => Err(e),
        }
    }

    /// Mines the genesis block with the given timestamp: its parent hash is
    /// all zero and its payload is the text "Genesis block". It is mined like
    /// any other block.
    pub fn mine_genesis(timestamp: i64, difficulty: usize, max_proof: u64) -> (mined: Result<
        Block,
        MiningError,
    >)
        ensures
            match mined {
                Ok(block) => block@.mined_from(
                    timestamp,
                    zero_hash(),
                    genesis_data(),
                    difficulty as nat,
                    max_proof,
                ),
                Err(e) => {
                    &&& e == MiningError::IterationLimitExceeded
                    &&& none_accepted(
                        timestamp,
                        zero_hash(),
                        genesis_data(),
                        difficulty as nat,
                        max_proof,
                    )
                },
            },
            mined is Ok ==> mined->Ok_0@.valid(difficulty as nat),
    {
        let prev_hash: Sha256Hash = [0u8; 32];
        let data = "Genesis block".as_bytes();
        proof {
            lemma_genesis_data();
            assert(prev_hash@ =~= zero_hash());
        }
        Block::mine(timestamp, &prev_hash, data, difficulty, max_proof)
    }

    /// Puts a block together from stored fields, without checking them:
    /// `is_valid` tells whether they agree.
    pub fn from_parts(
        timestamp: i64,
        prev_hash: Sha256Hash,
        hash: Sha256Hash,
        nonce: u64,
        data: Vec<u8>,
    ) -> (block: Block)
        requires
            data@.len() <= MAX_DATA_LEN,
        ensures
            block@ == (BlockView {
                timestamp,
                prev_hash: prev_hash@,
                hash: hash@,
                nonce,
                data: data@,
            }),
    {
        Block { timestamp, prev_hash, hash, nonce, data }
    }

    /// Seconds since the Unix epoch at which the block was made.
    pub fn timestamp(&self) -> (timestamp: i64)
        ensures
            timestamp == self@.timestamp,
    {
        self.timestamp
    }

    /// The hash of the parent block; all zero for a genesis block.
    pub fn prev_hash(&self) -> (prev_hash: Sha256Hash)
        ensures
            prev_hash@ == self@.prev_hash,
    {
        self.prev_hash
    }

    /// The hash of this block.
    pub fn hash(&self) -> (hash: Sha256Hash)
        ensures
            hash@ == self@.hash,
    {
        self.hash
    }

    /// The nonce that mining found.
    pub fn nonce(&self) -> (nonce: u64)
        ensures
            nonce == self@.nonce,
    {
        self.nonce
    }

    /// The payload.
    pub fn data(&self) -> (data: &[u8])
        ensures
            data@ == self@.data,
            data@.len() <= MAX_DATA_LEN,
    {
        proof {
            use_type_invariant(self);
        }
        self.data.as_slice()
    }

    /// Serializes the block for hashing, with `nonce` in place of its own.
    pub fn serialize(&self, nonce: u64) -> (bytes: Vec<u8>)
        ensures
            bytes@ == header_bytes(self@.timestamp, self@.prev_hash, nonce, self@.data),
    {
        serialize_header(self.timestamp, &self.prev_hash, nonce, self.data.as_slice())
    }

    /// Calculates the hash that the block has under `nonce`.
    pub fn calculate_hash(&self, nonce: u64) -> (hash: Sha256Hash)
        ensures
            hash@ == header_digest(self@.timestamp, self@.prev_hash, nonce, self@.data),
    {
        proof {
            use_type_invariant(self);
        }
        digest_header(self.timestamp, &self.prev_hash, nonce, self.data.as_slice())
    }

    /// Recomputes the digest from the stored fields and tells whether the
    /// stored hash equals it and lies below the target of `difficulty`.
    pub fn is_valid(&self, difficulty: usize) -> (valid: bool)
        ensures
            valid == self@.valid(difficulty as nat),
    {
        let recomputed = self.calculate_hash(self.nonce);
        same_hash(&recomputed, &self.hash) && meets_target(&self.hash, difficulty)
    }
}

} // verus!
