//! Payload types of the bitcoin transaction-proof producer: the
//! transaction, its merkle proof, and the arguments handed to a light
//! client for inclusion verification. These are the values such a
//! producer exchanges over the broker's request and response channel.

use vstd::prelude::*;

verus! {

/// A 32-byte hash, as bitcoin block and transaction IDs use it.
#[derive(Clone, Copy, Debug, PartialEq, Eq, PartialOrd, Ord)]
pub struct H256(pub [u8; 32]);

impl View for H256 {
    type V = Seq<u8>;

    open spec fn view(&self) -> Seq<u8> {
        self.0@
    }
}

impl From<[u8; 32]> for H256 {
    fn from(bytes: [u8; 32]) -> (r: Self) {
        H256(bytes)
    }
}

impl vstd::std_specs::convert::FromSpecImpl<[u8; 32]> for H256 {
    open spec fn obeys_from_spec() -> bool {
        true
    }

    open spec fn from_spec(bytes: [u8; 32]) -> Self {
        H256(bytes)
    }
}

impl H256 {
    /// The hash read out of a byte vector, which must hold exactly 32
    /// bytes.
    pub fn try_from(value: Vec<u8>) -> (r: Result<H256, &'static str>)
        ensures
            value@.len() == 32 ==> (r matches Ok(h) && h@ == value@),
            value@.len() != 32 ==> (r matches Err(e) && e@ == "Invalid hex length"@),
    {
        if value.len() != 32 {
            return Err("Invalid hex length");
        }
        let mut bytes: [u8; 32] = [0;32];
        let mut i: usize = 0;
        while i < 32
            invariant
                i <= 32,
                value@.len() == 32,
                forall|j: int| 0 <= j < i ==> bytes@[j] == value@[j],
            decreases 32 - i,
        {
            bytes[i] = value[i];
            i = i + 1;
        }
        proof {
            assert(bytes@ =~= value@);
        }
        Ok(H256(bytes))
    }
}

/// One spent input of a bitcoin transaction.
#[derive(Clone, Debug)]
pub struct TransactionInput {
    pub prev_tx: H256,
    pub prev_index: u32,
    pub script_sig: Vec<u8>,
    pub sequence: u32,
    pub witness: Vec<Vec<u8>>,
}

/// One output of a bitcoin transaction.
#[derive(Clone, Debug)]
pub struct TransactionOutput {
    pub value: u64,
    pub script_pubkey: Vec<u8>,
}

/// A bitcoin transaction together with the merkle proof of its
/// inclusion in a block: what the proof producer answers with.
#[derive(Clone, Debug)]
pub struct TxWithProof {
    pub tx_id: H256,
    pub tx_block_blockhash: H256,
    pub tx_index: u64,
    pub merkle_proof: Vec<H256>,
    pub confirmations: u64,
    pub inputs: Vec<TransactionInput>,
    pub outputs: Vec<TransactionOutput>,
}

/// The slice of a [`TxWithProof`] that a bitcoin light client needs
/// to verify inclusion.
#[derive(Clone, Debug)]
pub struct ProofArgs {
    pub tx_id: H256,
    pub tx_block_blockhash: H256,
    pub tx_index: u64,
    pub merkle_proof: Vec<H256>,
    pub confirmations: u64,
}

} // verus!
