use vstd::prelude::*;

verus! {

/// The root of the Merkle tree of all the Prover's commitments.
#[derive(Clone, Copy, Debug)]
pub struct MerkleRoot(pub [u8; 32]);

/// A session proof: proof of the TLS handshake, server identity, and
/// commitments to the transcript.
#[derive(Debug)]
pub struct SessionProof {
    /// The session header
    pub header: SessionHeader,
}

/// An authentic session header from the Notary.
#[derive(Debug, Clone)]
pub struct SessionHeader {
    /// A PRG seed used to generate encodings for the plaintext
    encoder_seed: [u8; 32],
    /// The root of the Merkle tree of all the commitments.
    merkle_root: MerkleRoot,
    /// Bytelength of all data which was sent to the webserver
    sent_len: usize,
    /// Bytelength of all data which was received from the webserver
    recv_len: usize,
}

impl SessionHeader {
    /// The encoder seed the header holds.
    pub closed spec fn spec_encoder_seed(&self) -> [u8; 32] {
        self.encoder_seed
    }

    /// The Merkle root the header holds.
    pub closed spec fn spec_merkle_root(&self) -> MerkleRoot {
        self.merkle_root
    }

    /// The number of bytes sent, as held by the header.
    pub closed spec fn spec_sent_len(&self) -> usize {
        self.sent_len
    }

    /// The number of bytes received, as held by the header.
    pub closed spec fn spec_recv_len(&self) -> usize {
        self.recv_len
    }

    /// The header that `new` builds from its four parts.
    pub closed spec fn spec_new(
        encoder_seed: [u8; 32],
        merkle_root: MerkleRoot,
        sent_len: usize,
        recv_len: usize,
    ) -> SessionHeader {
        SessionHeader { encoder_seed, merkle_root, sent_len, recv_len }
    }

    /// Create a new instance of SessionHeader
    pub fn new(
        encoder_seed: [u8; 32],
        merkle_root: MerkleRoot,
        sent_len: usize,
        recv_len: usize,
    ) -> (header: Self)
        ensures
            header == Self::spec_new(encoder_seed, merkle_root, sent_len, recv_len),
            header.spec_encoder_seed() == encoder_seed,
            header.spec_merkle_root() == merkle_root,
            header.spec_sent_len() == sent_len,
            header.spec_recv_len() == recv_len,
    {
        Self { encoder_seed, merkle_root, sent_len, recv_len }
    }

    /// Returns the seed used to generate plaintext encodings
    pub fn encoder_seed(&self) -> (seed: &[u8; 32])
        ensures
            *seed == self.spec_encoder_seed(),
    {
        &self.encoder_seed
    }

    /// Returns the merkle_root of the merkle tree of the prover's commitments
    pub fn merkle_root(&self) -> (root: &MerkleRoot)
        ensures
            *root == self.spec_merkle_root(),
    {
        &self.merkle_root
    }

    /// Returns the number of bytes sent to the server
    pub fn sent_len(&self) -> (len: usize)
        ensures
            len == self.spec_sent_len(),
    {
        self.sent_len
    }

    /// Returns the number of bytes received by the server
    pub fn recv_len(&self) -> (len: usize)
        ensures
            len == self.spec_recv_len(),
    {
        self.recv_len
    }
}

/// A header built by `new` gives back, through each accessor, exactly the
/// part it was built from.
pub proof fn lemma_header_accessors_give_back_parts(
    encoder_seed: [u8; 32],
    merkle_root: MerkleRoot,
    sent_len: usize,
    recv_len: usize,
)
    ensures
        ({
            let header = SessionHeader::spec_new(encoder_seed, merkle_root, sent_len, recv_len);
            &&& header.spec_encoder_seed() == encoder_seed
            &&& header.spec_merkle_root() == merkle_root
            &&& header.spec_sent_len() == sent_len
            &&& header.spec_recv_len() == recv_len
        }),
{
}

/// Two headers built by `new` are the same header exactly when they were
/// built from the same parts.
pub proof fn lemma_header_new_injective(
    seed1: [u8; 32],
    root1: MerkleRoot,
    sent1: usize,
    recv1: usize,
    seed2: [u8; 32],
    root2: MerkleRoot,
    sent2: usize,
    recv2: usize,
)
    ensures
        (SessionHeader::spec_new(seed1, root1, sent1, recv1) == SessionHeader::spec_new(
            seed2,
            root2,
            sent2,
            recv2,
        )) <==> (seed1 == seed2 && root1 == root2 && sent1 == sent2 && recv1 == recv2),
{
}

} // verus!
