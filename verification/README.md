# zkaf

Verified core of a zero-knowledge attestation pipeline for TLS notary proofs.

- `src/session.rs`: the notarised session header and session proof.
- `src/types.rs`: the `hashbrown` map handed to the zkVM guest, written out as
  a sequence of key-value pairs and read back from one, and the move of a
  standard-library map into it.
- `src/pairs.rs`: the map a sequence of pairs builds, and the proof that
  reading back a written-out map gives the same map.
- `src/notary.rs`: the notary's P-256 public key parsed from its PEM text.
- `src/journal.rs`: what the guest commits to its journal.
- `app/`: the host program, the guest, the input preparation, and serde
  copies of the library types.
