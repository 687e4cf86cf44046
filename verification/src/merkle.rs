use vstd::prelude::*;

use crate::state::Pubkey;
use vstd::bytes::{spec_u32_to_le_bytes, spec_u64_to_le_bytes, u32_to_le_bytes, u64_to_le_bytes};

verus! {

/// What the Keccak-256 digest of a byte string is. Named only: the digest is
/// a function of the input bytes alone, and every contract of the proof
/// chain speaks of it through this name.
pub uninterp spec fn keccak_of(data: Seq<u8>) -> Seq<u8>;

/// Relies on sha3::Keccak256 (through digest::Digest::digest): the
/// Keccak-256 digest of the input bytes, 32 bytes long, determined by the
/// input alone.
#[verifier::external_body]
fn keccak256(data: &Vec<u8>) -> (r: [u8; 32])
    ensures
        r@ == keccak_of(data@),
{
    let digest = <sha3::Keccak256 as sha3::Digest>::digest(data.as_slice());
    digest.into()
}

/// The byte string a leaf commitment is computed over: leaf index (4 bytes,
/// little-endian), winner address (32 bytes), amount (8 bytes, little-endian).
pub open spec fn leaf_bytes(index: u32, address: Seq<u8>, amount: u64) -> Seq<u8> {
    spec_u32_to_le_bytes(index) + address + spec_u64_to_le_bytes(amount)
}

/// The leaf commitment of one winner entry.
pub open spec fn leaf_hash(index: u32, address: Seq<u8>, amount: u64) -> Seq<u8> {
    keccak_of(leaf_bytes(index, address, amount))
}

/// Strict lexicographic order on byte strings.
pub open spec fn lex_less(a: Seq<u8>, b: Seq<u8>) -> bool
    decreases a.len(),
{
    if b.len() == 0 {
        false
    } else if a.len() == 0 {
        true
    } else if a[0] != b[0] {
        a[0] < b[0]
    } else {
        lex_less(a.drop_first(), b.drop_first())
    }
}

/// One step of the proof chain: the two hashes are ordered with the
/// lexicographically smaller first, concatenated, and hashed again.
pub open spec fn node_hash(current: Seq<u8>, sibling: Seq<u8>) -> Seq<u8> {
    if lex_less(current, sibling) {
        keccak_of(current + sibling)
    } else {
        keccak_of(sibling + current)
    }
}

/// The value the proof chain reaches from `leaf` after consuming every
/// sibling in order.
pub open spec fn merkle_root_from(leaf: Seq<u8>, siblings: Seq<Seq<u8>>) -> Seq<u8>
    decreases siblings.len(),
{
    if siblings.len() == 0 {
        leaf
    } else {
        merkle_root_from(node_hash(leaf, siblings[0]), siblings.drop_first())
    }
}

/// The views of a list of 32-byte hashes, in order.
pub open spec fn views_of(s: Seq<[u8; 32]>) -> Seq<Seq<u8>> {
    s.map_values(|h: [u8; 32]| h@)
}

/// Lexicographic comparison only ever looks at the first position where the
/// two strings differ.
proof fn lemma_lex_less_skip(a: Seq<u8>, b: Seq<u8>, i: int)
    requires
        0 <= i < a.len(),
        a.len() == b.len(),
        forall|j: int| 0 <= j < i ==> a[j] == b[j],
    ensures
        lex_less(a, b) == lex_less(a.skip(i), b.skip(i)),
    decreases i,
{
    if i == 0 {
        assert(a.skip(0) =~= a);
        assert(b.skip(0) =~= b);
    } else {
        assert(a[0] == b[0]);
        lemma_lex_less_skip(a.drop_first(), b.drop_first(), i - 1);
        assert(a.drop_first().skip(i - 1) =~= a.skip(i));
        assert(b.drop_first().skip(i - 1) =~= b.skip(i));
    }
}

/// No byte string orders strictly before itself.
proof fn lemma_lex_less_irrefl(a: Seq<u8>)
    ensures
        !lex_less(a, a),
    decreases a.len(),
{
    if a.len() > 0 {
        lemma_lex_less_irrefl(a.drop_first());
    }
}

/// Whether two 32-byte strings hold the same bytes.
pub(crate) fn bytes32_eq(a: &[u8; 32], b: &[u8; 32]) -> (r: bool)
    ensures
        r == (a@ == b@),
{
    let mut i: usize = 0;
    while i < 32
        invariant
            0 <= i <= 32,
            forall|j: int| 0 <= j < i ==> a@[j] == b@[j],
        decreases 32 - i,
    {
        if a[i] != b[i] {
            assert(a@[i as int] != b@[i as int]);
            return false;
        }
        i += 1;
    }
    assert(a@ =~= b@);
    true
}

/// Whether `a` orders strictly before `b`, byte by byte.
fn lex_less32(a: &[u8; 32], b: &[u8; 32]) -> (r: bool)
    ensures
        r == lex_less(a@, b@),
{
    let mut i: usize = 0;
    while i < 32
        invariant
            0 <= i <= 32,
            forall|j: int| 0 <= j < i ==> a@[j] == b@[j],
        decreases 32 - i,
    {
        if a[i] != b[i] {
            let r = a[i] < b[i];
            proof {
                lemma_lex_less_skip(a@, b@, i as int);
                assert(a@.skip(i as int)[0] == a@[i as int]);
                assert(b@.skip(i as int)[0] == b@[i as int]);
            }
            return r;
        }
        i += 1;
    }
    proof {
        assert(a@ =~= b@);
        lemma_lex_less_irrefl(a@);
    }
    false
}

/// Appends all 32 bytes of `src` to `dst`, in order.
fn push_bytes32(dst: &mut Vec<u8>, src: &[u8; 32])
    ensures
        final(dst)@ == old(dst)@ + src@,
{
    let mut i: usize = 0;
    while i < 32
        invariant
            0 <= i <= 32,
            dst@ =~= old(dst)@ + src@.take(i as int),
        decreases 32 - i,
    {
        dst.push(src[i]);
        proof {
            assert(dst@ =~= old(dst)@ + src@.take(i + 1));
        }
        i += 1;
    }
    proof {
        assert(src@.take(32) =~= src@);
    }
}

/// Computes the leaf commitment of one winner entry: the Keccak-256 digest
/// of its index, address and amount, laid out as `leaf_bytes` describes.
pub fn hash_leaf(index: u32, address: Pubkey, amount: u64) -> (r: [u8; 32])
    ensures
        r@ == leaf_hash(index, address@, amount),
{
    let mut data = u32_to_le_bytes(index);
    push_bytes32(&mut data, &address);
    let mut tail = u64_to_le_bytes(amount);
    data.append(&mut tail);
    proof {
        assert(data@ =~= leaf_bytes(index, address@, amount));
    }
    keccak256(&data)
}

/// Replays a sibling-path proof: starting from `leaf`, each sibling is
/// folded in by sorted-pair hashing; the proof is valid exactly when the
/// chain ends at `root`.
pub fn verify_merkle_proof(leaf: [u8; 32], siblings: Vec<[u8; 32]>, root: [u8; 32]) -> (r: bool)
    ensures
        r == (merkle_root_from(leaf@, views_of(siblings@)) == root@),
{
    let ghost path: Seq<Seq<u8>> = views_of(siblings@);
    let mut current = leaf;
    let mut i: usize = 0;
    proof {
        assert(path.skip(0) =~= path);
    }
    while i < siblings.len()
        invariant
            0 <= i <= siblings.len(),
            path == views_of(siblings@),
            path.len() == siblings@.len(),
            merkle_root_from(current@, path.skip(i as int)) == merkle_root_from(leaf@, path),
        decreases siblings.len() - i,
    {
        let sibling = siblings[i];
        let mut combined: Vec<u8> = Vec::new();
        if lex_less32(&current, &sibling) {
            push_bytes32(&mut combined, &current);
            push_bytes32(&mut combined, &sibling);
        } else {
            push_bytes32(&mut combined, &sibling);
            push_bytes32(&mut combined, &current);
        }
        proof {
            assert(path.skip(i as int)[0] == sibling@);
            assert(combined@ =~= if lex_less(current@, sibling@) {
                current@ + sibling@
            } else {
                sibling@ + current@
            });
            assert(keccak_of(combined@) == node_hash(current@, sibling@));
            assert(path.skip(i as int).drop_first() =~= path.skip(i as int + 1));
        }
        current = keccak256(&combined);
        i += 1;
    }
    proof {
        assert(path.skip(i as int) =~= Seq::<Seq<u8>>::empty());
    }
    bytes32_eq(&current, &root)
}

} // verus!
