//! Keccak-256 and the ENS/TNS namehash built on it.
use vstd::prelude::*;

verus! {

/// The byte value of `'.'`, which separates the labels of a name.
pub const DOT: u8 = 0x2e;

/// The Keccak-256 digest of `data`, as `alloy` computes it.
pub uninterp spec fn keccak256_digest(data: Seq<u8>) -> Seq<u8>;

/// Calls `alloy::primitives::keccak256` on `data`.
///
/// Trusted: the returned bytes are the digest named `keccak256_digest` of
/// exactly the bytes handed in, and there are 32 of them (the call returns a
/// `B256`, a fixed 32-byte array).
#[verifier::external_body]
pub(crate) fn keccak256(data: &[u8]) -> (digest: Vec<u8>)
    ensures
        digest@ == keccak256_digest(data@),
        digest@.len() == 32,
{
    alloy::primitives::keccak256(data).to_vec()
}

/// Thirty-two zero bytes: the namehash of the empty name.
pub open spec fn zero_node() -> Seq<u8> {
    Seq::new(32, |i: int| 0u8)
}

/// `b` holds no `'.'` byte.
pub open spec fn dot_free(b: Seq<u8>) -> bool {
    forall|i: int| 0 <= i < b.len() ==> b[i] != DOT
}

/// Index of the first `'.'` byte of `b`, if any.
pub open spec fn first_dot(b: Seq<u8>) -> Option<int>
    decreases b.len(),
{
    if b.len() == 0 {
        None
    } else if b[0] == DOT {
        Some(0)
    } else {
        match first_dot(b.drop_first()) {
            Some(i) => Some(i + 1),
            None => None,
        }
    }
}

/// `first_dot` finds the first `'.'`, and only misses when there is none.
pub proof fn lemma_first_dot(b: Seq<u8>)
    ensures
        match first_dot(b) {
            Some(k) => 0 <= k < b.len() && b[k] == DOT && dot_free(b.take(k)),
            None => dot_free(b),
        },
    decreases b.len(),
{
    if b.len() > 0 && b[0] != DOT {
        lemma_first_dot(b.drop_first());
        match first_dot(b.drop_first()) {
            Some(k) => {
                assert forall|i: int| 0 <= i < k + 1 implies #[trigger] b.take(k + 1)[i] != DOT by {
                    if i > 0 {
                        assert(b.take(k + 1)[i] == b.drop_first().take(k)[i - 1]);
                    }
                }
            },
            None => {
                assert forall|i: int| 0 <= i < b.len() implies #[trigger] b[i] != DOT by {
                    if i > 0 {
                        assert(b[i] == b.drop_first()[i - 1]);
                    }
                }
            },
        }
    }
}

/// The first `'.'` of `b` is at `k` when `b[k]` is one and none comes before.
pub proof fn lemma_first_dot_at(b: Seq<u8>, k: int)
    requires
        0 <= k < b.len(),
        b[k] == DOT,
        dot_free(b.take(k)),
    ensures
        first_dot(b) == Some(k),
{
    lemma_first_dot(b);
    match first_dot(b) {
        Some(j) => {
            if j < k {
                assert(b.take(k)[j] == b[j]);
            } else if k < j {
                assert(b.take(j)[k] == b[k]);
            }
        },
        None => {},
    }
}

/// The node of a non-empty name given as UTF-8 bytes: for a single label
/// `l` it is `keccak(zero_node ++ keccak(l))`, and for `l '.' rest` it is
/// `keccak(node(rest) ++ keccak(l))`. Every label counts, empty ones too.
pub open spec fn label_node(b: Seq<u8>) -> Seq<u8>
    decreases b.len(),
{
    match first_dot(b) {
        None => keccak256_digest(zero_node() + keccak256_digest(b)),
        Some(k) => {
            proof {
                lemma_first_dot(b);
            }
            keccak256_digest(label_node(b.skip(k + 1)) + keccak256_digest(b.take(k)))
        },
    }
}

/// The namehash of a name given as UTF-8 bytes: 32 zero bytes for the empty
/// name, the node of its labels otherwise.
pub open spec fn namehash_of(b: Seq<u8>) -> Seq<u8> {
    if b.len() == 0 {
        zero_node()
    } else {
        label_node(b)
    }
}

/// The namehash of a single non-empty label without `'.'` is
/// `keccak256(zero_node ++ keccak256(label))`.
pub proof fn lemma_namehash_single_label(label: Seq<u8>)
    requires
        label.len() > 0,
        dot_free(label),
    ensures
        namehash_of(label) == keccak256_digest(zero_node() + keccak256_digest(label)),
{
    lemma_first_dot(label);
}

/// The namehash of `label '.' rest`, for a label without `'.'` and a
/// non-empty `rest`, is `keccak256(namehash(rest) ++ keccak256(label))`:
/// a name's hash is built from its parent's.
pub proof fn lemma_namehash_parent(label: Seq<u8>, rest: Seq<u8>)
    requires
        dot_free(label),
        rest.len() > 0,
    ensures
        namehash_of(label + seq![DOT] + rest) == keccak256_digest(
            namehash_of(rest) + keccak256_digest(label),
        ),
{
    let b = label + seq![DOT] + rest;
    let k = label.len() as int;
    assert(b.take(k) =~= label);
    assert(b.skip(k + 1) =~= rest);
    lemma_first_dot_at(b, k);
}

} // verus!
