//! TNS (the `.trust` name service): `.trust` names, reverse names, and the
//! namehashes that address their records.
use vstd::prelude::*;
use vstd::string::{StringExecFns, StringSliceAdditionalSpecFns};
use vstd::utf8::encode_utf8;

use crate::address::{checksum_string, lemma_checksum_text_lowercase, lower_hex};
use crate::text::{ascii_lower, ends_with, strip_hex_prefixes, to_ascii_lowercase, trim_hex_prefixes};
use crate::hash::{
    dot_free, keccak256, label_node, lemma_first_dot_at, namehash_of, zero_node,
    DOT,
};

verus! {

/// The characters of `".trust"`.
pub open spec fn trust_suffix() -> Seq<char> {
    seq!['.', 't', 'r', 'u', 's', 't']
}

/// `name` if it already ends with `".trust"`, else `name` followed by it.
pub open spec fn with_trust_suffix(name: Seq<char>) -> Seq<char> {
    if trust_suffix().is_suffix_of(name) {
        name
    } else {
        name + trust_suffix()
    }
}

/// The characters of `".addr.reverse"`.
pub open spec fn reverse_suffix() -> Seq<char> {
    seq!['.', 'a', 'd', 'd', 'r', '.', 'r', 'e', 'v', 'e', 'r', 's', 'e']
}

/// The reverse-record name of an address: its 40 lowercase hex digits,
/// without `"0x"`, then `".addr.reverse"`.
pub open spec fn reverse_name_of(address: Seq<u8>) -> Seq<char> {
    lower_hex(address) + reverse_suffix()
}

/// The node under which the registry keeps the records of the `.trust`
/// name for `name`.
pub open spec fn name_node(name: Seq<char>) -> Seq<u8> {
    namehash_of(encode_utf8(with_trust_suffix(name)))
}

/// The node of the reverse record of an address.
pub open spec fn reverse_node_of(address: Seq<u8>) -> Seq<u8> {
    namehash_of(encode_utf8(reverse_name_of(address)))
}

/// The node of a `.trust` name: a name that already ends with `".trust"`
/// is hashed as it is, and any other name (with or without dots) is hashed
/// with `".trust"` appended.
pub proof fn lemma_name_node_appends_trust_once(name: Seq<char>)
    ensures
        seq!['.', 't', 'r', 'u', 's', 't'].is_suffix_of(name) ==> name_node(name) == namehash_of(
            encode_utf8(name),
        ),
        !seq!['.', 't', 'r', 'u', 's', 't'].is_suffix_of(name) ==> name_node(name) == namehash_of(
            encode_utf8(name + seq!['.', 't', 'r', 'u', 's', 't']),
        ),
{
    assert(trust_suffix() =~= seq!['.', 't', 'r', 'u', 's', 't']);
}

/// Every name that `ensure_trust_suffix` gives ends with `".trust"`, and
/// giving it such a name again changes nothing.
pub proof fn lemma_trust_suffix_idempotent(name: Seq<char>)
    ensures
        trust_suffix().is_suffix_of(with_trust_suffix(name)),
        with_trust_suffix(with_trust_suffix(name)) == with_trust_suffix(name),
{
    if !trust_suffix().is_suffix_of(name) {
        let full = name + trust_suffix();
        assert(full.subrange(full.len() - 6, full.len() as int) =~= trust_suffix());
    }
}

/// A name that already ends with `".trust"` is left as it is, and any other
/// name gets exactly `".trust"` appended.
pub proof fn lemma_trust_suffix_appends_once(name: Seq<char>)
    ensures
        trust_suffix().is_suffix_of(name) ==> with_trust_suffix(name) == name,
        !trust_suffix().is_suffix_of(name) ==> with_trust_suffix(name).len() == name.len() + 6
            && with_trust_suffix(name).take(name.len() as int) == name,
{
    if !trust_suffix().is_suffix_of(name) {
        assert((name + trust_suffix()).take(name.len() as int) =~= name);
    }
}

/// Different addresses have different reverse names, and every reverse name
/// is 40 lowercase hex digits followed by `".addr.reverse"`.
pub proof fn lemma_reverse_name_injective(a: Seq<u8>, b: Seq<u8>)
    requires
        a.len() == 20,
        b.len() == 20,
        a != b,
    ensures
        reverse_name_of(a) != reverse_name_of(b),
        reverse_name_of(a).len() == 53,
        reverse_name_of(a).skip(40) == reverse_suffix(),
        forall|i: int|
            0 <= i < 40 ==> {
                let c = #[trigger] reverse_name_of(a)[i];
                ('0' <= c <= '9') || ('a' <= c <= 'f')
            },
{
    let ra = reverse_name_of(a);
    let rb = reverse_name_of(b);
    if ra == rb {
        assert forall|j: int| 0 <= j < 20 implies a[j] == b[j] by {
            assert(ra[2 * j] == lower_hex(a)[2 * j]);
            assert(rb[2 * j] == lower_hex(b)[2 * j]);
            assert(ra[2 * j + 1] == lower_hex(a)[2 * j + 1]);
            assert(rb[2 * j + 1] == lower_hex(b)[2 * j + 1]);
            assert(a[j] as int / 16 == b[j] as int / 16);
            assert(a[j] as int % 16 == b[j] as int % 16);
        }
        assert(a =~= b);
    }
    assert(ra.skip(40) =~= reverse_suffix());
}

/// Resolver for names of the TNS registry.
pub struct Tns;

/// Thirty-two zero bytes.
fn zero_bytes() -> (z: Vec<u8>)
    ensures
        z@ == zero_node(),
{
    let mut z: Vec<u8> = Vec::new();
    while z.len() < 32
        invariant
            z@.len() <= 32,
            forall|i: int| 0 <= i < z@.len() ==> z@[i] == 0u8,
        decreases 32 - z@.len(),
    {
        z.push(0u8);
    }
    assert(z@ =~= zero_node());
    z
}

impl Tns {
    /// `name` with `".trust"` appended unless it already ends with it.
    pub fn ensure_trust_suffix(name: &str) -> (full: String)
        ensures
            full@ == with_trust_suffix(name@),
    {
        proof {
            reveal_strlit(".trust");
        }
        if ends_with(name, ".trust") {
            name.to_owned()
        } else {
            name.to_owned().concat(".trust")
        }
    }

    /// The name under which the registry keeps the primary name of
    /// `address`: the address in lowercase hex without `"0x"`, then
    /// `".addr.reverse"`.
    pub fn prepare_reverse_name(address: [u8; 20]) -> (name: String)
        ensures
            name@ == reverse_name_of(address@),
    {
        let checksum = checksum_string(address);
        let lower = to_ascii_lowercase(checksum.as_str());
        let trimmed = trim_hex_prefixes(lower.as_str());
        proof {
            reveal_strlit(".addr.reverse");
            let hex = lower_hex(address@);
            lemma_checksum_text_lowercase(address@);
            assert(lower@ =~= seq!['0', 'x'] + hex) by {
                assert forall|i: int| 0 <= i < 40 implies lower@[i + 2] == hex[i] by {
                    assert(hex[i] == ascii_lower(checksum@[i + 2]));
                }
            }
            assert(lower@.skip(2) =~= hex);
            assert(hex[1] != 'x');
            reveal_with_fuel(strip_hex_prefixes, 2);
        }
        trimmed.concat(".addr.reverse")
    }

    /// The node of the `.trust` name for `name`: the namehash of `name` with
    /// `".trust"` appended unless it already ends with it.
    pub fn node_for_name(name: &str) -> (node: Vec<u8>)
        ensures
            node@ == name_node(name@),
            node@.len() == 32,
    {
        let full = Self::ensure_trust_suffix(name);
        Self::namehash(full.as_str())
    }

    /// The node of the reverse record of `address`.
    pub fn reverse_node(address: [u8; 20]) -> (node: Vec<u8>)
        ensures
            node@ == reverse_node_of(address@),
            node@.len() == 32,
    {
        let reverse = Self::prepare_reverse_name(address);
        Self::namehash(reverse.as_str())
    }

    /// The namehash of `name`: 32 zero bytes for the empty name; otherwise,
    /// starting from 32 zero bytes and taking the labels between `'.'` from
    /// the last to the first, `hash = keccak256(hash ++ keccak256(label))`.
    pub fn namehash(name: &str) -> (hash: Vec<u8>)
        ensures
            hash@ == namehash_of(name.spec_bytes()),
            hash@.len() == 32,
    {
        let bytes = name.as_bytes();
        let ghost b = bytes@;
        if bytes.len() == 0 {
            return zero_bytes();
        }
        let mut hash = zero_bytes();
        let mut end: usize = bytes.len();
        loop
            invariant
                b == bytes@,
                b == name.spec_bytes(),
                0 < b.len(),
                end <= b.len(),
                hash@.len() == 32,
                end == b.len() ==> hash@ == zero_node(),
                end < b.len() ==> b[end as int] == DOT && hash@ == label_node(b.skip(end + 1)),
            decreases end,
        {
            let mut start: usize = end;
            while start > 0 && bytes[start - 1] != DOT
                invariant
                    b == bytes@,
                    start <= end,
                    end <= b.len(),
                    dot_free(b.subrange(start as int, end as int)),
                decreases start,
            {
                assert forall|i: int| 0 <= i < end - (start - 1) implies #[trigger] b.subrange(
                    start - 1,
                    end as int,
                )[i] != DOT by {
                    if i > 0 {
                        assert(b.subrange(start - 1, end as int)[i] == b.subrange(
                            start as int,
                            end as int,
                        )[i - 1]);
                    }
                }
                start = start - 1;
            }
            let label = &bytes[start..end];
            let mut label_digest = keccak256(label);
            let mut preimage = hash;
            preimage.append(&mut label_digest);
            hash = keccak256(preimage.as_slice());
            proof {
                let rest = b.skip(start as int);
                let l = b.subrange(start as int, end as int);
                if end == b.len() {
                    assert(rest =~= l);
                    crate::hash::lemma_first_dot(rest);
                } else {
                    assert(rest.take(end - start) =~= l);
                    assert(rest.skip(end - start + 1) =~= b.skip(end + 1));
                    assert(rest[end - start] == DOT);
                    lemma_first_dot_at(rest, end - start);
                }
            }
            if start == 0 {
                assert(b.skip(0) =~= b);
                return hash;
            }
            end = start - 1;
        }
    }
}

} // verus!
