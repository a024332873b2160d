//! Character-level string operations that names and records need.
use vstd::prelude::*;
use vstd::string::StrSliceExecFns;
use vstd::utf8::{decode_utf8, valid_utf8};

verus! {

/// `c` with ASCII `'A'..='Z'` mapped to `'a'..='z'`; every other character unchanged.
pub open spec fn ascii_lower(c: char) -> char {
    if 'A' <= c && c <= 'Z' {
        ((c as u32) + 32) as char
    } else {
        c
    }
}

/// Every character of `s` through `ascii_lower`.
pub open spec fn ascii_lowercase(s: Seq<char>) -> Seq<char> {
    Seq::new(s.len(), |i: int| ascii_lower(s[i]))
}

/// `s` with every leading `"0x"` removed, as many times as it repeats.
pub open spec fn strip_hex_prefixes(s: Seq<char>) -> Seq<char>
    decreases s.len(),
{
    if s.len() >= 2 && s[0] == '0' && s[1] == 'x' {
        strip_hex_prefixes(s.skip(2))
    } else {
        s
    }
}

/// `s` without any occurrence of the character `c`.
pub open spec fn remove_char(s: Seq<char>, c: char) -> Seq<char> {
    s.filter(other_than(c))
}

/// Whether a character is not `c`.
pub open spec fn other_than(c: char) -> spec_fn(char) -> bool {
    |x: char| x != c
}

/// Removing `c` leaves no `c` behind.
pub proof fn lemma_remove_char_absent(s: Seq<char>, c: char)
    ensures
        !remove_char(s, c).contains(c),
{
    assert forall|i: int| 0 <= i < remove_char(s, c).len() implies remove_char(s, c)[i] != c by {
        s.lemma_filter_pred(other_than(c), i);
    }
}

/// Removing `c` from a single character drops it when it is `c` and keeps
/// it otherwise.
pub proof fn lemma_remove_char_single(x: char, c: char)
    ensures
        x == c ==> remove_char(seq![x], c) == Seq::<char>::empty(),
        x != c ==> remove_char(seq![x], c) == seq![x],
{
    reveal_with_fuel(Seq::<_>::filter, 2);
    assert(seq![x].drop_last() =~= Seq::<char>::empty());
    assert(Seq::<char>::empty().filter(other_than(c)) =~= Seq::<char>::empty());
    if x != c {
        assert(Seq::<char>::empty().push(x) =~= seq![x]);
    }
}

/// Removing `c` from a concatenation removes it from each part, in order.
pub proof fn lemma_remove_char_concat(s: Seq<char>, t: Seq<char>, c: char)
    ensures
        remove_char(s + t, c) == remove_char(s, c) + remove_char(t, c),
{
    Seq::filter_distributes_over_add(s, t, other_than(c));
}

/// A text without `c` is left exactly as it is: removing `c` touches no
/// other character.
pub proof fn lemma_remove_char_keeps_others(s: Seq<char>, c: char)
    requires
        !s.contains(c),
    ensures
        remove_char(s, c) == s,
    decreases s.len(),
{
    if s.len() > 0 {
        let init = s.drop_last();
        let last = s.last();
        assert(init + seq![last] =~= s);
        assert(!init.contains(c)) by {
            if init.contains(c) {
                let j = choose|j: int| 0 <= j < init.len() && init[j] == c;
                assert(s[j] == c);
            }
        }
        assert(last != c) by {
            assert(s[s.len() - 1] == last);
        }
        lemma_remove_char_keeps_others(init, c);
        lemma_remove_char_concat(init, seq![last], c);
        lemma_remove_char_single(last, c);
    } else {
        reveal_with_fuel(Seq::<_>::filter, 1);
    }
}

/// Appends `c` to `s` with `String::push`.
///
/// Trusted: the string afterwards holds the characters it held, then `c`.
#[verifier::external_body]
pub(crate) fn push_char(s: &mut String, c: char)
    ensures
        final(s)@ == old(s)@.push(c),
{
    s.push(c);
}

/// Decodes `bytes` as UTF-8 with `String::from_utf8`.
///
/// Trusted: the decode succeeds exactly on valid UTF-8 (as `valid_utf8`
/// defines it) and then holds the characters the bytes encode; on any other
/// bytes it gives `None`.
#[verifier::external_body]
pub(crate) fn decode_utf8_string(bytes: &[u8]) -> (text: Option<String>)
    ensures
        match text {
            Some(t) => valid_utf8(bytes@) && t@ == decode_utf8(bytes@),
            None => !valid_utf8(bytes@),
        },
{
    match String::from_utf8(bytes.to_vec()) {
        Ok(t) => Some(t),
        Err(_) => None,
    }
}

/// Whether `s` ends with the characters of `suffix`.
pub fn ends_with(s: &str, suffix: &str) -> (b: bool)
    ensures
        b == suffix@.is_suffix_of(s@),
{
    let n = s.unicode_len();
    let m = suffix.unicode_len();
    if m > n {
        return false;
    }
    let offset = n - m;
    let mut i: usize = 0;
    while i < m
        invariant
            n == s@.len(),
            m == suffix@.len(),
            offset == n - m,
            i <= m,
            forall|j: int| 0 <= j < i ==> suffix@[j] == s@[offset + j],
        decreases m - i,
    {
        if s.get_char(offset + i) != suffix.get_char(i) {
            assert(suffix@ != s@.subrange(offset as int, n as int)) by {
                assert(s@.subrange(offset as int, n as int)[i as int] == s@[offset + i]);
            }
            return false;
        }
        i = i + 1;
    }
    assert(suffix@ =~= s@.subrange(offset as int, n as int));
    true
}

/// A copy of `s` with its ASCII capital letters made small.
pub fn to_ascii_lowercase(s: &str) -> (r: String)
    ensures
        r@ == ascii_lowercase(s@),
{
    let n = s.unicode_len();
    let mut r = String::new();
    let mut i: usize = 0;
    while i < n
        invariant
            n == s@.len(),
            i <= n,
            r@ =~= ascii_lowercase(s@).take(i as int),
        decreases n - i,
    {
        let c = s.get_char(i);
        let lower = if 'A' <= c && c <= 'Z' {
            char_from_ascii_upper(c)
        } else {
            c
        };
        push_char(&mut r, lower);
        i = i + 1;
    }
    assert(ascii_lowercase(s@).take(n as int) =~= ascii_lowercase(s@));
    r
}

/// The small letter of an ASCII capital.
fn char_from_ascii_upper(c: char) -> (l: char)
    requires
        'A' <= c <= 'Z',
    ensures
        l == ascii_lower(c),
{
    let code: u32 = c as u32;
    let lowered: u8 = (code + 32) as u8;
    lowered as char
}

/// `s` without its leading `"0x"`s, as `str::trim_start_matches("0x")` gives it.
pub fn trim_hex_prefixes(s: &str) -> (r: String)
    ensures
        r@ == strip_hex_prefixes(s@),
{
    let n = s.unicode_len();
    let mut k: usize = 0;
    assert(s@.skip(0) =~= s@);
    while k < n && n - k >= 2 && s.get_char(k) == '0' && s.get_char(k + 1) == 'x'
        invariant
            n == s@.len(),
            k <= n,
            strip_hex_prefixes(s@) == strip_hex_prefixes(s@.skip(k as int)),
        decreases n - k,
    {
        assert(s@.skip(k as int).skip(2) =~= s@.skip(k + 2));
        k = k + 2;
    }
    let rest = s.substring_char(k, n);
    assert(rest@ =~= s@.skip(k as int));
    rest.to_owned()
}

/// `s` with every `c` taken out, as `str::replace(c, "")` gives it.
pub fn without_char(s: &str, c: char) -> (r: String)
    ensures
        r@ == remove_char(s@, c),
{
    let n = s.unicode_len();
    let mut r = String::new();
    let mut i: usize = 0;
    while i < n
        invariant
            n == s@.len(),
            i <= n,
            r@ =~= remove_char(s@.take(i as int), c),
        decreases n - i,
    {
        let x = s.get_char(i);
        proof {
            assert(s@.take(i + 1).drop_last() =~= s@.take(i as int));
            assert(s@.take(i + 1).last() == x);
            reveal_with_fuel(Seq::<_>::filter, 1);
        }
        if x != c {
            push_char(&mut r, x);
        }
        i = i + 1;
    }
    assert(s@.take(n as int) =~= s@);
    r
}

} // verus!
