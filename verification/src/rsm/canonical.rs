//! The canonical byte encoding of a checkpoint's state, over which its
//! checksum is taken: a JSON object whose maps list their entries in
//! increasing byte order of their keys, and the lowercase hexadecimal text of
//! a digest.
use sha2::Digest;
use vstd::prelude::*;
use vstd::string::StringSliceAdditionalSpecFns;

use crate::assoc_map::{
    distinct_keys,
    entries_map,
    lemma_distinct_at,
    lemma_entries_map,
    lemma_entries_map_at,
    lemma_entries_map_position,
    AssocMap,
};
use crate::rsm::entry::KVEntry;

verus! {

/// Strict lexicographic order on byte strings.
pub open spec fn bytes_less(a: Seq<u8>, b: Seq<u8>) -> bool
    decreases a.len(),
{
    if a.len() == 0 {
        b.len() > 0
    } else if b.len() == 0 {
        false
    } else if a[0] != b[0] {
        a[0] < b[0]
    } else {
        bytes_less(a.drop_first(), b.drop_first())
    }
}

/// `bytes_less` is irreflexive, asymmetric and total.
pub proof fn lemma_bytes_less_total(a: Seq<u8>, b: Seq<u8>)
    ensures
        !bytes_less(a, a),
        bytes_less(a, b) ==> !bytes_less(b, a),
        a != b ==> bytes_less(a, b) || bytes_less(b, a),
    decreases a.len(),
{
    if a.len() > 0 {
        lemma_bytes_less_total(a.drop_first(), a.drop_first());
        if b.len() > 0 {
            lemma_bytes_less_total(a.drop_first(), b.drop_first());
            if a[0] == b[0] && a != b {
                assert(a.drop_first() != b.drop_first()) by {
                    if a.drop_first() == b.drop_first() {
                        assert(a =~= b) by {
                            assert forall|i: int| 0 <= i < a.len() implies a[i] == b[i] by {
                                if i > 0 {
                                    assert(a[i] == a.drop_first()[i - 1]);
                                    assert(b[i] == b.drop_first()[i - 1]);
                                }
                            }
                        }
                    }
                }
            }
        }
    } else if b.len() == 0 {
        assert(a =~= b);
    }
}

/// `bytes_less` is transitive.
pub proof fn lemma_bytes_less_trans(a: Seq<u8>, b: Seq<u8>, c: Seq<u8>)
    requires
        bytes_less(a, b),
        bytes_less(b, c),
    ensures
        bytes_less(a, c),
    decreases a.len(),
{
    if a.len() > 0 && b.len() > 0 && c.len() > 0 && a[0] == b[0] && b[0] == c[0] {
        lemma_bytes_less_trans(a.drop_first(), b.drop_first(), c.drop_first());
    }
}

/// Whether `a` comes strictly before `b` in byte order.
pub fn bytes_before(a: &[u8], b: &[u8]) -> (r: bool)
    ensures
        r == bytes_less(a@, b@),
{
    let mut i: usize = 0;
    proof {
        assert(a@.skip(0) =~= a@);
        assert(b@.skip(0) =~= b@);
    }
    while i < a.len() && i < b.len()
        invariant
            i <= a@.len(),
            i <= b@.len(),
            bytes_less(a@, b@) == bytes_less(a@.skip(i as int), b@.skip(i as int)),
        decreases a@.len() - i,
    {
        if a[i] != b[i] {
            proof {
                assert(a@.skip(i as int)[0] == a@[i as int]);
                assert(b@.skip(i as int)[0] == b@[i as int]);
            }
            return a[i] < b[i];
        }
        proof {
            assert(a@.skip(i as int).drop_first() =~= a@.skip(i + 1));
            assert(b@.skip(i as int).drop_first() =~= b@.skip(i + 1));
        }
        i = i + 1;
    }
    i < b.len()
}

/// The decimal digits of `n`, as ASCII bytes.
pub open spec fn decimal(n: nat) -> Seq<u8>
    decreases n,
{
    if n < 10 {
        seq![(48 + n) as u8]
    } else {
        decimal(n / 10) + seq![(48 + n % 10) as u8]
    }
}

/// Appends the decimal digits of `n`.
pub fn push_decimal(out: &mut Vec<u8>, n: u64)
    ensures
        final(out)@ == old(out)@ + decimal(n as nat),
    decreases n,
{
    if n >= 10 {
        push_decimal(out, n / 10);
    }
    let digit: u8 = (n % 10) as u8;
    out.push(48 + digit);
    proof {
        if n >= 10 {
            assert(final(out)@ =~= old(out)@ + decimal(n as nat));
        } else {
            assert(final(out)@ =~= old(out)@ + decimal(n as nat));
        }
    }
}

/// Appends `bytes`.
pub fn push_bytes(out: &mut Vec<u8>, bytes: &[u8])
    ensures
        final(out)@ == old(out)@ + bytes@,
{
    let mut i: usize = 0;
    while i < bytes.len()
        invariant
            i <= bytes@.len(),
            out@ == old(out)@ + bytes@.take(i as int),
        decreases bytes@.len() - i,
    {
        out.push(bytes[i]);
        proof {
            assert(bytes@.take(i + 1) =~= bytes@.take(i as int).push(bytes@[i as int]));
        }
        i = i + 1;
    }
    proof {
        assert(bytes@.take(i as int) =~= bytes@);
    }
}

/// `String::push` appends one character.
pub assume_specification[ String::push ](s: &mut String, ch: char)
    ensures
        final(s)@ == old(s)@.push(ch),
;

/// `String::push_str` appends a string slice.
pub assume_specification[ String::push_str ](s: &mut String, t: &str)
    ensures
        final(s)@ == old(s)@ + t@,
;

/// The decimal digits of `n`, as characters.
pub open spec fn decimal_text(n: nat) -> Seq<char>
    decreases n,
{
    if n < 10 {
        seq![(48 + n) as char]
    } else {
        decimal_text(n / 10) + seq![(48 + n % 10) as char]
    }
}

/// Appends the decimal digits of `n`.
pub fn push_decimal_text(out: &mut String, n: u64)
    ensures
        final(out)@ == old(out)@ + decimal_text(n as nat),
    decreases n,
{
    if n >= 10 {
        push_decimal_text(out, n / 10);
    }
    let digit: u8 = (n % 10) as u8;
    out.push((48 + digit) as char);
    proof {
        assert(final(out)@ =~= old(out)@ + decimal_text(n as nat));
    }
}

/// The lowercase hexadecimal digit of a nibble.
pub open spec fn hex_digit(n: u8) -> char {
    if n < 10 {
        (48 + n) as char
    } else {
        (87 + n) as char
    }
}

/// Two lowercase hexadecimal digits per byte, high nibble first.
pub open spec fn hex_text(bytes: Seq<u8>) -> Seq<char>
    decreases bytes.len(),
{
    if bytes.len() == 0 {
        Seq::empty()
    } else {
        hex_text(bytes.drop_last()) + seq![
            hex_digit(bytes.last() / 16),
            hex_digit(bytes.last() % 16),
        ]
    }
}

fn hex_char(n: u8) -> (c: char)
    requires
        n < 16,
    ensures
        c == hex_digit(n),
{
    if n < 10 {
        ((48 + n) as char)
    } else {
        ((87 + n) as char)
    }
}

/// The lowercase hexadecimal text of `bytes`.
pub fn to_hex(bytes: &[u8]) -> (r: String)
    ensures
        r@ == hex_text(bytes@),
{
    let mut out = String::new();
    let mut i: usize = 0;
    while i < bytes.len()
        invariant
            i <= bytes@.len(),
            out@ == hex_text(bytes@.take(i as int)),
        decreases bytes@.len() - i,
    {
        let b = bytes[i];
        out.push(hex_char(b / 16));
        out.push(hex_char(b % 16));
        proof {
            assert(bytes@.take(i + 1).drop_last() =~= bytes@.take(i as int));
            assert(out@ =~= hex_text(bytes@.take(i + 1)));
        }
        i = i + 1;
    }
    proof {
        assert(bytes@.take(i as int) =~= bytes@);
    }
    out
}

/// Byte strings keyed by byte strings, listed in strictly increasing key
/// order.
pub open spec fn key_sorted(s: Seq<(Seq<u8>, Seq<u8>)>) -> bool {
    forall|i: int, j: int| 0 <= i < j < s.len() ==> bytes_less(#[trigger] s[i].0, #[trigger] s[j].0)
}

/// `s` lists exactly the entries of `m`.
pub open spec fn enumerates(s: Seq<(Seq<u8>, Seq<u8>)>, m: Map<Seq<u8>, Seq<u8>>) -> bool {
    &&& forall|i: int| 0 <= i < s.len() ==> #[trigger] m.contains_key(s[i].0) && m[s[i].0] == s[i].1
    &&& forall|k: Seq<u8>| #[trigger] m.contains_key(k) ==> exists|i: int| 0 <= i < s.len() && s[i].0 == k
}

pub open spec fn pair_views(v: Seq<(Vec<u8>, Vec<u8>)>) -> Seq<(Seq<u8>, Seq<u8>)> {
    v.map_values(|e: (Vec<u8>, Vec<u8>)| (e.0@, e.1@))
}

/// Inserting an entry at a position that keeps the keys sorted.
pub proof fn lemma_insert_sorted(
    s: Seq<(Seq<u8>, Seq<u8>)>,
    m: Map<Seq<u8>, Seq<u8>>,
    p: int,
    k: Seq<u8>,
    x: Seq<u8>,
)
    requires
        key_sorted(s),
        enumerates(s, m),
        0 <= p <= s.len(),
        forall|i: int| 0 <= i < p ==> bytes_less(#[trigger] s[i].0, k),
        p < s.len() ==> bytes_less(k, s[p].0),
    ensures
        key_sorted(s.insert(p, (k, x))),
        enumerates(s.insert(p, (k, x)), m.insert(k, x)),
{
    let s2 = s.insert(p, (k, x));
    lemma_bytes_less_total(k, k);
    assert forall|i: int| p < i < s.len() implies bytes_less(k, #[trigger] s[i].0) by {
        lemma_bytes_less_trans(k, s[p].0, s[i].0);
    }
    assert forall|i: int, j: int| 0 <= i < j < s2.len() implies bytes_less(
        #[trigger] s2[i].0,
        #[trigger] s2[j].0,
    ) by {
        if j == p {
        } else if i == p {
            assert(s2[j] == s[j - 1]);
            if j - 1 == p {
            } else {
                assert(bytes_less(k, s[j - 1].0));
            }
        } else if j < p {
            assert(s2[i] == s[i] && s2[j] == s[j]);
        } else if i < p {
            assert(s2[i] == s[i] && s2[j] == s[j - 1]);
            assert(bytes_less(k, s[j - 1].0)) by {
                if j - 1 > p {
                    lemma_bytes_less_trans(k, s[p].0, s[j - 1].0);
                }
            }
            lemma_bytes_less_trans(s[i].0, k, s[j - 1].0);
        } else {
            assert(s2[i] == s[i - 1] && s2[j] == s[j - 1]);
        }
    }
    assert forall|i: int| 0 <= i < s2.len() implies #[trigger] m.insert(k, x).contains_key(s2[i].0)
        && m.insert(k, x)[s2[i].0] == s2[i].1 by {
        if i < p {
            assert(s2[i] == s[i]);
            assert(m.contains_key(s[i].0));
            lemma_bytes_less_total(s[i].0, k);
        } else if i > p {
            assert(s2[i] == s[i - 1]);
            assert(m.contains_key(s[i - 1].0));
            if i - 1 > p {
                assert(bytes_less(k, s[i - 1].0));
            }
            lemma_bytes_less_total(k, s[i - 1].0);
        }
    }
    assert forall|key: Seq<u8>| #[trigger] m.insert(k, x).contains_key(key) implies exists|i: int|
        0 <= i < s2.len() && s2[i].0 == key by {
        if key == k {
            assert(s2[p].0 == key);
        } else {
            let i = choose|i: int| 0 <= i < s.len() && s[i].0 == key;
            if i < p {
                assert(s2[i].0 == key);
            } else {
                assert(s2[i + 1].0 == key);
            }
        }
    }
}

/// Replacing the value of an entry whose key is already listed.
pub proof fn lemma_replace_sorted(
    s: Seq<(Seq<u8>, Seq<u8>)>,
    m: Map<Seq<u8>, Seq<u8>>,
    p: int,
    x: Seq<u8>,
)
    requires
        key_sorted(s),
        enumerates(s, m),
        0 <= p < s.len(),
    ensures
        key_sorted(s.update(p, (s[p].0, x))),
        enumerates(s.update(p, (s[p].0, x)), m.insert(s[p].0, x)),
{
    let k = s[p].0;
    let s2 = s.update(p, (k, x));
    lemma_bytes_less_total(k, k);
    assert forall|i: int| 0 <= i < s2.len() implies #[trigger] m.insert(k, x).contains_key(s2[i].0)
        && m.insert(k, x)[s2[i].0] == s2[i].1 by {
        if i != p {
            assert(s2[i] == s[i]);
            assert(m.contains_key(s[i].0));
            if i < p {
                assert(bytes_less(s[i].0, k));
            } else {
                assert(bytes_less(k, s[i].0));
            }
            lemma_bytes_less_total(s[i].0, k);
        }
    }
    assert forall|key: Seq<u8>| #[trigger] m.insert(k, x).contains_key(key) implies exists|i: int|
        0 <= i < s2.len() && s2[i].0 == key by {
        if key == k {
            assert(s2[p].0 == key);
        } else {
            let i = choose|i: int| 0 <= i < s.len() && s[i].0 == key;
            assert(s2[i].0 == key);
        }
    }
}

/// Two key-sorted listings of the same entries are the same listing.
pub proof fn lemma_sorted_enumeration_unique(
    s: Seq<(Seq<u8>, Seq<u8>)>,
    t: Seq<(Seq<u8>, Seq<u8>)>,
    m: Map<Seq<u8>, Seq<u8>>,
)
    requires
        key_sorted(s),
        key_sorted(t),
        enumerates(s, m),
        enumerates(t, m),
    ensures
        s == t,
    decreases s.len(),
{
    if s.len() == 0 {
        if t.len() > 0 {
            assert(m.contains_key(t[0].0));
        }
        assert(s =~= t);
    } else {
        let k = s[0].0;
        assert(m.contains_key(k));
        let j = choose|j: int| 0 <= j < t.len() && t[j].0 == k;
        assert(m.contains_key(t[0].0));
        let i = choose|i: int| 0 <= i < s.len() && s[i].0 == t[0].0;
        if j > 0 {
            lemma_bytes_less_total(t[0].0, k);
            if i > 0 {
                assert(bytes_less(s[0].0, s[i].0));
            } else {
                assert(bytes_less(t[0].0, t[j].0));
            }
        }
        assert(t[0].0 == k);
        let m2 = m.remove(k);
        let s2 = s.drop_first();
        let t2 = t.drop_first();
        lemma_bytes_less_total(k, k);
        assert forall|a: int| 0 <= a < s2.len() implies #[trigger] m2.contains_key(s2[a].0)
            && m2[s2[a].0] == s2[a].1 by {
            assert(s2[a] == s[a + 1]);
            assert(bytes_less(s[0].0, s[a + 1].0));
            assert(m.contains_key(s[a + 1].0));
        }
        assert forall|key: Seq<u8>| #[trigger] m2.contains_key(key) implies exists|a: int|
            0 <= a < s2.len() && s2[a].0 == key by {
            let a = choose|a: int| 0 <= a < s.len() && s[a].0 == key;
            assert(s2[a - 1].0 == key);
        }
        assert forall|a: int| 0 <= a < t2.len() implies #[trigger] m2.contains_key(t2[a].0)
            && m2[t2[a].0] == t2[a].1 by {
            assert(t2[a] == t[a + 1]);
            assert(bytes_less(t[0].0, t[a + 1].0));
            assert(m.contains_key(t[a + 1].0));
        }
        assert forall|key: Seq<u8>| #[trigger] m2.contains_key(key) implies exists|a: int|
            0 <= a < t2.len() && t2[a].0 == key by {
            let a = choose|a: int| 0 <= a < t.len() && t[a].0 == key;
            assert(t2[a - 1].0 == key);
        }
        assert forall|a: int, b: int| 0 <= a < b < s2.len() implies bytes_less(
            #[trigger] s2[a].0,
            #[trigger] s2[b].0,
        ) by {
            assert(s2[a] == s[a + 1] && s2[b] == s[b + 1]);
        }
        assert forall|a: int, b: int| 0 <= a < b < t2.len() implies bytes_less(
            #[trigger] t2[a].0,
            #[trigger] t2[b].0,
        ) by {
            assert(t2[a] == t[a + 1] && t2[b] == t[b + 1]);
        }
        lemma_sorted_enumeration_unique(s2, t2, m2);
        assert(s[0] == t[0]);
        assert(s =~= seq![s[0]] + s2);
        assert(t =~= seq![t[0]] + t2);
    }
}

/// Sets `key` to `value` in a key-sorted list of entries.
fn sorted_insert(
    v: &mut Vec<(Vec<u8>, Vec<u8>)>,
    key: Vec<u8>,
    value: Vec<u8>,
    Ghost(m): Ghost<Map<Seq<u8>, Seq<u8>>>,
)
    requires
        key_sorted(pair_views(old(v)@)),
        enumerates(pair_views(old(v)@), m),
    ensures
        key_sorted(pair_views(final(v)@)),
        enumerates(pair_views(final(v)@), m.insert(key@, value@)),
{
    let ghost s = pair_views(v@);
    let mut p: usize = 0;
    while p < v.len()
        invariant
            p <= v@.len(),
            s == pair_views(v@),
            forall|i: int| 0 <= i < p ==> bytes_less(#[trigger] s[i].0, key@),
        ensures
            p <= v@.len(),
            s == pair_views(v@),
            forall|i: int| 0 <= i < p ==> bytes_less(#[trigger] s[i].0, key@),
            p < v@.len() ==> !bytes_less(s[p as int].0, key@),
        decreases v@.len() - p,
    {
        if !bytes_before(v[p].0.as_slice(), key.as_slice()) {
            break ;
        }
        p = p + 1;
    }
    let ghost kv = key@;
    let ghost vv = value@;
    if p < v.len() && !bytes_before(key.as_slice(), v[p].0.as_slice()) {
        proof {
            lemma_bytes_less_total(s[p as int].0, kv);
            lemma_replace_sorted(s, m, p as int, vv);
        }
        v.set(p, (key, value));
        proof {
            assert(pair_views(v@) =~= s.update(p as int, (s[p as int].0, vv)));
        }
    } else {
        proof {
            if p < v@.len() {
                lemma_bytes_less_total(s[p as int].0, kv);
            }
            lemma_insert_sorted(s, m, p as int, kv, vv);
        }
        v.insert(p, (key, value));
        proof {
            assert(pair_views(v@) =~= s.insert(p as int, (kv, vv)));
        }
    }
}

/// How serde_json writes one character inside a string literal: a quote or
/// a backslash behind a backslash; backspace, tab, line feed, form feed and
/// carriage return as their short escapes; the other characters below U+0020
/// as `\u00` and two lowercase hex digits; every other character as itself.
pub open spec fn json_char(c: char) -> Seq<char> {
    let n = c as u32;
    if c == '"' {
        seq!['\\', '"']
    } else if c == '\\' {
        seq!['\\', '\\']
    } else if n == 8 {
        seq!['\\', 'b']
    } else if n == 9 {
        seq!['\\', 't']
    } else if n == 10 {
        seq!['\\', 'n']
    } else if n == 12 {
        seq!['\\', 'f']
    } else if n == 13 {
        seq!['\\', 'r']
    } else if n < 32 {
        seq!['\\', 'u', '0', '0', hex_digit((n / 16) as u8), hex_digit((n % 16) as u8)]
    } else {
        seq![c]
    }
}

/// The characters of `s`, each written as `json_char` writes it.
pub open spec fn json_escaped(s: Seq<char>) -> Seq<char>
    decreases s.len(),
{
    if s.len() == 0 {
        Seq::empty()
    } else {
        json_escaped(s.drop_last()) + json_char(s.last())
    }
}

/// The JSON string literal serde_json writes for a string: the escaped
/// characters between double quotes.
pub open spec fn json_string_literal(s: Seq<char>) -> Seq<char> {
    seq!['"'] + json_escaped(s) + seq!['"']
}

/// The `i`-th hex digit of a 128-bit value, most significant first.
pub open spec fn nibble_of(id: u128, i: int) -> u8 {
    ((id >> ((124 - 4 * i) as u128)) & 15u128) as u8
}

/// The 32 lowercase hex digits of a 128-bit value, most significant first.
pub open spec fn hex_of_u128(id: u128) -> Seq<char> {
    Seq::new(32, |i: int| hex_digit(nibble_of(id, i)))
}

/// The hyphenated lowercase text of a UUID: its 32 hex digits in groups of
/// 8, 4, 4, 4 and 12, joined by hyphens.
pub open spec fn hyphenated_uuid(id: u128) -> Seq<char> {
    let h = hex_of_u128(id);
    h.subrange(0, 8) + seq!['-'] + h.subrange(8, 12) + seq!['-'] + h.subrange(12, 16) + seq!['-']
        + h.subrange(16, 20) + seq!['-'] + h.subrange(20, 32)
}

/// The SHA-256 digest of a byte string.
pub uninterp spec fn sha256_digest(data: Seq<u8>) -> Seq<u8>;

/// `serde_json::to_string` on a string slice: its JSON string literal,
/// written as serde_json's string escaping writes it. Serializing a string
/// into memory does not fail; the error arm is never taken.
#[verifier::external_body]
fn json_quote(s: &str) -> (r: String)
    ensures
        r@ == json_string_literal(s@),
{
    match serde_json::to_string(s) {
        Ok(t) => t,
        Err(_) => String::new(),
    }
}

/// `uuid::Uuid::from_u128(id).to_string()`: the UUID's bytes are the value's
/// big-endian bytes, and its text is their lowercase hyphenated hex.
#[verifier::external_body]
pub(crate) fn uuid_text(id: u128) -> (r: String)
    ensures
        r@ == hyphenated_uuid(id),
{
    uuid::Uuid::from_u128(id).to_string()
}

/// `sha2::Sha256::digest`: the 32-byte SHA-256 digest of `data`.
#[verifier::external_body]
fn sha256(data: &[u8]) -> (r: Vec<u8>)
    ensures
        r@ == sha256_digest(data@),
        r@.len() == 32,
{
    sha2::Sha256::digest(data).to_vec()
}

/// The UTF-8 bytes of a string.
pub open spec fn utf8(s: Seq<char>) -> Seq<u8> {
    vstd::utf8::encode_utf8(s)
}

/// `"key":{"value":V,"version":N}`.
pub open spec fn kv_fragment(key: Seq<char>, e: KVEntry) -> Seq<u8> {
    utf8(json_string_literal(key)) + ":{\"value\":".spec_bytes() + decimal(e.value.0 as nat)
        + ",\"version\":".spec_bytes() + decimal(e.version.0 as nat) + "}".spec_bytes()
}

/// The store's entries by the bytes of their keys; a later entry of the same
/// key bytes replaces an earlier one.
pub open spec fn kv_fragments(l: Seq<(String, KVEntry)>) -> Map<Seq<u8>, Seq<u8>>
    decreases l.len(),
{
    if l.len() == 0 {
        Map::empty()
    } else {
        kv_fragments(l.drop_last()).insert(
            utf8(l.last().0@),
            kv_fragment(l.last().0@, l.last().1),
        )
    }
}

/// Distinct strings have distinct UTF-8 bytes.
proof fn lemma_utf8_injective(a: Seq<char>, b: Seq<char>)
    requires
        utf8(a) == utf8(b),
    ensures
        a == b,
{
    vstd::utf8::encode_utf8_decode_utf8(a);
    vstd::utf8::encode_utf8_decode_utf8(b);
}

/// For a listing with distinct keys, the fragments hold exactly one entry per
/// key, under the key's bytes.
proof fn lemma_kv_fragments_of(l: Seq<(String, KVEntry)>)
    requires
        distinct_keys(l),
    ensures
        forall|i: int|
            0 <= i < l.len() ==> #[trigger] kv_fragments(l).contains_key(utf8(l[i].0@))
                && kv_fragments(l)[utf8(l[i].0@)] == kv_fragment(l[i].0@, l[i].1),
        forall|b: Seq<u8>|
            #[trigger] kv_fragments(l).contains_key(b) ==> exists|i: int|
                0 <= i < l.len() && utf8(l[i].0@) == b,
    decreases l.len(),
{
    if l.len() > 0 {
        let p = l.drop_last();
        assert(distinct_keys(p)) by {
            assert forall|i: int, j: int| 0 <= i < j < p.len() implies #[trigger] p[i].0@
                != #[trigger] p[j].0@ by {
                assert(l[i].0@ != l[j].0@);
            }
        }
        lemma_kv_fragments_of(p);
        let last = l.len() - 1;
        assert forall|i: int| 0 <= i < l.len() implies #[trigger] kv_fragments(l).contains_key(
            utf8(l[i].0@),
        ) && kv_fragments(l)[utf8(l[i].0@)] == kv_fragment(l[i].0@, l[i].1) by {
            assert(kv_fragments(l) == kv_fragments(p).insert(
                utf8(l[last].0@),
                kv_fragment(l[last].0@, l[last].1),
            ));
            if i < last {
                assert(p[i] == l[i]);
                assert(kv_fragments(p).contains_key(utf8(p[i].0@)));
                if utf8(l[i].0@) == utf8(l[last].0@) {
                    lemma_utf8_injective(l[i].0@, l[last].0@);
                    assert(l[i].0@ != l[last].0@);
                }
            }
        }
        assert forall|b: Seq<u8>| #[trigger] kv_fragments(l).contains_key(b) implies exists|i: int|
            0 <= i < l.len() && utf8(l[i].0@) == b by {
            if b != utf8(l[last].0@) {
                assert(kv_fragments(p).contains_key(b));
                let i = choose|i: int| 0 <= i < p.len() && utf8(p[i].0@) == b;
                assert(l[i] == p[i]);
            }
        }
    }
}

/// Two listings with distinct keys and the same contents give the same
/// fragments, whatever their order.
pub proof fn lemma_kv_fragments_of_contents(l1: Seq<(String, KVEntry)>, l2: Seq<(String, KVEntry)>)
    requires
        distinct_keys(l1),
        distinct_keys(l2),
        entries_map(l1) == entries_map(l2),
    ensures
        kv_fragments(l1) == kv_fragments(l2),
{
    lemma_kv_fragments_of(l1);
    lemma_kv_fragments_of(l2);
    lemma_entries_map(l1);
    lemma_entries_map(l2);
    assert forall|b: Seq<u8>| #[trigger] kv_fragments(l1).contains_key(b) implies kv_fragments(
        l2,
    ).contains_key(b) && kv_fragments(l1)[b] == kv_fragments(l2)[b] by {
        let i = choose|i: int| 0 <= i < l1.len() && utf8(l1[i].0@) == b;
        assert(entries_map(l1).contains_key(l1[i].0@));
        let j = choose|j: int| 0 <= j < l2.len() && l2[j].0@ == l1[i].0@;
        assert(entries_map(l2).contains_key(l2[j].0@));
        assert(l1[i].1 == l2[j].1);
        assert(kv_fragments(l1).contains_key(utf8(l1[i].0@)));
        assert(kv_fragments(l2).contains_key(utf8(l2[j].0@)));
    }
    assert forall|b: Seq<u8>| #[trigger] kv_fragments(l2).contains_key(b) implies kv_fragments(
        l1,
    ).contains_key(b) by {
        let j = choose|j: int| 0 <= j < l2.len() && utf8(l2[j].0@) == b;
        assert(entries_map(l2).contains_key(l2[j].0@));
        let i = choose|i: int| 0 <= i < l1.len() && l1[i].0@ == l2[j].0@;
        assert(entries_map(l1).contains_key(l1[i].0@));
    }
    assert(kv_fragments(l1) =~= kv_fragments(l2));
}

proof fn lemma_nibble_cast(x: u128, y: u128, s: u128)
    by (bit_vector)
    requires
        ((x >> s) & 15u128) as u8 == ((y >> s) & 15u128) as u8,
    ensures
        ((x >> s) & 15u128) == ((y >> s) & 15u128),
{
}

proof fn lemma_nibble_small(x: u128, s: u128)
    by (bit_vector)
    ensures
        (((x >> s) & 15u128) as u8) < 16u8,
{
}

proof fn lemma_nibbles_equal(a: u128, b: u128)
    by (bit_vector)
    requires
        ((a >> 124u128) & 15u128) == ((b >> 124u128) & 15u128),
        ((a >> 120u128) & 15u128) == ((b >> 120u128) & 15u128),
        ((a >> 116u128) & 15u128) == ((b >> 116u128) & 15u128),
        ((a >> 112u128) & 15u128) == ((b >> 112u128) & 15u128),
        ((a >> 108u128) & 15u128) == ((b >> 108u128) & 15u128),
        ((a >> 104u128) & 15u128) == ((b >> 104u128) & 15u128),
        ((a >> 100u128) & 15u128) == ((b >> 100u128) & 15u128),
        ((a >> 96u128) & 15u128) == ((b >> 96u128) & 15u128),
        ((a >> 92u128) & 15u128) == ((b >> 92u128) & 15u128),
        ((a >> 88u128) & 15u128) == ((b >> 88u128) & 15u128),
        ((a >> 84u128) & 15u128) == ((b >> 84u128) & 15u128),
        ((a >> 80u128) & 15u128) == ((b >> 80u128) & 15u128),
        ((a >> 76u128) & 15u128) == ((b >> 76u128) & 15u128),
        ((a >> 72u128) & 15u128) == ((b >> 72u128) & 15u128),
        ((a >> 68u128) & 15u128) == ((b >> 68u128) & 15u128),
        ((a >> 64u128) & 15u128) == ((b >> 64u128) & 15u128),
        ((a >> 60u128) & 15u128) == ((b >> 60u128) & 15u128),
        ((a >> 56u128) & 15u128) == ((b >> 56u128) & 15u128),
        ((a >> 52u128) & 15u128) == ((b >> 52u128) & 15u128),
        ((a >> 48u128) & 15u128) == ((b >> 48u128) & 15u128),
        ((a >> 44u128) & 15u128) == ((b >> 44u128) & 15u128),
        ((a >> 40u128) & 15u128) == ((b >> 40u128) & 15u128),
        ((a >> 36u128) & 15u128) == ((b >> 36u128) & 15u128),
        ((a >> 32u128) & 15u128) == ((b >> 32u128) & 15u128),
        ((a >> 28u128) & 15u128) == ((b >> 28u128) & 15u128),
        ((a >> 24u128) & 15u128) == ((b >> 24u128) & 15u128),
        ((a >> 20u128) & 15u128) == ((b >> 20u128) & 15u128),
        ((a >> 16u128) & 15u128) == ((b >> 16u128) & 15u128),
        ((a >> 12u128) & 15u128) == ((b >> 12u128) & 15u128),
        ((a >> 8u128) & 15u128) == ((b >> 8u128) & 15u128),
        ((a >> 4u128) & 15u128) == ((b >> 4u128) & 15u128),
        ((a >> 0u128) & 15u128) == ((b >> 0u128) & 15u128),
    ensures
        a == b,
{
}

/// Two 128-bit values with the same hex digits are equal.
proof fn lemma_nibbles_determine(a: u128, b: u128)
    requires
        forall|i: int| 0 <= i < 32 ==> #[trigger] nibble_of(a, i) == nibble_of(b, i),
    ensures
        a == b,
{
    assert(nibble_of(a, 0) == nibble_of(b, 0));
    assert(nibble_of(a, 1) == nibble_of(b, 1));
    assert(nibble_of(a, 2) == nibble_of(b, 2));
    assert(nibble_of(a, 3) == nibble_of(b, 3));
    assert(nibble_of(a, 4) == nibble_of(b, 4));
    assert(nibble_of(a, 5) == nibble_of(b, 5));
    assert(nibble_of(a, 6) == nibble_of(b, 6));
    assert(nibble_of(a, 7) == nibble_of(b, 7));
    assert(nibble_of(a, 8) == nibble_of(b, 8));
    assert(nibble_of(a, 9) == nibble_of(b, 9));
    assert(nibble_of(a, 10) == nibble_of(b, 10));
    assert(nibble_of(a, 11) == nibble_of(b, 11));
    assert(nibble_of(a, 12) == nibble_of(b, 12));
    assert(nibble_of(a, 13) == nibble_of(b, 13));
    assert(nibble_of(a, 14) == nibble_of(b, 14));
    assert(nibble_of(a, 15) == nibble_of(b, 15));
    assert(nibble_of(a, 16) == nibble_of(b, 16));
    assert(nibble_of(a, 17) == nibble_of(b, 17));
    assert(nibble_of(a, 18) == nibble_of(b, 18));
    assert(nibble_of(a, 19) == nibble_of(b, 19));
    assert(nibble_of(a, 20) == nibble_of(b, 20));
    assert(nibble_of(a, 21) == nibble_of(b, 21));
    assert(nibble_of(a, 22) == nibble_of(b, 22));
    assert(nibble_of(a, 23) == nibble_of(b, 23));
    assert(nibble_of(a, 24) == nibble_of(b, 24));
    assert(nibble_of(a, 25) == nibble_of(b, 25));
    assert(nibble_of(a, 26) == nibble_of(b, 26));
    assert(nibble_of(a, 27) == nibble_of(b, 27));
    assert(nibble_of(a, 28) == nibble_of(b, 28));
    assert(nibble_of(a, 29) == nibble_of(b, 29));
    assert(nibble_of(a, 30) == nibble_of(b, 30));
    assert(nibble_of(a, 31) == nibble_of(b, 31));
    lemma_nibble_cast(a, b, 124u128);
    lemma_nibble_cast(a, b, 120u128);
    lemma_nibble_cast(a, b, 116u128);
    lemma_nibble_cast(a, b, 112u128);
    lemma_nibble_cast(a, b, 108u128);
    lemma_nibble_cast(a, b, 104u128);
    lemma_nibble_cast(a, b, 100u128);
    lemma_nibble_cast(a, b, 96u128);
    lemma_nibble_cast(a, b, 92u128);
    lemma_nibble_cast(a, b, 88u128);
    lemma_nibble_cast(a, b, 84u128);
    lemma_nibble_cast(a, b, 80u128);
    lemma_nibble_cast(a, b, 76u128);
    lemma_nibble_cast(a, b, 72u128);
    lemma_nibble_cast(a, b, 68u128);
    lemma_nibble_cast(a, b, 64u128);
    lemma_nibble_cast(a, b, 60u128);
    lemma_nibble_cast(a, b, 56u128);
    lemma_nibble_cast(a, b, 52u128);
    lemma_nibble_cast(a, b, 48u128);
    lemma_nibble_cast(a, b, 44u128);
    lemma_nibble_cast(a, b, 40u128);
    lemma_nibble_cast(a, b, 36u128);
    lemma_nibble_cast(a, b, 32u128);
    lemma_nibble_cast(a, b, 28u128);
    lemma_nibble_cast(a, b, 24u128);
    lemma_nibble_cast(a, b, 20u128);
    lemma_nibble_cast(a, b, 16u128);
    lemma_nibble_cast(a, b, 12u128);
    lemma_nibble_cast(a, b, 8u128);
    lemma_nibble_cast(a, b, 4u128);
    lemma_nibble_cast(a, b, 0u128);
    lemma_nibbles_equal(a, b);
}

/// A UUID's text names it: distinct values have distinct texts.
pub proof fn lemma_hyphenated_uuid_injective(a: u128, b: u128)
    requires
        hyphenated_uuid(a) == hyphenated_uuid(b),
    ensures
        a == b,
{
    let ha = hex_of_u128(a);
    let hb = hex_of_u128(b);
    assert forall|i: int| 0 <= i < 32 implies #[trigger] nibble_of(a, i) == nibble_of(b, i) by {
        let j = if i < 8 {
            i
        } else if i < 12 {
            i + 1
        } else if i < 16 {
            i + 2
        } else if i < 20 {
            i + 3
        } else {
            i + 4
        };
        assert(hyphenated_uuid(a)[j] == ha[i]);
        assert(hyphenated_uuid(b)[j] == hb[i]);
        lemma_nibble_small(a, (124 - 4 * i) as u128);
        lemma_nibble_small(b, (124 - 4 * i) as u128);
    }
    lemma_nibbles_determine(a, b);
}

/// For a listing with distinct keys, the fragments hold exactly one entry per
/// key, under the bytes of the client's UUID text.
proof fn lemma_watermark_fragments_of(l: Seq<(u128, u64)>)
    requires
        distinct_keys(l),
    ensures
        forall|i: int|
            0 <= i < l.len() ==> #[trigger] watermark_fragments(l).contains_key(
                utf8(hyphenated_uuid(l[i].0)),
            ) && watermark_fragments(l)[utf8(hyphenated_uuid(l[i].0))] == watermark_fragment(
                l[i].0,
                l[i].1,
            ),
        forall|b: Seq<u8>|
            #[trigger] watermark_fragments(l).contains_key(b) ==> exists|i: int|
                0 <= i < l.len() && utf8(hyphenated_uuid(l[i].0)) == b,
    decreases l.len(),
{
    if l.len() > 0 {
        let p = l.drop_last();
        let last = l.len() - 1;
        assert(distinct_keys(p)) by {
            assert forall|i: int, j: int| 0 <= i < j < p.len() implies #[trigger] p[i].0@
                != #[trigger] p[j].0@ by {
                lemma_distinct_at(l, i, j);
            }
        }
        lemma_watermark_fragments_of(p);
        assert forall|i: int| 0 <= i < l.len() implies #[trigger] watermark_fragments(
            l,
        ).contains_key(utf8(hyphenated_uuid(l[i].0))) && watermark_fragments(l)[utf8(
            hyphenated_uuid(l[i].0),
        )] == watermark_fragment(l[i].0, l[i].1) by {
            assert(watermark_fragments(l) == watermark_fragments(p).insert(
                utf8(hyphenated_uuid(l[last].0)),
                watermark_fragment(l[last].0, l[last].1),
            ));
            if i < last {
                assert(p[i] == l[i]);
                assert(watermark_fragments(p).contains_key(utf8(hyphenated_uuid(p[i].0))));
                if utf8(hyphenated_uuid(l[i].0)) == utf8(hyphenated_uuid(l[last].0)) {
                    lemma_utf8_injective(hyphenated_uuid(l[i].0), hyphenated_uuid(l[last].0));
                    lemma_hyphenated_uuid_injective(l[i].0, l[last].0);
                    lemma_distinct_at(l, i, last);
                }
            }
        }
        assert forall|b: Seq<u8>| #[trigger] watermark_fragments(l).contains_key(b) implies exists|
            i: int,
        | 0 <= i < l.len() && utf8(hyphenated_uuid(l[i].0)) == b by {
            if b != utf8(hyphenated_uuid(l[last].0)) {
                assert(watermark_fragments(p).contains_key(b));
                let i = choose|i: int| 0 <= i < p.len() && utf8(hyphenated_uuid(p[i].0)) == b;
                assert(l[i] == p[i]);
            }
        }
    }
}

/// Two listings with distinct keys and the same contents give the same
/// fragments, whatever their order.
pub proof fn lemma_watermark_fragments_of_contents(l1: Seq<(u128, u64)>, l2: Seq<(u128, u64)>)
    requires
        distinct_keys(l1),
        distinct_keys(l2),
        entries_map(l1) == entries_map(l2),
    ensures
        watermark_fragments(l1) == watermark_fragments(l2),
{
    lemma_watermark_fragments_of(l1);
    lemma_watermark_fragments_of(l2);
    assert forall|b: Seq<u8>| #[trigger] watermark_fragments(l1).contains_key(b) implies watermark_fragments(
        l2,
    ).contains_key(b) && watermark_fragments(l1)[b] == watermark_fragments(l2)[b] by {
        let i = choose|i: int| 0 <= i < l1.len() && utf8(hyphenated_uuid(l1[i].0)) == b;
        lemma_entries_map_at(l1, i);
        let j = lemma_entries_map_position(l2, l1[i].0@);
        lemma_entries_map_at(l2, j);
        assert(l1[i].1 == l2[j].1);
        assert(l1[i].0 == l2[j].0);
        assert(watermark_fragments(l1).contains_key(utf8(hyphenated_uuid(l1[i].0))));
        assert(watermark_fragments(l2).contains_key(utf8(hyphenated_uuid(l2[j].0))));
    }
    assert forall|b: Seq<u8>| #[trigger] watermark_fragments(l2).contains_key(b) implies watermark_fragments(
        l1,
    ).contains_key(b) by {
        let j = choose|j: int| 0 <= j < l2.len() && utf8(hyphenated_uuid(l2[j].0)) == b;
        lemma_entries_map_at(l2, j);
        let i = lemma_entries_map_position(l1, l2[j].0@);
        assert(l1[i].0 == l2[j].0);
        assert(watermark_fragments(l1).contains_key(utf8(hyphenated_uuid(l1[i].0))));
    }
    assert(watermark_fragments(l1) =~= watermark_fragments(l2));
}

/// `"client-uuid":N`.
pub open spec fn watermark_fragment(id: u128, n: u64) -> Seq<u8> {
    utf8(json_string_literal(hyphenated_uuid(id))) + ":".spec_bytes() + decimal(n as nat)
}

/// The watermarks by the bytes of their client's UUID text; a later entry of
/// the same text replaces an earlier one.
pub open spec fn watermark_fragments(l: Seq<(u128, u64)>) -> Map<Seq<u8>, Seq<u8>>
    decreases l.len(),
{
    if l.len() == 0 {
        Map::empty()
    } else {
        watermark_fragments(l.drop_last()).insert(
            utf8(hyphenated_uuid(l.last().0)),
            watermark_fragment(l.last().0, l.last().1),
        )
    }
}

/// The fragments of `s`, comma-separated.
pub open spec fn joined(s: Seq<(Seq<u8>, Seq<u8>)>) -> Seq<u8>
    decreases s.len(),
{
    if s.len() == 0 {
        Seq::empty()
    } else if s.len() == 1 {
        s[0].1
    } else {
        joined(s.drop_last()) + ",".spec_bytes() + s.last().1
    }
}

pub open spec fn json_object(s: Seq<(Seq<u8>, Seq<u8>)>) -> Seq<u8> {
    "{".spec_bytes() + joined(s) + "}".spec_bytes()
}

/// `{"kv_store":{...},"client_dedup_watermark":{...}}`.
pub open spec fn canonical_state(
    kv: Seq<(Seq<u8>, Seq<u8>)>,
    watermark: Seq<(Seq<u8>, Seq<u8>)>,
) -> Seq<u8> {
    "{\"kv_store\":".spec_bytes() + json_object(kv) + ",\"client_dedup_watermark\":".spec_bytes()
        + json_object(watermark) + "}".spec_bytes()
}

/// `s`'s UTF-8 bytes, as a vector.
pub(crate) fn bytes_of(s: &str) -> (r: Vec<u8>)
    ensures
        r@ == utf8(s@),
{
    let mut r: Vec<u8> = Vec::new();
    push_bytes(&mut r, s.as_bytes());
    assert(r@ =~= utf8(s@));
    r
}

/// The store's fragments, sorted by key bytes.
pub fn sorted_kv_fragments(store: &AssocMap<String, KVEntry>) -> (v: Vec<(Vec<u8>, Vec<u8>)>)
    ensures
        key_sorted(pair_views(v@)),
        enumerates(pair_views(v@), kv_fragments(store.listing())),
{
    let mut v: Vec<(Vec<u8>, Vec<u8>)> = Vec::new();
    let mut i: usize = 0;
    proof {
        assert(pair_views(v@) =~= Seq::<(Seq<u8>, Seq<u8>)>::empty());
        assert(store.listing().take(0) =~= Seq::<(String, KVEntry)>::empty());
    }
    while i < store.len()
        invariant
            i <= store.listing().len(),
            key_sorted(pair_views(v@)),
            enumerates(pair_views(v@), kv_fragments(store.listing().take(i as int))),
        decreases store.listing().len() - i,
    {
        let entry = store.entry_at(i);
        let key = bytes_of(entry.0.as_str());
        let quoted = json_quote(entry.0.as_str());
        let mut frag: Vec<u8> = Vec::new();
        push_bytes(&mut frag, quoted.as_str().as_bytes());
        push_bytes(&mut frag, ":{\"value\":".as_bytes());
        push_decimal(&mut frag, entry.1.value.0 as u64);
        push_bytes(&mut frag, ",\"version\":".as_bytes());
        push_decimal(&mut frag, entry.1.version.0 as u64);
        push_bytes(&mut frag, "}".as_bytes());
        proof {
            assert(frag@ =~= kv_fragment(entry.0@, entry.1));
            assert(store.listing().take(i + 1).drop_last() =~= store.listing().take(i as int));
        }
        sorted_insert(&mut v, key, frag, Ghost(kv_fragments(store.listing().take(i as int))));
        i = i + 1;
    }
    proof {
        assert(store.listing().take(i as int) =~= store.listing());
    }
    v
}

/// The watermarks' fragments, sorted by the bytes of the UUID text.
pub fn sorted_watermark_fragments(watermark: &AssocMap<u128, u64>) -> (v: Vec<(Vec<u8>, Vec<u8>)>)
    ensures
        key_sorted(pair_views(v@)),
        enumerates(pair_views(v@), watermark_fragments(watermark.listing())),
{
    let mut v: Vec<(Vec<u8>, Vec<u8>)> = Vec::new();
    let mut i: usize = 0;
    proof {
        assert(pair_views(v@) =~= Seq::<(Seq<u8>, Seq<u8>)>::empty());
        assert(watermark.listing().take(0) =~= Seq::<(u128, u64)>::empty());
    }
    while i < watermark.len()
        invariant
            i <= watermark.listing().len(),
            key_sorted(pair_views(v@)),
            enumerates(pair_views(v@), watermark_fragments(watermark.listing().take(i as int))),
        decreases watermark.listing().len() - i,
    {
        let entry = watermark.entry_at(i);
        let text = uuid_text(entry.0);
        let key = bytes_of(text.as_str());
        let quoted = json_quote(text.as_str());
        let mut frag: Vec<u8> = Vec::new();
        push_bytes(&mut frag, quoted.as_str().as_bytes());
        push_bytes(&mut frag, ":".as_bytes());
        push_decimal(&mut frag, entry.1);
        proof {
            assert(frag@ =~= watermark_fragment(entry.0, entry.1));
            assert(watermark.listing().take(i + 1).drop_last() =~= watermark.listing().take(i as int));
        }
        sorted_insert(&mut v, key, frag, Ghost(watermark_fragments(watermark.listing().take(i as int))));
        i = i + 1;
    }
    proof {
        assert(watermark.listing().take(i as int) =~= watermark.listing());
    }
    v
}

/// Appends the object of the fragments of `v`.
fn push_object(out: &mut Vec<u8>, v: &Vec<(Vec<u8>, Vec<u8>)>)
    ensures
        final(out)@ == old(out)@ + json_object(pair_views(v@)),
{
    push_bytes(out, "{".as_bytes());
    let ghost start = out@;
    let mut i: usize = 0;
    while i < v.len()
        invariant
            i <= v@.len(),
            out@ == start + joined(pair_views(v@).take(i as int)),
        decreases v@.len() - i,
    {
        let ghost before = out@;
        if i > 0 {
            push_bytes(out, ",".as_bytes());
        }
        push_bytes(out, v[i].1.as_slice());
        proof {
            let t = pair_views(v@).take(i + 1);
            assert(t.drop_last() =~= pair_views(v@).take(i as int));
            if i == 0 {
                assert(joined(pair_views(v@).take(0)) =~= Seq::<u8>::empty());
                assert(out@ =~= start + joined(t));
            } else {
                assert(out@ =~= start + joined(t));
            }
        }
        i = i + 1;
    }
    proof {
        assert(pair_views(v@).take(i as int) =~= pair_views(v@));
    }
    push_bytes(out, "}".as_bytes());
    proof {
        assert(final(out)@ =~= old(out)@ + json_object(pair_views(v@)));
    }
}

/// The canonical encoding of a store and its watermarks.
pub fn canonical_bytes(store: &AssocMap<String, KVEntry>, watermark: &AssocMap<u128, u64>) -> (r: Vec<
    u8,
>)
    ensures
        exists|kv: Seq<(Seq<u8>, Seq<u8>)>, wm: Seq<(Seq<u8>, Seq<u8>)>|
            #![trigger canonical_state(kv, wm)]
            key_sorted(kv) && enumerates(kv, kv_fragments(store.listing())) && key_sorted(wm)
                && enumerates(wm, watermark_fragments(watermark.listing())) && r@ == canonical_state(
                kv,
                wm,
            ),
{
    let kv = sorted_kv_fragments(store);
    let wm = sorted_watermark_fragments(watermark);
    let mut out: Vec<u8> = Vec::new();
    push_bytes(&mut out, "{\"kv_store\":".as_bytes());
    push_object(&mut out, &kv);
    push_bytes(&mut out, ",\"client_dedup_watermark\":".as_bytes());
    push_object(&mut out, &wm);
    push_bytes(&mut out, "}".as_bytes());
    proof {
        assert(out@ =~= canonical_state(pair_views(kv@), pair_views(wm@)));
    }
    out
}

/// The checksum of a store and its watermarks: the hexadecimal SHA-256 digest
/// of their canonical encoding.
pub fn checksum_of(store: &AssocMap<String, KVEntry>, watermark: &AssocMap<u128, u64>) -> (r: String)
    ensures
        exists|kv: Seq<(Seq<u8>, Seq<u8>)>, wm: Seq<(Seq<u8>, Seq<u8>)>|
            #![trigger canonical_state(kv, wm)]
            key_sorted(kv) && enumerates(kv, kv_fragments(store.listing())) && key_sorted(wm)
                && enumerates(wm, watermark_fragments(watermark.listing())) && r@ == hex_text(
                sha256_digest(canonical_state(kv, wm)),
            ),
        r@.len() == 64,
{
    let bytes = canonical_bytes(store, watermark);
    let digest = sha256(bytes.as_slice());
    let r = to_hex(digest.as_slice());
    proof {
        lemma_hex_len(digest@);
    }
    r
}

/// Hex text has two characters per byte.
pub proof fn lemma_hex_len(bytes: Seq<u8>)
    ensures
        hex_text(bytes).len() == 2 * bytes.len(),
    decreases bytes.len(),
{
    if bytes.len() > 0 {
        lemma_hex_len(bytes.drop_last());
    }
}

} // verus!
