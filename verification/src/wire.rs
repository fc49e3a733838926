//! The wire format of message payloads, as mathematics.
//!
//! A payload is a sequence of encoded values. Every value is written as one
//! tag byte that names its kind, followed by a body whose layout the kind
//! fixes. Integers are little-endian, signed ones in two's complement;
//! strings are UTF-8 behind a four-byte length; a sequence of strings is a
//! four-byte count followed by the strings, each behind its own length.

use vstd::arithmetic::div_mod::lemma_fundamental_div_mod_converse;
use vstd::prelude::*;
use vstd::utf8::*;

verus! {

/// The kinds of value a payload can carry.
#[derive(Clone, Copy, Debug, PartialEq, Eq, Structural)]
pub enum Kind {
    Bool,
    I32,
    I64,
    U32,
    U64,
    Str,
    Bytes,
    StrVec,
}

/// A value a payload can carry.
pub enum Value {
    Bool(bool),
    I32(i32),
    I64(i64),
    U32(u32),
    U64(u64),
    Str(Seq<char>),
    Bytes(Seq<u8>),
    StrVec(Seq<Seq<char>>),
}

impl Value {
    /// The kind of the value.
    pub open spec fn kind(self) -> Kind {
        match self {
            Value::Bool(_) => Kind::Bool,
            Value::I32(_) => Kind::I32,
            Value::I64(_) => Kind::I64,
            Value::U32(_) => Kind::U32,
            Value::U64(_) => Kind::U64,
            Value::Str(_) => Kind::Str,
            Value::Bytes(_) => Kind::Bytes,
            Value::StrVec(_) => Kind::StrVec,
        }
    }
}

impl Kind {
    /// The byte that announces a value of this kind.
    pub open spec fn spec_tag(self) -> u8 {
        match self {
            Kind::Bool => 1,
            Kind::I32 => 2,
            Kind::I64 => 3,
            Kind::U32 => 4,
            Kind::U64 => 5,
            Kind::Str => 6,
            Kind::Bytes => 7,
            Kind::StrVec => 8,
        }
    }

    /// The byte that announces a value of this kind.
    #[verifier::when_used_as_spec(spec_tag)]
    pub fn tag(self) -> (t: u8)
        ensures
            t == self.spec_tag(),
    {
        match self {
            Kind::Bool => 1,
            Kind::I32 => 2,
            Kind::I64 => 3,
            Kind::U32 => 4,
            Kind::U64 => 5,
            Kind::Str => 6,
            Kind::Bytes => 7,
            Kind::StrVec => 8,
        }
    }

    /// Distinct kinds have distinct tags.
    pub proof fn lemma_tag_injective(self, other: Kind)
        ensures
            self.spec_tag() == other.spec_tag() <==> self == other,
    {
    }
}

// ---------------------------------------------------------------------
// Integers
// ---------------------------------------------------------------------

/// The four bytes of `x`, least significant first.
pub open spec fn u32_le(x: u32) -> Seq<u8> {
    seq![
        (x % 0x100) as u8,
        ((x / 0x100) % 0x100) as u8,
        ((x / 0x1_0000) % 0x100) as u8,
        ((x / 0x100_0000) % 0x100) as u8,
    ]
}

/// The number whose little-endian bytes are the first four of `b`.
pub open spec fn u32_from_le(b: Seq<u8>) -> u32 {
    (b[0] as int + 0x100 * (b[1] as int) + 0x1_0000 * (b[2] as int) + 0x100_0000 * (b[3] as int)) as u32
}

/// The eight bytes of `x`, least significant first.
pub open spec fn u64_le(x: u64) -> Seq<u8> {
    u32_le((x % 0x1_0000_0000) as u32) + u32_le((x / 0x1_0000_0000) as u32)
}

/// The number whose little-endian bytes are the first eight of `b`.
pub open spec fn u64_from_le(b: Seq<u8>) -> u64 {
    (u32_from_le(b) as int + 0x1_0000_0000 * (u32_from_le(b.skip(4)) as int)) as u64
}

/// Two's complement: the unsigned number with the bit pattern of `v`.
pub open spec fn i32_bits(v: i32) -> u32 {
    if v >= 0 {
        v as u32
    } else {
        (v + 0x1_0000_0000) as u32
    }
}

/// Two's complement: the signed number with the bit pattern of `u`.
pub open spec fn i32_of_bits(u: u32) -> i32 {
    if u < 0x8000_0000 {
        u as i32
    } else {
        (u - 0x1_0000_0000) as i32
    }
}

/// Two's complement: the unsigned number with the bit pattern of `v`.
pub open spec fn i64_bits(v: i64) -> u64 {
    if v >= 0 {
        v as u64
    } else {
        (v + 0x1_0000_0000_0000_0000) as u64
    }
}

/// Two's complement: the signed number with the bit pattern of `u`.
pub open spec fn i64_of_bits(u: u64) -> i64 {
    if u < 0x8000_0000_0000_0000 {
        u as i64
    } else {
        (u - 0x1_0000_0000_0000_0000) as i64
    }
}

/// A number is read back from its four bytes, whatever follows them.
pub proof fn lemma_u32_le_round_trip(x: u32, rest: Seq<u8>)
    ensures
        u32_le(x).len() == 4,
        u32_from_le(u32_le(x) + rest) == x,
{
    let b = u32_le(x) + rest;
    assert(b[0] == u32_le(x)[0]);
    assert(b[1] == u32_le(x)[1]);
    assert(b[2] == u32_le(x)[2]);
    assert(b[3] == u32_le(x)[3]);
}

/// A number is read back from its eight bytes, whatever follows them.
pub proof fn lemma_u64_le_round_trip(x: u64, rest: Seq<u8>)
    ensures
        u64_le(x).len() == 8,
        u64_from_le(u64_le(x) + rest) == x,
{
    let lo = (x % 0x1_0000_0000) as u32;
    let hi = (x / 0x1_0000_0000) as u32;
    let b = u64_le(x) + rest;
    lemma_u32_le_round_trip(lo, u32_le(hi) + rest);
    lemma_u32_le_round_trip(hi, rest);
    assert(b =~= u32_le(lo) + (u32_le(hi) + rest));
    assert(b.skip(4) =~= u32_le(hi) + rest);
}

/// A signed number is recovered from its bit pattern.
pub proof fn lemma_i32_bits_round_trip(v: i32)
    ensures
        i32_of_bits(i32_bits(v)) == v,
{
}

/// A signed number is recovered from its bit pattern.
pub proof fn lemma_i64_bits_round_trip(v: i64)
    ensures
        i64_of_bits(i64_bits(v)) == v,
{
}

// ---------------------------------------------------------------------
// Byte strings and text
// ---------------------------------------------------------------------

/// A byte string behind its four-byte length.
pub open spec fn blob(b: Seq<u8>) -> Seq<u8> {
    u32_le(b.len() as u32) + b
}

/// The byte string that stands at the front of `b`, and the number of bytes
/// it occupies there; `None` where `b` is too short for it.
pub open spec fn blob_at(b: Seq<u8>) -> Option<(Seq<u8>, nat)> {
    if b.len() < 4 {
        None
    } else {
        let n = u32_from_le(b) as nat;
        if b.len() < 4 + n {
            None
        } else {
            Some((b.subrange(4, 4 + n as int), 4 + n))
        }
    }
}

/// A string as UTF-8 behind its four-byte length.
pub open spec fn text(s: Seq<char>) -> Seq<u8> {
    blob(encode_utf8(s))
}

/// The string that stands at the front of `b`, and the number of bytes it
/// occupies there; `None` where `b` is too short or the bytes are not UTF-8.
pub open spec fn text_at(b: Seq<u8>) -> Option<(Seq<char>, nat)> {
    match blob_at(b) {
        Some((raw, n)) => if valid_utf8(raw) {
            Some((decode_utf8(raw), n))
        } else {
            None
        },
        None => None,
    }
}

/// Strings one after another, each behind its own length.
pub open spec fn texts(v: Seq<Seq<char>>) -> Seq<u8>
    decreases v.len(),
{
    if v.len() == 0 {
        Seq::empty()
    } else {
        texts(v.drop_last()) + text(v.last())
    }
}

/// The first `count` strings that stand at the front of `b`, and the number
/// of bytes they occupy together.
pub open spec fn texts_at(b: Seq<u8>, count: nat) -> Option<(Seq<Seq<char>>, nat)>
    decreases count,
{
    if count == 0 {
        Some((Seq::empty(), 0))
    } else {
        match texts_at(b, (count - 1) as nat) {
            Some((head, n)) => match text_at(b.skip(n as int)) {
                Some((s, m)) => Some((head.push(s), n + m)),
                None => None,
            },
            None => None,
        }
    }
}

// ---------------------------------------------------------------------
// Values
// ---------------------------------------------------------------------

/// What follows the tag byte of `v`.
pub open spec fn body(v: Value) -> Seq<u8> {
    match v {
        Value::Bool(b) => seq![if b { 1u8 } else { 0u8 }],
        Value::I32(x) => u32_le(i32_bits(x)),
        Value::I64(x) => u64_le(i64_bits(x)),
        Value::U32(x) => u32_le(x),
        Value::U64(x) => u64_le(x),
        Value::Str(s) => text(s),
        Value::Bytes(b) => blob(b),
        Value::StrVec(v) => u32_le(v.len() as u32) + texts(v),
    }
}

/// The bytes that carry `v`: its tag, followed by its body.
#[verifier::opaque]
pub open spec fn encode(v: Value) -> Seq<u8> {
    seq![v.kind().spec_tag()] + body(v)
}

/// The value of kind `k` whose body stands at the front of `b`, and the
/// length of that body.
pub open spec fn body_at(k: Kind, b: Seq<u8>) -> Option<(Value, nat)> {
    match k {
        Kind::Bool => if b.len() >= 1 && b[0] <= 1 {
            Some((Value::Bool(b[0] == 1), 1))
        } else {
            None
        },
        Kind::I32 => if b.len() >= 4 {
            Some((Value::I32(i32_of_bits(u32_from_le(b))), 4))
        } else {
            None
        },
        Kind::I64 => if b.len() >= 8 {
            Some((Value::I64(i64_of_bits(u64_from_le(b))), 8))
        } else {
            None
        },
        Kind::U32 => if b.len() >= 4 {
            Some((Value::U32(u32_from_le(b)), 4))
        } else {
            None
        },
        Kind::U64 => if b.len() >= 8 {
            Some((Value::U64(u64_from_le(b)), 8))
        } else {
            None
        },
        Kind::Str => match text_at(b) {
            Some((s, n)) => Some((Value::Str(s), n)),
            None => None,
        },
        Kind::Bytes => match blob_at(b) {
            Some((raw, n)) => Some((Value::Bytes(raw), n)),
            None => None,
        },
        Kind::StrVec => if b.len() >= 4 {
            match texts_at(b.skip(4), u32_from_le(b) as nat) {
                Some((v, n)) => Some((Value::StrVec(v), 4 + n)),
                None => None,
            }
        } else {
            None
        },
    }
}

/// Reads `b` as a value of kind `k`: the value that stands at its front and
/// the number of bytes the value occupies. `None` where `b` does not start
/// with the tag of `k` or what follows the tag is no body of that kind.
#[verifier::opaque]
pub open spec fn decode(k: Kind, b: Seq<u8>) -> Option<(Value, nat)> {
    if b.len() >= 1 && b[0] == k.spec_tag() {
        match body_at(k, b.skip(1)) {
            Some((v, n)) => Some((v, n + 1)),
            None => None,
        }
    } else {
        None
    }
}

/// The values whose lengths and counts fit in the four-byte length fields.
pub open spec fn encodable(v: Value) -> bool {
    match v {
        Value::Str(s) => encode_utf8(s).len() <= u32::MAX,
        Value::Bytes(b) => b.len() <= u32::MAX,
        Value::StrVec(v) => v.len() <= u32::MAX && forall|i: int|
            0 <= i < v.len() ==> encode_utf8(#[trigger] v[i]).len() <= u32::MAX,
        _ => true,
    }
}

/// A byte string is read back from its encoding, whatever follows it.
pub proof fn lemma_blob_round_trip(b: Seq<u8>, rest: Seq<u8>)
    requires
        b.len() <= u32::MAX,
    ensures
        blob(b).len() == 4 + b.len(),
        blob_at(blob(b) + rest) == Some((b, 4 + b.len())),
{
    let n = b.len() as u32;
    let all = blob(b) + rest;
    lemma_u32_le_round_trip(n, b + rest);
    assert(all =~= u32_le(n) + (b + rest));
    assert(all.subrange(4, 4 + n as int) =~= b);
}

/// A string is read back from its encoding, whatever follows it.
pub proof fn lemma_text_round_trip(s: Seq<char>, rest: Seq<u8>)
    requires
        encode_utf8(s).len() <= u32::MAX,
    ensures
        text(s).len() == 4 + encode_utf8(s).len(),
        text_at(text(s) + rest) == Some((s, 4 + encode_utf8(s).len())),
{
    lemma_blob_round_trip(encode_utf8(s), rest);
    encode_utf8_valid_utf8(s);
    encode_utf8_decode_utf8(s);
}

/// What `texts_at` finds never reaches past the end of the bytes.
pub proof fn lemma_texts_at_bound(b: Seq<u8>, count: nat)
    ensures
        texts_at(b, count) matches Some((v, n)) ==> v.len() == count && n <= b.len(),
    decreases count,
{
    if count > 0 {
        lemma_texts_at_bound(b, (count - 1) as nat);
    }
}

/// A list of strings is read back from its encoding, whatever follows it.
pub proof fn lemma_texts_round_trip(v: Seq<Seq<char>>, rest: Seq<u8>)
    requires
        forall|i: int| 0 <= i < v.len() ==> encode_utf8(#[trigger] v[i]).len() <= u32::MAX,
    ensures
        texts_at(texts(v) + rest, v.len()) == Some((v, texts(v).len())),
    decreases v.len(),
{
    if v.len() > 0 {
        let head = v.drop_last();
        let last = v.last();
        let tail = text(last) + rest;
        lemma_texts_round_trip(head, tail);
        assert(texts(v) + rest =~= texts(head) + tail);
        assert((texts(v) + rest).skip(texts(head).len() as int) =~= tail);
        lemma_text_round_trip(last, rest);
        assert(head.push(last) =~= v);
    }
}

/// Reading back what was written. A value that is written and read as its
/// own kind comes back unchanged, whatever follows it, and the read stops
/// where the value ends.
pub proof fn lemma_round_trip(v: Value, rest: Seq<u8>)
    requires
        encodable(v),
    ensures
        decode(v.kind(), encode(v) + rest) == Some((v, encode(v).len())),
{
    reveal(encode);
    reveal(decode);
    let all = encode(v) + rest;
    assert(all.skip(1) =~= body(v) + rest);
    match v {
        Value::Bool(b) => {
            assert((body(v) + rest)[0] == body(v)[0]);
        },
        Value::I32(x) => {
            lemma_u32_le_round_trip(i32_bits(x), rest);
            lemma_i32_bits_round_trip(x);
        },
        Value::I64(x) => {
            lemma_u64_le_round_trip(i64_bits(x), rest);
            lemma_i64_bits_round_trip(x);
        },
        Value::U32(x) => {
            lemma_u32_le_round_trip(x, rest);
        },
        Value::U64(x) => {
            lemma_u64_le_round_trip(x, rest);
        },
        Value::Str(s) => {
            lemma_text_round_trip(s, rest);
        },
        Value::Bytes(b) => {
            lemma_blob_round_trip(b, rest);
        },
        Value::StrVec(items) => {
            let n = items.len() as u32;
            lemma_u32_le_round_trip(n, texts(items) + rest);
            assert(body(v) + rest =~= u32_le(n) + (texts(items) + rest));
            assert((body(v) + rest).skip(4) =~= texts(items) + rest);
            lemma_texts_round_trip(items, rest);
        },
    }
}

/// A value is never taken for one of another kind.
pub proof fn lemma_kind_mismatch(v: Value, k: Kind, rest: Seq<u8>)
    requires
        k != v.kind(),
    ensures
        decode(k, encode(v) + rest) is None,
{
    reveal(encode);
    reveal(decode);
    assert((encode(v) + rest)[0] == v.kind().spec_tag());
}

/// What `decode` finds is of the kind asked for and lies within the bytes.
pub proof fn lemma_decode_bound(k: Kind, b: Seq<u8>)
    ensures
        decode(k, b) matches Some((v, n)) ==> v.kind() == k && 1 <= n <= b.len(),
{
    reveal(encode);
    reveal(decode);
    if b.len() >= 1 && k == Kind::StrVec && b.len() >= 5 {
        lemma_texts_at_bound(b.skip(1).skip(4), u32_from_le(b.skip(1)) as nat);
    }
}

/// The strings of `v` as sequences of characters.
pub open spec fn strings_view(v: Seq<String>) -> Seq<Seq<char>> {
    v.map_values(|s: String| s@)
}

/// A string occupies its length field and its UTF-8 bytes.
pub proof fn lemma_text_len(s: Seq<char>)
    ensures
        text(s).len() == 4 + encode_utf8(s).len(),
{
}

/// Appending a string to a sequence appends its encoding.
pub proof fn lemma_texts_push(v: Seq<Seq<char>>, s: Seq<char>)
    ensures
        texts(v.push(s)) == texts(v) + text(s),
{
    assert(v.push(s).drop_last() =~= v);
}

/// The encoding of a prefix is no longer than that of the whole sequence.
pub proof fn lemma_texts_take_len(v: Seq<Seq<char>>, i: int)
    requires
        0 <= i <= v.len(),
    ensures
        texts(v.take(i)).len() <= texts(v).len(),
    decreases v.len(),
{
    if i == v.len() {
        assert(v.take(i) =~= v);
    } else {
        assert(v.take(i) =~= v.drop_last().take(i));
        lemma_texts_take_len(v.drop_last(), i);
    }
}

/// Every string takes at least its four-byte length field.
pub proof fn lemma_texts_min_len(v: Seq<Seq<char>>)
    ensures
        texts(v).len() >= 4 * v.len(),
    decreases v.len(),
{
    if v.len() > 0 {
        lemma_texts_min_len(v.drop_last());
    }
}

/// Where the first `i` strings cannot be read, no larger number of them can.
pub proof fn lemma_texts_at_fails(b: Seq<u8>, i: nat, count: nat)
    requires
        i <= count,
        texts_at(b, i) is None,
    ensures
        texts_at(b, count) is None,
    decreases count,
{
    if i < count {
        lemma_texts_at_fails(b, i, (count - 1) as nat);
    }
}

/// Every string of a sequence lies within the encoding of the sequence.
pub proof fn lemma_texts_elem_len(v: Seq<Seq<char>>, i: int)
    requires
        0 <= i < v.len(),
    ensures
        4 + encode_utf8(v[i]).len() <= texts(v).len(),
    decreases v.len(),
{
    if i < v.len() - 1 {
        lemma_texts_elem_len(v.drop_last(), i);
    }
}

/// A value whose encoding fits in a four-byte length is encodable.
pub proof fn lemma_short_is_encodable(v: Value)
    requires
        encode(v).len() <= u32::MAX,
    ensures
        encodable(v),
{
    reveal(encode);
    reveal(decode);
    match v {
        Value::StrVec(items) => {
            lemma_texts_min_len(items);
            assert forall|i: int| 0 <= i < items.len() implies encode_utf8(
                #[trigger] items[i],
            ).len() <= u32::MAX by {
                lemma_texts_elem_len(items, i);
            }
        },
        _ => {},
    }
}

/// The bytes of a number are the bytes it was read from.
pub proof fn lemma_u32_from_le_round_trip(b: Seq<u8>)
    requires
        b.len() >= 4,
    ensures
        u32_le(u32_from_le(b)) == b.take(4),
{
    let b0 = b[0] as int;
    let b1 = b[1] as int;
    let b2 = b[2] as int;
    let b3 = b[3] as int;
    let x = b0 + 0x100 * b1 + 0x1_0000 * b2 + 0x100_0000 * b3;
    assert(u32_from_le(b) == x);
    lemma_fundamental_div_mod_converse(x, 0x100, b1 + 0x100 * b2 + 0x1_0000 * b3, b0);
    lemma_fundamental_div_mod_converse(x, 0x1_0000, b2 + 0x100 * b3, b0 + 0x100 * b1);
    lemma_fundamental_div_mod_converse(x, 0x100_0000, b3, b0 + 0x100 * b1 + 0x1_0000 * b2);
    lemma_fundamental_div_mod_converse(b1 + 0x100 * b2 + 0x1_0000 * b3, 0x100, b2 + 0x100 * b3, b1);
    lemma_fundamental_div_mod_converse(b2 + 0x100 * b3, 0x100, b3, b2);
    let y = u32_le(u32_from_le(b));
    assert(y[0] == b[0]);
    assert(y[1] == b[1]);
    assert(y[2] == b[2]);
    assert(y[3] == b[3]);
    assert(y =~= b.take(4));
}

/// The bytes of a number are the bytes it was read from.
pub proof fn lemma_u64_from_le_round_trip(b: Seq<u8>)
    requires
        b.len() >= 8,
    ensures
        u64_le(u64_from_le(b)) == b.take(8),
{
    let lo = u32_from_le(b);
    let hi = u32_from_le(b.skip(4));
    let x = u64_from_le(b);
    lemma_u32_from_le_round_trip(b);
    lemma_u32_from_le_round_trip(b.skip(4));
    assert((x % 0x1_0000_0000) as u32 == lo);
    assert((x / 0x1_0000_0000) as u32 == hi);
    assert(u64_le(x) =~= b.take(8));
}

/// What `texts_at` finds is what was written: the strings it returns
/// encode to the very bytes it consumed.
pub proof fn lemma_texts_at_canonical(b: Seq<u8>, count: nat)
    ensures
        texts_at(b, count) matches Some((v, n)) ==> v.len() == count && n <= b.len() && texts(v)
            == b.take(n as int) && (forall|i: int|
            0 <= i < v.len() ==> encode_utf8(#[trigger] v[i]).len() <= u32::MAX),
    decreases count,
{
    if count > 0 {
        lemma_texts_at_canonical(b, (count - 1) as nat);
        if let Some((head, n)) = texts_at(b, (count - 1) as nat) {
            let rest = b.skip(n as int);
            if let Some((s, m)) = text_at(rest) {
                let raw = rest.subrange(4, m as int);
                decode_utf8_encode_utf8(raw);
                lemma_u32_from_le_round_trip(rest);
                let v = head.push(s);
                assert(v.drop_last() =~= head);
                assert(text(s) =~= rest.take(m as int));
                assert(texts(v) =~= b.take((n + m) as int));
                assert forall|i: int| 0 <= i < v.len() implies encode_utf8(#[trigger] v[i]).len()
                    <= u32::MAX by {
                    if i < head.len() {
                        assert(v[i] == head[i]);
                    }
                }
            }
        }
    } else {
        assert(texts(Seq::<Seq<char>>::empty()) =~= b.take(0));
    }
}

/// Reading is the inverse of writing in the other direction too: what
/// `decode` finds encodes to the very bytes it consumed. No two different
/// runs of bytes are read as the same value, and nothing is read that no
/// writer could have written.
pub proof fn lemma_decode_canonical(k: Kind, b: Seq<u8>)
    ensures
        decode(k, b) matches Some((v, n)) ==> v.kind() == k && n <= b.len() && encodable(v)
            && encode(v) == b.take(n as int),
{
    reveal(encode);
    reveal(decode);
    if let Some((v, n)) = decode(k, b) {
        let body = b.skip(1);
        match k {
            Kind::Bool => {
                assert(encode(v) =~= b.take(n as int));
            },
            Kind::I32 => {
                lemma_u32_from_le_round_trip(body);
                assert(encode(v) =~= b.take(n as int));
            },
            Kind::I64 => {
                lemma_u64_from_le_round_trip(body);
                assert(encode(v) =~= b.take(n as int));
            },
            Kind::U32 => {
                lemma_u32_from_le_round_trip(body);
                assert(encode(v) =~= b.take(n as int));
            },
            Kind::U64 => {
                lemma_u64_from_le_round_trip(body);
                assert(encode(v) =~= b.take(n as int));
            },
            Kind::Str => {
                let raw = body.subrange(4, n - 1);
                decode_utf8_encode_utf8(raw);
                lemma_u32_from_le_round_trip(body);
                assert(encode(v) =~= b.take(n as int));
            },
            Kind::Bytes => {
                lemma_u32_from_le_round_trip(body);
                assert(encode(v) =~= b.take(n as int));
            },
            Kind::StrVec => {
                let count = u32_from_le(body) as nat;
                lemma_texts_at_canonical(body.skip(4), count);
                lemma_u32_from_le_round_trip(body);
                assert(encode(v) =~= b.take(n as int));
            },
        }
    }
}

/// A read looks at nothing beyond the value it returns: with the same
/// bytes up to the end of the value and anything after them, the read
/// returns the same.
pub proof fn lemma_decode_prefix(k: Kind, b: Seq<u8>, rest: Seq<u8>)
    ensures
        decode(k, b) matches Some((v, n)) ==> decode(k, b.take(n as int) + rest) == Some((v, n)),
{
    lemma_decode_canonical(k, b);
    if let Some((v, n)) = decode(k, b) {
        lemma_round_trip(v, rest);
    }
}

/// Different values have different encodings.
pub proof fn lemma_encode_injective(a: Value, b: Value)
    requires
        encodable(a),
        encodable(b),
        encode(a) == encode(b),
    ensures
        a == b,
{
    lemma_round_trip(a, Seq::empty());
    lemma_round_trip(b, Seq::empty());
    assert(a.kind() == b.kind()) by {
        reveal(encode);
        assert(encode(a)[0] == a.kind().spec_tag());
        assert(encode(b)[0] == b.kind().spec_tag());
    }
}

} // verus!
