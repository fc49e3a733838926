//! Message payloads: an ordered byte buffer with a read cursor and a write
//! cursor that move independently.
//!
//! Writing appends the encoding of a value at the write cursor, which is the
//! end of the buffer. Reading consumes the value that stands at the read
//! cursor, provided it is of the kind asked for. A read that fails leaves
//! the payload as it was.

use vstd::prelude::*;
use vstd::slice::{slice_subrange, slice_to_vec};
use vstd::utf8::*;
use crate::status::{IpcError, IpcResult};
use crate::wire::{
    decode, encode, i32_bits, i32_of_bits, i64_bits, i64_of_bits, lemma_decode_bound,
    lemma_kind_mismatch, lemma_round_trip, lemma_short_is_encodable, lemma_text_len,
    lemma_texts_at_fails, lemma_texts_min_len, lemma_texts_push, lemma_texts_take_len,
    strings_view, text_at, texts, texts_at, u32_from_le, u32_le, u64_from_le, u64_le, Kind, Value,
};

verus! {

/// The number of bytes a payload may hold.
pub const MAX_CAPACITY: usize = 204800;

/// A payload as mathematics: the bytes written so far and the position of
/// the read cursor among them.
pub struct ParcelView {
    pub bytes: Seq<u8>,
    pub read_pos: nat,
}

impl ParcelView {
    /// The payload that holds nothing.
    pub open spec fn empty() -> ParcelView {
        ParcelView { bytes: Seq::empty(), read_pos: 0 }
    }

    /// The bytes from the read cursor to the write cursor.
    pub open spec fn unread(self) -> Seq<u8> {
        self.bytes.skip(self.read_pos as int)
    }

    /// Whether the capacity allows the encoding of `v` after what is held.
    pub open spec fn fits(self, v: Value) -> bool {
        self.bytes.len() + encode(v).len() <= MAX_CAPACITY
    }

    /// The payload after `v` was written.
    pub open spec fn written(self, v: Value) -> ParcelView {
        ParcelView { bytes: self.bytes + encode(v), read_pos: self.read_pos }
    }

    /// The value of kind `k` at the read cursor and the payload after it was
    /// consumed; `None` where no value of that kind stands there.
    pub open spec fn read(self, k: Kind) -> Option<(Value, ParcelView)> {
        match decode(k, self.unread()) {
            Some((v, n)) => Some(
                (v, ParcelView { bytes: self.bytes, read_pos: self.read_pos + n }),
            ),
            None => None,
        }
    }

    /// The payload with its read cursor at `pos`.
    pub open spec fn at(self, pos: nat) -> ParcelView {
        ParcelView { bytes: self.bytes, read_pos: pos }
    }
}

/// What a write of `v` does: where the capacity allows the value it is
/// appended and the read cursor stays; otherwise nothing changes and the
/// write reports `CapacityExceeded`.
pub open spec fn write_outcome(
    pre: ParcelView,
    post: ParcelView,
    v: Value,
    r: Result<(), IpcError>,
) -> bool {
    if pre.fits(v) {
        r == Ok::<(), IpcError>(()) && post == pre.written(v)
    } else {
        r == Err::<(), IpcError>(IpcError::CapacityExceeded) && post == pre
    }
}

/// What appending the encoding `enc` does: where the capacity allows it the
/// bytes are appended and the read cursor stays; otherwise nothing changes
/// and the write reports `CapacityExceeded`.
pub open spec fn append_outcome(
    pre: ParcelView,
    post: ParcelView,
    enc: Seq<u8>,
    r: Result<(), IpcError>,
) -> bool {
    if pre.bytes.len() + enc.len() <= MAX_CAPACITY {
        r == Ok::<(), IpcError>(()) && post == (ParcelView {
            bytes: pre.bytes + enc,
            read_pos: pre.read_pos,
        })
    } else {
        r == Err::<(), IpcError>(IpcError::CapacityExceeded) && post == pre
    }
}

/// What reading a composite value does, given what stands at the read
/// cursor (`found`: the value and the bytes it occupies): the value is
/// returned and the cursor moves past it; where nothing was found, nothing
/// changes and the read reports `DecodeError`.
pub open spec fn take_outcome<T>(
    pre: ParcelView,
    post: ParcelView,
    found: Option<(T, nat)>,
    r: Result<T, IpcError>,
) -> bool {
    match found {
        Some((v, n)) => r == Ok::<T, IpcError>(v) && post == pre.at(pre.read_pos + n),
        None => r == Err::<T, IpcError>(IpcError::DecodeError) && post == pre,
    }
}

/// What a read of kind `k` does: where a value of that kind stands at the
/// read cursor it is returned and the cursor moves past it; otherwise
/// nothing changes and the read reports `DecodeError`.
pub open spec fn read_outcome(
    pre: ParcelView,
    post: ParcelView,
    k: Kind,
    r: Result<Value, IpcError>,
) -> bool {
    match pre.read(k) {
        Some((v, next)) => r == Ok::<Value, IpcError>(v) && post == next,
        None => r == Err::<Value, IpcError>(IpcError::DecodeError) && post == pre,
    }
}

/// Round trip. On a payload whose earlier values have all been read, a
/// value that is written and read as its own kind comes back exactly, and
/// the read leaves nothing unread.
pub proof fn lemma_write_read_round_trip(p: ParcelView, v: Value)
    requires
        p.read_pos == p.bytes.len(),
        p.fits(v),
    ensures
        p.written(v).read(v.kind()) == Some((v, p.written(v).at(p.written(v).bytes.len()))),
{
    lemma_short_is_encodable(v);
    lemma_round_trip(v, Seq::empty());
    assert(p.written(v).unread() =~= encode(v) + Seq::<u8>::empty());
}

/// Values come back in the order in which they were written: after `a` and
/// `b` were written, a read of the kind of `a` returns `a` and leaves `b`
/// to be read next, and the read of the kind of `b` that follows returns `b`.
pub proof fn lemma_read_in_order(p: ParcelView, a: Value, b: Value)
    requires
        p.read_pos == p.bytes.len(),
        p.fits(a),
        p.written(a).fits(b),
    ensures
        ({
            &&& p.written(a).written(b).read(a.kind()) matches Some((got, next))
            &&& got == a
            &&& next.read(b.kind()) matches Some((second, last))
            &&& second == b
            &&& last.unread().len() == 0
        }),
{
    lemma_short_is_encodable(a);
    lemma_short_is_encodable(b);
    lemma_round_trip(a, encode(b));
    lemma_round_trip(b, Seq::empty());
    let both = p.written(a).written(b);
    assert(both.unread() =~= encode(a) + encode(b));
    let next = both.at(p.bytes.len() + encode(a).len());
    assert(next.unread() =~= encode(b) + Seq::<u8>::empty());
}

/// Order sensitivity. After `a` and `b` of different kinds were written, a
/// read that asks for the kind of `b` first finds no such value: it fails
/// and cannot take the bytes of `a` for a value of the other kind.
pub proof fn lemma_order_sensitive(p: ParcelView, a: Value, b: Value)
    requires
        p.read_pos == p.bytes.len(),
        a.kind() != b.kind(),
    ensures
        p.written(a).written(b).read(b.kind()) is None,
        forall|post: ParcelView, r: Result<Value, IpcError>|
            read_outcome(p.written(a).written(b), post, b.kind(), r) ==> r == Err::<
                Value,
                IpcError,
            >(IpcError::DecodeError) && post == p.written(a).written(b),
{
    lemma_kind_mismatch(a, b.kind(), encode(b));
    assert(p.written(a).written(b).unread() =~= encode(a) + encode(b));
}

/// A successful read moves the cursor past the value and nowhere else: what
/// was unread after the value is unread still, and the bytes are the same.
pub proof fn lemma_read_advances(p: ParcelView, k: Kind)
    requires
        p.read_pos <= p.bytes.len(),
    ensures
        p.read(k) matches Some((v, next)) ==> decode(k, p.unread()) matches Some((w, n)) && v == w
            && v.kind() == k && next == p.at(p.read_pos + n) && next.read_pos <= p.bytes.len()
            && next.unread() == p.unread().skip(n as int),
{
    lemma_decode_bound(k, p.unread());
    if let Some((v, n)) = decode(k, p.unread()) {
        assert(p.at(p.read_pos + n).unread() =~= p.unread().skip(n as int));
    }
}

/// Moving the cursor forward within the bytes skips that many unread bytes.
pub proof fn lemma_at_unread(p: ParcelView, n: nat)
    requires
        p.read_pos + n <= p.bytes.len(),
    ensures
        p.at(p.read_pos + n).unread() == p.unread().skip(n as int),
{
    assert(p.at(p.read_pos + n).unread() =~= p.unread().skip(n as int));
}

/// The result of a read as a result that holds a value.
pub open spec fn lift_bool(r: Result<bool, IpcError>) -> Result<Value, IpcError> {
    match r {
        Ok(x) => Ok(Value::Bool(x)),
        Err(e) => Err(e),
    }
}

/// The result of a read as a result that holds a value.
pub open spec fn lift_i32(r: Result<i32, IpcError>) -> Result<Value, IpcError> {
    match r {
        Ok(x) => Ok(Value::I32(x)),
        Err(e) => Err(e),
    }
}

/// The result of a read as a result that holds a value.
pub open spec fn lift_i64(r: Result<i64, IpcError>) -> Result<Value, IpcError> {
    match r {
        Ok(x) => Ok(Value::I64(x)),
        Err(e) => Err(e),
    }
}

/// The result of a read as a result that holds a value.
pub open spec fn lift_u32(r: Result<u32, IpcError>) -> Result<Value, IpcError> {
    match r {
        Ok(x) => Ok(Value::U32(x)),
        Err(e) => Err(e),
    }
}

/// The result of a read as a result that holds a value.
pub open spec fn lift_u64(r: Result<u64, IpcError>) -> Result<Value, IpcError> {
    match r {
        Ok(x) => Ok(Value::U64(x)),
        Err(e) => Err(e),
    }
}

/// The result of a read as a result that holds a value.
pub open spec fn lift_string(r: Result<String, IpcError>) -> Result<Value, IpcError> {
    match r {
        Ok(x) => Ok(Value::Str(x@)),
        Err(e) => Err(e),
    }
}

/// The result of a read as a result that holds a value.
pub open spec fn lift_bytes(r: Result<Vec<u8>, IpcError>) -> Result<Value, IpcError> {
    match r {
        Ok(x) => Ok(Value::Bytes(x@)),
        Err(e) => Err(e),
    }
}

/// The result of a read as a result that holds a value.
pub open spec fn lift_string_vec(r: Result<Vec<String>, IpcError>) -> Result<Value, IpcError> {
    match r {
        Ok(x) => Ok(Value::StrVec(strings_view(x@))),
        Err(e) => Err(e),
    }
}

/// `String::from_utf8` of std. The contract claims what its documentation
/// says: the conversion succeeds exactly on well-formed UTF-8, and the
/// string it gives consists of the very bytes handed in.
#[verifier::external_body]
fn string_from_utf8(raw: Vec<u8>) -> (r: Option<String>)
    ensures
        r is Some <==> valid_utf8(raw@),
        r matches Some(s) ==> encode_utf8(s@) == raw@,
{
    match String::from_utf8(raw) {
        Ok(s) => Some(s),
        Err(_) => None,
    }
}

fn put_u32(out: &mut Vec<u8>, x: u32)
    ensures
        final(out)@ == old(out)@ + u32_le(x),
{
    out.push((x % 0x100) as u8);
    out.push(((x / 0x100) % 0x100) as u8);
    out.push(((x / 0x1_0000) % 0x100) as u8);
    out.push(((x / 0x100_0000) % 0x100) as u8);
    assert(out@ =~= old(out)@ + u32_le(x));
}

fn put_u64(out: &mut Vec<u8>, x: u64)
    ensures
        final(out)@ == old(out)@ + u64_le(x),
{
    put_u32(out, (x % 0x1_0000_0000) as u32);
    put_u32(out, (x / 0x1_0000_0000) as u32);
    assert(out@ =~= old(out)@ + u64_le(x));
}

fn put_all(out: &mut Vec<u8>, src: &[u8])
    ensures
        final(out)@ == old(out)@ + src@,
{
    let mut i: usize = 0;
    while i < src.len()
        invariant
            i <= src@.len(),
            out@ == old(out)@ + src@.take(i as int),
        decreases src@.len() - i,
    {
        out.push(src[i]);
        i = i + 1;
        assert(out@ =~= old(out)@ + src@.take(i as int));
    }
    assert(src@.take(i as int) =~= src@);
}

fn get_u32(data: &Vec<u8>, at: usize) -> (x: u32)
    requires
        at + 4 <= data.len(),
    ensures
        x == u32_from_le(data@.skip(at as int)),
{
    let b0: u32 = data[at] as u32;
    let b1: u32 = data[at + 1] as u32;
    let b2: u32 = data[at + 2] as u32;
    let b3: u32 = data[at + 3] as u32;
    b0 + 0x100 * b1 + 0x1_0000 * b2 + 0x100_0000 * b3
}

fn get_u64(data: &Vec<u8>, at: usize) -> (x: u64)
    requires
        at + 8 <= data.len(),
    ensures
        x == u64_from_le(data@.skip(at as int)),
{
    let lo: u64 = get_u32(data, at) as u64;
    let hi: u64 = get_u32(data, at + 4) as u64;
    assert(data@.skip(at as int).skip(4) =~= data@.skip(at + 4));
    lo + 0x1_0000_0000 * hi
}

fn bits_of_i32(v: i32) -> (u: u32)
    ensures
        u == i32_bits(v),
{
    if v >= 0 {
        v as u32
    } else {
        ((v - i32::MIN) as u32) + 0x8000_0000
    }
}

fn i32_from_bits(u: u32) -> (v: i32)
    ensures
        v == i32_of_bits(u),
{
    if u < 0x8000_0000 {
        u as i32
    } else {
        ((u - 0x8000_0000) as i32) + i32::MIN
    }
}

fn bits_of_i64(v: i64) -> (u: u64)
    ensures
        u == i64_bits(v),
{
    if v >= 0 {
        v as u64
    } else {
        ((v - i64::MIN) as u64) + 0x8000_0000_0000_0000
    }
}

fn i64_from_bits(u: u64) -> (v: i64)
    ensures
        v == i64_of_bits(u),
{
    if u < 0x8000_0000_0000_0000 {
        u as i64
    } else {
        ((u - 0x8000_0000_0000_0000) as i64) + i64::MIN
    }
}

/// The strings of `v` one after another, each behind its length, unless
/// they take more than the capacity of a payload.
fn pack_texts(v: &Vec<String>) -> (r: Option<Vec<u8>>)
    ensures
        match r {
            Some(b) => b@ == texts(strings_view(v@)) && b.len() <= MAX_CAPACITY,
            None => texts(strings_view(v@)).len() > MAX_CAPACITY,
        },
{
    let ghost items = strings_view(v@);
    let mut out: Vec<u8> = Vec::new();
    let mut i: usize = 0;
    assert(items.take(0) =~= Seq::<Seq<char>>::empty());
    while i < v.len()
        invariant
            i <= v@.len(),
            items == strings_view(v@),
            out@ == texts(items.take(i as int)),
            out.len() <= MAX_CAPACITY,
        decreases v@.len() - i,
    {
        let raw = v[i].as_str().as_bytes();
        proof {
            lemma_text_len(items[i as int]);
            assert(items.take(i + 1) =~= items.take(i as int).push(items[i as int]));
            lemma_texts_push(items.take(i as int), items[i as int]);
            lemma_texts_take_len(items, i + 1);
        }
        if raw.len() > MAX_CAPACITY || out.len() + 4 > MAX_CAPACITY - raw.len() {
            return None;
        }
        put_u32(&mut out, raw.len() as u32);
        put_all(&mut out, raw);
        i = i + 1;
        assert(out@ =~= texts(items.take(i as int)));
    }
    assert(items.take(i as int) =~= items);
    Some(out)
}

/// A message payload.
pub struct MsgParcel {
    data: Vec<u8>,
    read_pos: usize,
}

impl View for MsgParcel {
    type V = ParcelView;

    closed spec fn view(&self) -> ParcelView {
        ParcelView {
            bytes: self.data@,
            read_pos: if self.read_pos <= self.data@.len() {
                self.read_pos as nat
            } else {
                self.data@.len()
            },
        }
    }
}

impl MsgParcel {
    /// The read cursor never passes the write cursor.
    pub proof fn lemma_cursor_bound(&self)
        ensures
            self@.read_pos <= self@.bytes.len(),
    {
    }

    /// A payload that holds nothing.
    pub fn new() -> (p: MsgParcel)
        ensures
            p@ == ParcelView::empty(),
    {
        MsgParcel { data: Vec::new(), read_pos: 0 }
    }

    /// A payload that holds `bytes`, none of them read.
    pub fn from_bytes(bytes: Vec<u8>) -> (p: MsgParcel)
        ensures
            p@ == (ParcelView { bytes: bytes@, read_pos: 0 }),
    {
        MsgParcel { data: bytes, read_pos: 0 }
    }

    /// A copy of the bytes written so far.
    pub fn to_bytes(&self) -> (bytes: Vec<u8>)
        ensures
            bytes@ == self@.bytes,
    {
        slice_to_vec(self.data.as_slice())
    }

    /// A payload with the same bytes and the same cursors.
    pub fn duplicate(&self) -> (p: MsgParcel)
        ensures
            p@ == self@,
    {
        MsgParcel { data: slice_to_vec(self.data.as_slice()), read_pos: self.read_pos }
    }

    /// The position of the write cursor: the number of bytes written.
    pub fn len(&self) -> (n: usize)
        ensures
            n == self@.bytes.len(),
    {
        self.data.len()
    }

    /// Whether nothing has been written.
    pub fn is_empty(&self) -> (b: bool)
        ensures
            b == (self@.bytes.len() == 0),
    {
        self.data.len() == 0
    }

    /// The position of the read cursor.
    pub fn read_position(&self) -> (pos: usize)
        ensures
            pos == self@.read_pos,
            pos <= self@.bytes.len(),
    {
        if self.read_pos <= self.data.len() {
            self.read_pos
        } else {
            self.data.len()
        }
    }

    /// The number of bytes between the read cursor and the write cursor.
    pub fn readable_bytes(&self) -> (n: usize)
        ensures
            n == self@.unread().len(),
    {
        self.data.len() - self.read_position()
    }

    /// Moves the read cursor to `pos`, which must not lie past the write cursor.
    pub fn set_read_position(&mut self, pos: usize) -> (ok: bool)
        ensures
            ok == (pos <= old(self)@.bytes.len()),
            ok ==> final(self)@ == old(self)@.at(pos as nat),
            !ok ==> final(self)@ == old(self)@,
    {
        if pos <= self.data.len() {
            self.read_pos = pos;
            true
        } else {
            false
        }
    }

    /// Moves the read cursor back to the first byte.
    pub fn rewind(&mut self)
        ensures
            final(self)@ == old(self)@.at(0),
    {
        self.read_pos = 0;
    }

    /// Appends `scratch` where the capacity allows it.
    fn append(&mut self, scratch: &Vec<u8>) -> (r: IpcResult<()>)
        ensures
            old(self)@.bytes.len() + scratch@.len() <= MAX_CAPACITY ==> r == Ok::<(), IpcError>(())
                && final(self)@ == (
            ParcelView { bytes: old(self)@.bytes + scratch@, read_pos: old(self)@.read_pos }),
            old(self)@.bytes.len() + scratch@.len() > MAX_CAPACITY ==> r == Err::<(), IpcError>(
                IpcError::CapacityExceeded,
            ) && final(self)@ == old(self)@,
    {
        if scratch.len() > MAX_CAPACITY || self.data.len() > MAX_CAPACITY - scratch.len() {
            return Err(IpcError::CapacityExceeded);
        }
        let at: usize = self.read_position();
        self.read_pos = at;
        put_all(&mut self.data, scratch.as_slice());
        Ok(())
    }

    /// Appends all bytes of `other`, whatever its cursors, where the
    /// capacity allows them.
    pub fn append_parcel(&mut self, other: &MsgParcel) -> (r: IpcResult<()>)
        ensures
            append_outcome(old(self)@, final(self)@, other@.bytes, r),
    {
        self.append(&other.data)
    }

    /// Where a value of kind `k` with at least `min` body bytes may stand
    /// at the read cursor, the position of the cursor.
    fn starts(&self, k: Kind, min: usize) -> (r: Option<usize>)
        requires
            min <= 8,
        ensures
            r is Some <==> self@.unread().len() >= 1 + min && self@.unread()[0] == k.spec_tag(),
            r matches Some(at) ==> at == self@.read_pos && at + 1 + min <= self.data.len()
                && self@.unread().skip(1) == self.data@.skip(at + 1),
    {
        proof {
            reveal(encode);
            reveal(decode);
        }
        let at: usize = self.read_position();
        if self.data.len() - at >= 1 + min && self.data[at] == k.tag() {
            assert(self@.unread().skip(1) =~= self.data@.skip(at + 1));
            Some(at)
        } else {
            None
        }
    }

    /// The string that stands at offset `at`, and the bytes it occupies.
    fn text_from(&self, at: usize) -> (r: Option<(String, usize)>)
        requires
            at <= self.data.len(),
        ensures
            match text_at(self.data@.skip(at as int)) {
                Some((s, n)) => r matches Some((got, used)) && got@ == s && used == n && at + n
                    <= self.data.len(),
                None => r is None,
            },
    {
        let len: usize = self.data.len();
        if len - at < 4 {
            return None;
        }
        let n: usize = get_u32(&self.data, at) as usize;
        if len - at - 4 < n {
            return None;
        }
        let raw = slice_to_vec(slice_subrange(self.data.as_slice(), at + 4, at + 4 + n));
        assert(raw@ =~= self.data@.skip(at as int).subrange(4, 4 + n as int));
        match string_from_utf8(raw) {
            Some(s) => {
                proof {
                    encode_utf8_decode_utf8(s@);
                }
                Some((s, 4 + n))
            },
            None => None,
        }
    }

    /// The `count` strings that stand one after another from offset
    /// `base`, and the bytes they occupy together.
    fn texts_from(&self, base: usize, count: u32) -> (r: Option<(Vec<String>, usize)>)
        requires
            base <= self.data.len(),
        ensures
            match texts_at(self.data@.skip(base as int), count as nat) {
                Some((items, n)) => r matches Some((got, used)) && strings_view(got@) == items
                    && used == n && base + n <= self.data.len(),
                None => r is None,
            },
    {
        let ghost body = self.data@.skip(base as int);
        let mut out: Vec<String> = Vec::new();
        let mut used: usize = 0;
        let mut i: u32 = 0;
        assert(strings_view(out@) =~= Seq::<Seq<char>>::empty());
        while i < count
            invariant
                i <= count,
                base + used <= self.data.len(),
                body == self.data@.skip(base as int),
                texts_at(body, i as nat) == Some((strings_view(out@), used as nat)),
            decreases count - i,
        {
            assert(body.skip(used as int) =~= self.data@.skip(base + used));
            match self.text_from(base + used) {
                Some((s, n)) => {
                    let ghost before = strings_view(out@);
                    out.push(s);
                    assert(strings_view(out@) =~= before.push(s@));
                    used = used + n;
                    i = i + 1;
                },
                None => {
                    proof {
                        assert(texts_at(body, (i + 1) as nat) is None);
                        lemma_texts_at_fails(body, (i + 1) as nat, count as nat);
                    }
                    return None;
                },
            }
        }
        Some((out, used))
    }

    /// Writes a truth value.
    pub fn write_bool(&mut self, v: bool) -> (r: IpcResult<()>)
        ensures
            write_outcome(old(self)@, final(self)@, Value::Bool(v), r),
    {
        proof {
            reveal(encode);
            reveal(decode);
        }
        let mut scratch: Vec<u8> = Vec::new();
        scratch.push(Kind::Bool.tag());
        scratch.push(if v { 1u8 } else { 0u8 });
        assert(scratch@ =~= encode(Value::Bool(v)));
        self.append(&scratch)
    }

    /// Writes a signed 32-bit number.
    pub fn write_i32(&mut self, v: i32) -> (r: IpcResult<()>)
        ensures
            write_outcome(old(self)@, final(self)@, Value::I32(v), r),
    {
        proof {
            reveal(encode);
            reveal(decode);
        }
        let mut scratch: Vec<u8> = Vec::new();
        scratch.push(Kind::I32.tag());
        put_u32(&mut scratch, bits_of_i32(v));
        assert(scratch@ =~= encode(Value::I32(v)));
        self.append(&scratch)
    }

    /// Writes a signed 64-bit number.
    pub fn write_i64(&mut self, v: i64) -> (r: IpcResult<()>)
        ensures
            write_outcome(old(self)@, final(self)@, Value::I64(v), r),
    {
        proof {
            reveal(encode);
            reveal(decode);
        }
        let mut scratch: Vec<u8> = Vec::new();
        scratch.push(Kind::I64.tag());
        put_u64(&mut scratch, bits_of_i64(v));
        assert(scratch@ =~= encode(Value::I64(v)));
        self.append(&scratch)
    }

    /// Writes an unsigned 32-bit number.
    pub fn write_u32(&mut self, v: u32) -> (r: IpcResult<()>)
        ensures
            write_outcome(old(self)@, final(self)@, Value::U32(v), r),
    {
        proof {
            reveal(encode);
            reveal(decode);
        }
        let mut scratch: Vec<u8> = Vec::new();
        scratch.push(Kind::U32.tag());
        put_u32(&mut scratch, v);
        assert(scratch@ =~= encode(Value::U32(v)));
        self.append(&scratch)
    }

    /// Writes an unsigned 64-bit number.
    pub fn write_u64(&mut self, v: u64) -> (r: IpcResult<()>)
        ensures
            write_outcome(old(self)@, final(self)@, Value::U64(v), r),
    {
        proof {
            reveal(encode);
            reveal(decode);
        }
        let mut scratch: Vec<u8> = Vec::new();
        scratch.push(Kind::U64.tag());
        put_u64(&mut scratch, v);
        assert(scratch@ =~= encode(Value::U64(v)));
        self.append(&scratch)
    }

    /// Writes a string.
    pub fn write_string(&mut self, v: &str) -> (r: IpcResult<()>)
        ensures
            write_outcome(old(self)@, final(self)@, Value::Str(v@), r),
    {
        proof {
            reveal(encode);
            reveal(decode);
        }
        let raw = v.as_bytes();
        proof {
            lemma_text_len(v@);
        }
        if raw.len() > MAX_CAPACITY {
            return Err(IpcError::CapacityExceeded);
        }
        let mut scratch: Vec<u8> = Vec::new();
        scratch.push(Kind::Str.tag());
        put_u32(&mut scratch, raw.len() as u32);
        put_all(&mut scratch, raw);
        assert(scratch@ =~= encode(Value::Str(v@)));
        self.append(&scratch)
    }

    /// Writes a run of raw bytes.
    pub fn write_bytes(&mut self, v: &[u8]) -> (r: IpcResult<()>)
        ensures
            write_outcome(old(self)@, final(self)@, Value::Bytes(v@), r),
    {
        proof {
            reveal(encode);
            reveal(decode);
        }
        if v.len() > MAX_CAPACITY {
            return Err(IpcError::CapacityExceeded);
        }
        let mut scratch: Vec<u8> = Vec::new();
        scratch.push(Kind::Bytes.tag());
        put_u32(&mut scratch, v.len() as u32);
        put_all(&mut scratch, v);
        assert(scratch@ =~= encode(Value::Bytes(v@)));
        self.append(&scratch)
    }

    /// Writes a list of strings.
    pub fn write_string_vec(&mut self, v: &Vec<String>) -> (r: IpcResult<()>)
        ensures
            write_outcome(old(self)@, final(self)@, Value::StrVec(strings_view(v@)), r),
    {
        proof {
            reveal(encode);
            lemma_texts_min_len(strings_view(v@));
        }
        if v.len() > MAX_CAPACITY {
            return Err(IpcError::CapacityExceeded);
        }
        let body = match pack_texts(v) {
            Some(b) => b,
            None => {
                return Err(IpcError::CapacityExceeded);
            },
        };
        let mut scratch: Vec<u8> = Vec::new();
        scratch.push(Kind::StrVec.tag());
        put_u32(&mut scratch, v.len() as u32);
        put_all(&mut scratch, body.as_slice());
        assert(scratch@ =~= encode(Value::StrVec(strings_view(v@))));
        self.append(&scratch)
    }

    /// Reads a truth value.
    pub fn read_bool(&mut self) -> (r: IpcResult<bool>)
        ensures
            read_outcome(old(self)@, final(self)@, Kind::Bool, lift_bool(r)),
    {
        proof {
            reveal(encode);
            reveal(decode);
        }
        match self.starts(Kind::Bool, 1) {
            Some(at) => {
                let b: u8 = self.data[at + 1];
                if b <= 1 {
                    self.read_pos = at + 2;
                    Ok(b == 1)
                } else {
                    Err(IpcError::DecodeError)
                }
            },
            None => Err(IpcError::DecodeError),
        }
    }

    /// Reads a signed 32-bit number.
    pub fn read_i32(&mut self) -> (r: IpcResult<i32>)
        ensures
            read_outcome(old(self)@, final(self)@, Kind::I32, lift_i32(r)),
    {
        proof {
            reveal(encode);
            reveal(decode);
        }
        match self.starts(Kind::I32, 4) {
            Some(at) => {
                let bits: u32 = get_u32(&self.data, at + 1);
                self.read_pos = at + 5;
                Ok(i32_from_bits(bits))
            },
            None => Err(IpcError::DecodeError),
        }
    }

    /// Reads a signed 64-bit number.
    pub fn read_i64(&mut self) -> (r: IpcResult<i64>)
        ensures
            read_outcome(old(self)@, final(self)@, Kind::I64, lift_i64(r)),
    {
        proof {
            reveal(encode);
            reveal(decode);
        }
        match self.starts(Kind::I64, 8) {
            Some(at) => {
                let bits: u64 = get_u64(&self.data, at + 1);
                self.read_pos = at + 9;
                Ok(i64_from_bits(bits))
            },
            None => Err(IpcError::DecodeError),
        }
    }

    /// Reads an unsigned 32-bit number.
    pub fn read_u32(&mut self) -> (r: IpcResult<u32>)
        ensures
            read_outcome(old(self)@, final(self)@, Kind::U32, lift_u32(r)),
    {
        proof {
            reveal(encode);
            reveal(decode);
        }
        match self.starts(Kind::U32, 4) {
            Some(at) => {
                let x: u32 = get_u32(&self.data, at + 1);
                self.read_pos = at + 5;
                Ok(x)
            },
            None => Err(IpcError::DecodeError),
        }
    }

    /// Reads an unsigned 64-bit number.
    pub fn read_u64(&mut self) -> (r: IpcResult<u64>)
        ensures
            read_outcome(old(self)@, final(self)@, Kind::U64, lift_u64(r)),
    {
        proof {
            reveal(encode);
            reveal(decode);
        }
        match self.starts(Kind::U64, 8) {
            Some(at) => {
                let x: u64 = get_u64(&self.data, at + 1);
                self.read_pos = at + 9;
                Ok(x)
            },
            None => Err(IpcError::DecodeError),
        }
    }

    /// Reads a string.
    pub fn read_string(&mut self) -> (r: IpcResult<String>)
        ensures
            read_outcome(old(self)@, final(self)@, Kind::Str, lift_string(r)),
    {
        proof {
            reveal(encode);
            reveal(decode);
        }
        match self.starts(Kind::Str, 0) {
            Some(at) => match self.text_from(at + 1) {
                Some((s, used)) => {
                    self.read_pos = at + 1 + used;
                    Ok(s)
                },
                None => Err(IpcError::DecodeError),
            },
            None => Err(IpcError::DecodeError),
        }
    }

    /// Reads a run of raw bytes.
    pub fn read_bytes(&mut self) -> (r: IpcResult<Vec<u8>>)
        ensures
            read_outcome(old(self)@, final(self)@, Kind::Bytes, lift_bytes(r)),
    {
        proof {
            reveal(encode);
            reveal(decode);
        }
        match self.starts(Kind::Bytes, 4) {
            Some(at) => {
                let n: usize = get_u32(&self.data, at + 1) as usize;
                if self.data.len() - at - 5 < n {
                    return Err(IpcError::DecodeError);
                }
                let raw = slice_to_vec(slice_subrange(self.data.as_slice(), at + 5, at + 5 + n));
                assert(raw@ =~= self.data@.skip(at + 1).subrange(4, 4 + n as int));
                self.read_pos = at + 5 + n;
                Ok(raw)
            },
            None => Err(IpcError::DecodeError),
        }
    }

    /// Reads a list of strings.
    pub fn read_string_vec(&mut self) -> (r: IpcResult<Vec<String>>)
        ensures
            read_outcome(old(self)@, final(self)@, Kind::StrVec, lift_string_vec(r)),
    {
        proof {
            reveal(decode);
        }
        match self.starts(Kind::StrVec, 4) {
            Some(at) => {
                let count: u32 = get_u32(&self.data, at + 1);
                assert(self.data@.skip(at + 5) =~= self.data@.skip(at + 1).skip(4));
                match self.texts_from(at + 5, count) {
                    Some((out, used)) => {
                        self.read_pos = at + 5 + used;
                        Ok(out)
                    },
                    None => Err(IpcError::DecodeError),
                }
            },
            None => Err(IpcError::DecodeError),
        }
    }

}

} // verus!
