//! Why a lifecycle transition happened: the on-demand reason record, its
//! wire layout, and the key/value reading of its `want` list.
//!
//! A record is carried as its fields one after another, in the order in
//! which they are declared: `name`, `value`, `reason_id` as its ordinal,
//! `extra_data` (`data`, `code`, `want`), `extra_data_id`.

use vstd::hash_map::StringHashMap;
use vstd::prelude::*;
use crate::parcel::{
    append_outcome, lemma_at_unread, lemma_read_advances, take_outcome, MsgParcel, ParcelView,
    MAX_CAPACITY,
};
use crate::status::{IpcError, IpcResult};
use crate::wire::{
    decode, encodable, encode, lemma_decode_bound, lemma_round_trip, lemma_short_is_encodable,
    strings_view, Kind, Value,
};

verus! {

/// What triggered a lifecycle transition.
#[allow(non_camel_case_types)]
#[derive(Clone, Copy, Debug, PartialEq, Eq, Structural)]
pub enum OnDemandReasonId {
    INTERFACE_CALL,
    DEVICE_ONLINE,
    SETTING_SWITCH,
    PARAM,
    COMMON_EVENT,
    TIMED_EVENT,
}

/// Data that accompanies a reason.
#[derive(Clone, Debug, PartialEq, Eq)]
pub struct OnDemandReasonExtraData {
    pub data: String,
    pub code: i32,
    pub want: Vec<String>,
}

/// Why a service was started, allowed to idle, activated or stopped.
#[derive(Clone, Debug, PartialEq, Eq)]
pub struct SystemAbilityOnDemandReason {
    pub name: String,
    pub value: String,
    pub reason_id: OnDemandReasonId,
    pub extra_data: OnDemandReasonExtraData,
    pub extra_data_id: i64,
}

/// The extra data as mathematics.
pub struct ExtraDataView {
    pub data: Seq<char>,
    pub code: i32,
    pub want: Seq<Seq<char>>,
}

/// A reason as mathematics.
pub struct ReasonView {
    pub name: Seq<char>,
    pub value: Seq<char>,
    pub reason_id: OnDemandReasonId,
    pub extra_data: ExtraDataView,
    pub extra_data_id: i64,
}

impl View for OnDemandReasonExtraData {
    type V = ExtraDataView;

    open spec fn view(&self) -> ExtraDataView {
        ExtraDataView { data: self.data@, code: self.code, want: strings_view(self.want@) }
    }
}

impl View for SystemAbilityOnDemandReason {
    type V = ReasonView;

    open spec fn view(&self) -> ReasonView {
        ReasonView {
            name: self.name@,
            value: self.value@,
            reason_id: self.reason_id,
            extra_data: self.extra_data@,
            extra_data_id: self.extra_data_id,
        }
    }
}

// ---------------------------------------------------------------------
// Wire layout
// ---------------------------------------------------------------------

/// The ordinal that stands for `id` on the wire.
pub open spec fn ordinal_of(id: OnDemandReasonId) -> i32 {
    match id {
        OnDemandReasonId::INTERFACE_CALL => 0,
        OnDemandReasonId::DEVICE_ONLINE => 1,
        OnDemandReasonId::SETTING_SWITCH => 2,
        OnDemandReasonId::PARAM => 3,
        OnDemandReasonId::COMMON_EVENT => 4,
        OnDemandReasonId::TIMED_EVENT => 5,
    }
}

/// The reason an ordinal stands for; `None` outside `0..=5`.
pub open spec fn id_of_ordinal(n: i32) -> Option<OnDemandReasonId> {
    if n == 0 {
        Some(OnDemandReasonId::INTERFACE_CALL)
    } else if n == 1 {
        Some(OnDemandReasonId::DEVICE_ONLINE)
    } else if n == 2 {
        Some(OnDemandReasonId::SETTING_SWITCH)
    } else if n == 3 {
        Some(OnDemandReasonId::PARAM)
    } else if n == 4 {
        Some(OnDemandReasonId::COMMON_EVENT)
    } else if n == 5 {
        Some(OnDemandReasonId::TIMED_EVENT)
    } else {
        None
    }
}

/// The bytes that carry a reason id: its ordinal as a signed 32-bit number.
pub open spec fn encode_reason_id(id: OnDemandReasonId) -> Seq<u8> {
    encode(Value::I32(ordinal_of(id)))
}

/// The reason id that stands at the front of `b`, and the bytes it occupies.
pub open spec fn decode_reason_id(b: Seq<u8>) -> Option<(OnDemandReasonId, nat)> {
    match decode(Kind::I32, b) {
        Some((Value::I32(n), used)) => match id_of_ordinal(n) {
            Some(id) => Some((id, used)),
            None => None,
        },
        _ => None,
    }
}

/// The bytes that carry the extra data: `data`, `code` and `want`, in this
/// order.
pub open spec fn encode_extra_data(x: ExtraDataView) -> Seq<u8> {
    encode(Value::Str(x.data)) + encode(Value::I32(x.code)) + encode(Value::StrVec(x.want))
}

/// The extra data that stands at the front of `b`, and the bytes it occupies.
pub open spec fn decode_extra_data(b: Seq<u8>) -> Option<(ExtraDataView, nat)> {
    match decode(Kind::Str, b) {
        Some((Value::Str(data), n1)) => match decode(Kind::I32, b.skip(n1 as int)) {
            Some((Value::I32(code), n2)) => match decode(Kind::StrVec, b.skip((n1 + n2) as int)) {
                Some((Value::StrVec(want), n3)) => Some(
                    (ExtraDataView { data, code, want }, n1 + n2 + n3),
                ),
                _ => None,
            },
            _ => None,
        },
        _ => None,
    }
}

/// The bytes that carry a reason: its five fields, in the order of their
/// declaration.
pub open spec fn encode_reason(x: ReasonView) -> Seq<u8> {
    encode(Value::Str(x.name)) + encode(Value::Str(x.value)) + encode_reason_id(x.reason_id)
        + encode_extra_data(x.extra_data) + encode(Value::I64(x.extra_data_id))
}

/// The reason that stands at the front of `b`, and the bytes it occupies.
pub open spec fn decode_reason(b: Seq<u8>) -> Option<(ReasonView, nat)> {
    match decode(Kind::Str, b) {
        Some((Value::Str(name), n1)) => match decode(Kind::Str, b.skip(n1 as int)) {
            Some((Value::Str(value), n2)) => match decode_reason_id(b.skip((n1 + n2) as int)) {
                Some((reason_id, n3)) => match decode_extra_data(b.skip((n1 + n2 + n3) as int)) {
                    Some((extra_data, n4)) => match decode(
                        Kind::I64,
                        b.skip((n1 + n2 + n3 + n4) as int),
                    ) {
                        Some((Value::I64(extra_data_id), n5)) => Some(
                            (
                                ReasonView { name, value, reason_id, extra_data, extra_data_id },
                                n1 + n2 + n3 + n4 + n5,
                            ),
                        ),
                        _ => None,
                    },
                    None => None,
                },
                None => None,
            },
            _ => None,
        },
        _ => None,
    }
}

/// The records whose strings and lists fit in the four-byte length fields.
pub open spec fn extra_data_encodable(x: ExtraDataView) -> bool {
    encodable(Value::Str(x.data)) && encodable(Value::StrVec(x.want))
}

/// The reasons whose strings and lists fit in the four-byte length fields.
pub open spec fn reason_encodable(x: ReasonView) -> bool {
    encodable(Value::Str(x.name)) && encodable(Value::Str(x.value)) && extra_data_encodable(
        x.extra_data,
    )
}

/// Ordinals and reasons correspond one to one.
pub proof fn lemma_ordinal_round_trip(id: OnDemandReasonId)
    ensures
        id_of_ordinal(ordinal_of(id)) == Some(id),
{
}

/// An ordinal outside `0..=5` names no reason.
pub proof fn lemma_ordinal_range(n: i32)
    ensures
        id_of_ordinal(n) is Some <==> 0 <= n <= 5,
        id_of_ordinal(n) matches Some(id) ==> ordinal_of(id) == n,
{
}

/// Round trip of a reason id, whatever follows it.
pub proof fn lemma_reason_id_round_trip(id: OnDemandReasonId, rest: Seq<u8>)
    ensures
        decode_reason_id(encode_reason_id(id) + rest) == Some((id, encode_reason_id(id).len())),
{
    lemma_round_trip(Value::I32(ordinal_of(id)), rest);
}

/// Round trip of the extra data, whatever follows it.
pub proof fn lemma_extra_data_round_trip(x: ExtraDataView, rest: Seq<u8>)
    requires
        extra_data_encodable(x),
    ensures
        decode_extra_data(encode_extra_data(x) + rest) == Some((x, encode_extra_data(x).len())),
{
    let e1 = encode(Value::Str(x.data));
    let e2 = encode(Value::I32(x.code));
    let e3 = encode(Value::StrVec(x.want));
    let all = encode_extra_data(x) + rest;
    lemma_round_trip(Value::Str(x.data), e2 + e3 + rest);
    lemma_round_trip(Value::I32(x.code), e3 + rest);
    lemma_round_trip(Value::StrVec(x.want), rest);
    assert(all =~= e1 + (e2 + e3 + rest));
    assert(all.skip(e1.len() as int) =~= e2 + (e3 + rest));
    assert(all.skip((e1.len() + e2.len()) as int) =~= e3 + rest);
}

/// Round trip of a whole reason, whatever follows it.
pub proof fn lemma_reason_round_trip(x: ReasonView, rest: Seq<u8>)
    requires
        reason_encodable(x),
    ensures
        decode_reason(encode_reason(x) + rest) == Some((x, encode_reason(x).len())),
{
    let e1 = encode(Value::Str(x.name));
    let e2 = encode(Value::Str(x.value));
    let e3 = encode_reason_id(x.reason_id);
    let e4 = encode_extra_data(x.extra_data);
    let e5 = encode(Value::I64(x.extra_data_id));
    let all = encode_reason(x) + rest;
    lemma_round_trip(Value::Str(x.name), e2 + e3 + e4 + e5 + rest);
    lemma_round_trip(Value::Str(x.value), e3 + e4 + e5 + rest);
    lemma_reason_id_round_trip(x.reason_id, e4 + e5 + rest);
    lemma_extra_data_round_trip(x.extra_data, e5 + rest);
    lemma_round_trip(Value::I64(x.extra_data_id), rest);
    assert(all =~= e1 + (e2 + e3 + e4 + e5 + rest));
    assert(all.skip(e1.len() as int) =~= e2 + (e3 + e4 + e5 + rest));
    assert(all.skip((e1.len() + e2.len()) as int) =~= e3 + (e4 + e5 + rest));
    assert(all.skip((e1.len() + e2.len() + e3.len()) as int) =~= e4 + (e5 + rest));
    assert(all.skip((e1.len() + e2.len() + e3.len() + e4.len()) as int) =~= e5 + rest);
}

/// A record whose encoding fits in a four-byte length is encodable.
pub proof fn lemma_short_reason_is_encodable(x: ReasonView)
    requires
        encode_reason(x).len() <= u32::MAX,
    ensures
        reason_encodable(x),
{
    lemma_short_is_encodable(Value::Str(x.name));
    lemma_short_is_encodable(Value::Str(x.value));
    lemma_short_is_encodable(Value::Str(x.extra_data.data));
    lemma_short_is_encodable(Value::StrVec(x.extra_data.want));
}

/// Round trip of a reason through a payload. On a payload whose earlier
/// values have all been read, a reason that is written is the reason that
/// is read, and the read leaves nothing unread.
pub proof fn lemma_reason_write_read_round_trip(p: ParcelView, x: ReasonView)
    requires
        p.read_pos == p.bytes.len(),
        p.bytes.len() + encode_reason(x).len() <= MAX_CAPACITY,
    ensures
        decode_reason((ParcelView { bytes: p.bytes + encode_reason(x), read_pos: p.read_pos }).unread())
            == Some((x, encode_reason(x).len())),
{
    lemma_short_reason_is_encodable(x);
    lemma_reason_round_trip(x, Seq::empty());
    let after = ParcelView { bytes: p.bytes + encode_reason(x), read_pos: p.read_pos };
    assert(after.unread() =~= encode_reason(x) + Seq::<u8>::empty());
}

/// What is found at the front of `b` lies within `b`.
pub proof fn lemma_decode_extra_data_bound(b: Seq<u8>)
    ensures
        decode_extra_data(b) matches Some((x, n)) ==> n <= b.len(),
{
    lemma_decode_bound(Kind::Str, b);
    if let Some((v1, n1)) = decode(Kind::Str, b) {
        lemma_decode_bound(Kind::I32, b.skip(n1 as int));
        if let Some((v2, n2)) = decode(Kind::I32, b.skip(n1 as int)) {
            lemma_decode_bound(Kind::StrVec, b.skip((n1 + n2) as int));
        }
    }
}

/// The result of a read as a result that holds the view of the record.
pub open spec fn lift_extra_data(r: Result<OnDemandReasonExtraData, IpcError>) -> Result<
    ExtraDataView,
    IpcError,
> {
    match r {
        Ok(x) => Ok(x@),
        Err(e) => Err(e),
    }
}

/// The result of a read as a result that holds the view of the record.
pub open spec fn lift_reason(r: Result<SystemAbilityOnDemandReason, IpcError>) -> Result<
    ReasonView,
    IpcError,
> {
    match r {
        Ok(x) => Ok(x@),
        Err(e) => Err(e),
    }
}

impl OnDemandReasonId {
    /// The ordinal that stands for the reason on the wire.
    pub fn ordinal(self) -> (n: i32)
        ensures
            n == ordinal_of(self),
    {
        match self {
            OnDemandReasonId::INTERFACE_CALL => 0,
            OnDemandReasonId::DEVICE_ONLINE => 1,
            OnDemandReasonId::SETTING_SWITCH => 2,
            OnDemandReasonId::PARAM => 3,
            OnDemandReasonId::COMMON_EVENT => 4,
            OnDemandReasonId::TIMED_EVENT => 5,
        }
    }

    /// The reason an ordinal stands for; `None` outside `0..=5`.
    pub fn from_ordinal(n: i32) -> (r: Option<OnDemandReasonId>)
        ensures
            r == id_of_ordinal(n),
    {
        if n == 0 {
            Some(OnDemandReasonId::INTERFACE_CALL)
        } else if n == 1 {
            Some(OnDemandReasonId::DEVICE_ONLINE)
        } else if n == 2 {
            Some(OnDemandReasonId::SETTING_SWITCH)
        } else if n == 3 {
            Some(OnDemandReasonId::PARAM)
        } else if n == 4 {
            Some(OnDemandReasonId::COMMON_EVENT)
        } else if n == 5 {
            Some(OnDemandReasonId::TIMED_EVENT)
        } else {
            None
        }
    }

    /// Writes the reason as its ordinal.
    pub fn serialize(&self, parcel: &mut MsgParcel) -> (r: IpcResult<()>)
        ensures
            append_outcome(old(parcel)@, final(parcel)@, encode_reason_id(*self), r),
    {
        parcel.write_i32(self.ordinal())
    }

    /// Reads an ordinal and the reason it stands for. An ordinal that names
    /// no reason is a decode failure, and the payload stays as it was.
    pub fn deserialize(parcel: &mut MsgParcel) -> (r: IpcResult<OnDemandReasonId>)
        ensures
            take_outcome(
                old(parcel)@,
                final(parcel)@,
                decode_reason_id(old(parcel)@.unread()),
                r,
            ),
    {
        let start: usize = parcel.read_position();
        proof {
            lemma_read_advances(parcel@, Kind::I32);
        }
        match parcel.read_i32() {
            Ok(n) => match OnDemandReasonId::from_ordinal(n) {
                Some(id) => Ok(id),
                None => {
                    parcel.set_read_position(start);
                    Err(IpcError::DecodeError)
                },
            },
            Err(_) => Err(IpcError::DecodeError),
        }
    }
}

/// A copy of `v`, string by string.
fn clone_strings(v: &Vec<String>) -> (r: Vec<String>)
    ensures
        strings_view(r@) == strings_view(v@),
{
    let mut out: Vec<String> = Vec::new();
    let mut i: usize = 0;
    while i < v.len()
        invariant
            i <= v@.len(),
            out@.len() == i,
            forall|j: int| 0 <= j < i ==> (#[trigger] out@[j])@ == v@[j]@,
        decreases v@.len() - i,
    {
        out.push(v[i].clone());
        i = i + 1;
    }
    assert(strings_view(out@) =~= strings_view(v@));
    out
}

impl OnDemandReasonExtraData {
    /// A copy with the same contents.
    pub fn duplicate(&self) -> (r: OnDemandReasonExtraData)
        ensures
            r@ == self@,
    {
        OnDemandReasonExtraData {
            data: self.data.clone(),
            code: self.code,
            want: clone_strings(&self.want),
        }
    }

    /// Writes `data`, `code` and `want`, in this order. Either the whole
    /// record is appended or, where the capacity does not allow it, nothing.
    pub fn serialize(&self, parcel: &mut MsgParcel) -> (r: IpcResult<()>)
        ensures
            append_outcome(old(parcel)@, final(parcel)@, encode_extra_data(self@), r),
    {
        let mut scratch = MsgParcel::new();
        match scratch.write_string(self.data.as_str()) {
            Ok(_) => {},
            Err(_) => {
                return Err(IpcError::CapacityExceeded);
            },
        }
        match scratch.write_i32(self.code) {
            Ok(_) => {},
            Err(_) => {
                return Err(IpcError::CapacityExceeded);
            },
        }
        match scratch.write_string_vec(&self.want) {
            Ok(_) => {},
            Err(_) => {
                return Err(IpcError::CapacityExceeded);
            },
        }
        assert(scratch@.bytes =~= encode_extra_data(self@));
        parcel.append_parcel(&scratch)
    }

    /// Reads `data`, `code` and `want`, in this order. Where one of them
    /// cannot be read the payload stays as it was.
    pub fn deserialize(parcel: &mut MsgParcel) -> (r: IpcResult<OnDemandReasonExtraData>)
        ensures
            take_outcome(
                old(parcel)@,
                final(parcel)@,
                decode_extra_data(old(parcel)@.unread()),
                lift_extra_data(r),
            ),
    {
        let start: usize = parcel.read_position();
        let ghost b = parcel@.unread();
        proof {
            lemma_read_advances(parcel@, Kind::Str);
        }
        let data = match parcel.read_string() {
            Ok(s) => s,
            Err(_) => {
                return Err(IpcError::DecodeError);
            },
        };
        proof {
            lemma_read_advances(parcel@, Kind::I32);
        }
        let code: i32 = match parcel.read_i32() {
            Ok(c) => c,
            Err(_) => {
                parcel.set_read_position(start);
                return Err(IpcError::DecodeError);
            },
        };
        proof {
            lemma_read_advances(parcel@, Kind::StrVec);
            let n1 = decode(Kind::Str, b)->Some_0.1;
            let n2 = decode(Kind::I32, b.skip(n1 as int))->Some_0.1;
            assert(b.skip(n1 as int).skip(n2 as int) =~= b.skip((n1 + n2) as int));
        }
        let want = match parcel.read_string_vec() {
            Ok(w) => w,
            Err(_) => {
                parcel.set_read_position(start);
                return Err(IpcError::DecodeError);
            },
        };
        Ok(OnDemandReasonExtraData { data, code, want })
    }

    /// The `want` list read pairwise as keys and values. A key that occurs
    /// more than once keeps the value of its last pair; the last element of
    /// a list of odd length has no partner and is dropped.
    pub fn want(self) -> (res: StringHashMap<String>)
        ensures
            string_map_view(res@) == want_map(self@.want),
    {
        let ghost items = strings_view(self.want@);
        let mut res: StringHashMap<String> = StringHashMap::new();
        let n: usize = self.want.len();
        let mut i: usize = 0;
        assert(string_map_view(res@) =~= pairs_upto(items, 0));
        while n - i >= 2
            invariant
                i <= n,
                n == self.want@.len(),
                i % 2 == 0,
                items == strings_view(self.want@),
                string_map_view(res@) == pairs_upto(items, (i / 2) as nat),
            decreases n - i,
        {
            let k = self.want[i].clone();
            let v = self.want[i + 1].clone();
            let ghost before = res@;
            res.insert(k, v);
            i = i + 2;
            assert(string_map_view(res@) =~= string_map_view(before).insert(
                items[i - 2],
                items[i - 1],
            ));
        }
        res
    }
}

/// A map of strings as a map of their characters.
pub open spec fn string_map_view(m: Map<Seq<char>, String>) -> Map<Seq<char>, Seq<char>> {
    m.map_values(|s: String| s@)
}

/// The mapping that the first `k` pairs of `want` give: pair `i` maps
/// `want[2 i]` to `want[2 i + 1]`, and a later pair overrides an earlier one
/// with the same key.
pub open spec fn pairs_upto(want: Seq<Seq<char>>, k: nat) -> Map<Seq<char>, Seq<char>>
    decreases k,
{
    if k == 0 {
        Map::empty()
    } else {
        pairs_upto(want, (k - 1) as nat).insert(want[2 * k - 2], want[2 * k - 1])
    }
}

/// The mapping that all complete pairs of `want` give.
pub open spec fn want_map(want: Seq<Seq<char>>) -> Map<Seq<char>, Seq<char>> {
    pairs_upto(want, want.len() / 2)
}

/// The pairs depend only on the elements they are made of.
proof fn lemma_pairs_upto_prefix(a: Seq<Seq<char>>, b: Seq<Seq<char>>, k: nat)
    requires
        2 * k <= a.len(),
        2 * k <= b.len(),
        forall|i: int| 0 <= i < 2 * k ==> a[i] == b[i],
    ensures
        pairs_upto(a, k) == pairs_upto(b, k),
    decreases k,
{
    if k > 0 {
        lemma_pairs_upto_prefix(a, b, (k - 1) as nat);
    }
}

/// The keys are exactly the first elements of the pairs.
proof fn lemma_pairs_upto_keys(want: Seq<Seq<char>>, k: nat, key: Seq<char>)
    ensures
        pairs_upto(want, k).dom().contains(key) <==> exists|i: int|
            0 <= i < k && #[trigger] want[2 * i] == key,
    decreases k,
{
    if k > 0 {
        lemma_pairs_upto_keys(want, (k - 1) as nat, key);
        if pairs_upto(want, k).dom().contains(key) {
            if want[2 * k - 2] == key {
                assert(want[2 * (k - 1)] == key);
            } else {
                let i = choose|i: int| 0 <= i < k - 1 && #[trigger] want[2 * i] == key;
                assert(0 <= i < k && want[2 * i] == key);
            }
        }
        if exists|i: int| 0 <= i < k && #[trigger] want[2 * i] == key {
            let i = choose|i: int| 0 <= i < k && #[trigger] want[2 * i] == key;
            if i < k - 1 {
                assert(0 <= i < k - 1 && want[2 * i] == key);
            }
        }
    }
}

/// A key maps to the value of the last pair that holds it.
proof fn lemma_pairs_upto_last_wins(want: Seq<Seq<char>>, k: nat, i: int)
    requires
        0 <= i < k,
        forall|j: int| i < j < k ==> #[trigger] want[2 * j] != want[2 * i],
    ensures
        pairs_upto(want, k).dom().contains(want[2 * i]),
        pairs_upto(want, k)[want[2 * i]] == want[2 * i + 1],
    decreases k,
{
    if i < k - 1 {
        lemma_pairs_upto_last_wins(want, (k - 1) as nat, i);
        assert(want[2 * (k - 1)] != want[2 * i]);
    }
}

/// The keys of the mapping are exactly the elements at even positions
/// that have a partner.
pub proof fn lemma_want_keys(want: Seq<Seq<char>>, key: Seq<char>)
    ensures
        want_map(want).dom().contains(key) <==> exists|i: int|
            0 <= i < want.len() / 2 && #[trigger] want[2 * i] == key,
{
    lemma_pairs_upto_keys(want, want.len() / 2, key);
}

/// The unpaired last element of a list of odd length is dropped.
pub proof fn lemma_want_odd_drops_last(want: Seq<Seq<char>>)
    requires
        want.len() % 2 == 1,
    ensures
        want_map(want) == want_map(want.drop_last()),
{
    lemma_pairs_upto_prefix(want, want.drop_last(), want.len() / 2);
}

/// A list with fewer than two elements gives the empty mapping.
pub proof fn lemma_want_short_is_empty(want: Seq<Seq<char>>)
    requires
        want.len() < 2,
    ensures
        want_map(want) == Map::<Seq<char>, Seq<char>>::empty(),
{
}

/// A key maps to the partner of its last occurrence at an even position.
pub proof fn lemma_want_last_wins(want: Seq<Seq<char>>, i: int)
    requires
        0 <= i < want.len() / 2,
        forall|j: int| i < j < want.len() / 2 ==> #[trigger] want[2 * j] != want[2 * i],
    ensures
        want_map(want).dom().contains(want[2 * i]),
        want_map(want)[want[2 * i]] == want[2 * i + 1],
{
    lemma_pairs_upto_last_wins(want, want.len() / 2, i);
}

impl SystemAbilityOnDemandReason {
    /// A copy with the same contents.
    pub fn duplicate(&self) -> (r: SystemAbilityOnDemandReason)
        ensures
            r@ == self@,
    {
        SystemAbilityOnDemandReason {
            name: self.name.clone(),
            value: self.value.clone(),
            reason_id: self.reason_id,
            extra_data: self.extra_data.duplicate(),
            extra_data_id: self.extra_data_id,
        }
    }

    /// Writes `name`, `value`, `reason_id`, `extra_data` and
    /// `extra_data_id`, in this order. Either the whole record is appended
    /// or, where the capacity does not allow it, nothing.
    pub fn serialize(&self, parcel: &mut MsgParcel) -> (r: IpcResult<()>)
        ensures
            append_outcome(old(parcel)@, final(parcel)@, encode_reason(self@), r),
    {
        let mut scratch = MsgParcel::new();
        match scratch.write_string(self.name.as_str()) {
            Ok(_) => {},
            Err(_) => {
                return Err(IpcError::CapacityExceeded);
            },
        }
        match scratch.write_string(self.value.as_str()) {
            Ok(_) => {},
            Err(_) => {
                return Err(IpcError::CapacityExceeded);
            },
        }
        match self.reason_id.serialize(&mut scratch) {
            Ok(_) => {},
            Err(_) => {
                return Err(IpcError::CapacityExceeded);
            },
        }
        match self.extra_data.serialize(&mut scratch) {
            Ok(_) => {},
            Err(_) => {
                return Err(IpcError::CapacityExceeded);
            },
        }
        match scratch.write_i64(self.extra_data_id) {
            Ok(_) => {},
            Err(_) => {
                return Err(IpcError::CapacityExceeded);
            },
        }
        assert(scratch@.bytes =~= encode_reason(self@));
        parcel.append_parcel(&scratch)
    }

    /// Reads the five fields in the order in which they are written. Where
    /// one of them cannot be read the payload stays as it was.
    pub fn deserialize(parcel: &mut MsgParcel) -> (r: IpcResult<SystemAbilityOnDemandReason>)
        ensures
            take_outcome(
                old(parcel)@,
                final(parcel)@,
                decode_reason(old(parcel)@.unread()),
                lift_reason(r),
            ),
    {
        let start: usize = parcel.read_position();
        let ghost b = parcel@.unread();
        proof {
            lemma_read_advances(parcel@, Kind::Str);
        }
        let name = match parcel.read_string() {
            Ok(s) => s,
            Err(_) => {
                return Err(IpcError::DecodeError);
            },
        };
        let ghost n1 = decode(Kind::Str, b)->Some_0.1;
        proof {
            lemma_read_advances(parcel@, Kind::Str);
        }
        let value = match parcel.read_string() {
            Ok(s) => s,
            Err(_) => {
                parcel.set_read_position(start);
                return Err(IpcError::DecodeError);
            },
        };
        let ghost n2 = decode(Kind::Str, b.skip(n1 as int))->Some_0.1;
        proof {
            assert(b.skip(n1 as int).skip(n2 as int) =~= b.skip((n1 + n2) as int));
            lemma_decode_bound(Kind::I32, parcel@.unread());
        }
        let ghost mid = parcel@;
        let reason_id = match OnDemandReasonId::deserialize(parcel) {
            Ok(id) => id,
            Err(_) => {
                parcel.set_read_position(start);
                return Err(IpcError::DecodeError);
            },
        };
        let ghost n3 = decode_reason_id(b.skip((n1 + n2) as int))->Some_0.1;
        proof {
            lemma_at_unread(mid, n3);
            assert(b.skip((n1 + n2) as int).skip(n3 as int) =~= b.skip((n1 + n2 + n3) as int));
            lemma_decode_extra_data_bound(parcel@.unread());
        }
        let ghost late = parcel@;
        let extra_data = match OnDemandReasonExtraData::deserialize(parcel) {
            Ok(x) => x,
            Err(_) => {
                parcel.set_read_position(start);
                return Err(IpcError::DecodeError);
            },
        };
        let ghost n4 = decode_extra_data(b.skip((n1 + n2 + n3) as int))->Some_0.1;
        proof {
            lemma_at_unread(late, n4);
            assert(b.skip((n1 + n2 + n3) as int).skip(n4 as int) =~= b.skip(
                (n1 + n2 + n3 + n4) as int,
            ));
            lemma_read_advances(parcel@, Kind::I64);
        }
        let extra_data_id: i64 = match parcel.read_i64() {
            Ok(x) => x,
            Err(_) => {
                parcel.set_read_position(start);
                return Err(IpcError::DecodeError);
            },
        };
        Ok(SystemAbilityOnDemandReason { name, value, reason_id, extra_data, extra_data_id })
    }
}

/// What is found at the front of `b` lies within `b`.
pub proof fn lemma_decode_reason_bound(b: Seq<u8>)
    ensures
        decode_reason(b) matches Some((x, n)) ==> n <= b.len(),
{
    lemma_decode_bound(Kind::Str, b);
    if let Some((v1, n1)) = decode(Kind::Str, b) {
        lemma_decode_bound(Kind::Str, b.skip(n1 as int));
        if let Some((v2, n2)) = decode(Kind::Str, b.skip(n1 as int)) {
            lemma_decode_bound(Kind::I32, b.skip((n1 + n2) as int));
            if let Some((id, n3)) = decode_reason_id(b.skip((n1 + n2) as int)) {
                lemma_decode_extra_data_bound(b.skip((n1 + n2 + n3) as int));
                if let Some((x, n4)) = decode_extra_data(b.skip((n1 + n2 + n3) as int)) {
                    lemma_decode_bound(Kind::I64, b.skip((n1 + n2 + n3 + n4) as int));
                }
            }
        }
    }
}

/// A reason that may be absent: a flag, followed by the reason where the
/// flag is set.
pub open spec fn encode_optional_reason(x: Option<ReasonView>) -> Seq<u8> {
    match x {
        Some(reason) => encode(Value::Bool(true)) + encode_reason(reason),
        None => encode(Value::Bool(false)),
    }
}

/// The reason that may be absent that stands at the front of `b`, and the bytes
/// it occupies.
pub open spec fn decode_optional_reason(b: Seq<u8>) -> Option<(Option<ReasonView>, nat)> {
    match decode(Kind::Bool, b) {
        Some((Value::Bool(present), n)) => if present {
            match decode_reason(b.skip(n as int)) {
                Some((reason, m)) => Some((Some(reason), n + m)),
                None => None,
            }
        } else {
            Some((None, n))
        },
        _ => None,
    }
}

/// Round trip of a reason that may be absent, whatever follows it.
pub proof fn lemma_optional_reason_round_trip(x: Option<ReasonView>, rest: Seq<u8>)
    requires
        x matches Some(reason) ==> reason_encodable(reason),
    ensures
        decode_optional_reason(encode_optional_reason(x) + rest) == Some(
            (x, encode_optional_reason(x).len()),
        ),
{
    match x {
        Some(reason) => {
            let flag = encode(Value::Bool(true));
            lemma_round_trip(Value::Bool(true), encode_reason(reason) + rest);
            lemma_reason_round_trip(reason, rest);
            let all = encode_optional_reason(x) + rest;
            assert(all =~= flag + (encode_reason(reason) + rest));
            assert(all.skip(flag.len() as int) =~= encode_reason(reason) + rest);
        },
        None => {
            lemma_round_trip(Value::Bool(false), rest);
        },
    }
}

/// A reason that may be absent, as mathematics.
pub open spec fn optional_reason_view(x: Option<SystemAbilityOnDemandReason>) -> Option<ReasonView> {
    match x {
        Some(reason) => Some(reason@),
        None => None,
    }
}

/// The result of a read as a result that holds the view of the record.
pub open spec fn lift_optional_reason(
    r: Result<Option<SystemAbilityOnDemandReason>, IpcError>,
) -> Result<Option<ReasonView>, IpcError> {
    match r {
        Ok(x) => Ok(optional_reason_view(x)),
        Err(e) => Err(e),
    }
}

/// Writes a reason that may be absent. Either all of it is appended or,
/// where the capacity does not allow it, nothing.
pub fn serialize_optional_reason(
    value: &Option<SystemAbilityOnDemandReason>,
    parcel: &mut MsgParcel,
) -> (r: IpcResult<()>)
    ensures
        append_outcome(
            old(parcel)@,
            final(parcel)@,
            encode_optional_reason(optional_reason_view(*value)),
            r,
        ),
{
    match value {
        Some(reason) => {
            let mut scratch = MsgParcel::new();
            match scratch.write_bool(true) {
                Ok(_) => {},
                Err(_) => {
                    return Err(IpcError::CapacityExceeded);
                },
            }
            match reason.serialize(&mut scratch) {
                Ok(_) => {},
                Err(_) => {
                    return Err(IpcError::CapacityExceeded);
                },
            }
            assert(scratch@.bytes =~= encode_optional_reason(Some(reason@)));
            parcel.append_parcel(&scratch)
        },
        None => parcel.write_bool(false),
    }
}

/// Reads a reason that may be absent. Where it cannot be read the payload
/// stays as it was.
pub fn deserialize_optional_reason(parcel: &mut MsgParcel) -> (r: IpcResult<
    Option<SystemAbilityOnDemandReason>,
>)
    ensures
        take_outcome(
            old(parcel)@,
            final(parcel)@,
            decode_optional_reason(old(parcel)@.unread()),
            lift_optional_reason(r),
        ),
{
    let start: usize = parcel.read_position();
    proof {
        lemma_read_advances(parcel@, Kind::Bool);
    }
    let present = match parcel.read_bool() {
        Ok(b) => b,
        Err(_) => {
            return Err(IpcError::DecodeError);
        },
    };
    if !present {
        return Ok(None);
    }
    let ghost mid = parcel@;
    proof {
        lemma_decode_reason_bound(mid.unread());
    }
    match SystemAbilityOnDemandReason::deserialize(parcel) {
        Ok(reason) => Ok(Some(reason)),
        Err(_) => {
            parcel.set_read_position(start);
            Err(IpcError::DecodeError)
        },
    }
}

} // verus!
