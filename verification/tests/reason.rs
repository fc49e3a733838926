use system_ability_fwk::parcel::MsgParcel;
use system_ability_fwk::reason::{
    deserialize_optional_reason, serialize_optional_reason, OnDemandReasonExtraData,
    OnDemandReasonId, SystemAbilityOnDemandReason,
};
use system_ability_fwk::status::IpcError;

fn extra(want: &[&str]) -> OnDemandReasonExtraData {
    OnDemandReasonExtraData {
        data: "d".to_string(),
        code: 7,
        want: want.iter().map(|s| s.to_string()).collect(),
    }
}

fn sample() -> SystemAbilityOnDemandReason {
    SystemAbilityOnDemandReason {
        name: "n".to_string(),
        value: "v".to_string(),
        reason_id: OnDemandReasonId::PARAM,
        extra_data: extra(&["k", "x"]),
        extra_data_id: -1,
    }
}

#[test]
fn want_pairs_keys_with_values() {
    let m = extra(&["k1", "v1", "k2", "v2"]).want();
    assert_eq!(m.len(), 2);
    assert_eq!(m.get("k1"), Some(&"v1".to_string()));
    assert_eq!(m.get("k2"), Some(&"v2".to_string()));
    assert_eq!(m.get("v1"), None);
}

#[test]
fn want_drops_an_unpaired_last_element() {
    let single = extra(&["k1"]).want();
    assert_eq!(single.len(), 0);
    assert!(single.is_empty());
    let three = extra(&["k1", "v1", "k2"]).want();
    assert_eq!(three.len(), 1);
    assert_eq!(three.get("k1"), Some(&"v1".to_string()));
    assert_eq!(three.get("k2"), None);
    assert!(extra(&[]).want().is_empty());
}

#[test]
fn want_keeps_the_last_value_of_a_repeated_key() {
    let m = extra(&["k", "a", "k", "b", "j", "c"]).want();
    assert_eq!(m.len(), 2);
    assert_eq!(m.get("k"), Some(&"b".to_string()));
    assert_eq!(m.get("j"), Some(&"c".to_string()));
}

#[test]
fn reason_ids_have_ordinals_zero_to_five() {
    let all = [
        OnDemandReasonId::INTERFACE_CALL,
        OnDemandReasonId::DEVICE_ONLINE,
        OnDemandReasonId::SETTING_SWITCH,
        OnDemandReasonId::PARAM,
        OnDemandReasonId::COMMON_EVENT,
        OnDemandReasonId::TIMED_EVENT,
    ];
    for (i, id) in all.iter().enumerate() {
        assert_eq!(id.ordinal(), i as i32);
        assert_eq!(OnDemandReasonId::from_ordinal(i as i32), Some(*id));
    }
    assert_eq!(OnDemandReasonId::from_ordinal(6), None);
    assert_eq!(OnDemandReasonId::from_ordinal(-1), None);
}

#[test]
fn reason_id_travels_as_its_ordinal() {
    let mut p = MsgParcel::new();
    OnDemandReasonId::COMMON_EVENT.serialize(&mut p).unwrap();
    assert_eq!(p.to_bytes(), vec![2, 4, 0, 0, 0]);
    assert_eq!(OnDemandReasonId::deserialize(&mut p), Ok(OnDemandReasonId::COMMON_EVENT));
}

#[test]
fn an_ordinal_out_of_range_is_a_decode_failure() {
    let mut p = MsgParcel::new();
    p.write_i32(6).unwrap();
    assert_eq!(OnDemandReasonId::deserialize(&mut p), Err(IpcError::DecodeError));
    assert_eq!(p.read_position(), 0);
    assert_eq!(p.read_i32(), Ok(6));
    let mut q = MsgParcel::new();
    q.write_i32(-1).unwrap();
    assert_eq!(OnDemandReasonId::deserialize(&mut q), Err(IpcError::DecodeError));
    let mut r = MsgParcel::new();
    r.write_string("0").unwrap();
    assert_eq!(OnDemandReasonId::deserialize(&mut r), Err(IpcError::DecodeError));
}

#[test]
fn extra_data_layout_is_data_code_want() {
    let mut p = MsgParcel::new();
    extra(&["k", "x"]).serialize(&mut p).unwrap();
    assert_eq!(
        p.to_bytes(),
        vec![6, 1, 0, 0, 0, 100, 2, 7, 0, 0, 0, 8, 2, 0, 0, 0, 1, 0, 0, 0, 107, 1, 0, 0, 0, 120]
    );
    assert_eq!(OnDemandReasonExtraData::deserialize(&mut p), Ok(extra(&["k", "x"])));
    assert_eq!(p.readable_bytes(), 0);
}

#[test]
fn reason_layout_is_the_fields_in_order() {
    let mut p = MsgParcel::new();
    sample().serialize(&mut p).unwrap();
    let expected: Vec<u8> = vec![
        6, 1, 0, 0, 0, 110, // name
        6, 1, 0, 0, 0, 118, // value
        2, 3, 0, 0, 0, // reason_id
        6, 1, 0, 0, 0, 100, // extra_data.data
        2, 7, 0, 0, 0, // extra_data.code
        8, 2, 0, 0, 0, 1, 0, 0, 0, 107, 1, 0, 0, 0, 120, // extra_data.want
        3, 255, 255, 255, 255, 255, 255, 255, 255, // extra_data_id
    ];
    assert_eq!(p.to_bytes(), expected);
    assert_eq!(SystemAbilityOnDemandReason::deserialize(&mut p), Ok(sample()));
    assert_eq!(p.readable_bytes(), 0);
}

#[test]
fn reason_written_by_fields_reads_as_a_record() {
    let mut p = MsgParcel::new();
    p.write_string("unload").unwrap();
    p.write_string("").unwrap();
    p.write_i32(0).unwrap();
    p.write_string("").unwrap();
    p.write_i32(0).unwrap();
    p.write_string_vec(&Vec::new()).unwrap();
    p.write_i64(9).unwrap();
    let r = SystemAbilityOnDemandReason::deserialize(&mut p).unwrap();
    assert_eq!(r.name, "unload");
    assert_eq!(r.reason_id, OnDemandReasonId::INTERFACE_CALL);
    assert_eq!(r.extra_data_id, 9);
    assert!(r.extra_data.want.is_empty());
}

#[test]
fn a_truncated_reason_fails_and_leaves_the_payload() {
    let mut whole = MsgParcel::new();
    sample().serialize(&mut whole).unwrap();
    let bytes = whole.to_bytes();
    for cut in 0..bytes.len() {
        let mut p = MsgParcel::from_bytes(bytes[..cut].to_vec());
        assert_eq!(SystemAbilityOnDemandReason::deserialize(&mut p), Err(IpcError::DecodeError));
        assert_eq!(p.read_position(), 0);
    }
}

#[test]
fn fields_in_another_order_fail() {
    let mut p = MsgParcel::new();
    p.write_i32(7).unwrap();
    p.write_string("d").unwrap();
    p.write_string_vec(&Vec::new()).unwrap();
    assert_eq!(OnDemandReasonExtraData::deserialize(&mut p), Err(IpcError::DecodeError));
    assert_eq!(p.read_position(), 0);
    let mut q = MsgParcel::new();
    q.write_string("d").unwrap();
    q.write_string_vec(&Vec::new()).unwrap();
    q.write_i32(7).unwrap();
    assert_eq!(OnDemandReasonExtraData::deserialize(&mut q), Err(IpcError::DecodeError));
    assert_eq!(q.read_position(), 0);
}

#[test]
fn a_reason_with_a_bad_ordinal_fails() {
    let mut p = MsgParcel::new();
    p.write_string("n").unwrap();
    p.write_string("v").unwrap();
    p.write_i32(17).unwrap();
    extra(&[]).serialize(&mut p).unwrap();
    p.write_i64(0).unwrap();
    assert_eq!(SystemAbilityOnDemandReason::deserialize(&mut p), Err(IpcError::DecodeError));
    assert_eq!(p.read_position(), 0);
}

#[test]
fn an_absent_reason_is_a_cleared_flag() {
    let mut p = MsgParcel::new();
    serialize_optional_reason(&None, &mut p).unwrap();
    assert_eq!(p.to_bytes(), vec![1, 0]);
    assert_eq!(deserialize_optional_reason(&mut p), Ok(None));
    let mut q = MsgParcel::new();
    serialize_optional_reason(&Some(sample()), &mut q).unwrap();
    assert_eq!(q.to_bytes()[..2], [1, 1]);
    assert_eq!(q.len(), 2 + 52);
    assert_eq!(deserialize_optional_reason(&mut q), Ok(Some(sample())));
    let mut cut = MsgParcel::from_bytes(vec![1, 1, 6]);
    assert_eq!(deserialize_optional_reason(&mut cut), Err(IpcError::DecodeError));
    assert_eq!(cut.read_position(), 0);
}

#[test]
fn copies_are_equal() {
    let r = sample();
    assert_eq!(r.duplicate(), r);
    assert_eq!(r.extra_data.duplicate(), r.extra_data);
}
