use nvim_oxi::{
    decode, encode, Array, CommandAddr, Error, FromObject, FromObjectError, NvimString, Object,
    ObjectType, Record, ToObject,
};

#[test]
fn primitives_round_trip() {
    assert_eq!(decode::<bool>(encode(true)), Ok(true));
    assert_eq!(decode::<i64>(encode(-5i64)), Ok(-5));
    assert_eq!(decode::<i32>(encode(7i32)), Ok(7));
    assert_eq!(decode::<u32>(encode(7u32)), Ok(7));
    assert_eq!(decode::<u8>(encode(255u8)), Ok(255));
    assert_eq!(decode::<()>(encode(())), Ok(()));
    assert_eq!(decode::<String>(encode(String::from("héllo"))), Ok(String::from("héllo")));
    assert_eq!(
        decode::<NvimString>(encode(NvimString::from_bytes(vec![0xff, 0]))),
        Ok(NvimString::from_bytes(vec![0xff, 0])),
    );
}

#[test]
fn small_integers_round_trip_and_range_check() {
    assert_eq!(decode::<i8>(encode(-128i8)), Ok(-128));
    assert_eq!(decode::<i16>(encode(-300i16)), Ok(-300));
    assert_eq!(decode::<u16>(encode(65535u16)), Ok(65535u16));
    assert_eq!(decode::<u64>(Object::from_integer(5)), Ok(5u64));
    assert_eq!(decode::<usize>(Object::from_integer(9)), Ok(9usize));
    assert_eq!(decode::<isize>(Object::from_integer(-9)), Ok(-9isize));

    assert!(decode::<i8>(Object::from_integer(128)).is_err());
    assert!(decode::<i16>(Object::from_integer(40000)).is_err());
    assert!(decode::<u16>(Object::from_integer(-1)).is_err());
    assert!(decode::<u64>(Object::from_integer(-1)).is_err());
}

#[test]
fn option_round_trip() {
    assert_eq!(decode::<Option<i64>>(encode(Some(3i64))), Ok(Some(3)));
    assert_eq!(decode::<Option<i64>>(encode(None::<i64>)), Ok(None));
    assert_eq!(decode::<Option<String>>(encode(Some(String::from("x")))),
        Ok(Some(String::from("x"))));
}

#[test]
fn vec_round_trip() {
    let v: Vec<i64> = vec![1, 2, 3];
    assert_eq!(decode::<Vec<i64>>(encode(v.clone())), Ok(v));

    let v: Vec<String> = vec![String::from("a"), String::from("b")];
    assert_eq!(decode::<Vec<String>>(encode(v.clone())), Ok(v));

    let v: Vec<i64> = Vec::new();
    assert_eq!(decode::<Vec<i64>>(encode(v.clone())), Ok(v));
}

#[test]
fn optional_entries_of_a_sequence_are_dropped() {
    let v: Vec<Option<i64>> = vec![Some(1), None, Some(2)];
    let obj = encode(v);
    let arr = obj.try_into_array().unwrap();
    assert_eq!(arr.len(), 2);

    let mut iter = arr.into_iter();
    assert_eq!(iter.next().unwrap(), Object::from_integer(1));
    assert_eq!(iter.next().unwrap(), Object::from_integer(2));
    assert_eq!(iter.next(), None);
}

#[test]
fn narrow_integer_out_of_range_is_secondary_error() {
    let err = decode::<u8>(Object::from_integer(300)).unwrap_err();
    assert!(matches!(
        err,
        Error::FromObject(FromObjectError::Secondary {
            primitive: ObjectType::kObjectTypeInteger,
            ..
        }),
    ));

    let err = decode::<u32>(Object::from_integer(-1)).unwrap_err();
    assert!(matches!(err, Error::FromObject(FromObjectError::Secondary { .. })));
}

#[test]
fn mismatched_tag_is_primitive_error() {
    let err = decode::<bool>(Object::from_integer(1)).unwrap_err();
    assert_eq!(
        err,
        Error::FromObject(FromObjectError::Primitive {
            expected: ObjectType::kObjectTypeBoolean,
            actual: ObjectType::kObjectTypeInteger,
        }),
    );
}

#[test]
fn invalid_utf8_string_decode_is_secondary_error() {
    let obj = Object::from_nvim_string(NvimString::from_bytes(vec![0xff]));
    let err = decode::<String>(obj).unwrap_err();
    assert!(matches!(err, Error::FromObject(FromObjectError::Secondary { .. })));
}

#[test]
fn sequence_element_failure_carries_index() {
    let arr = Array::from_vec(vec![
        Object::from_integer(1),
        Object::from_bool(true),
        Object::from_integer(3),
    ]);
    let err = decode::<Vec<i64>>(Object::from_array(arr)).unwrap_err();
    match err {
        Error::FromObject(FromObjectError::AtIndex { index, cause }) => {
            assert_eq!(index, 1);
            assert!(matches!(*cause, FromObjectError::Primitive { .. }));
        },
        other => panic!("unexpected error: {other:?}"),
    }
}

#[test]
fn command_addr_round_trips_as_tag_string() {
    let obj = CommandAddr::LoadedBuffers.to_obj().unwrap();
    let s = obj.clone().try_into_string().unwrap();
    assert_eq!(s, "loaded_buffers");
    assert_eq!(decode::<CommandAddr>(obj), Ok(CommandAddr::LoadedBuffers));

    let obj = CommandAddr::Lines.to_obj().unwrap();
    assert_eq!(decode::<CommandAddr>(obj), Ok(CommandAddr::Lines));
}

#[test]
fn unknown_command_addr_tag_is_rejected() {
    let obj = Object::from_nvim_string(NvimString::from_str("nonsense"));
    let err = decode::<CommandAddr>(obj).unwrap_err();
    assert!(matches!(err, Error::FromObject(FromObjectError::Secondary { .. })));
}

#[test]
fn record_scenario() {
    let record = Record {
        name: String::from("foo"),
        count: None,
        tags: vec![String::from("a"), String::from("b")],
    };

    let obj = record.clone().to_obj().unwrap();
    let dict = obj.clone().try_into_dict().unwrap();

    let name = dict.get(&NvimString::from_str("name")).unwrap().clone();
    assert_eq!(name.try_into_string().unwrap(), NvimString::from_str("foo"));

    assert!(dict.get(&NvimString::from_str("count")).is_none());

    let tags = dict.get(&NvimString::from_str("tags")).unwrap().clone();
    let tags = tags.try_into_array().unwrap();
    assert_eq!(tags.len(), 2);
    let mut iter = tags.into_iter();
    assert_eq!(iter.next().unwrap().try_into_string().unwrap(), NvimString::from_str("a"));
    assert_eq!(iter.next().unwrap().try_into_string().unwrap(), NvimString::from_str("b"));

    let back = Record::from_obj(obj).unwrap();
    assert_eq!(back, record);
}

#[test]
fn record_with_count_round_trips() {
    let record = Record {
        name: String::from("n"),
        count: Some(42),
        tags: Vec::new(),
    };
    let obj = record.clone().to_obj().unwrap();
    assert_eq!(Record::from_obj(obj), Ok(record));
}

#[test]
fn record_nil_count_reads_as_absent() {
    // A mapping whose count key holds an explicit nil decodes like one
    // without the key at all.
    let mut dict = nvim_oxi::Dictionary::new();
    dict.push(NvimString::from_str("name"), Object::from("n"));
    dict.push(NvimString::from_str("count"), Object::nil());
    dict.push(NvimString::from_str("tags"), Object::from_array(Array::new()));
    let back = Record::from_obj(Object::from_dictionary(dict)).unwrap();
    assert_eq!(back.count, None);
}

#[test]
fn record_missing_required_field_names_it() {
    let mut dict = nvim_oxi::Dictionary::new();
    dict.push(NvimString::from_str("tags"), Object::from_array(Array::new()));
    let err = Record::from_obj(Object::from_dictionary(dict)).unwrap_err();
    match err {
        Error::FromObject(FromObjectError::MissingField { field }) => {
            assert_eq!(field, "name");
        },
        other => panic!("unexpected error: {other:?}"),
    }
}

#[test]
fn record_field_failure_names_the_field() {
    let mut dict = nvim_oxi::Dictionary::new();
    dict.push(NvimString::from_str("name"), Object::from_integer(1));
    dict.push(NvimString::from_str("tags"), Object::from_array(Array::new()));
    let err = Record::from_obj(Object::from_dictionary(dict)).unwrap_err();
    match err {
        Error::FromObject(FromObjectError::AtField { field, cause }) => {
            assert_eq!(field, "name");
            assert!(matches!(*cause, FromObjectError::Primitive { .. }));
        },
        other => panic!("unexpected error: {other:?}"),
    }
}

#[test]
fn object_encodes_to_itself() {
    let obj = Object::from_integer(4);
    assert_eq!(obj.clone().to_obj().unwrap(), obj);
    assert_eq!(decode::<Object>(obj.clone()), Ok(obj));
}
