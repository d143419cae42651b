use nvim_oxi::{
    Array, Dictionary, FromObjectError, NvimString, Object, ObjectType,
};

#[test]
fn std_string_to_obj_and_back() {
    let str = String::from("foo");
    let obj = Object::from(str.clone());
    let str_again = String::try_from(obj);
    assert!(str_again.is_ok());
    assert_eq!(str, str_again.unwrap());
}

#[test]
fn nil_is_nil() {
    let obj = Object::nil();
    assert!(obj.is_nil());
    assert!(!obj.is_some());
    assert_eq!(obj.object_type(), ObjectType::kObjectTypeNil);
    assert_eq!(Object::default(), Object::nil());
}

#[test]
fn tag_safety_matching_accessors_succeed() {
    assert_eq!(Object::nil().try_into_unit(), Ok(()));
    assert_eq!(Object::from_bool(true).try_into_bool(), Ok(true));
    assert_eq!(Object::from_integer(-7).try_into_integer(), Ok(-7));
    assert_eq!(Object::from_float_bits(0x3ff0000000000000).try_into_float_bits(),
        Ok(0x3ff0000000000000));
    assert_eq!(
        Object::from_nvim_string(NvimString::from_str("x")).try_into_string(),
        Ok(NvimString::from_str("x")),
    );
    assert_eq!(Object::from_array(Array::new()).try_into_array(), Ok(Array::new()));
    assert_eq!(
        Object::from_dictionary(Dictionary::new()).try_into_dict(),
        Ok(Dictionary::new()),
    );
    assert_eq!(Object::from_luaref(3).try_into_luaref(), Ok(3));
}

#[test]
fn tag_safety_mismatched_accessor_reports_both_tags() {
    let err = Object::from_integer(1).try_into_bool().unwrap_err();
    assert_eq!(
        err,
        FromObjectError::Primitive {
            expected: ObjectType::kObjectTypeBoolean,
            actual: ObjectType::kObjectTypeInteger,
        },
    );

    let err = Object::from_bool(false).try_into_string().unwrap_err();
    assert_eq!(
        err,
        FromObjectError::Primitive {
            expected: ObjectType::kObjectTypeString,
            actual: ObjectType::kObjectTypeBoolean,
        },
    );

    let err = Object::nil().try_into_integer().unwrap_err();
    assert_eq!(
        err,
        FromObjectError::Primitive {
            expected: ObjectType::kObjectTypeInteger,
            actual: ObjectType::kObjectTypeNil,
        },
    );

    let err = Object::from_array(Array::new()).try_into_dict().unwrap_err();
    assert_eq!(
        err,
        FromObjectError::Primitive {
            expected: ObjectType::kObjectTypeDictionary,
            actual: ObjectType::kObjectTypeArray,
        },
    );
}

#[test]
fn object_types_follow_payload() {
    assert_eq!(Object::from_bool(true).object_type(), ObjectType::kObjectTypeBoolean);
    assert_eq!(Object::from_integer(0).object_type(), ObjectType::kObjectTypeInteger);
    assert_eq!(Object::from_float_bits(0).object_type(), ObjectType::kObjectTypeFloat);
    assert_eq!(
        Object::from_nvim_string(NvimString::from_str("")).object_type(),
        ObjectType::kObjectTypeString,
    );
    assert_eq!(Object::from_array(Array::new()).object_type(), ObjectType::kObjectTypeArray);
    assert_eq!(
        Object::from_dictionary(Dictionary::new()).object_type(),
        ObjectType::kObjectTypeDictionary,
    );
    assert_eq!(Object::from_luaref(1).object_type(), ObjectType::kObjectTypeLuaRef);
}

#[test]
fn clone_deep_copies_payload() {
    let mut arr = Array::new();
    arr.push(Object::from_nvim_string(NvimString::from_str("deep")));
    arr.push(Object::from_integer(9));
    let obj = Object::from_array(arr);
    let copy = obj.clone();
    assert_eq!(obj, copy);

    let mut dict = Dictionary::new();
    dict.push(NvimString::from_str("k"), Object::from_bool(true));
    let obj = Object::from_dictionary(dict);
    assert_eq!(obj.clone(), obj);
}

#[test]
fn equality_compares_tag_then_payload() {
    assert_ne!(Object::from_integer(1), Object::from_bool(true));
    assert_ne!(Object::from_integer(1), Object::from_integer(2));
    assert_eq!(Object::from_integer(1), Object::from_integer(1));
    assert_ne!(Object::nil(), Object::from_bool(false));

    let a = Object::from_nvim_string(NvimString::from_bytes(vec![0xff]));
    let b = Object::from_nvim_string(NvimString::from_bytes(vec![0xff]));
    let c = Object::from_nvim_string(NvimString::from_bytes(vec![0xfe]));
    assert_eq!(a, b);
    assert_ne!(a, c);
}

#[test]
fn non_owning_object_view() {
    let obj = Object::from_integer(5);
    let view = obj.non_owning();
    assert_eq!(*view.borrowed(), Object::from_integer(5));
}

#[test]
fn error_equality_ignores_secondary_source() {
    let a = FromObjectError::secondary(
        ObjectType::kObjectTypeInteger,
        String::from("u8"),
        String::from("one cause"),
    );
    let b = FromObjectError::secondary(
        ObjectType::kObjectTypeInteger,
        String::from("u8"),
        String::from("another cause"),
    );
    assert_eq!(a, b);

    let c = FromObjectError::secondary(
        ObjectType::kObjectTypeInteger,
        String::from("u16"),
        String::from("one cause"),
    );
    assert_ne!(a, c);
}
