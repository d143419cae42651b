use nvim_oxi::{Array, Dictionary, NvimString, Object};

#[test]
fn iter_basic() {
    let array = Array::from_objects(vec![
        Object::from("Foo"),
        Object::from("Bar"),
        Object::from("Baz"),
    ]);

    let mut iter = array.into_iter();
    assert_eq!(Some(Object::from("Foo")), iter.next());
    assert_eq!(Some(Object::from("Bar")), iter.next());
    assert_eq!(Some(Object::from("Baz")), iter.next());
    assert_eq!(None, iter.next());
}

#[test]
fn drop_iter_halfway() {
    let array = Array::from_objects(vec![
        Object::from("Foo"),
        Object::from("Bar"),
        Object::from("Baz"),
    ]);

    let mut iter = array.into_iter();
    assert_eq!(Some(Object::from("Foo")), iter.next());
}

#[test]
fn from_objects_drops_nil_entries() {
    let array = Array::from_objects(vec![
        Object::from_integer(1),
        Object::nil(),
        Object::from_integer(2),
    ]);
    assert_eq!(array.len(), 2);

    let mut iter = array.into_iter();
    assert_eq!(Some(Object::from_integer(1)), iter.next());
    assert_eq!(Some(Object::from_integer(2)), iter.next());
    assert_eq!(None, iter.next());
}

#[test]
fn from_objects_all_nil_degenerates_to_empty() {
    let array = Array::from_objects(vec![Object::nil(), Object::nil()]);
    assert!(array.is_empty());
}

#[test]
fn from_vec_keeps_every_element() {
    let array = Array::from_vec(vec![Object::nil(), Object::from_integer(1)]);
    assert_eq!(array.len(), 2);
}

#[test]
fn partial_iteration_leaves_rest_owned() {
    let mut array = Array::new();
    let mut k: u8 = 0;
    while k < 5 {
        array.push(Object::from_nvim_string(NvimString::from_bytes(vec![k, 0, 0xff])));
        k += 1;
    }
    assert_eq!(array.len(), 5);

    let mut iter = array.into_iter();
    let first = iter.next().unwrap();
    let second = iter.next().unwrap();
    assert_eq!(first, Object::from_nvim_string(NvimString::from_bytes(vec![0, 0, 0xff])));
    assert_eq!(second, Object::from_nvim_string(NvimString::from_bytes(vec![1, 0, 0xff])));
    assert_eq!(iter.len(), 3);
    drop(iter);
    drop(first);
    drop(second);
}

#[test]
fn dictionary_lookup_returns_first_match() {
    let mut dict = Dictionary::new();
    dict.push(NvimString::from_str("k"), Object::from_integer(1));
    dict.push(NvimString::from_str("other"), Object::from_integer(2));
    dict.push(NvimString::from_str("k"), Object::from_integer(3));
    assert_eq!(dict.len(), 3);

    let found = dict.get(&NvimString::from_str("k")).unwrap();
    assert_eq!(*found, Object::from_integer(1));

    assert!(dict.get(&NvimString::from_str("missing")).is_none());
}

#[test]
fn dictionary_clone_and_equality() {
    let mut dict = Dictionary::new();
    dict.push(NvimString::from_str("a"), Object::from_bool(true));
    let copy = dict.clone();
    assert_eq!(dict, copy);

    let mut other = Dictionary::new();
    other.push(NvimString::from_str("a"), Object::from_bool(false));
    assert_ne!(dict, other);
}

#[test]
fn array_equality_is_elementwise() {
    let a = Array::from_vec(vec![Object::from_integer(1), Object::from_integer(2)]);
    let b = Array::from_vec(vec![Object::from_integer(1), Object::from_integer(2)]);
    let c = Array::from_vec(vec![Object::from_integer(2), Object::from_integer(1)]);
    assert_eq!(a, b);
    assert_ne!(a, c);
}
