use messenger::method::{map_method, Method};
use messenger::utils;

#[test]
fn codes_name_their_methods() {
    assert_eq!(map_method("1"), Some(Method::Join));
    assert_eq!(map_method("2"), Some(Method::Send));
    assert_eq!(map_method("3"), Some(Method::PvtMsg));
}

#[test]
fn other_codes_name_nothing() {
    assert_eq!(map_method(""), None);
    assert_eq!(map_method("4"), None);
    assert_eq!(map_method("11"), None);
    assert_eq!(map_method(" 1"), None);
    assert_eq!(map_method("join"), None);
}

#[test]
fn string_codes_agree() {
    for code in ["1", "2", "3", "0", "", "12"] {
        assert_eq!(utils::map_method(&code.to_string()), map_method(code));
    }
}
