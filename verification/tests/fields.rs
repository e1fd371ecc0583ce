use polygon_io_client_rust::fields::{bool_or_false, i32_or_zero, list_or_empty, string_or_empty};

#[test]
fn a_field_that_is_there_reads_as_its_value() {
    assert_eq!(string_or_empty(Some("OK".to_string())), "OK");
    assert_eq!(string_or_empty(Some(String::new())), "");
    assert!(bool_or_false(Some(true)));
    assert!(!bool_or_false(Some(false)));
    assert_eq!(i32_or_zero(Some(7)), 7);
    assert_eq!(i32_or_zero(Some(i32::MIN)), i32::MIN);
    assert_eq!(list_or_empty(Some(vec![1u8, 2, 3])), vec![1u8, 2, 3]);
}

#[test]
fn a_field_that_is_not_there_reads_as_zero() {
    assert_eq!(string_or_empty(None), "");
    assert!(!bool_or_false(None));
    assert_eq!(i32_or_zero(None), 0);
    assert_eq!(list_or_empty::<String>(None), Vec::<String>::new());
}
