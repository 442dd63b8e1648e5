use aicc_core::logging::data_types::TypeInfo;

#[test]
fn it_provides_type_info_for_i32() {
    assert_eq!("int", i32::type_str());
}

#[test]
fn it_provides_type_info_for_bool() {
    assert_eq!("bool", bool::type_str());
}
