use dapr::durabletask::add;
use dapr::durabletask::task::function_name_from_type_name;

// The type names below are the texts that the compiler gives to the function
// items of each case (a local function inside the test function).

#[test]
fn test_no_params() {
    let name = function_name_from_type_name("task_tests::test_no_params::test");

    assert_eq!(name, "test")
}

#[test]
fn test_params() {
    let name = function_name_from_type_name("task_tests::test_params::test");

    assert_eq!(name, "test")
}

#[test]
fn test_async_no_params() {
    let name = function_name_from_type_name("task_tests::test_async_no_params::test");

    assert_eq!(name, "test")
}

#[test]
fn test_async_params() {
    let name = function_name_from_type_name("task_tests::test_async_params::test");

    assert_eq!(name, "test")
}

#[test]
fn test_generic() {
    let name =
        function_name_from_type_name("task_tests::test_generic::test<alloc::string::String>");

    assert_eq!(name, "test")
}

#[test]
fn test_multi_generic() {
    let name = function_name_from_type_name(
        "task_tests::test_multi_generic::test<alloc::vec::Vec<&str>, i32>",
    );

    assert_eq!(name, "test")
}

#[test]
fn function_name_from_plain_paths() {
    assert_eq!(function_name_from_type_name("a::b::c"), "c");
    assert_eq!(function_name_from_type_name("plain"), "plain");
    assert_eq!(function_name_from_type_name("m::f<x::Y>"), "f");
    assert_eq!(function_name_from_type_name("a:::b"), ":b");
    assert_eq!(function_name_from_type_name("trailing::"), "");
}

#[test]
fn it_works() {
    let result = add(2, 2);
    assert_eq!(result, 4);
}

#[test]
fn short_names_hold_no_path_or_generics() {
    for full in [
        "a::b::c<d::e<f>>",
        "x<y::z>::w",
        "::::",
        "core::option::Option<alloc::string::String>",
        "plain",
    ] {
        let name = function_name_from_type_name(full);
        assert!(!name.contains("::"), "input {full:?}");
        assert!(!name.contains('<'), "input {full:?}");
    }
}
