use si_trace_print::function_name::{function_name, function_name_full, function_name_plus};

fn func1() {
    let name = function_name("si_trace_print::function_name::tests::test_function_name::func1");
    println!("function_name \"{}\"", name);
    assert_eq!("func1", name);
}

#[test]
fn test_function_name() {
    func1();
    assert_eq!(
        "test_function_name",
        function_name("si_trace_print::function_name::tests::test_function_name")
    );
}

#[test]
fn test_function_name_function_name_plus0() {
    let path = "si_trace_print::function_name::tests::test_function_name_function_name_plus0";
    assert_eq!(function_name(path), function_name_plus(path, 0));
    assert_eq!(function_name_plus(path, 0), "test_function_name_function_name_plus0");
}

#[test]
fn function_name_test_function_name_plus0() {
    assert_eq!(
        "func1",
        function_name_plus("si_trace_print::function_name::tests::test_function_name_plus0::func1", 0)
    );
    assert_eq!(
        "test_function_name_plus0",
        function_name_plus("si_trace_print::function_name::tests::test_function_name_plus0", 0)
    );
    assert_eq!(
        "func1",
        function_name_plus(
            "si_trace_print::function_name::tests::more_tests::test_function_name_plus0::func1",
            0
        )
    );
    assert_eq!(
        "test_function_name_plus0",
        function_name_plus(
            "si_trace_print::function_name::tests::more_tests::test_function_name_plus0",
            0
        )
    );
}

#[test]
fn function_name_test_function_name_plus1() {
    assert_eq!(
        "test_function_name_plus1::func1",
        function_name_plus("si_trace_print::function_name::tests::test_function_name_plus1::func1", 1)
    );
    assert_eq!(
        "tests::test_function_name_plus1",
        function_name_plus("si_trace_print::function_name::tests::test_function_name_plus1", 1)
    );
    assert_eq!(
        "test_function_name_plus1::func1",
        function_name_plus(
            "si_trace_print::function_name::tests::more_tests::test_function_name_plus1::func1",
            1
        )
    );
    assert_eq!(
        "more_tests::test_function_name_plus1",
        function_name_plus(
            "si_trace_print::function_name::tests::more_tests::test_function_name_plus1",
            1
        )
    );
}

#[test]
fn function_name_test_function_name_plus2() {
    assert_eq!(
        "tests::test_function_name_plus2::func1",
        function_name_plus("si_trace_print::function_name::tests::test_function_name_plus2::func1", 2)
    );
    assert_eq!(
        "function_name::tests::test_function_name_plus2",
        function_name_plus("si_trace_print::function_name::tests::test_function_name_plus2", 2)
    );
    assert_eq!(
        "more_tests::test_function_name_plus2::func1",
        function_name_plus(
            "si_trace_print::function_name::tests::more_tests::test_function_name_plus2::func1",
            2
        )
    );
    assert_eq!(
        "tests::more_tests::test_function_name_plus2",
        function_name_plus(
            "si_trace_print::function_name::tests::more_tests::test_function_name_plus2",
            2
        )
    );
}

#[test]
fn test_function_name_full() {
    assert_eq!(
        "si_trace_print::function_name::tests::test_function_name_full::func1",
        function_name_full("si_trace_print::function_name::tests::test_function_name_full::func1::f")
    );
    assert_eq!(
        "si_trace_print::function_name::tests::test_function_name_full",
        function_name_full("si_trace_print::function_name::tests::test_function_name_full::f")
    );
}

#[test]
fn path_without_separator_is_whole() {
    assert_eq!(function_name("main"), "main");
    assert_eq!(function_name_plus("main", 3), "main");
    assert_eq!(function_name_full("f"), "f");
    assert_eq!(function_name(""), "");
}

#[test]
fn fewer_segments_than_asked_stops_at_first_separator() {
    assert_eq!(function_name_plus("a::b", 5), "b");
    assert_eq!(function_name_plus("a::b::c", 1), "b::c");
    assert_eq!(function_name_plus("a::b::c", 2), "b::c");
}

#[test]
fn separator_at_end_is_kept() {
    assert_eq!(function_name("a::"), "::");
    assert_eq!(function_name_full("a::b::"), "a::b");
}

#[test]
fn non_ascii_names() {
    assert_eq!(function_name("crate::stack::sñ"), "sñ");
    assert_eq!(function_name_plus("crate::stack::sñ", 1), "stack::sñ");
    assert_eq!(function_name_full("crate::→::f"), "crate::→");
}
