use mm_errors::{new_error, new_result, try_opt, try_opt_ref, try_wrap, Error, ErrorKind, Inner};

#[test]
fn message_renders_as_single_element() {
    let e = Error::new("m", "a.rs", 3);
    assert_eq!(
        e.format_xml(),
        "<error><file>a.rs</file><line>3</line><reason>m</reason></error>"
    );
}

#[test]
fn new_records_the_call_site() {
    let e = Error::new("oops", "src/lib.rs", 42);
    assert_eq!(e.file, "src/lib.rs");
    assert_eq!(e.line, 42);
    match e.kind {
        ErrorKind::String(s) => assert_eq!(s, "oops"),
        ErrorKind::Wrapped(_) => panic!("a message cause was expected"),
    }
}

#[test]
fn line_zero_renders() {
    let e = Error::new("m", "a.rs", 0);
    assert_eq!(
        e.format_xml(),
        "<error><file>a.rs</file><line>0</line><reason>m</reason></error>"
    );
}

#[test]
fn largest_line_renders() {
    let e = Error::new("m", "a.rs", 4294967295);
    assert_eq!(
        e.format_xml(),
        "<error><file>a.rs</file><line>4294967295</line><reason>m</reason></error>"
    );
}

#[test]
fn wrapping_nests_the_prior_rendering_verbatim() {
    let e0 = Error::new("m0", "a.rs", 1);
    let inner_rendering = e0.format_xml();
    let e1 = Error::wrap(e0, "b.rs", 2);
    let expected = format!(
        "<error><file>b.rs</file><line>2</line><reason>{}</reason></error>",
        inner_rendering
    );
    assert_eq!(e1.format_xml(), expected);
}

fn level1() -> Result<u32, Error> {
    let parsed: Result<u32, String> = Err(String::from("invalid digit found in string"));
    Ok(try_wrap(parsed, "src/lib.rs", 10)?)
}

fn level2() -> Result<u32, Error> {
    let v = try_wrap(level1(), "src/lib.rs", 15)?;
    Ok(v)
}

fn level3() -> Result<u32, Error> {
    let v = try_wrap(level2(), "src/lib.rs", 20)?;
    Ok(v)
}

#[test]
fn three_level_propagation_renders_three_nested_elements() {
    let e = match level3() {
        Err(e) => e,
        Ok(_) => panic!("the chain always fails"),
    };
    let innermost =
        "<error><file>src/lib.rs</file><line>10</line><reason>invalid digit found in string</reason></error>";
    let middle = format!(
        "<error><file>src/lib.rs</file><line>15</line><reason>{}</reason></error>",
        innermost
    );
    let outer = format!(
        "<error><file>src/lib.rs</file><line>20</line><reason>{}</reason></error>",
        middle
    );
    assert_eq!(e.format_xml(), outer);
}

#[test]
fn try_wrap_passes_success_through() {
    let r: Result<u32, Error> = Ok(11);
    match try_wrap(r, "a.rs", 5) {
        Ok(v) => assert_eq!(v, 11),
        Err(_) => panic!("success must pass through unchanged"),
    }
}

#[test]
fn absence_becomes_a_leaf_failure() {
    let mut v: Vec<u32> = vec![];
    match try_opt(v.pop(), "Stack underflow!", "src/lib.rs", 11) {
        Err(e) => {
            assert_eq!(e.file, "src/lib.rs");
            assert_eq!(e.line, 11);
            assert!(matches!(e.kind, ErrorKind::String(_)));
            assert_eq!(
                e.format_xml(),
                "<error><file>src/lib.rs</file><line>11</line><reason>Stack underflow!</reason></error>"
            );
        }
        Ok(_) => panic!("an empty optional must fail"),
    }
}

#[test]
fn try_opt_yields_the_present_value() {
    match try_opt(Some(7u32), "unused", "a.rs", 1) {
        Ok(v) => assert_eq!(v, 7),
        Err(_) => panic!("a present value must be yielded"),
    }
}

#[test]
fn try_opt_ref_yields_a_reference() {
    let v = Some(String::from("hello"));
    match try_opt_ref(&v, "unused", "a.rs", 1) {
        Ok(s) => assert_eq!(s, "hello"),
        Err(_) => panic!("a present value must be yielded"),
    }
    let absent: Option<String> = None;
    match try_opt_ref(&absent, "gone", "a.rs", 2) {
        Err(e) => {
            assert_eq!(e.line, 2);
            assert_eq!(
                e.format_xml(),
                "<error><file>a.rs</file><line>2</line><reason>gone</reason></error>"
            );
        }
        Ok(_) => panic!("an absent value must fail"),
    }
}

#[test]
fn direct_failure_shorthand_renders_without_nesting() {
    let r: Result<u32, Error> = new_result("This function always returns error", "src/lib.rs", 10);
    match r {
        Err(e) => {
            assert_eq!(e.file, "src/lib.rs");
            assert_eq!(e.line, 10);
            assert_eq!(
                e.format_xml(),
                "<error><file>src/lib.rs</file><line>10</line><reason>This function always returns error</reason></error>"
            );
        }
        Ok(_) => panic!("the shorthand never succeeds"),
    }
}

#[test]
fn new_error_builds_a_leaf() {
    let e = new_error("leaf", "a.rs", 8);
    assert_eq!(e.file, "a.rs");
    assert_eq!(e.line, 8);
    assert!(matches!(e.kind, ErrorKind::String(_)));
}

#[test]
fn cause_is_absent_on_a_message_error() {
    let e = Error::new("leaf", "a.rs", 1);
    assert!(e.cause().is_none());
}

#[test]
fn cause_delegates_through_a_chain_of_depth_three() {
    let e0 = Error::new("leaf", "a.rs", 1);
    assert!(e0.cause().is_none());
    let e1 = Error::wrap(e0, "a.rs", 2);
    assert!(e1.cause().is_none());
    let e2 = Error::wrap(e1, "a.rs", 3);
    assert!(e2.cause().is_none());
}

#[test]
fn cause_returns_the_inner_errors_own_upstream() {
    let upstream = Inner::Opaque {
        text: String::from("root"),
        upstream: None,
    };
    let inner = Inner::Opaque {
        text: String::from("io failure"),
        upstream: Some(Box::new(upstream)),
    };
    let e = Error::wrap(inner, "a.rs", 4);
    match e.cause() {
        Some(c) => assert_eq!(c.display(), "root"),
        None => panic!("the inner error reports an upstream cause"),
    }
    // Not the inner error itself: its own text never shows up.
    assert_eq!(e.cause().unwrap().display(), "root");
}

#[test]
fn wrapping_a_plain_string_keeps_its_text() {
    let e = Error::wrap(String::from("disk full"), "b.rs", 7);
    assert_eq!(
        e.format_xml(),
        "<error><file>b.rs</file><line>7</line><reason>disk full</reason></error>"
    );
    assert!(e.cause().is_none());
}

#[test]
fn description_is_fixed() {
    let leaf = Error::new("m", "a.rs", 1);
    assert_eq!(leaf.description(), "font processing error");
    let wrapped = Error::wrap(leaf, "a.rs", 2);
    assert_eq!(wrapped.description(), "font processing error");
}
