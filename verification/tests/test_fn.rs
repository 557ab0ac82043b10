use boast::test_fn::{check_test_fn, src_attr, AttrError, AttrShape, AttrValue, ParamShape, TestFnError, TypeShape};

fn src_ident(name: &str) -> AttrShape {
    AttrShape::SrcNameValue(AttrValue::Ident(name.to_string()))
}

#[test]
fn a_slice_parameter_with_a_source_is_taken() {
    let params = vec![ParamShape::Typed(TypeShape::SliceRef, vec![src_ident("datasource")])];
    assert_eq!(check_test_fn(&params), Ok("datasource".to_string()));
}

#[test]
fn a_string_source_reads_as_its_identifier() {
    let attr = AttrShape::SrcNameValue(AttrValue::Str(Some("data_src".to_string())));
    assert_eq!(src_attr(&attr), Ok("data_src".to_string()));
    let bad = AttrShape::SrcNameValue(AttrValue::Str(None));
    assert_eq!(src_attr(&bad), Err(AttrError::InvalidIdentifier));
}

#[test]
fn the_last_source_counts() {
    let params = vec![ParamShape::Typed(TypeShape::SliceRef, vec![src_ident("a"), src_ident("b")])];
    assert_eq!(check_test_fn(&params), Ok("b".to_string()));
}

#[test]
fn refused_shapes_and_their_messages() {
    let cases: Vec<(Vec<ParamShape>, TestFnError, &str)> = vec![
        (vec![], TestFnError::NotOneParameter, "Test functions must take in exactly one parameter"),
        (
            vec![
                ParamShape::Typed(TypeShape::SliceRef, vec![src_ident("a")]),
                ParamShape::Typed(TypeShape::SliceRef, vec![src_ident("a")]),
            ],
            TestFnError::NotOneParameter,
            "Test functions must take in exactly one parameter",
        ),
        (vec![ParamShape::Receiver], TestFnError::InvalidArgument, "Invalid function argument"),
        (
            vec![ParamShape::Typed(TypeShape::NotRef, vec![src_ident("a")])],
            TestFnError::NotAReference,
            "Parameter must be a reference to a slice (&[T])",
        ),
        (
            vec![ParamShape::Typed(TypeShape::OtherRef, vec![src_ident("a")])],
            TestFnError::NotASlice,
            "Expected a slice [T]",
        ),
        (
            vec![ParamShape::Typed(TypeShape::SliceRef, vec![])],
            TestFnError::MissingSrc,
            "Test function parameter must have a #[src=\"...\"] attribute",
        ),
        (
            vec![ParamShape::Typed(TypeShape::SliceRef, vec![src_ident("a"), AttrShape::Other])],
            TestFnError::Attr(1, AttrError::UnknownAttribute),
            "Unknown attribute",
        ),
        (
            vec![ParamShape::Typed(TypeShape::SliceRef, vec![AttrShape::SrcOther, AttrShape::Other])],
            TestFnError::Attr(0, AttrError::NotNameValue),
            "Expected a name-value pair",
        ),
        (
            vec![ParamShape::Typed(TypeShape::SliceRef, vec![AttrShape::SrcNameValue(AttrValue::LongPath)])],
            TestFnError::Attr(0, AttrError::NotSimpleIdent),
            "Expected a simple identifier",
        ),
        (
            vec![ParamShape::Typed(TypeShape::SliceRef, vec![AttrShape::SrcNameValue(AttrValue::Other)])],
            TestFnError::Attr(0, AttrError::NotIdentOrString),
            "Expected an identifier or a string literal",
        ),
    ];
    for (params, err, text) in cases {
        let r = check_test_fn(&params);
        assert_eq!(r, Err(err));
        assert_eq!(err.message(), text);
    }
}
