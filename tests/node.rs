use rclrs::node::{
    Node, NodeBuilder, NodeNameValidationError, NodeNamespaceValidationError, RMW_NAMESPACE_INVALID_CONTAINS_REPEATED_FORWARD_SLASH,
    RMW_NAMESPACE_INVALID_CONTAINS_UNALLOWED_CHARACTERS, RMW_NAMESPACE_INVALID_ENDS_WITH_FORWARD_SLASH,
    RMW_NAMESPACE_INVALID_IS_EMPTY_STRING, RMW_NAMESPACE_INVALID_NAME_TOKEN_STARTS_WITH_NUMBER,
    RMW_NAMESPACE_INVALID_NOT_ABSOLUTE, RMW_NAMESPACE_INVALID_TOO_LONG, RMW_NAMESPACE_VALID,
    RMW_NODE_NAME_INVALID_CONTAINS_UNALLOWED_CHARACTERS, RMW_NODE_NAME_INVALID_IS_EMPTY_STRING,
    RMW_NODE_NAME_INVALID_STARTS_WITH_NUMBER, RMW_NODE_NAME_INVALID_TOO_LONG, RMW_NODE_NAME_VALID,
    RMW_RET_OK,
};

fn with_nul(s: &str) -> Vec<u8> {
    let mut v = s.as_bytes().to_vec();
    v.push(0);
    v
}

#[test]
fn test_invalid_node_name_invalid_c_string() {
    let bytes: Vec<u8> = vec![65, 66, 0, 65, 66];
    let string = String::from_utf8_lossy(&bytes);
    if let Err(NodeNameValidationError::InvalidCString(_)) = Node::node_name_c_string(&string) {
        assert!(true)
    } else {
        assert!(false)
    }
}

#[test]
fn test_invalid_nodespace_invalid_c_string() {
    let bytes: Vec<u8> = vec![47, 65, 66, 0, 65, 66];
    let string = String::from_utf8_lossy(&bytes);
    if let Err(NodeNamespaceValidationError::InvalidCString(_)) =
        Node::node_namespace_c_string(&string)
    {
        assert!(true)
    } else {
        assert!(false)
    }
}

#[test]
fn c_string_reports_first_nul_position() {
    let s = String::from_utf8(vec![65, 66, 0, 65, 0]).unwrap();
    assert_eq!(Node::node_name_c_string(&s), Err(NodeNameValidationError::InvalidCString(2)));
    let ns = String::from_utf8(vec![0, 47]).unwrap();
    assert_eq!(
        Node::node_namespace_c_string(&ns),
        Err(NodeNamespaceValidationError::InvalidCString(0))
    );
}

#[test]
fn c_string_appends_terminator() {
    assert_eq!(Node::node_name_c_string("random_node_name"), Ok(with_nul("random_node_name")));
    assert_eq!(Node::node_name_c_string("node_name+something"), Ok(with_nul("node_name+something")));
    assert_eq!(Node::node_name_c_string(""), Ok(vec![0]));
    assert_eq!(Node::node_namespace_c_string("/namespace"), Ok(with_nul("/namespace")));
    let long = "A".repeat(1000);
    assert_eq!(Node::node_name_c_string(&long).map(|v| v.len()), Ok(1001));
}

#[test]
fn name_verdicts_map_native_codes() {
    assert_eq!(Node::node_name_verdict(RMW_RET_OK, RMW_NODE_NAME_VALID, 0), Some(Ok(())));
    assert_eq!(
        Node::node_name_verdict(RMW_RET_OK, RMW_NODE_NAME_INVALID_IS_EMPTY_STRING, 0),
        Some(Err(NodeNameValidationError::EmptyString))
    );
    assert_eq!(
        Node::node_name_verdict(RMW_RET_OK, RMW_NODE_NAME_INVALID_CONTAINS_UNALLOWED_CHARACTERS, 9),
        Some(Err(NodeNameValidationError::ContainsUnallowedCharacters(9)))
    );
    assert_eq!(
        Node::node_name_verdict(RMW_RET_OK, RMW_NODE_NAME_INVALID_STARTS_WITH_NUMBER, 0),
        Some(Err(NodeNameValidationError::StartsWithNumber))
    );
    assert_eq!(
        Node::node_name_verdict(RMW_RET_OK, RMW_NODE_NAME_INVALID_TOO_LONG, 0),
        Some(Err(NodeNameValidationError::IsTooLong))
    );
}

#[test]
fn name_verdict_rejects_native_faults() {
    assert_eq!(Node::node_name_verdict(1, RMW_NODE_NAME_VALID, 0), None);
    assert_eq!(Node::node_name_verdict(RMW_RET_OK, 5, 0), None);
}

#[test]
fn namespace_verdicts_map_native_codes() {
    assert_eq!(Node::node_namespace_verdict(RMW_RET_OK, RMW_NAMESPACE_VALID, 0), Some(Ok(())));
    assert_eq!(
        Node::node_namespace_verdict(RMW_RET_OK, RMW_NAMESPACE_INVALID_IS_EMPTY_STRING, 0),
        Some(Err(NodeNamespaceValidationError::EmptyString))
    );
    assert_eq!(
        Node::node_namespace_verdict(RMW_RET_OK, RMW_NAMESPACE_INVALID_NOT_ABSOLUTE, 0),
        Some(Err(NodeNamespaceValidationError::NotAbsolute))
    );
    assert_eq!(
        Node::node_namespace_verdict(RMW_RET_OK, RMW_NAMESPACE_INVALID_ENDS_WITH_FORWARD_SLASH, 17),
        Some(Err(NodeNamespaceValidationError::EndsWithForwardSlash))
    );
    assert_eq!(
        Node::node_namespace_verdict(
            RMW_RET_OK,
            RMW_NAMESPACE_INVALID_CONTAINS_UNALLOWED_CHARACTERS,
            5
        ),
        Some(Err(NodeNamespaceValidationError::ContainsUnallowedCharacters(5)))
    );
    assert_eq!(
        Node::node_namespace_verdict(
            RMW_RET_OK,
            RMW_NAMESPACE_INVALID_CONTAINS_REPEATED_FORWARD_SLASH,
            18
        ),
        Some(Err(NodeNamespaceValidationError::ContainsRepeatedForwardSlash(18)))
    );
    assert_eq!(
        Node::node_namespace_verdict(
            RMW_RET_OK,
            RMW_NAMESPACE_INVALID_NAME_TOKEN_STARTS_WITH_NUMBER,
            1
        ),
        Some(Err(NodeNamespaceValidationError::StartsWithNumber))
    );
    assert_eq!(
        Node::node_namespace_verdict(RMW_RET_OK, RMW_NAMESPACE_INVALID_TOO_LONG, 0),
        Some(Err(NodeNamespaceValidationError::IsTooLong))
    );
}

#[test]
fn namespace_verdict_rejects_native_faults() {
    assert_eq!(Node::node_namespace_verdict(11, RMW_NAMESPACE_VALID, 0), None);
    assert_eq!(Node::node_namespace_verdict(RMW_RET_OK, 8, 0), None);
}

#[test]
fn verdicts_are_repeatable() {
    let first = Node::node_name_verdict(RMW_RET_OK, RMW_NODE_NAME_INVALID_CONTAINS_UNALLOWED_CHARACTERS, 9);
    let second = Node::node_name_verdict(RMW_RET_OK, RMW_NODE_NAME_INVALID_CONTAINS_UNALLOWED_CHARACTERS, 9);
    assert_eq!(first, second);
    assert_eq!(Node::node_namespace_c_string("/a"), Node::node_namespace_c_string("/a"));
}

#[test]
fn builder_accepts_valid_name_and_namespace() {
    let b = NodeBuilder::default()
        .name("random_node_name".to_string(), RMW_RET_OK, RMW_NODE_NAME_VALID, 0)
        .unwrap()
        .namespace("/namespace".to_string(), RMW_RET_OK, RMW_NAMESPACE_VALID, 0)
        .unwrap()
        .enable_rosout(false);
    assert_eq!(b.get_name(), Some("random_node_name"));
    assert_eq!(b.get_namespace(), "/namespace");
    assert!(!b.get_options().enable_rosout);
    assert!(b.get_options().use_global_arguments);
}

#[test]
fn builder_defaults() {
    let b = NodeBuilder::default();
    assert_eq!(b.get_name(), None);
    assert_eq!(b.get_namespace(), "");
    assert!(b.get_options().enable_rosout);
}

#[test]
fn builder_rejects_invalid_name() {
    let r = NodeBuilder::default().name(
        "Invalid+Name".to_string(),
        RMW_RET_OK,
        RMW_NODE_NAME_INVALID_CONTAINS_UNALLOWED_CHARACTERS,
        7,
    );
    assert_eq!(r.err(), Some(NodeNameValidationError::ContainsUnallowedCharacters(7)));
}

#[test]
fn builder_rejects_name_with_nul_whatever_the_report() {
    let name = String::from_utf8(vec![65, 0, 66]).unwrap();
    let r = NodeBuilder::default().name(name, RMW_RET_OK, RMW_NODE_NAME_VALID, 0);
    assert_eq!(r.err(), Some(NodeNameValidationError::InvalidCString(1)));
}

#[test]
fn builder_rejects_invalid_namespace() {
    let r = NodeBuilder::default().namespace(
        "invalid_namespace".to_string(),
        RMW_RET_OK,
        RMW_NAMESPACE_INVALID_NOT_ABSOLUTE,
        0,
    );
    assert_eq!(r.err(), Some(NodeNamespaceValidationError::NotAbsolute));
}
