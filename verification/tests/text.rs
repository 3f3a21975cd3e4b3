use irbisfs::protocol::text::{decimal, digit_str, hex, join2, join3};
use irbisfs::protocol::workflow::{ProtocolVersion, WorkflowError};

#[test]
fn decimal_numbers() {
    assert_eq!(decimal(0), "0");
    assert_eq!(decimal(7), "7");
    assert_eq!(decimal(10), "10");
    assert_eq!(decimal(16_777_217), "16777217");
    assert_eq!(decimal(u64::MAX), "18446744073709551615");
}

#[test]
fn hexadecimal_keeps_leading_zeros() {
    assert_eq!(hex(&[]), "");
    assert_eq!(hex(&[0x00, 0x0a, 0xff, 0x10]), "000aff10");
    assert_eq!(digit_str(11), "b");
}

#[test]
fn joined_texts() {
    assert_eq!(join2("ab", "cd"), "abcd");
    assert_eq!(join3("a", "", "c"), "ac");
}

#[test]
fn workflow_error_displays_as_its_debug_form() {
    assert_eq!(WorkflowError::UnknownCode.to_string(), "UnknownCode");
    assert_eq!(WorkflowError::ConnectionError.to_string(), "ConnectionError");
    let error = WorkflowError::ProtocolError("say \"hi\"\n".to_owned());
    assert_eq!(error.to_string(), "ProtocolError(\"say \\\"hi\\\"\\n\")");
    assert_eq!(error.to_string(), format!("{:?}", error));
    let error = WorkflowError::Exception("plain".to_owned());
    assert_eq!(error.to_string(), "Exception(\"plain\")");
}

#[test]
fn versions_are_ordered_by_major_minor_patch() {
    assert!(ProtocolVersion::new(1, 0, 0) == ProtocolVersion(1, 0, 0));
    assert!(ProtocolVersion::new(1, 0, 0) < ProtocolVersion::new(1, 0, 1));
    assert!(ProtocolVersion::new(1, 9, 9) < ProtocolVersion::new(2, 0, 0));
    assert!(ProtocolVersion::new(1, 2, 0) > ProtocolVersion::new(1, 1, 65535));
    assert!(ProtocolVersion::new(3, 2, 1) >= ProtocolVersion::new(3, 2, 1));
    assert!(ProtocolVersion::new(0, 0, 1) != ProtocolVersion::new(0, 1, 0));
}

#[test]
fn version_export() {
    assert_eq!(ProtocolVersion::new(1, 2, 0x0304).export(), vec![1, 2, 3, 4]);
}
