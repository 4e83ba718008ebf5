//! Tests of the ancillary-data decoder.

use ptyrelay::ancillary::{extract_descriptor, ControlData};
use ptyrelay::errors::ProtocolError;

#[test]
fn no_control_message_is_missing_data() {
    let r = extract_descriptor(Vec::new());
    assert!(matches!(r, Err(ProtocolError::MissingAncillaryData)));
}

#[test]
fn non_rights_message_is_unexpected_kind() {
    let r = extract_descriptor(vec![ControlData::OtherKind]);
    assert!(matches!(r, Err(ProtocolError::UnexpectedMessageKind)));
}

#[test]
fn empty_rights_list_is_unexpected_kind() {
    let r = extract_descriptor(vec![ControlData::Rights(Vec::new())]);
    assert!(matches!(r, Err(ProtocolError::UnexpectedMessageKind)));
}

#[test]
fn single_descriptor_is_returned() {
    let rec = extract_descriptor(vec![ControlData::Rights(vec![5])]).unwrap();
    assert_eq!(rec.fd.raw(), 5);
    assert_eq!(rec.extra.len(), 0);
}

#[test]
fn surplus_descriptors_are_returned_for_closing() {
    let rec = extract_descriptor(vec![ControlData::Rights(vec![5, 6, 7])]).unwrap();
    assert_eq!(rec.fd.raw(), 5);
    let ids: Vec<i32> = rec.extra.iter().map(|d| d.raw()).collect();
    assert_eq!(ids, vec![6, 7]);
}

#[test]
fn only_the_first_message_is_examined() {
    let r = extract_descriptor(vec![ControlData::OtherKind, ControlData::Rights(vec![3])]);
    assert!(matches!(r, Err(ProtocolError::UnexpectedMessageKind)));
}

#[test]
fn error_messages_name_the_failure() {
    assert_eq!(
        ProtocolError::MissingAncillaryData.message(),
        "no ancillary control message was received"
    );
    assert_eq!(
        ProtocolError::UnexpectedMessageKind.message(),
        "control message was empty or not a rights message"
    );
}
