//! Target item ID list decoding: budgets, terminators, and extent
//! closure.

use lnk::Error;
use lnk::LinkTargetIdList;

#[test]
fn two_items_and_terminator() {
    // Declared length 10: item of 5 (3 data bytes), item of 3 (1 data
    // byte), terminator.
    let mut data = vec![10, 0];
    data.extend_from_slice(&[5, 0, 1, 2, 3]);
    data.extend_from_slice(&[3, 0, 9]);
    data.extend_from_slice(&[0, 0]);
    let (list, end) = LinkTargetIdList::read(&data, 0).unwrap();
    assert_eq!(list.size, 10);
    assert_eq!(list.id_list().len(), 2);
    assert_eq!(*list.id_list()[0].size(), 5);
    assert_eq!(list.id_list()[0].data(), &vec![1, 2, 3]);
    assert_eq!(list.id_list()[1].data(), &vec![9]);
    assert_eq!(end, 2 + 10);
}

#[test]
fn early_terminator_still_consumes_declared_length() {
    // The terminator comes immediately, but the declared length is 6:
    // the remaining four bytes are skipped and the cursor lands past
    // them.
    let data = vec![6, 0, 0, 0, 0xaa, 0xbb, 0xcc, 0xdd];
    let (list, end) = LinkTargetIdList::read(&data, 0).unwrap();
    assert_eq!(list.id_list().len(), 0);
    assert_eq!(end, 8);
}

#[test]
fn missing_terminator_fails() {
    // One item of 5 exhausts the budget of 5: no room for a terminator.
    let data = vec![5, 0, 5, 0, 1, 2, 3];
    assert_eq!(LinkTargetIdList::read(&data, 0).unwrap_err(), Error::TruncatedIdList);
}

#[test]
fn undersized_item_fails() {
    // A non-terminal item must declare a size above 2.
    let data = vec![4, 0, 2, 0, 0, 0];
    assert_eq!(LinkTargetIdList::read(&data, 0).unwrap_err(), Error::TruncatedIdList);
}

#[test]
fn item_overdrawing_budget_fails() {
    let data = vec![4, 0, 9, 0, 1, 1, 1, 1, 1, 1, 1];
    assert_eq!(LinkTargetIdList::read(&data, 0).unwrap_err(), Error::TruncatedIdList);
}

#[test]
fn declared_length_beyond_input_fails() {
    let data = vec![9, 0, 0, 0];
    assert_eq!(LinkTargetIdList::read(&data, 0).unwrap_err(), Error::TruncatedIdList);
}

#[test]
fn item_round_trips_to_bytes() {
    let data = vec![7, 0, 5, 0, 7, 8, 9, 0, 0];
    let (list, _) = LinkTargetIdList::read(&data, 0).unwrap();
    let item = &list.id_list()[0];
    assert_eq!(item.to_bytes(), vec![5, 0, 7, 8, 9]);
}
