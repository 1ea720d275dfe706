use cosmwasm_std::StdError;
use tonbridge::hash::{root_hash_from_slice, to_bytes32};

#[test]
fn to_bytes32_accepts_exactly_32_bytes() {
    let data: Vec<u8> = (0..32).collect();
    let a = to_bytes32(&data).unwrap();
    assert_eq!(a.to_vec(), data);
}

#[test]
fn to_bytes32_refuses_short_input() {
    let err = to_bytes32(&[1, 2, 3]).unwrap_err();
    assert_eq!(err, StdError::invalid_data_size(32, 3));
    assert_eq!(err.to_string(), "Invalid data size: expected=32 actual=3");
}

#[test]
fn to_bytes32_refuses_long_input() {
    let data = vec![7u8; 33];
    assert_eq!(to_bytes32(&data).unwrap_err(), StdError::invalid_data_size(32, 33));
}

#[test]
fn to_bytes32_refuses_empty_input() {
    assert_eq!(to_bytes32(&[]).unwrap_err(), StdError::invalid_data_size(32, 0));
}

#[test]
fn root_hash_from_slice_copies_bytes() {
    let data: Vec<u8> = (100..132).collect();
    assert_eq!(root_hash_from_slice(&data).unwrap().to_vec(), data);
}

#[test]
fn root_hash_from_slice_reports_generic_error() {
    let err = root_hash_from_slice(&[0u8; 31]).unwrap_err();
    assert_eq!(err, StdError::generic_err("could not convert slice to array"));
}
