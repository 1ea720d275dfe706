//! The bridge contract's error type, and the outside error types it carries.
use vstd::prelude::*;

verus! {

/// `cosmwasm_std::StdError`, carried through unread.
#[verifier::external_type_specification]
#[verifier::external_body]
pub struct ExStdError(cosmwasm_std::StdError);

/// `cosmwasm_std::OverflowError`, carried through unread.
#[verifier::external_type_specification]
#[verifier::external_body]
pub struct ExOverflowError(cosmwasm_std::OverflowError);

/// `cosmwasm_std::ConversionOverflowError`, carried through unread.
#[verifier::external_type_specification]
#[verifier::external_body]
pub struct ExConversionOverflowError(cosmwasm_std::ConversionOverflowError);

/// `cw_controllers::AdminError`, carried through unread.
#[verifier::external_type_specification]
#[verifier::external_body]
pub struct ExAdminError(cw_controllers::AdminError);

/// `cw_utils::PaymentError`, carried through unread.
#[verifier::external_type_specification]
#[verifier::external_body]
pub struct ExPaymentError(cw_utils::PaymentError);

/// `std::array::TryFromSliceError`, carried through unread.
#[verifier::external_type_specification]
#[verifier::external_body]
pub struct ExTryFromSliceError(std::array::TryFromSliceError);

/// What `cosmwasm_std::StdError::generic_err` builds from a message.
pub uninterp spec fn generic_error(msg: Seq<char>) -> cosmwasm_std::StdError;

/// What `cosmwasm_std::StdError::invalid_data_size` builds from the expected
/// and the actual length.
pub uninterp spec fn invalid_data_size_error(expected: usize, actual: usize) -> cosmwasm_std::StdError;

/// Calls `cosmwasm_std::StdError::generic_err`; the result is the value that
/// `generic_error` names for the message (a `GenericErr` holding it).
#[verifier::external_body]
pub(crate) fn std_generic_err(msg: &str) -> (e: cosmwasm_std::StdError)
    ensures
        e == generic_error(msg@),
{
    cosmwasm_std::StdError::generic_err(msg)
}

/// Calls `cosmwasm_std::StdError::invalid_data_size`; the result is the value
/// that `invalid_data_size_error` names for the two lengths.
#[verifier::external_body]
pub(crate) fn std_invalid_data_size(expected: usize, actual: usize) -> (e: cosmwasm_std::StdError)
    ensures
        e == invalid_data_size_error(expected, actual),
{
    cosmwasm_std::StdError::invalid_data_size(expected, actual)
}

/// Errors of the bridge contracts. The variants that wrap an error of a
/// crate whose types the library cannot hold (the TON cell and address
/// parsers) keep that error's message.
#[derive(Debug)]
pub enum ContractError {
    Std(cosmwasm_std::StdError),
    TonCellError(String),
    AdminError(cw_controllers::AdminError),
    Overflow(cosmwasm_std::OverflowError),
    Payment(cw_utils::PaymentError),
    ConversionOverflowError(cosmwasm_std::ConversionOverflowError),
    TryFromSliceError(std::array::TryFromSliceError),
    TonAddressParseError(String),
    Unauthorized {},
    NoFunds {},
    InvalidFund {},
    Expired {},
    NotExpired {},
    SendPacketExists {},
    InvalidSendPacketBoc {},
    ReceiveSeqDuplicated {},
    UnknownReplyId { id: u64 },
}

} // verus!
