//! Decoding of 32-byte hashes and node ids from the raw bytes of messages.
use vstd::prelude::*;
use crate::error::{generic_error, invalid_data_size_error, std_generic_err, std_invalid_data_size};

verus! {

/// A 32-byte value: a block's root or file hash, a validator's node id, or
/// one half of a signature.
pub type Bytes32 = [u8; 32];

/// Calls `<[u8; 32]>::try_from` on a slice, which succeeds exactly when the
/// slice holds 32 bytes and then copies them.
#[verifier::external_body]
fn slice_to_array32(bytes: &[u8]) -> (res: Result<[u8; 32], std::array::TryFromSliceError>)
    ensures
        res is Ok <==> bytes@.len() == 32,
        res matches Ok(a) ==> a@ == bytes@,
{
    <[u8; 32]>::try_from(bytes)
}

/// Decodes the 32 bytes of a hash or id. Any other length is refused with
/// `StdError::invalid_data_size(32, len)`.
pub fn to_bytes32(data: &[u8]) -> (res: Result<Bytes32, cosmwasm_std::StdError>)
    ensures
        res is Ok <==> data@.len() == 32,
        res matches Ok(a) ==> a@ == data@,
        res matches Err(e) ==> e == invalid_data_size_error(32, data@.len() as usize),
{
    if data.len() != 32 {
        return Err(std_invalid_data_size(32, data.len()));
    }
    let mut out: [u8; 32] = [0u8; 32];
    let mut i: usize = 0;
    while i < 32
        invariant
            i <= 32,
            data@.len() == 32,
            forall|j: int| 0 <= j < i ==> #[trigger] out@[j] == data@[j],
        decreases 32 - i,
    {
        out[i] = data[i];
        i = i + 1;
    }
    assert(out@ =~= data@);
    Ok(out)
}

/// Decodes the root hash of a block-verification query the way the query
/// does it: a slice-to-array conversion whose failure is reported as a
/// generic error carrying the text that the conversion error displays.
pub fn root_hash_from_slice(data: &[u8]) -> (res: Result<Bytes32, cosmwasm_std::StdError>)
    ensures
        res is Ok <==> data@.len() == 32,
        res matches Ok(a) ==> a@ == data@,
        res matches Err(e) ==> exists|err: std::array::TryFromSliceError, text: String|
            vstd::string::to_string_from_display_ensures(&err, text) && e == generic_error(text@),
{
    match slice_to_array32(data) {
        Ok(a) => Ok(a),
        Err(err) => {
            let msg = err.to_string();
            Err(std_generic_err(msg.as_str()))
        },
    }
}

} // verus!
