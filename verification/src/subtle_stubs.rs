//! `SubtleCrypto` operations with a crypto provider that does not support
//! them: each fails, after the argument checks that come first.
use vstd::prelude::*;
use crate::subtle::{
    is_buffer_source, view_in_bounds, BufferSourceProbe, SubtleError, SubtleOperation,
    WebCryptoBufferSource,
};
use crate::import_key::KeyFormat;

verus! {

/// `exportKey` with a provider that does not support it.
pub fn subtle_export_key() -> (e: SubtleError)
    ensures
        e == SubtleError::OperationNotSupported(SubtleOperation::ExportKey),
{
    SubtleError::OperationNotSupported(SubtleOperation::ExportKey)
}

/// `importKey` with a provider that does not support it: key data in a
/// binary format is still checked as a `BufferSource` first, and its error
/// wins.
pub fn subtle_import_key(format: KeyFormat, key_data: &BufferSourceProbe) -> (e: SubtleError)
    ensures
        !(format is Jwk) && !is_buffer_source(*key_data) ==> e is NotBufferSource,
        !(format is Jwk) && is_buffer_source(*key_data) && !view_in_bounds(key_data.range->0)
            ==> e is ViewOutsideBuffer,
        (format is Jwk || (is_buffer_source(*key_data) && view_in_bounds(key_data.range->0)))
            ==> e == SubtleError::OperationNotSupported(SubtleOperation::ImportKey),
{
    if format.takes_buffer_source() {
        if let Err(e) = WebCryptoBufferSource::from_js(key_data) {
            return e;
        }
    }
    SubtleError::OperationNotSupported(SubtleOperation::ImportKey)
}

/// `wrapKey` with a provider that does not support it, once the wrapping
/// algorithm has been read without error.
pub fn subtle_wrap_key() -> (e: SubtleError)
    ensures
        e == SubtleError::OperationNotSupported(SubtleOperation::WrapKey),
{
    SubtleError::OperationNotSupported(SubtleOperation::WrapKey)
}

/// `unwrapKey` with a provider that does not support it, once the unwrapping
/// algorithm has been read without error.
pub fn subtle_unwrap_key() -> (e: SubtleError)
    ensures
        e == SubtleError::OperationNotSupported(SubtleOperation::UnwrapKey),
{
    SubtleError::OperationNotSupported(SubtleOperation::UnwrapKey)
}

} // verus!
