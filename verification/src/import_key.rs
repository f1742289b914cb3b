//! What importing a key decides: how key data of each format is read, when
//! its bytes are copied, whether a JWK may be imported as extractable, and
//! which usages the key gets.
use vstd::prelude::*;
use crate::subtle::{
    is_buffer_source, snapshot_bytes, view_in_bounds, BufferSourceProbe, SubtleError,
    WebCryptoBufferSource,
};

verus! {

/// The format of key data handed to `importKey`.
#[derive(Clone, Copy, Debug, PartialEq, Eq, Structural)]
pub enum KeyFormat {
    Raw,
    Pkcs8,
    Spki,
    Jwk,
}

/// Whether an imported key is public, private or secret.
#[derive(Clone, Copy, Debug, PartialEq, Eq, Structural)]
pub enum KeyKind {
    Public,
    Private,
    Secret,
}

/// Key data once read, before the algorithm is normalised. Binary key data
/// holds no bytes yet: they are copied only after normalisation, by
/// `prepare_key_format_data`.
#[derive(Clone, Copy, Debug, PartialEq, Eq, Structural)]
pub enum ImportKeyData {
    Jwk,
    Raw(WebCryptoBufferSource),
    Spki(WebCryptoBufferSource),
    Pkcs8(WebCryptoBufferSource),
}

/// Key data with its bytes copied, ready for the key algorithm.
#[derive(Clone, Debug, PartialEq, Eq)]
pub enum KeyFormatData {
    Jwk,
    Raw(Vec<u8>),
    Spki(Vec<u8>),
    Pkcs8(Vec<u8>),
}

/// How key data in `format` is read: binary formats as a `BufferSource`,
/// a JWK as an object.
pub open spec fn read_key_data(format: KeyFormat, key_data: BufferSourceProbe) -> Result<
    ImportKeyData,
    SubtleError,
> {
    if format is Jwk {
        if key_data.is_object {
            Ok(ImportKeyData::Jwk)
        } else {
            Err(SubtleError::KeyDataNotObject)
        }
    } else if !is_buffer_source(key_data) {
        Err(SubtleError::NotBufferSource)
    } else if !view_in_bounds(key_data.range->0) {
        Err(SubtleError::ViewOutsideBuffer)
    } else {
        let source = WebCryptoBufferSource { range: key_data.range->0 };
        Ok(
            match format {
                KeyFormat::Raw => ImportKeyData::Raw(source),
                KeyFormat::Spki => ImportKeyData::Spki(source),
                _ => ImportKeyData::Pkcs8(source),
            },
        )
    }
}

/// The first step of `importKey`: reads the key data (before the algorithm
/// is normalised, as Web IDL converts arguments first). A JWK that is not an
/// object is a `TypeError`; binary key data is checked as a `BufferSource`.
pub fn subtle_import_key(format: KeyFormat, key_data: &BufferSourceProbe) -> (r: Result<
    ImportKeyData,
    SubtleError,
>)
    ensures
        r == read_key_data(format, *key_data),
        format is Raw && is_buffer_source(*key_data) && view_in_bounds(key_data.range->0) ==> r
            == Ok::<ImportKeyData, SubtleError>(
            ImportKeyData::Raw(WebCryptoBufferSource { range: key_data.range->0 }),
        ),
        format is Spki && is_buffer_source(*key_data) && view_in_bounds(key_data.range->0) ==> r
            == Ok::<ImportKeyData, SubtleError>(
            ImportKeyData::Spki(WebCryptoBufferSource { range: key_data.range->0 }),
        ),
        format is Pkcs8 && is_buffer_source(*key_data) && view_in_bounds(key_data.range->0) ==> r
            == Ok::<ImportKeyData, SubtleError>(
            ImportKeyData::Pkcs8(WebCryptoBufferSource { range: key_data.range->0 }),
        ),
{
    match format {
        KeyFormat::Jwk => {
            if key_data.is_object {
                Ok(ImportKeyData::Jwk)
            } else {
                Err(SubtleError::KeyDataNotObject)
            }
        },
        KeyFormat::Raw => match WebCryptoBufferSource::from_js(key_data) {
            Ok(source) => Ok(ImportKeyData::Raw(source)),
            Err(e) => Err(e),
        },
        KeyFormat::Spki => match WebCryptoBufferSource::from_js(key_data) {
            Ok(source) => Ok(ImportKeyData::Spki(source)),
            Err(e) => Err(e),
        },
        KeyFormat::Pkcs8 => match WebCryptoBufferSource::from_js(key_data) {
            Ok(source) => Ok(ImportKeyData::Pkcs8(source)),
            Err(e) => Err(e),
        },
    }
}

/// Key data accepted as a `BufferSource` is read as data of the requested
/// format, over the probe's range, whatever kind of `BufferSource` it is (an
/// `ArrayBuffer` or a view); a JWK is read as a JWK exactly when it is an
/// object; binary data that is no `BufferSource`, or a view past its
/// buffer's end, is refused with the matching error.
pub proof fn lemma_key_data_keeps_its_format(format: KeyFormat, p: BufferSourceProbe)
    ensures
        !(format is Jwk) && is_buffer_source(p) && view_in_bounds(p.range->0) ==> ({
            let source = WebCryptoBufferSource { range: p.range->0 };
            read_key_data(format, p) == Ok::<ImportKeyData, SubtleError>(
                match format {
                    KeyFormat::Raw => ImportKeyData::Raw(source),
                    KeyFormat::Spki => ImportKeyData::Spki(source),
                    KeyFormat::Pkcs8 => ImportKeyData::Pkcs8(source),
                    KeyFormat::Jwk => ImportKeyData::Jwk,
                },
            )
        }),
        format is Jwk ==> (read_key_data(format, p) is Ok <==> p.is_object),
        format is Jwk && p.is_object ==> read_key_data(format, p) == Ok::<
            ImportKeyData,
            SubtleError,
        >(ImportKeyData::Jwk),
        !(format is Jwk) && !is_buffer_source(p) ==> read_key_data(format, p) matches Err(
            SubtleError::NotBufferSource,
        ),
        !(format is Jwk) && is_buffer_source(p) && !view_in_bounds(p.range->0) ==> read_key_data(
            format,
            p,
        ) matches Err(SubtleError::ViewOutsideBuffer),
{
}

/// The second step of `importKey`, once the algorithm is normalised: the
/// bytes of binary key data are copied now, from `buffer`, the backing
/// buffer as it is at this moment.
pub fn prepare_key_format_data(data: ImportKeyData, buffer: Option<&[u8]>) -> (r: KeyFormatData)
    ensures
        data is Jwk ==> r is Jwk,
        data matches ImportKeyData::Raw(s) ==> (r matches KeyFormatData::Raw(b) && b@
            == snapshot_bytes(s.range, buffer)),
        data matches ImportKeyData::Spki(s) ==> (r matches KeyFormatData::Spki(b) && b@
            == snapshot_bytes(s.range, buffer)),
        data matches ImportKeyData::Pkcs8(s) ==> (r matches KeyFormatData::Pkcs8(b) && b@
            == snapshot_bytes(s.range, buffer)),
{
    match data {
        ImportKeyData::Jwk => KeyFormatData::Jwk,
        ImportKeyData::Raw(s) => KeyFormatData::Raw(s.snapshot(buffer)),
        ImportKeyData::Spki(s) => KeyFormatData::Spki(s.snapshot(buffer)),
        ImportKeyData::Pkcs8(s) => KeyFormatData::Pkcs8(s.snapshot(buffer)),
    }
}

impl KeyFormat {
    /// Whether key data in this format is read as a `BufferSource` (raw,
    /// PKCS #8 and SPKI) rather than as a JWK object.
    pub fn takes_buffer_source(&self) -> (b: bool)
        ensures
            b == !(*self is Jwk),
    {
        match self {
            KeyFormat::Jwk => false,
            _ => true,
        }
    }
}

/// Refuses to import an extractable key from a JWK whose `ext` member is
/// `false`, with a `DataError`.
pub fn check_jwk_extractable(extractable: bool, format: KeyFormat, jwk_ext: Option<bool>) -> (r:
    Result<(), SubtleError>)
    ensures
        (extractable && format is Jwk && jwk_ext == Some(false)) ==> r matches Err(
            SubtleError::JwkNotExtractable,
        ),
        !(extractable && format is Jwk && jwk_ext == Some(false)) ==> r is Ok,
{
    if extractable {
        if let KeyFormat::Jwk = format {
            if let Some(false) = jwk_ext {
                return Err(SubtleError::JwkNotExtractable);
            }
        }
    }
    Ok(())
}

/// The usages that an imported key gets: the public ones for a public or
/// secret key, the private ones for a private key.
pub fn key_usages_for_kind<T>(kind: KeyKind, public_usages: T, private_usages: T) -> (r: T)
    ensures
        r == if kind is Private {
            private_usages
        } else {
            public_usages
        },
{
    match kind {
        KeyKind::Public | KeyKind::Secret => public_usages,
        KeyKind::Private => private_usages,
    }
}

} // verus!
