//! The decisions of WebCrypto's `SubtleCrypto` helpers: the errors they
//! raise, the checks on a `BufferSource`, the hash of an RSA key, the shape
//! of an algorithm identifier, and what importing a key reads.
use vstd::prelude::*;
use sha2::Digest;

verus! {

/// The `SubtleCrypto` interface object. Script cannot construct it.
#[derive(Clone, Copy, Debug, PartialEq, Eq, Structural)]
pub struct SubtleCrypto {}

/// A named elliptic curve.
#[derive(Clone, Copy, Debug, PartialEq, Eq, Structural)]
pub enum EllipticCurve {
    P256,
    P384,
    P521,
}

/// How a key is used by an AES operation: plain encryption, or key wrapping
/// with the given padding byte.
#[derive(Clone, Copy, Debug, PartialEq, Eq, Structural)]
pub enum EncryptionMode {
    Encryption,
    Wrapping(u8),
}

/// The digest algorithms of WebCrypto.
#[derive(Clone, Copy, Debug, PartialEq, Eq, Structural)]
pub enum HashAlgorithm {
    Sha1,
    Sha256,
    Sha384,
    Sha512,
}

/// The operations that a crypto provider without full `SubtleCrypto`
/// support refuses.
#[derive(Clone, Copy, Debug, PartialEq, Eq, Structural)]
pub enum SubtleOperation {
    ExportKey,
    ImportKey,
    WrapKey,
    UnwrapKey,
}

/// The errors that the `SubtleCrypto` helpers raise.
#[derive(Clone, Debug)]
pub enum SubtleError {
    /// `TypeError`: the interface cannot be constructed from script.
    IllegalConstructor,
    /// `TypeError`: the value is neither an `ArrayBuffer` nor a view of one.
    NotBufferSource,
    /// `TypeError`: the view reaches past the end of its buffer.
    ViewOutsideBuffer,
    /// `DOMException` `TypeMismatchError`: the key belongs to another algorithm.
    AlgorithmMismatch { expected_algorithm: String },
    /// `DOMException` `NotSupportedError`: the algorithm is not supported.
    AlgorithmNotSupported,
    /// `DOMException` `InvalidAccessError`: the key may not be used with this algorithm.
    AlgorithmInvalidAccess { expected_algorithm: String },
    /// `Error`: an RSA key whose hash is not SHA-256, SHA-384 or SHA-512.
    UnsupportedRsaHash,
    /// `Error`: an algorithm identifier that is neither a string nor an object.
    AlgorithmNotStringOrObject,
    /// Conversion error: the algorithm identifier is a string, not an object.
    AlgorithmNotObject,
    /// `TypeError`: JWK key data is not an object.
    KeyDataNotObject,
    /// `DOMException` `DataError`: the JWK says it may not be extracted.
    JwkNotExtractable,
    /// `Error`: the crypto provider does not support the operation.
    OperationNotSupported(SubtleOperation),
}

/// Where a view lies in its buffer: the buffer's length in bytes, and the
/// view's length and offset.
#[derive(Clone, Copy, Debug, PartialEq, Eq, Structural)]
pub struct ViewRange {
    pub buffer_len: usize,
    pub length: usize,
    pub offset: usize,
}

/// What the embedder found out about a value offered as a `BufferSource`:
/// whether it is an object, an `ArrayBuffer`, an `ArrayBuffer` view, and,
/// where its bytes could be reached, where they lie.
#[derive(Clone, Copy, Debug, PartialEq, Eq, Structural)]
pub struct BufferSourceProbe {
    pub is_object: bool,
    pub is_array_buffer: bool,
    pub is_view: bool,
    pub range: Option<ViewRange>,
}

/// A value accepted as a WebCrypto `BufferSource`; its bytes stay with the
/// embedder until they are copied.
#[derive(Clone, Copy, Debug, PartialEq, Eq, Structural)]
pub struct WebCryptoBufferSource {
    pub range: ViewRange,
}

/// An algorithm identifier as script gives it: a name, an object with a
/// `name` member (already read), or anything else.
#[derive(Clone, Debug)]
pub enum AlgorithmIdentifier {
    Name(String),
    Object { name: String },
    Other,
}

/// The message that `expected_algorithm` errors carry.
pub open spec fn key_algorithm_message(expected: Seq<char>) -> Seq<char> {
    "Key algorithm must be "@ + expected
}

/// Whether the probe shows a value that may be read as a `BufferSource`.
pub open spec fn is_buffer_source(p: BufferSourceProbe) -> bool {
    p.is_object && (p.is_array_buffer || p.is_view) && p.range is Some
}

/// Whether a view lies inside its buffer: its end (computed without
/// overflow) does not pass the buffer's end.
pub open spec fn view_in_bounds(r: ViewRange) -> bool {
    r.offset + r.length <= r.buffer_len
}

/// The bytes that a view over `range` shows in a buffer holding `buffer`.
pub open spec fn snapshot_bytes(range: ViewRange, buffer: Option<&[u8]>) -> Seq<u8> {
    match buffer {
        Some(b) => if range.offset + range.length <= b@.len() {
            b@.subrange(range.offset as int, range.offset + range.length)
        } else {
            Seq::empty()
        },
        None => Seq::empty(),
    }
}

/// A snapshot holds exactly the bytes that the view shows, at every offset:
/// as many as the view's length, the `i`-th being the buffer's byte at the
/// view's offset plus `i`; and nothing when the buffer is gone or no longer
/// reaches the view's end.
pub proof fn lemma_snapshot_is_the_view(range: ViewRange, buffer: Option<&[u8]>)
    ensures
        buffer is Some && range.offset + range.length <= buffer->0@.len() ==> (snapshot_bytes(
            range,
            buffer,
        ).len() == range.length && forall|i: int|
            0 <= i < range.length ==> #[trigger] snapshot_bytes(range, buffer)[i]
                == buffer->0@[range.offset + i]),
        !(buffer is Some && range.offset + range.length <= buffer->0@.len()) ==> snapshot_bytes(
            range,
            buffer,
        ).len() == 0,
{
}

/// The length in bytes of a digest under `hash`.
pub open spec fn digest_len(hash: HashAlgorithm) -> nat {
    match hash {
        HashAlgorithm::Sha1 => 20,
        HashAlgorithm::Sha256 => 32,
        HashAlgorithm::Sha384 => 48,
        HashAlgorithm::Sha512 => 64,
    }
}

/// SHA-256 of `data`.
pub uninterp spec fn sha256(data: Seq<u8>) -> Seq<u8>;

/// SHA-384 of `data`.
pub uninterp spec fn sha384(data: Seq<u8>) -> Seq<u8>;

/// SHA-512 of `data`.
pub uninterp spec fn sha512(data: Seq<u8>) -> Seq<u8>;

/// The digest of `data` under the hash of an RSA key.
pub open spec fn rsa_digest(hash: HashAlgorithm, data: Seq<u8>) -> Seq<u8> {
    match hash {
        HashAlgorithm::Sha256 => sha256(data),
        HashAlgorithm::Sha384 => sha384(data),
        _ => sha512(data),
    }
}

/// `sha2::Sha256::digest`: the SHA-256 digest of `data`, 32 bytes long.
#[verifier::external_body]
fn sha256_digest(data: &[u8]) -> (r: Vec<u8>)
    ensures
        r@ == sha256(data@),
        r@.len() == 32,
{
    sha2::Sha256::digest(data).to_vec()
}

/// `sha2::Sha384::digest`: the SHA-384 digest of `data`, 48 bytes long.
#[verifier::external_body]
fn sha384_digest(data: &[u8]) -> (r: Vec<u8>)
    ensures
        r@ == sha384(data@),
        r@.len() == 48,
{
    sha2::Sha384::digest(data).to_vec()
}

/// `sha2::Sha512::digest`: the SHA-512 digest of `data`, 64 bytes long.
#[verifier::external_body]
fn sha512_digest(data: &[u8]) -> (r: Vec<u8>)
    ensures
        r@ == sha512(data@),
        r@.len() == 64,
{
    sha2::Sha512::digest(data).to_vec()
}

/// `"Key algorithm must be "` followed by `expected_algorithm`.
pub fn key_algorithm_error_message(expected_algorithm: &str) -> (m: String)
    ensures
        m@ == key_algorithm_message(expected_algorithm@),
{
    String::from_str("Key algorithm must be ").concat(expected_algorithm)
}

impl SubtleCrypto {
    /// The interface cannot be constructed from script: always a `TypeError`.
    pub fn new() -> (r: Result<SubtleCrypto, SubtleError>)
        ensures
            r matches Err(SubtleError::IllegalConstructor),
    {
        Err(SubtleError::IllegalConstructor)
    }

    /// The value of `SubtleCrypto.prototype[Symbol.toStringTag]`.
    pub fn to_string_tag() -> (tag: &'static str)
        ensures
            tag@ == "SubtleCrypto"@,
    {
        "SubtleCrypto"
    }
}

impl EllipticCurve {
    /// The curve's registered name.
    pub open spec fn spec_name(self) -> Seq<char> {
        match self {
            EllipticCurve::P256 => "P-256"@,
            EllipticCurve::P384 => "P-384"@,
            EllipticCurve::P521 => "P-521"@,
        }
    }

    /// The curve's registered name: `P-256`, `P-384` or `P-521`.
    pub fn as_str(&self) -> (s: &'static str)
        ensures
            s@ == self.spec_name(),
    {
        match self {
            EllipticCurve::P256 => "P-256",
            EllipticCurve::P384 => "P-384",
            EllipticCurve::P521 => "P-521",
        }
    }

    /// The curve whose registered name is `name`, if any.
    pub open spec fn named(name: Seq<char>) -> Option<EllipticCurve> {
        if name == "P-256"@ {
            Some(EllipticCurve::P256)
        } else if name == "P-384"@ {
            Some(EllipticCurve::P384)
        } else if name == "P-521"@ {
            Some(EllipticCurve::P521)
        } else {
            None
        }
    }

    /// The curve with the registered name `name`, matched exactly.
    pub fn from_name(name: &str) -> (r: Option<EllipticCurve>)
        ensures
            r == EllipticCurve::named(name@),
    {
        let n = String::from_str(name);
        if n == String::from_str("P-256") {
            Some(EllipticCurve::P256)
        } else if n == String::from_str("P-384") {
            Some(EllipticCurve::P384)
        } else if n == String::from_str("P-521") {
            Some(EllipticCurve::P521)
        } else {
            None
        }
    }
}

/// Each curve is found again by its name, and no two curves share a name.
pub proof fn lemma_curve_name_round_trip(c: EllipticCurve)
    ensures
        EllipticCurve::named(c.spec_name()) == Some(c),
{
    reveal_strlit("P-256");
    reveal_strlit("P-384");
    reveal_strlit("P-521");
    assert("P-256"@[3] != "P-384"@[3]);
    assert("P-256"@[3] != "P-521"@[3]);
    assert("P-384"@[3] != "P-521"@[3]);
}

impl SubtleError {
    /// The name of the `DOMException` that the error is thrown as, if it is one.
    pub fn dom_exception_name(&self) -> (n: Option<&'static str>)
        ensures
            (self is AlgorithmMismatch) ==> (n matches Some(s) && s@ == "TypeMismatchError"@),
            (self is AlgorithmNotSupported) ==> (n matches Some(s) && s@ == "NotSupportedError"@),
            (self is AlgorithmInvalidAccess) ==> (n matches Some(s) && s@
                == "InvalidAccessError"@),
            (self is JwkNotExtractable) ==> (n matches Some(s) && s@ == "DataError"@),
            !(self is AlgorithmMismatch || self is AlgorithmNotSupported
                || self is AlgorithmInvalidAccess || self is JwkNotExtractable) ==> n is None,
    {
        match self {
            SubtleError::AlgorithmMismatch { .. } => Some("TypeMismatchError"),
            SubtleError::AlgorithmNotSupported => Some("NotSupportedError"),
            SubtleError::AlgorithmInvalidAccess { .. } => Some("InvalidAccessError"),
            SubtleError::JwkNotExtractable => Some("DataError"),
            _ => None,
        }
    }

    /// Whether the error is thrown as a `TypeError`.
    pub fn is_type_error(&self) -> (b: bool)
        ensures
            b == (self is IllegalConstructor || self is NotBufferSource
                || self is ViewOutsideBuffer || self is KeyDataNotObject),
    {
        match self {
            SubtleError::IllegalConstructor => true,
            SubtleError::NotBufferSource => true,
            SubtleError::ViewOutsideBuffer => true,
            SubtleError::KeyDataNotObject => true,
            _ => false,
        }
    }

    /// The error's message.
    pub fn message(&self) -> (m: String)
        ensures
            self is IllegalConstructor ==> m@ == "Illegal constructor"@,
            self is NotBufferSource ==> m@ == "value is not an ArrayBuffer or ArrayBufferView"@,
            self is ViewOutsideBuffer ==> m@ == "ArrayBufferView is outside its backing buffer"@,
            self matches SubtleError::AlgorithmMismatch { expected_algorithm } ==> m@
                == key_algorithm_message(expected_algorithm@),
            self is AlgorithmNotSupported ==> m@ == "Algorithm not supported"@,
            self matches SubtleError::AlgorithmInvalidAccess { expected_algorithm } ==> m@
                == key_algorithm_message(expected_algorithm@),
            self is UnsupportedRsaHash ==> m@
                == "Only Sha-256, Sha-384 or Sha-512 is supported for RSA"@,
            self is AlgorithmNotStringOrObject ==> m@
                == "algorithm must be a string or an object"@,
            self is AlgorithmNotObject ==> m@ == "algorithm is not an object"@,
            self is JwkNotExtractable ==> m@ == "JWK is not extractable"@,
            self is KeyDataNotObject ==> m@ == "keyData is not an object"@,
            self matches SubtleError::OperationNotSupported(op) ==> m@
                == unsupported_operation_message(*op),
    {
        match self {
            SubtleError::IllegalConstructor => String::from_str("Illegal constructor"),
            SubtleError::NotBufferSource => String::from_str(
                "value is not an ArrayBuffer or ArrayBufferView",
            ),
            SubtleError::ViewOutsideBuffer => String::from_str(
                "ArrayBufferView is outside its backing buffer",
            ),
            SubtleError::AlgorithmMismatch { expected_algorithm } => key_algorithm_error_message(
                expected_algorithm.as_str(),
            ),
            SubtleError::AlgorithmNotSupported => String::from_str("Algorithm not supported"),
            SubtleError::AlgorithmInvalidAccess { expected_algorithm } =>
                key_algorithm_error_message(expected_algorithm.as_str()),
            SubtleError::UnsupportedRsaHash => String::from_str(
                "Only Sha-256, Sha-384 or Sha-512 is supported for RSA",
            ),
            SubtleError::AlgorithmNotStringOrObject => String::from_str(
                "algorithm must be a string or an object",
            ),
            SubtleError::AlgorithmNotObject => String::from_str("algorithm is not an object"),
            SubtleError::JwkNotExtractable => String::from_str("JWK is not extractable"),
            SubtleError::KeyDataNotObject => String::from_str("keyData is not an object"),
            SubtleError::OperationNotSupported(op) => String::from_str(
                unsupported_operation_text(op),
            ),
        }
    }
}

/// The message of an operation that the crypto provider refuses.
pub open spec fn unsupported_operation_message(op: SubtleOperation) -> Seq<char> {
    match op {
        SubtleOperation::ExportKey => "exportKey is not supported with this crypto provider"@,
        SubtleOperation::ImportKey => "importKey is not supported with this crypto provider"@,
        SubtleOperation::WrapKey => "wrapKey is not supported with this crypto provider"@,
        SubtleOperation::UnwrapKey => "unwrapKey is not supported with this crypto provider"@,
    }
}

/// The message of an operation that the crypto provider refuses.
pub fn unsupported_operation_text(op: &SubtleOperation) -> (m: &'static str)
    ensures
        m@ == unsupported_operation_message(*op),
{
    match op {
        SubtleOperation::ExportKey => "exportKey is not supported with this crypto provider",
        SubtleOperation::ImportKey => "importKey is not supported with this crypto provider",
        SubtleOperation::WrapKey => "wrapKey is not supported with this crypto provider",
        SubtleOperation::UnwrapKey => "unwrapKey is not supported with this crypto provider",
    }
}

/// A `TypeMismatchError` saying that the key must belong to `expected_algorithm`.
pub fn algorithm_mismatch_error<T>(expected_algorithm: &str) -> (r: Result<T, SubtleError>)
    ensures
        r matches Err(SubtleError::AlgorithmMismatch { expected_algorithm: e }) && e@
            == expected_algorithm@,
{
    Err(SubtleError::AlgorithmMismatch { expected_algorithm: String::from_str(expected_algorithm) })
}

/// A `NotSupportedError` for an unsupported algorithm.
pub fn algorithm_not_supported_error<T>() -> (r: Result<T, SubtleError>)
    ensures
        r matches Err(SubtleError::AlgorithmNotSupported),
{
    Err(SubtleError::AlgorithmNotSupported)
}

/// An `InvalidAccessError` saying that the key must belong to `expected_algorithm`.
pub fn algorithm_invalid_access_error<T>(expected_algorithm: &str) -> (r: Result<T, SubtleError>)
    ensures
        r matches Err(SubtleError::AlgorithmInvalidAccess { expected_algorithm: e }) && e@
            == expected_algorithm@,
{
    Err(
        SubtleError::AlgorithmInvalidAccess {
            expected_algorithm: String::from_str(expected_algorithm),
        },
    )
}

impl WebCryptoBufferSource {
    /// Accepts a value as a `BufferSource`: it must be an object that is an
    /// `ArrayBuffer` or a view of one, whose bytes can be reached (else a
    /// `TypeError` "value is not an ArrayBuffer or ArrayBufferView"), and a
    /// view must lie inside its buffer (else a `TypeError` "ArrayBufferView
    /// is outside its backing buffer").
    pub fn from_js(probe: &BufferSourceProbe) -> (r: Result<WebCryptoBufferSource, SubtleError>)
        ensures
            !is_buffer_source(*probe) ==> r matches Err(SubtleError::NotBufferSource),
            is_buffer_source(*probe) && !view_in_bounds(probe.range->0) ==> r matches Err(
                SubtleError::ViewOutsideBuffer,
            ),
            is_buffer_source(*probe) && view_in_bounds(probe.range->0) ==> (r matches Ok(b)
                && b.range == probe.range->0),
    {
        if !probe.is_object {
            return Err(SubtleError::NotBufferSource);
        }
        if !probe.is_array_buffer && !probe.is_view {
            return Err(SubtleError::NotBufferSource);
        }
        let range = match probe.range {
            Some(r) => r,
            None => {
                return Err(SubtleError::NotBufferSource);
            },
        };
        match range.offset.checked_add(range.length) {
            None => Err(SubtleError::ViewOutsideBuffer),
            Some(end) => {
                if end > range.buffer_len {
                    Err(SubtleError::ViewOutsideBuffer)
                } else {
                    Ok(WebCryptoBufferSource { range })
                }
            },
        }
    }

    /// A copy of the bytes that the view shows now, `buffer` being the
    /// bytes of its backing buffer at this moment: the bytes from the view's
    /// offset on, as many as its length. Empty once the buffer is detached
    /// (`None`) or no longer reaches the view's end.
    pub fn snapshot(&self, buffer: Option<&[u8]>) -> (r: Vec<u8>)
        ensures
            r@ == snapshot_bytes(self.range, buffer),
            buffer is Some && self.range.offset + self.range.length <= buffer->0@.len() ==> (r@.len()
                == self.range.length && forall|i: int|
                0 <= i < self.range.length ==> r@[i] == buffer->0@[self.range.offset + i]),
            !(buffer is Some && self.range.offset + self.range.length <= buffer->0@.len())
                ==> r@.len() == 0,
    {
        match buffer {
            Some(b) => {
                let offset = self.range.offset;
                let length = self.range.length;
                if length > b.len() || offset > b.len() - length {
                    return Vec::new();
                }
                let mut r: Vec<u8> = Vec::new();
                let mut i: usize = 0;
                while i < length
                    invariant
                        i <= length,
                        offset + length <= b.len(),
                        r@ =~= b@.subrange(offset as int, offset + i),
                    decreases length - i,
                {
                    r.push(b[offset + i]);
                    i = i + 1;
                }
                r
            },
            None => Vec::new(),
        }
    }
}

/// The hash of an RSA key and the digest of `data` under it. A key of
/// another algorithm is an `AlgorithmMismatch` naming `algorithm_name`; an
/// RSA key whose hash is SHA-1 is refused.
pub fn rsa_hash_digest(rsa_hash: Option<HashAlgorithm>, data: &[u8], algorithm_name: &str) -> (r:
    Result<(HashAlgorithm, Vec<u8>), SubtleError>)
    ensures
        rsa_hash is None ==> (r matches Err(SubtleError::AlgorithmMismatch { expected_algorithm: e })
            && e@ == algorithm_name@),
        rsa_hash == Some(HashAlgorithm::Sha1) ==> r matches Err(SubtleError::UnsupportedRsaHash),
        rsa_hash is Some && rsa_hash != Some(HashAlgorithm::Sha1) ==> (r matches Ok((h2, d))
            && Some(h2) == rsa_hash && d@ == rsa_digest(h2, data@) && d@.len() == digest_len(h2)),
{
    let hash = match rsa_hash {
        Some(h) => h,
        None => {
            return algorithm_mismatch_error(algorithm_name);
        },
    };
    match hash {
        HashAlgorithm::Sha256 => Ok((hash, sha256_digest(data))),
        HashAlgorithm::Sha384 => Ok((hash, sha384_digest(data))),
        HashAlgorithm::Sha512 => Ok((hash, sha512_digest(data))),
        HashAlgorithm::Sha1 => Err(SubtleError::UnsupportedRsaHash),
    }
}

/// The name of an algorithm identifier, and whether its object form is
/// available: a string is its own name (and has no object, which is a
/// conversion error for the caller that needs one); an object gives its
/// `name` member; anything else is an `Error`.
pub fn to_name_and_maybe_object(value: AlgorithmIdentifier) -> (r: Result<
    (String, Result<(), SubtleError>),
    SubtleError,
>)
    ensures
        value matches AlgorithmIdentifier::Name(n) ==> r matches Ok((name, Err(
            SubtleError::AlgorithmNotObject,
        ))) && name@ == n@,
        value matches AlgorithmIdentifier::Object { name: n } ==> r matches Ok((name, Ok(())))
            && name@ == n@,
        value is Other ==> r matches Err(SubtleError::AlgorithmNotStringOrObject),
{
    match value {
        AlgorithmIdentifier::Name(n) => Ok((n, Err(SubtleError::AlgorithmNotObject))),
        AlgorithmIdentifier::Object { name } => Ok((name, Ok(()))),
        AlgorithmIdentifier::Other => Err(SubtleError::AlgorithmNotStringOrObject),
    }
}

} // verus!
