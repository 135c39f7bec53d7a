//! Signatures: 64 compact bytes, and the engine's tagged container of 66.

use vstd::prelude::*;
use crate::bytes::{copy_range, frame, framed, lemma_framed};
use crate::error::XfrError;
use crate::keytype::KeyType;

verus! {

/// Length in bytes of a compact signature: the two components, R then s.
pub const XFR_SIGNATURE_LENGTH: usize = 64;

/// Length in bytes of the engine's signature container: a scheme tag, the
/// signature, and one framing byte.
pub const NOAH_SIGNATURE_LENGTH: usize = 66;

/// The engine's container for the compact signature `compact`: the Ed25519
/// tag, the signature, and a framing byte that is zero.
pub open spec fn signature_to_internal(compact: Seq<u8>) -> Seq<u8> {
    framed(KeyType::Ed25519.tag(), compact, 1)
}

/// The compact signature in the engine's container `internal`. A container
/// of another length than the engine's is a format error; one that is tagged
/// with another scheme than Ed25519 has no compact form; otherwise the tag
/// and the framing byte are dropped.
pub open spec fn signature_from_internal(internal: Seq<u8>) -> Result<Seq<u8>, XfrError> {
    if internal.len() != NOAH_SIGNATURE_LENGTH {
        Err(XfrError::FormatError)
    } else if KeyType::of_tag(internal[0]) != KeyType::Ed25519 {
        Err(XfrError::UnsupportedScheme)
    } else {
        Ok(internal.subrange(1, 1 + XFR_SIGNATURE_LENGTH as int))
    }
}

/// What `bytes` decodes to as a compact signature: itself, where it has the
/// length of one.
pub open spec fn signature_decode(bytes: Seq<u8>) -> Result<Seq<u8>, XfrError> {
    if bytes.len() != XFR_SIGNATURE_LENGTH {
        Err(XfrError::LengthError)
    } else {
        Ok(bytes)
    }
}

/// A signature in its compact form.
#[derive(Debug, Eq)]
pub struct XfrSignature {
    pub(crate) bytes: Vec<u8>,
}

impl View for XfrSignature {
    type V = Seq<u8>;

    closed spec fn view(&self) -> Seq<u8> {
        self.bytes@
    }
}

impl PartialEq for XfrSignature {
    fn eq(&self, other: &Self) -> (r: bool) {
        let r = self.bytes == other.bytes;
        proof {
            if r {
                assert(self.bytes@ =~= other.bytes@);
            }
        }
        r
    }
}

impl vstd::std_specs::cmp::PartialEqSpecImpl for XfrSignature {
    open spec fn obeys_eq_spec() -> bool {
        true
    }

    open spec fn eq_spec(&self, other: &Self) -> bool {
        self@ == other@
    }
}

impl Clone for XfrSignature {
    fn clone(&self) -> (copy: Self)
        ensures
            copy@ == self@,
    {
        proof {
            use_type_invariant(self);
        }
        XfrSignature { bytes: self.bytes.clone() }
    }
}

/// The engine's signature, as the bytes of its container.
#[derive(Debug, PartialEq, Eq)]
pub struct NoahSignature {
    /// The container: a scheme tag, the signature, a framing byte.
    pub bytes: Vec<u8>,
}

impl View for NoahSignature {
    type V = Seq<u8>;

    open spec fn view(&self) -> Seq<u8> {
        self.bytes@
    }
}

impl Clone for NoahSignature {
    fn clone(&self) -> (copy: Self)
        ensures
            copy@ == self@,
    {
        NoahSignature { bytes: self.bytes.clone() }
    }
}

impl XfrSignature {
    /// Every signature that exists has the compact length.
    #[verifier::type_invariant]
    pub open spec fn inv(&self) -> bool {
        self@.len() == XFR_SIGNATURE_LENGTH
    }

    /// The engine's container for this signature. Never fails.
    pub fn into_noah(&self) -> (r: Result<NoahSignature, XfrError>)
        ensures
            r is Ok,
            r->Ok_0@ == signature_to_internal(self@),
            r->Ok_0@.len() == NOAH_SIGNATURE_LENGTH,
            self@.len() == XFR_SIGNATURE_LENGTH,
    {
        proof {
            use_type_invariant(self);
            lemma_framed(KeyType::Ed25519.tag(), self@, 1);
        }
        Ok(NoahSignature { bytes: frame(KeyType::Ed25519.to_byte(), self.bytes.as_slice(), 1) })
    }

    /// The compact signature in an engine's container. Fails with
    /// `FormatError` where the container has not the engine's length, and
    /// with `UnsupportedScheme` where its tag reads as another scheme than
    /// Ed25519.
    pub fn from_noah(value: &NoahSignature) -> (r: Result<XfrSignature, XfrError>)
        ensures
            match r {
                Ok(signature) => signature_from_internal(value@) == Ok::<_, XfrError>(
                    signature@,
                ),
                Err(e) => signature_from_internal(value@) == Err::<Seq<u8>, _>(e),
            },
    {
        if value.bytes.len() != NOAH_SIGNATURE_LENGTH {
            return Err(XfrError::FormatError);
        }
        match KeyType::from_byte(value.bytes[0]) {
            KeyType::Ed25519 => Ok(
                XfrSignature {
                    bytes: copy_range(value.bytes.as_slice(), 1, 1 + XFR_SIGNATURE_LENGTH),
                },
            ),
            _ => Err(XfrError::UnsupportedScheme),
        }
    }

    /// The compact bytes of this signature.
    pub fn noah_to_bytes(&self) -> (bytes: Vec<u8>)
        ensures
            bytes@ == self@,
            bytes@.len() == XFR_SIGNATURE_LENGTH,
            signature_from_internal(signature_to_internal(self@)) == Ok::<_, XfrError>(bytes@),
    {
        proof {
            use_type_invariant(self);
            lemma_signature_round_trip(self@);
        }
        self.bytes.clone()
    }

    /// A signature from its compact bytes. Fails with `LengthError` on any
    /// other length than the compact one, and on nothing else.
    pub fn noah_from_bytes(bytes: &[u8]) -> (r: Result<XfrSignature, XfrError>)
        ensures
            match r {
                Ok(signature) => signature_decode(bytes@) == Ok::<_, XfrError>(signature@),
                Err(e) => signature_decode(bytes@) == Err::<Seq<u8>, _>(e),
            },
    {
        if bytes.len() != XFR_SIGNATURE_LENGTH {
            return Err(XfrError::LengthError);
        }
        assert(bytes@.subrange(0, XFR_SIGNATURE_LENGTH as int) =~= bytes@);
        Ok(XfrSignature { bytes: copy_range(bytes, 0, XFR_SIGNATURE_LENGTH) })
    }
}

/// The engine's container of a compact signature is 66 bytes: the Ed25519
/// tag, the 64 bytes of the signature in the middle, and a zero byte.
pub proof fn lemma_signature_container(compact: Seq<u8>)
    requires
        compact.len() == XFR_SIGNATURE_LENGTH,
    ensures
        signature_to_internal(compact).len() == NOAH_SIGNATURE_LENGTH,
        signature_to_internal(compact)[0] == KeyType::Ed25519.tag(),
        signature_to_internal(compact).subrange(1, 65) == compact,
        signature_to_internal(compact)[65] == 0,
{
    lemma_framed(KeyType::Ed25519.tag(), compact, 1);
}

/// Converting a compact signature to the engine's container and back gives
/// the signature again.
pub proof fn lemma_signature_round_trip(compact: Seq<u8>)
    requires
        compact.len() == XFR_SIGNATURE_LENGTH,
    ensures
        signature_from_internal(signature_to_internal(compact)) == Ok::<_, XfrError>(compact),
{
    lemma_signature_container(compact);
}

/// Decoding the bytes of a compact signature gives that signature, and no
/// other bytes decode.
pub proof fn lemma_signature_decode(bytes: Seq<u8>)
    ensures
        bytes.len() == XFR_SIGNATURE_LENGTH ==> signature_decode(bytes) == Ok::<_, XfrError>(
            bytes,
        ),
        bytes.len() != XFR_SIGNATURE_LENGTH ==> signature_decode(bytes) == Err::<Seq<u8>, _>(
            XfrError::LengthError,
        ),
{
}

} // verus!
