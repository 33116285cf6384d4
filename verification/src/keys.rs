//! The two opaque public-key types carried by an identity record: a
//! signature-scheme key (used twice, for consensus and network signing)
//! and a key-exchange key (used for the network identity).
//!
//! This crate performs no cryptographic operation: a key is an opaque byte
//! string whose only validity condition here is the fixed length its
//! scheme mandates. Curve membership and any deeper validity are the
//! business of the external scheme that produced the bytes.

use vstd::prelude::*;
use crate::util::bytes_equal;
use crate::util::copy_bytes;

verus! {

/// Number of bytes in a signature-scheme public key.
pub const ED25519_PUBLIC_KEY_LENGTH: usize = 32;

/// Number of bytes in a key-exchange public key.
pub const X25519_PUBLIC_KEY_LENGTH: usize = 32;

/// A signature-scheme public key, held as opaque bytes of fixed length.
#[derive(Debug)]
pub struct Ed25519PublicKey {
    bytes: Vec<u8>,
}

impl View for Ed25519PublicKey {
    type V = Seq<u8>;

    closed spec fn view(&self) -> Seq<u8> {
        self.bytes@
    }
}

impl Ed25519PublicKey {
    /// Every key holds exactly `ED25519_PUBLIC_KEY_LENGTH` bytes.
    #[verifier::type_invariant]
    spec fn wf(self) -> bool {
        self.bytes@.len() == ED25519_PUBLIC_KEY_LENGTH
    }

    /// Builds a key from raw bytes; any length other than
    /// `ED25519_PUBLIC_KEY_LENGTH` is rejected.
    pub fn from_bytes(bytes: Vec<u8>) -> (r: Option<Ed25519PublicKey>)
        ensures
            match r {
                Some(k) => bytes@.len() == ED25519_PUBLIC_KEY_LENGTH && k@ == bytes@,
                None => bytes@.len() != ED25519_PUBLIC_KEY_LENGTH,
            },
    {
        if bytes.len() == ED25519_PUBLIC_KEY_LENGTH {
            Some(Ed25519PublicKey { bytes })
        } else {
            None
        }
    }

    /// The raw bytes of the key, borrowed.
    pub fn as_bytes(&self) -> (s: &[u8])
        ensures
            s@ == self@,
            s@.len() == ED25519_PUBLIC_KEY_LENGTH,
    {
        proof {
            use_type_invariant(self);
        }
        self.bytes.as_slice()
    }

    /// A fresh copy of the raw bytes of the key.
    pub fn to_bytes(&self) -> (out: Vec<u8>)
        ensures
            out@ == self@,
            out@.len() == ED25519_PUBLIC_KEY_LENGTH,
    {
        copy_bytes(self.as_bytes())
    }
}

impl Clone for Ed25519PublicKey {
    /// The clone holds the same bytes as the original.
    fn clone(&self) -> (r: Self)
        ensures
            r@ == self@,
    {
        proof {
            use_type_invariant(self);
        }
        Ed25519PublicKey { bytes: copy_bytes(self.bytes.as_slice()) }
    }
}

impl PartialEq for Ed25519PublicKey {
    /// Structural equality: two keys are equal iff their bytes are.
    fn eq(&self, other: &Self) -> (r: bool) {
        bytes_equal(self.bytes.as_slice(), other.bytes.as_slice())
    }
}

impl vstd::std_specs::cmp::PartialEqSpecImpl for Ed25519PublicKey {
    open spec fn obeys_eq_spec() -> bool {
        true
    }

    open spec fn eq_spec(&self, other: &Self) -> bool {
        self@ == other@
    }
}

/// A key-exchange public key, held as opaque bytes of fixed length. It
/// proves a participant's eligibility to establish an encrypted
/// peer-to-peer channel.
#[derive(Debug)]
pub struct X25519StaticPublicKey {
    bytes: Vec<u8>,
}

impl View for X25519StaticPublicKey {
    type V = Seq<u8>;

    closed spec fn view(&self) -> Seq<u8> {
        self.bytes@
    }
}

impl X25519StaticPublicKey {
    /// Every key holds exactly `X25519_PUBLIC_KEY_LENGTH` bytes.
    #[verifier::type_invariant]
    spec fn wf(self) -> bool {
        self.bytes@.len() == X25519_PUBLIC_KEY_LENGTH
    }

    /// Builds a key from raw bytes; any length other than
    /// `X25519_PUBLIC_KEY_LENGTH` is rejected.
    pub fn from_bytes(bytes: Vec<u8>) -> (r: Option<X25519StaticPublicKey>)
        ensures
            match r {
                Some(k) => bytes@.len() == X25519_PUBLIC_KEY_LENGTH && k@ == bytes@,
                None => bytes@.len() != X25519_PUBLIC_KEY_LENGTH,
            },
    {
        if bytes.len() == X25519_PUBLIC_KEY_LENGTH {
            Some(X25519StaticPublicKey { bytes })
        } else {
            None
        }
    }

    /// The raw bytes of the key, borrowed.
    pub fn as_bytes(&self) -> (s: &[u8])
        ensures
            s@ == self@,
            s@.len() == X25519_PUBLIC_KEY_LENGTH,
    {
        proof {
            use_type_invariant(self);
        }
        self.bytes.as_slice()
    }

    /// A fresh copy of the raw bytes of the key.
    pub fn to_bytes(&self) -> (out: Vec<u8>)
        ensures
            out@ == self@,
            out@.len() == X25519_PUBLIC_KEY_LENGTH,
    {
        copy_bytes(self.as_bytes())
    }
}

impl Clone for X25519StaticPublicKey {
    /// The clone holds the same bytes as the original.
    fn clone(&self) -> (r: Self)
        ensures
            r@ == self@,
    {
        proof {
            use_type_invariant(self);
        }
        X25519StaticPublicKey { bytes: copy_bytes(self.bytes.as_slice()) }
    }
}

impl PartialEq for X25519StaticPublicKey {
    /// Structural equality: two keys are equal iff their bytes are.
    fn eq(&self, other: &Self) -> (r: bool) {
        bytes_equal(self.bytes.as_slice(), other.bytes.as_slice())
    }
}

impl vstd::std_specs::cmp::PartialEqSpecImpl for X25519StaticPublicKey {
    open spec fn obeys_eq_spec() -> bool {
        true
    }

    open spec fn eq_spec(&self, other: &Self) -> bool {
        self@ == other@
    }
}

} // verus!
