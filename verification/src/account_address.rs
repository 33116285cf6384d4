//! The fixed-length opaque byte identifier naming which participant an
//! identity record describes.

use vstd::prelude::*;
use crate::hex::hex_of;
use crate::hex::hex_str;
use crate::util::bytes_equal;
use crate::util::copy_bytes;

verus! {

/// Number of bytes in an account address.
pub const ADDRESS_LENGTH: usize = 16;

/// Number of address bytes shown by the short diagnostic form.
pub const SHORT_STR_BYTES: usize = 4;

/// An account address: a fixed-length opaque byte identifier.
///
/// The address is derived externally from a key; this crate treats it as an
/// opaque value and validates only its length. Once constructed it is
/// immutable.
#[derive(Debug)]
pub struct AccountAddress {
    bytes: Vec<u8>,
}

impl View for AccountAddress {
    type V = Seq<u8>;

    closed spec fn view(&self) -> Seq<u8> {
        self.bytes@
    }
}

impl AccountAddress {
    /// Every address holds exactly `ADDRESS_LENGTH` bytes.
    #[verifier::type_invariant]
    spec fn wf(self) -> bool {
        self.bytes@.len() == ADDRESS_LENGTH
    }

    /// Builds an address from raw bytes; any length other than
    /// `ADDRESS_LENGTH` is rejected.
    pub fn from_bytes(bytes: Vec<u8>) -> (r: Option<AccountAddress>)
        ensures
            match r {
                Some(a) => bytes@.len() == ADDRESS_LENGTH && a@ == bytes@,
                None => bytes@.len() != ADDRESS_LENGTH,
            },
    {
        if bytes.len() == ADDRESS_LENGTH {
            Some(AccountAddress { bytes })
        } else {
            None
        }
    }

    /// The raw bytes of the address, borrowed.
    pub fn as_bytes(&self) -> (s: &[u8])
        ensures
            s@ == self@,
            s@.len() == ADDRESS_LENGTH,
    {
        proof {
            use_type_invariant(self);
        }
        self.bytes.as_slice()
    }

    /// A fresh copy of the raw bytes of the address.
    pub fn to_bytes(&self) -> (out: Vec<u8>)
        ensures
            out@ == self@,
            out@.len() == ADDRESS_LENGTH,
    {
        copy_bytes(self.as_bytes())
    }

    /// The short diagnostic form: the first `SHORT_STR_BYTES` bytes of the
    /// address rendered as lowercase hexadecimal. Log lines use this to say
    /// which participant a record describes without printing whole
    /// identifiers or any key material.
    pub fn short_str(&self) -> (s: String)
        ensures
            s@ == hex_of(self@.subrange(0, SHORT_STR_BYTES as int)),
    {
        proof {
            use_type_invariant(self);
        }
        let sl = self.bytes.as_slice();
        hex_str(&sl[0..SHORT_STR_BYTES])
    }
}

impl Clone for AccountAddress {
    /// The clone holds the same bytes as the original.
    fn clone(&self) -> (r: Self)
        ensures
            r@ == self@,
    {
        proof {
            use_type_invariant(self);
        }
        AccountAddress { bytes: copy_bytes(self.bytes.as_slice()) }
    }
}

impl PartialEq for AccountAddress {
    /// Structural equality: two addresses are equal iff their bytes are.
    fn eq(&self, other: &Self) -> (r: bool) {
        bytes_equal(self.bytes.as_slice(), other.bytes.as_slice())
    }
}

impl vstd::std_specs::cmp::PartialEqSpecImpl for AccountAddress {
    open spec fn obeys_eq_spec() -> bool {
        true
    }

    open spec fn eq_spec(&self, other: &Self) -> bool {
        self@ == other@
    }
}

} // verus!
