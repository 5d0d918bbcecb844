use vstd::prelude::*;

verus! {

/// A 32-byte account address: the identity of a reporter, of a reported
/// account, or of a program.
#[derive(Clone, Copy, Debug)]
pub struct Pubkey {
    pub bytes: [u8; 32],
}

impl PartialEq for Pubkey {
    fn eq(&self, other: &Pubkey) -> (same: bool) {
        let mut i: usize = 0;
        while i < 32
            invariant
                i <= 32,
                forall|j: int| 0 <= j < i ==> self.bytes[j] == other.bytes[j],
            decreases 32 - i,
        {
            if self.bytes[i] != other.bytes[i] {
                return false;
            }
            i += 1;
        }
        proof {
            assert(self.bytes =~= other.bytes);
        }
        true
    }
}

impl Eq for Pubkey {

}

impl vstd::std_specs::cmp::PartialEqSpecImpl for Pubkey {
    open spec fn obeys_eq_spec() -> bool {
        true
    }

    open spec fn eq_spec(&self, other: &Pubkey) -> bool {
        *self == *other
    }
}

impl Pubkey {
    /// Whether every byte of the key is zero.
    pub open spec fn is_zero(self) -> bool {
        forall|i: int| 0 <= i < 32 ==> self.bytes[i] == 0u8
    }

    /// The key whose 32 bytes are all zero. It marks an unused slot in a
    /// record's reporter history, and it is the system program's address.
    pub open spec fn zero() -> Pubkey {
        Pubkey { bytes: vstd::array::spec_array_fill_for_copy_type::<u8, 32>(0u8) }
    }

    /// There is one all-zero key.
    pub proof fn lemma_zero_is_unique(key: Pubkey)
        ensures
            key.is_zero() <==> key == Pubkey::zero(),
    {
        if key.is_zero() {
            assert(key.bytes =~= Pubkey::zero().bytes);
        }
    }

    /// Wraps 32 bytes as a key.
    pub fn new_from_array(bytes: [u8; 32]) -> (key: Pubkey)
        ensures
            key.bytes == bytes,
    {
        Pubkey { bytes }
    }

    /// The 32 bytes of the key.
    pub fn to_bytes(&self) -> (bytes: [u8; 32])
        ensures
            bytes == self.bytes,
    {
        self.bytes
    }
}

/// `Pubkey::default()` of `anchor_lang`, as bytes. The outside type derives
/// `Default` over its one field, a 32-byte array, so every byte is zero.
#[verifier::external_body]
fn default_key_bytes() -> (bytes: [u8; 32])
    ensures
        forall|i: int| 0 <= i < 32 ==> bytes[i] == 0u8,
{
    anchor_lang::prelude::Pubkey::default().to_bytes()
}

/// `anchor_lang::system_program::ID`, as bytes. The constant is declared by
/// its base-58 text, thirty-two times the digit `1`. In base 58 the digit
/// `1` is zero, so the text decodes to 32 zero bytes; the tests of the
/// decoder that the declaration uses pair this text with these bytes.
#[verifier::external_body]
fn system_program_bytes() -> (bytes: [u8; 32])
    ensures
        forall|i: int| 0 <= i < 32 ==> bytes[i] == 0u8,
{
    anchor_lang::system_program::ID.to_bytes()
}

impl Default for Pubkey {
    /// The all-zero key.
    fn default() -> (key: Pubkey)
        ensures
            key == Pubkey::zero(),
    {
        let key = Pubkey { bytes: default_key_bytes() };
        proof {
            Pubkey::lemma_zero_is_unique(key);
        }
        key
    }
}

/// The address of the system program.
pub fn system_program_id() -> (key: Pubkey)
    ensures
        key == Pubkey::zero(),
{
    let key = Pubkey { bytes: system_program_bytes() };
    proof {
        Pubkey::lemma_zero_is_unique(key);
    }
    key
}

} // verus!
