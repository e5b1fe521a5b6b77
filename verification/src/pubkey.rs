//! Account addresses: 32 bytes, compared byte for byte.

use vstd::prelude::*;

verus! {

/// The address of an account or of a signer.
#[derive(Clone, Copy, Debug)]
pub struct Pubkey {
    bytes: [u8; 32],
}

impl Pubkey {
    /// The bytes of the address.
    pub closed spec fn spec_bytes(self) -> Seq<u8> {
        self.bytes@
    }

    /// Builds an address from its 32 bytes.
    pub fn new_from_array(bytes: [u8; 32]) -> (k: Pubkey)
        ensures
            k.spec_bytes() == bytes@,
    {
        Pubkey { bytes }
    }

    /// The 32 bytes of the address.
    pub fn to_bytes(&self) -> (b: [u8; 32])
        ensures
            b@ == self.spec_bytes(),
    {
        self.bytes
    }

    /// Two addresses are the same exactly when their bytes are.
    pub proof fn lemma_eq_iff_bytes_eq(a: Pubkey, b: Pubkey)
        ensures
            (a == b) <==> (a.spec_bytes() == b.spec_bytes()),
    {
        if a.spec_bytes() == b.spec_bytes() {
            assert(a.bytes =~= b.bytes) by {
                vstd::array::axiom_array_ext_equal(a.bytes, b.bytes);
            }
        }
    }
}

/// Whether `keys` lists `key`.
pub fn contains_key(keys: &Vec<Pubkey>, key: &Pubkey) -> (r: bool)
    ensures
        r == keys@.contains(*key),
{
    let mut i: usize = 0;
    while i < keys.len()
        invariant
            0 <= i <= keys@.len(),
            forall|j: int| 0 <= j < i ==> keys@[j] != *key,
        decreases keys@.len() - i,
    {
        if keys[i] == *key {
            return true;
        }
        i = i + 1;
    }
    false
}

/// Where `key` first occurs in `keys`, if it does.
pub fn position_of(keys: &Vec<Pubkey>, key: &Pubkey) -> (r: Option<usize>)
    ensures
        r matches Some(i) ==> {
            &&& i < keys@.len()
            &&& keys@[i as int] == *key
            &&& forall|j: int| 0 <= j < i ==> keys@[j] != *key
            &&& keys@.index_of_first(*key) == Some(i as int)
        },
        r is None <==> !keys@.contains(*key),
{
    proof {
        keys@.index_of_first_ensures(*key);
    }
    let mut i: usize = 0;
    while i < keys.len()
        invariant
            0 <= i <= keys@.len(),
            forall|j: int| 0 <= j < i ==> keys@[j] != *key,
            match keys@.index_of_first(*key) {
                Some(index) => {
                    &&& keys@.contains(*key)
                    &&& 0 <= index < keys@.len()
                    &&& keys@[index] == *key
                    &&& forall|j: int| 0 <= j < index < keys@.len() ==> keys@[j] != *key
                },
                None => !keys@.contains(*key),
            },
        decreases keys@.len() - i,
    {
        if keys[i] == *key {
            return Some(i);
        }
        i = i + 1;
    }
    None
}

impl PartialEq for Pubkey {
    fn eq(&self, other: &Pubkey) -> (r: bool) {
        let mut i: usize = 0;
        while i < 32
            invariant
                0 <= i <= 32,
                forall|j: int| 0 <= j < i ==> self.bytes@[j] == other.bytes@[j],
            decreases 32 - i,
        {
            if self.bytes[i] != other.bytes[i] {
                return false;
            }
            i = i + 1;
        }
        proof {
            assert(self.bytes@ =~= other.bytes@);
            Pubkey::lemma_eq_iff_bytes_eq(*self, *other);
        }
        true
    }
}

impl Eq for Pubkey {
}

impl vstd::std_specs::cmp::PartialEqSpecImpl for Pubkey {
    open spec fn obeys_eq_spec() -> bool {
        true
    }

    open spec fn eq_spec(&self, other: &Pubkey) -> bool {
        *self == *other
    }
}

} // verus!
