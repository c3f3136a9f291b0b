//! Addresses of accounts and programs.

use vstd::prelude::*;

verus! {

/// Number of bytes in an address.
pub const ADDRESS_LEN: usize = 32;

/// A 32-byte address on the ledger.
#[derive(Clone, Copy, Debug, Eq)]
pub struct Address {
    pub bytes: [u8; 32],
}

impl View for Address {
    type V = Seq<u8>;

    open spec fn view(&self) -> Seq<u8> {
        self.bytes@
    }
}

impl PartialEq for Address {
    fn eq(&self, other: &Address) -> (same: bool) {
        let mut i: usize = 0;
        while i < 32
            invariant
                i <= 32,
                self@.subrange(0, i as int) == other@.subrange(0, i as int),
            decreases 32 - i,
        {
            if self.bytes[i] != other.bytes[i] {
                return false;
            }
            proof {
                assert(self@.subrange(0, i + 1) =~= self@.subrange(0, i as int).push(self@[i as int]));
                assert(other@.subrange(0, i + 1) =~= other@.subrange(0, i as int).push(
                    other@[i as int],
                ));
            }
            i = i + 1;
        }
        proof {
            assert(self@ =~= self@.subrange(0, 32));
            assert(other@ =~= other@.subrange(0, 32));
        }
        true
    }
}

impl vstd::std_specs::cmp::PartialEqSpecImpl for Address {
    open spec fn obeys_eq_spec() -> bool {
        true
    }

    open spec fn eq_spec(&self, other: &Address) -> bool {
        self@ == other@
    }
}

impl Address {
    /// The address with the given bytes.
    pub fn new_from_array(bytes: [u8; 32]) -> (address: Address)
        ensures
            address@ == bytes@,
    {
        Address { bytes }
    }

    /// The bytes of the address.
    pub fn to_bytes(&self) -> (bytes: [u8; 32])
        ensures
            bytes@ == self@,
    {
        self.bytes
    }

    /// The address spelled by the 32 bytes of `src` that start at `at`.
    pub fn read(src: &[u8], at: usize) -> (address: Address)
        requires
            at + 32 <= src.len(),
        ensures
            address@ == src@.subrange(at as int, at + 32),
    {
        let mut bytes: [u8; 32] = [0u8; 32];
        let mut i: usize = 0;
        while i < 32
            invariant
                i <= 32,
                at + 32 <= src.len(),
                bytes@.subrange(0, i as int) == src@.subrange(at as int, at + i),
            decreases 32 - i,
        {
            let ghost before = bytes@;
            bytes[i] = src[at + i];
            proof {
                assert(bytes@.subrange(0, i + 1) =~= before.subrange(0, i as int).push(
                    src@[at + i],
                ));
                assert(src@.subrange(at as int, at + i + 1) =~= src@.subrange(
                    at as int,
                    at + i,
                ).push(src@[at + i]));
            }
            i = i + 1;
        }
        proof {
            assert(bytes@ =~= bytes@.subrange(0, 32));
        }
        Address { bytes }
    }

    /// Writes the 32 bytes of the address into `dst`, from `at` on, and leaves
    /// every other byte of `dst` as it was.
    pub fn write(&self, dst: &mut [u8], at: usize)
        requires
            at + 32 <= old(dst).len(),
        ensures
            final(dst)@ == old(dst)@.subrange(0, at as int) + self@ + old(dst)@.subrange(
                at + 32,
                old(dst)@.len() as int,
            ),
    {
        let mut i: usize = 0;
        while i < 32
            invariant
                i <= 32,
                at + 32 <= dst.len(),
                dst@.len() == old(dst)@.len(),
                dst@.subrange(0, at as int) == old(dst)@.subrange(0, at as int),
                dst@.subrange(at + 32, dst@.len() as int) == old(dst)@.subrange(
                    at + 32,
                    old(dst)@.len() as int,
                ),
                dst@.subrange(at as int, at + i) == self@.subrange(0, i as int),
            decreases 32 - i,
        {
            let ghost before = dst@;
            dst[at + i] = self.bytes[i];
            proof {
                assert(dst@.subrange(0, at as int) =~= before.subrange(0, at as int));
                assert(dst@.subrange(at + 32, dst@.len() as int) =~= before.subrange(
                    at + 32,
                    before.len() as int,
                ));
                assert(dst@.subrange(at as int, at + i + 1) =~= before.subrange(
                    at as int,
                    at + i,
                ).push(self@[i as int]));
                assert(self@.subrange(0, i + 1) =~= self@.subrange(0, i as int).push(
                    self@[i as int],
                ));
            }
            i = i + 1;
        }
        proof {
            assert(self@ =~= self@.subrange(0, 32));
            assert(dst@ =~= dst@.subrange(0, at as int) + dst@.subrange(at as int, at + 32)
                + dst@.subrange(at + 32, dst@.len() as int));
        }
    }
}

/// The address that the ledger derives for a program from one seed, with the
/// bump byte that it had to add to the seed; `None` where it finds none.
pub uninterp spec fn program_address(seed: Seq<u8>, program_id: Seq<u8>) -> Option<(Seq<u8>, u8)>;

/// Derives an address for `program_id` from `seed`: one that no private key
/// belongs to, so that only the program can sign for it.
///
/// Trusted: calls `Pubkey::try_find_program_address` of `solana_program` with
/// `seed` as its only seed, and claims that what it returns depends on the
/// seed and the program's address alone.
#[verifier::external_body]
pub(crate) fn try_find_program_address(seed: &[u8], program_id: &Address) -> (found: Option<
    (Address, u8),
>)
    ensures
        match found {
            Some((address, bump)) => program_address(seed@, program_id@) == Some((address@, bump)),
            None => program_address(seed@, program_id@) is None,
        },
{
    solana_program::pubkey::Pubkey::try_find_program_address(&[seed], &program_id.bytes.into())
        .map(|(address, bump)| (Address { bytes: address.to_bytes() }, bump))
}

} // verus!
