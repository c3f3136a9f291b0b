//! The rent parameters of the ledger and the balance that exempts an account.

use crate::account::{Account, AccountView};
use crate::address::Address;
use crate::error::EscrowError;
use crate::little_endian::{le_value, lemma_le_limit_8, lemma_le_value_bound, read_u64};
use vstd::prelude::*;

verus! {

/// Number of bytes that the rent parameters take in their account.
pub const RENT_LEN: usize = 17;

/// Bytes that every account takes on the ledger besides its data.
pub const ACCOUNT_STORAGE_OVERHEAD: u64 = 128;

/// The most bytes of data that an account may hold: 10 MiB.
pub const MAX_PERMITTED_DATA_LENGTH: u64 = 10485760;

/// The highest rate for which a balance is defined at the threshold 1.
pub const MAX_RATE_AT_ONE: u64 = 1759197129867;

/// The highest rate for which a balance is defined at the threshold 2.
pub const MAX_RATE_AT_TWO: u64 = 879598564933;

/// The bytes of the address of the account that holds the rent parameters,
/// `SysvarRent111111111111111111111111111111111` in base 58.
pub open spec fn rent_account_bytes() -> Seq<u8> {
    seq![
        6u8, 167, 213, 23, 25, 44, 92, 81, 33, 140, 201, 76, 61, 74, 241, 127,
        88, 218, 238, 8, 155, 161, 253, 68, 227, 219, 217, 138, 0, 0, 0, 0,
    ]
}

/// The exemption threshold 1 as the ledger stores it.
pub open spec fn threshold_one() -> Seq<u8> {
    seq![0u8, 0, 0, 0, 0, 0, 240, 63]
}

/// The exemption threshold 2 as the ledger stores it.
pub open spec fn threshold_two() -> Seq<u8> {
    seq![0u8, 0, 0, 0, 0, 0, 0, 64]
}

/// The rent parameters of the ledger.
#[derive(Clone, Copy, Debug, PartialEq, Eq)]
pub struct Rent {
    /// Rate in lamports per byte.
    pub lamports_per_byte: u64,
    /// Factor on the rate, a 64-bit floating-point number as eight
    /// little-endian bytes.
    pub exemption_threshold: [u8; 8],
    /// Share of collected rent that is burned, in percent.
    pub burn_percent: u8,
}

/// The rent parameters as a mathematical value.
pub struct RentView {
    pub lamports_per_byte: u64,
    pub exemption_threshold: Seq<u8>,
    pub burn_percent: u8,
}

impl View for Rent {
    type V = RentView;

    open spec fn view(&self) -> RentView {
        RentView {
            lamports_per_byte: self.lamports_per_byte,
            exemption_threshold: self.exemption_threshold@,
            burn_percent: self.burn_percent,
        }
    }
}

/// What the ledger's own code gives as the least exempting balance of an
/// account with `data_len` bytes under the given parameters.
pub uninterp spec fn ledger_minimum_balance(
    lamports_per_byte: u64,
    exemption_threshold: Seq<u8>,
    burn_percent: u8,
    data_len: usize,
) -> Option<u64>;

impl RentView {
    /// The rate times the bytes that an account with `data_len` bytes of data
    /// takes on the ledger.
    pub open spec fn cost(self, data_len: usize) -> int {
        (ACCOUNT_STORAGE_OVERHEAD + data_len) * self.lamports_per_byte
    }

    /// The least balance that exempts an account with `data_len` bytes of
    /// data from rent, where there is one.
    ///
    /// At the threshold 1 it is the cost, at the threshold 2 twice the cost;
    /// there is none for more data than an account may hold, nor for a rate
    /// above the highest of its threshold. At any other threshold it is what
    /// the ledger's own code computes in floating point, and there is none
    /// where the cost does not fit 64 bits.
    pub open spec fn minimum_balance(self, data_len: usize) -> Option<u64> {
        if data_len > MAX_PERMITTED_DATA_LENGTH {
            None
        } else if self.exemption_threshold == threshold_one() {
            if self.lamports_per_byte <= MAX_RATE_AT_ONE {
                Some(self.cost(data_len) as u64)
            } else {
                None
            }
        } else if self.exemption_threshold == threshold_two() {
            if self.lamports_per_byte <= MAX_RATE_AT_TWO {
                Some((2 * self.cost(data_len)) as u64)
            } else {
                None
            }
        } else if self.cost(data_len) > u64::MAX {
            None
        } else {
            ledger_minimum_balance(
                self.lamports_per_byte,
                self.exemption_threshold,
                self.burn_percent,
                data_len,
            )
        }
    }

    /// Whether `balance` exempts an account with `data_len` bytes of data
    /// from rent. No balance does where there is no least one.
    pub open spec fn is_exempt(self, balance: u64, data_len: usize) -> bool {
        match self.minimum_balance(data_len) {
            Some(least) => balance >= least,
            None => false,
        }
    }

    /// The rent parameters that an account holds: those spelled by its first
    /// 17 bytes, if it is the account of the rent parameters.
    pub open spec fn of_account(account: AccountView) -> Result<RentView, EscrowError> {
        if account.key == rent_account_bytes() && account.data.len() >= 17 {
            Ok(
                RentView {
                    lamports_per_byte: le_value(account.data.subrange(0, 8)) as u64,
                    exemption_threshold: account.data.subrange(8, 16),
                    burn_percent: account.data[16],
                },
            )
        } else {
            Err(EscrowError::InvalidArgument)
        }
    }
}

/// What `Rent::from_account_info` returns, with the parameters as their view.
pub open spec fn loaded_view(loaded: Result<Rent, EscrowError>) -> Result<RentView, EscrowError> {
    match loaded {
        Ok(rent) => Ok(rent@),
        Err(error) => Err(error),
    }
}

/// Whether `address` is that of the account that holds the rent parameters.
///
/// Trusted: calls `solana_program::sysvar::rent::check_id` and claims that it
/// accepts the address whose bytes are `rent_account_bytes()` and no other.
#[verifier::external_body]
pub(crate) fn is_rent_account(address: &Address) -> (accepted: bool)
    ensures
        accepted == (address@ == rent_account_bytes()),
{
    solana_program::sysvar::rent::check_id(&address.bytes.into())
}

/// The least exempting balance as the ledger's own code computes it.
///
/// Trusted: calls `Rent::try_minimum_balance` of `solana_program::rent`. The
/// call multiplies the rate by the account's bytes, so inputs on which that
/// product leaves 64 bits are kept out. The contract claims that the result
/// depends on the arguments alone, that there is none for more than 10 MiB
/// of data, and that at the thresholds 1 and 2 it is the cost and twice the
/// cost, or none where the rate is above the highest of the threshold.
#[verifier::external_body]
#[allow(deprecated)]
pub(crate) fn ledger_try_minimum_balance(rent: &Rent, data_len: usize) -> (least: Option<u64>)
    requires
        rent@.cost(data_len) <= u64::MAX,
    ensures
        least == ledger_minimum_balance(
            rent.lamports_per_byte,
            rent.exemption_threshold@,
            rent.burn_percent,
            data_len,
        ),
        data_len > MAX_PERMITTED_DATA_LENGTH ==> least is None,
        data_len <= MAX_PERMITTED_DATA_LENGTH && rent.exemption_threshold@ == threshold_one()
            ==> least == if rent.lamports_per_byte <= MAX_RATE_AT_ONE {
            Some(rent@.cost(data_len) as u64)
        } else {
            None
        },
        data_len <= MAX_PERMITTED_DATA_LENGTH && rent.exemption_threshold@ == threshold_two()
            ==> least == if rent.lamports_per_byte <= MAX_RATE_AT_TWO {
            Some((2 * rent@.cost(data_len)) as u64)
        } else {
            None
        },
{
    solana_program::rent::Rent {
        lamports_per_byte: rent.lamports_per_byte,
        exemption_threshold: rent.exemption_threshold,
        burn_percent: rent.burn_percent,
    }.try_minimum_balance(data_len)
}

impl Rent {
    /// Reads the rent parameters from the account that holds them.
    ///
    /// Fails with `InvalidArgument` where `account` is not the account of the
    /// rent parameters, or holds fewer than 17 bytes. The parameters are the
    /// rate as eight little-endian bytes, the eight bytes of the threshold,
    /// and the burn percentage; bytes after those are not looked at.
    pub fn from_account_info(account: &Account) -> (loaded: Result<Rent, EscrowError>)
        ensures
            loaded_view(loaded) == RentView::of_account(account@),
    {
        if !is_rent_account(&account.key) {
            return Err(EscrowError::InvalidArgument);
        }
        let data = account.data.as_slice();
        if data.len() < RENT_LEN {
            return Err(EscrowError::InvalidArgument);
        }
        let mut exemption_threshold: [u8; 8] = [0u8; 8];
        let mut i: usize = 0;
        while i < 8
            invariant
                i <= 8,
                data.len() >= 17,
                exemption_threshold@.subrange(0, i as int) == data@.subrange(8, 8 + i),
            decreases 8 - i,
        {
            let ghost before = exemption_threshold@;
            exemption_threshold[i] = data[8 + i];
            proof {
                assert(exemption_threshold@.subrange(0, i + 1) =~= before.subrange(
                    0,
                    i as int,
                ).push(data@[8 + i]));
                assert(data@.subrange(8, 8 + i + 1) =~= data@.subrange(8, 8 + i).push(
                    data@[8 + i],
                ));
            }
            i = i + 1;
        }
        proof {
            assert(exemption_threshold@ =~= exemption_threshold@.subrange(0, 8));
            lemma_le_value_bound(data@.subrange(0, 8));
            lemma_le_limit_8();
        }
        Ok(
            Rent {
                lamports_per_byte: read_u64(data, 0),
                exemption_threshold,
                burn_percent: data[16],
            },
        )
    }

    /// The least balance that exempts an account with `data_len` bytes of
    /// data from rent, or `None` where no balance does.
    pub fn try_minimum_balance(&self, data_len: usize) -> (least: Option<u64>)
        ensures
            least == self@.minimum_balance(data_len),
    {
        if data_len as u64 > MAX_PERMITTED_DATA_LENGTH {
            return None;
        }
        let bytes: u64 = ACCOUNT_STORAGE_OVERHEAD + data_len as u64;
        proof {
            assert(self@.cost(data_len) == bytes * self.lamports_per_byte);
        }
        match bytes.checked_mul(self.lamports_per_byte) {
            Some(_) => ledger_try_minimum_balance(self, data_len),
            None => {
                proof {
                    let rate = self.lamports_per_byte as int;
                    assert(rate > MAX_RATE_AT_ONE) by (nonlinear_arith)
                        requires
                            0 <= bytes <= 10485888,
                            bytes * rate > 18446744073709551615,
                    ;
                }
                None
            },
        }
    }

    /// Whether `balance` exempts an account with `data_len` bytes of data
    /// from rent.
    pub fn is_exempt(&self, balance: u64, data_len: usize) -> (exempt: bool)
        ensures
            exempt == self@.is_exempt(balance, data_len),
    {
        match self.try_minimum_balance(data_len) {
            Some(least) => balance >= least,
            None => false,
        }
    }
}

} // verus!
