//! The escrow record and its 105-byte layout in the state account.
//!
//! | bytes     | field                          |
//! |-----------|--------------------------------|
//! | 0         | initialisation flag, 0 or 1    |
//! | 1 – 32    | initializer                    |
//! | 33 – 64   | holding account                |
//! | 65 – 96   | initializer's receive account  |
//! | 97 – 104  | expected amount, little-endian |

use crate::address::Address;
use crate::error::EscrowError;
use crate::little_endian::{
    le_bytes, le_value, lemma_le_bytes_len, lemma_le_bytes_of_value, lemma_le_limit_8,
    lemma_le_value_bound, lemma_le_value_of_bytes, read_u64, write_u64,
};
use vstd::prelude::*;

verus! {

/// Offset of the initialisation flag.
pub const FLAG_AT: usize = 0;

/// Offset of the initializer's address.
pub const INITIALIZER_AT: usize = 1;

/// Offset of the holding account's address.
pub const HOLDING_AT: usize = 33;

/// Offset of the address of the initializer's receive account.
pub const RECEIVE_AT: usize = 65;

/// Offset of the expected amount.
pub const AMOUNT_AT: usize = 97;

/// The terms of one escrow, as they are kept in the state account.
#[derive(Clone, Copy, Debug, PartialEq, Eq)]
pub struct Escrow {
    /// Whether the state account is in use.
    pub is_initialized: bool,
    /// The party that opened the escrow.
    pub initializer_pubkey: Address,
    /// The account that holds the escrowed tokens for the time being.
    pub temp_token_account_pubkey: Address,
    /// The account on which the initializer wants to be paid.
    pub initializer_token_to_receive_account_pubkey: Address,
    /// What the initializer asks of the other party.
    pub expected_amount: u64,
}

/// An escrow record as a mathematical value: each address is its byte string.
pub struct EscrowView {
    pub is_initialized: bool,
    pub initializer_pubkey: Seq<u8>,
    pub temp_token_account_pubkey: Seq<u8>,
    pub initializer_token_to_receive_account_pubkey: Seq<u8>,
    pub expected_amount: u64,
}

impl View for Escrow {
    type V = EscrowView;

    open spec fn view(&self) -> EscrowView {
        EscrowView {
            is_initialized: self.is_initialized,
            initializer_pubkey: self.initializer_pubkey@,
            temp_token_account_pubkey: self.temp_token_account_pubkey@,
            initializer_token_to_receive_account_pubkey:
                self.initializer_token_to_receive_account_pubkey@,
            expected_amount: self.expected_amount,
        }
    }
}

impl EscrowView {
    /// Every address of the record has 32 bytes.
    pub open spec fn wf(self) -> bool {
        &&& self.initializer_pubkey.len() == 32
        &&& self.temp_token_account_pubkey.len() == 32
        &&& self.initializer_token_to_receive_account_pubkey.len() == 32
    }

    /// The record of an account that was never written: every byte zero.
    pub open spec fn blank() -> EscrowView {
        EscrowView {
            is_initialized: false,
            initializer_pubkey: Seq::new(32, |i: int| 0u8),
            temp_token_account_pubkey: Seq::new(32, |i: int| 0u8),
            initializer_token_to_receive_account_pubkey: Seq::new(32, |i: int| 0u8),
            expected_amount: 0,
        }
    }

    /// The 105 bytes that stand for the record.
    pub open spec fn encode(self) -> Seq<u8> {
        seq![if self.is_initialized { 1u8 } else { 0u8 }] + self.initializer_pubkey
            + self.temp_token_account_pubkey + self.initializer_token_to_receive_account_pubkey
            + le_bytes(self.expected_amount as nat, 8)
    }

    /// The record that the first 105 bytes of `bytes` stand for. Bytes after
    /// those are not looked at.
    pub open spec fn decode(bytes: Seq<u8>) -> Result<EscrowView, EscrowError> {
        if bytes.len() < 105 {
            Err(EscrowError::AccountDataTooSmall)
        } else if bytes[0] != 0 && bytes[0] != 1 {
            Err(EscrowError::InvalidAccountData)
        } else {
            Ok(
                EscrowView {
                    is_initialized: bytes[0] == 1,
                    initializer_pubkey: bytes.subrange(1, 33),
                    temp_token_account_pubkey: bytes.subrange(33, 65),
                    initializer_token_to_receive_account_pubkey: bytes.subrange(65, 97),
                    expected_amount: le_value(bytes.subrange(97, 105)) as u64,
                },
            )
        }
    }

    /// The record that `bytes` stand for, and the blank record where they
    /// stand for none.
    pub open spec fn decode_or_blank(bytes: Seq<u8>) -> EscrowView {
        match EscrowView::decode(bytes) {
            Ok(record) => record,
            Err(_) => EscrowView::blank(),
        }
    }
}

/// What `Escrow::unpack_from_slice` returns, with the record as its view.
pub open spec fn unpacked_view(unpacked: Result<Escrow, EscrowError>) -> Result<
    EscrowView,
    EscrowError,
> {
    match unpacked {
        Ok(record) => Ok(record@),
        Err(error) => Err(error),
    }
}

/// The addresses of a record in memory have 32 bytes each.
pub proof fn lemma_view_wf(record: Escrow)
    ensures
        record@.wf(),
{
}

/// A record has 105 bytes.
pub proof fn lemma_encode_len(record: EscrowView)
    requires
        record.wf(),
    ensures
        record.encode().len() == 105,
{
    lemma_le_bytes_len(record.expected_amount as nat, 8);
}

/// Round trip: a record that is encoded and decoded again is the same record,
/// whatever follows its 105 bytes in the buffer.
pub proof fn lemma_decode_encode(record: EscrowView, tail: Seq<u8>)
    requires
        record.wf(),
    ensures
        EscrowView::decode(record.encode() + tail) == Ok::<EscrowView, EscrowError>(record),
{
    let amount = le_bytes(record.expected_amount as nat, 8);
    let bytes = record.encode() + tail;
    lemma_le_bytes_len(record.expected_amount as nat, 8);
    lemma_le_limit_8();
    lemma_le_value_of_bytes(record.expected_amount as nat, 8);
    assert(bytes.subrange(1, 33) =~= record.initializer_pubkey);
    assert(bytes.subrange(33, 65) =~= record.temp_token_account_pubkey);
    assert(bytes.subrange(65, 97) =~= record.initializer_token_to_receive_account_pubkey);
    assert(bytes.subrange(97, 105) =~= amount);
}

/// Round trip the other way: the bytes of a record that decodes are the
/// encoding of what they decode to, byte for byte.
pub proof fn lemma_encode_decode(bytes: Seq<u8>)
    requires
        EscrowView::decode(bytes) is Ok,
    ensures
        EscrowView::decode(bytes)->Ok_0.wf(),
        EscrowView::decode(bytes)->Ok_0.encode() == bytes.subrange(0, 105),
{
    let record = EscrowView::decode(bytes)->Ok_0;
    let amount = bytes.subrange(97, 105);
    lemma_le_value_bound(amount);
    lemma_le_limit_8();
    lemma_le_bytes_of_value(amount);
    assert(record.encode() =~= bytes.subrange(0, 105));
}

impl Escrow {
    /// Number of bytes of an encoded record.
    pub const LEN: usize = 105;

    /// Whether the record is in use.
    pub fn is_initialized(&self) -> (flag: bool)
        ensures
            flag == self@.is_initialized,
    {
        self.is_initialized
    }

    /// The record of an account that was never written.
    pub fn blank() -> (record: Escrow)
        ensures
            record@ == EscrowView::blank(),
    {
        let zero = Address::new_from_array([0u8; 32]);
        let record = Escrow {
            is_initialized: false,
            initializer_pubkey: zero,
            temp_token_account_pubkey: zero,
            initializer_token_to_receive_account_pubkey: zero,
            expected_amount: 0,
        };
        proof {
            assert(zero@ =~= Seq::new(32, |i: int| 0u8));
        }
        record
    }

    /// Decodes the record at the front of `src`.
    ///
    /// Fails with `AccountDataTooSmall` where `src` has fewer than 105 bytes,
    /// and with `InvalidAccountData` where the flag byte is neither 0 nor 1.
    /// A longer buffer is accepted; only its first 105 bytes are read.
    pub fn unpack_from_slice(src: &[u8]) -> (unpacked: Result<Escrow, EscrowError>)
        ensures
            unpacked_view(unpacked) == EscrowView::decode(src@),
            src@.len() < 105 ==> unpacked == Err::<Escrow, EscrowError>(
                EscrowError::AccountDataTooSmall,
            ),
            src@.len() >= 105 && src@[0] != 0 && src@[0] != 1 ==> unpacked == Err::<
                Escrow,
                EscrowError,
            >(EscrowError::InvalidAccountData),
    {
        if src.len() < Escrow::LEN {
            return Err(EscrowError::AccountDataTooSmall);
        }
        let flag = src[FLAG_AT];
        if flag != 0 && flag != 1 {
            return Err(EscrowError::InvalidAccountData);
        }
        proof {
            lemma_le_value_bound(src@.subrange(97, 105));
            lemma_le_limit_8();
        }
        Ok(
            Escrow {
                is_initialized: flag == 1,
                initializer_pubkey: Address::read(src, INITIALIZER_AT),
                temp_token_account_pubkey: Address::read(src, HOLDING_AT),
                initializer_token_to_receive_account_pubkey: Address::read(src, RECEIVE_AT),
                expected_amount: read_u64(src, AMOUNT_AT),
            },
        )
    }

    /// Decodes the record at the front of `input`, and takes bytes that hold
    /// no record for an account that was never written.
    pub fn unpack_unchecked(input: &[u8]) -> (record: Escrow)
        ensures
            record@ == EscrowView::decode_or_blank(input@),
    {
        match Escrow::unpack_from_slice(input) {
            Ok(record) => record,
            Err(_) => Escrow::blank(),
        }
    }

    /// Encodes the record into the first 105 bytes of `dst` and leaves the
    /// bytes after them as they were.
    pub fn pack_into_slice(&self, dst: &mut [u8])
        requires
            old(dst).len() >= 105,
        ensures
            final(dst)@ == self@.encode() + old(dst)@.subrange(105, old(dst)@.len() as int),
            EscrowView::decode(final(dst)@) == Ok::<EscrowView, EscrowError>(self@),
    {
        let ghost before = dst@;
        dst[FLAG_AT] = if self.is_initialized { 1 } else { 0 };
        let ghost flagged = dst@;
        self.initializer_pubkey.write(dst, INITIALIZER_AT);
        let ghost first = dst@;
        self.temp_token_account_pubkey.write(dst, HOLDING_AT);
        let ghost second = dst@;
        self.initializer_token_to_receive_account_pubkey.write(dst, RECEIVE_AT);
        let ghost third = dst@;
        write_u64(dst, AMOUNT_AT, self.expected_amount);
        proof {
            lemma_le_bytes_len(self.expected_amount as nat, 8);
            assert(dst@ =~= self@.encode() + before.subrange(105, before.len() as int));
            lemma_decode_encode(self@, before.subrange(105, before.len() as int));
        }
    }
}

} // verus!
