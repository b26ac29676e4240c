//! The record that an account stores: one counter.

use crate::encoding::{
    borsh_read_u32, borsh_write_u32, lemma_decode_encode, lemma_encode_decode, u32_from_le,
    u32_to_le,
};
use crate::error::ErrorKind;
use vstd::prelude::*;

verus! {

/// The record kept in an account's buffer.
#[derive(Clone, Copy, Debug, PartialEq, Eq, Structural)]
pub struct Account {
    /// How often the program has been invoked on the account, modulo 2^32.
    pub counter: u32,
}

impl Account {
    /// The record that a buffer holds: a buffer of exactly four bytes holds
    /// the counter that they denote in little-endian order, any other buffer
    /// holds no record.
    pub open spec fn decode(bytes: Seq<u8>) -> Option<Account> {
        if bytes.len() == 4 {
            Some(Account { counter: u32_from_le(bytes) })
        } else {
            None
        }
    }

    /// The four bytes that store the record.
    pub open spec fn encode(self) -> Seq<u8> {
        u32_to_le(self.counter)
    }

    /// The record after one more invocation: the counter goes up by one, and
    /// from `u32::MAX` back to zero.
    pub open spec fn incremented(self) -> Account {
        Account {
            counter: if self.counter == u32::MAX {
                0
            } else {
                (self.counter + 1) as u32
            },
        }
    }

    /// Reads a record from a buffer, which must hold the record and nothing else.
    pub fn try_from_slice(bytes: &[u8]) -> (outcome: Result<Account, ErrorKind>)
        ensures
            match outcome {
                Ok(account) => Account::decode(bytes@) == Some(account),
                Err(e) => e == ErrorKind::DeserializationError && Account::decode(bytes@) is None,
            },
    {
        match borsh_read_u32(bytes) {
            Ok(counter) => Ok(Account { counter }),
            Err(_) => Err(ErrorKind::DeserializationError),
        }
    }

    /// Writes the record over the first four bytes of `dest` and leaves the
    /// bytes behind them as they are. A shorter buffer is refused and not
    /// touched.
    pub fn serialize(&self, dest: &mut [u8]) -> (outcome: Result<(), ErrorKind>)
        ensures
            match outcome {
                Ok(()) => {
                    &&& old(dest)@.len() >= 4
                    &&& final(dest)@ == self.encode() + old(dest)@.skip(4)
                },
                Err(e) => {
                    &&& e == ErrorKind::SerializationError
                    &&& old(dest)@.len() < 4
                    &&& final(dest)@ == old(dest)@
                },
            },
    {
        if dest.len() < 4 {
            return Err(ErrorKind::SerializationError);
        }
        match borsh_write_u32(self.counter, dest) {
            Ok(()) => Ok(()),
            Err(_) => Err(ErrorKind::SerializationError),
        }
    }

    /// Storing a record and reading the bytes gives the record back.
    pub proof fn lemma_decode_encode(self)
        ensures
            self.encode().len() == 4,
            Account::decode(self.encode()) == Some(self),
    {
        lemma_decode_encode(self.counter);
    }

    /// Reading a record from a buffer that holds one and storing it gives the
    /// same bytes back.
    pub proof fn lemma_encode_decode(bytes: Seq<u8>)
        requires
            bytes.len() == 4,
        ensures
            Account::decode(bytes) matches Some(record) && record.encode() == bytes,
    {
        lemma_encode_decode(bytes);
    }

    /// Counting up adds one modulo 2^32, so it never gives the same record.
    pub proof fn lemma_incremented(self)
        ensures
            self.incremented().counter == (self.counter + 1) % 0x1_0000_0000,
            self.counter < u32::MAX ==> self.incremented().counter == self.counter + 1,
            self.counter == u32::MAX ==> self.incremented().counter == 0,
            self.incremented() != self,
    {
    }

    /// Counts one more invocation.
    pub fn increment(&mut self)
        ensures
            *final(self) == old(self).incremented(),
    {
        self.counter = self.counter.wrapping_add(1);
    }
}

} // verus!
