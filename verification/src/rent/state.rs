//! The lease market's record and its byte layout.

use crate::key::Key;
use crate::wire::get_key;
use crate::wire::get_u64;
use crate::wire::key_at;
use crate::wire::lemma_key_of_view;
use crate::wire::lemma_le_round_trip;
use crate::wire::put_key;
use crate::wire::put_u64;
use crate::wire::u64_at;
use crate::wire::u64_le;
use vstd::prelude::*;

verus! {

/// Bytes reserved for a rent listing.
pub const RENT_ACCOUNT_RESERVE: usize = 256;

/// The rent listing of one space: the terms on offer, who offers them, and
/// the lease in progress, if any.
#[derive(Clone, Copy, Debug, PartialEq, Eq)]
pub struct RentAccount {
    pub bump: u8,
    pub mint: Key,
    pub price: u64,
    pub min_duration: u64,
    pub max_duration: u64,
    pub max_timestamp: u64,
    pub lister: Key,
    pub lessee: Key,
    pub rent_end: u64,
}

impl RentAccount {
    /// Bytes of an encoded record.
    pub const LEN: usize = 137;

    /// The bytes that stand for the record.
    pub open spec fn encoding(self) -> Seq<u8> {
        seq![self.bump] + self.mint@ + u64_le(self.price) + u64_le(self.min_duration) + u64_le(
            self.max_duration,
        ) + u64_le(self.max_timestamp) + self.lister@ + self.lessee@ + u64_le(self.rent_end)
    }

    /// The record that the first bytes of `data` stand for, if any.
    pub open spec fn parse(data: Seq<u8>) -> Option<RentAccount> {
        if data.len() >= 137 {
            Some(
                RentAccount {
                    bump: data[0],
                    mint: key_at(data, 1),
                    price: u64_at(data, 33),
                    min_duration: u64_at(data, 41),
                    max_duration: u64_at(data, 49),
                    max_timestamp: u64_at(data, 57),
                    lister: key_at(data, 65),
                    lessee: key_at(data, 97),
                    rent_end: u64_at(data, 129),
                },
            )
        } else {
            None
        }
    }

    /// What is written is read back, whatever follows it.
    pub proof fn lemma_round_trip(self, rest: Seq<u8>)
        ensures
            self.encoding().len() == 137,
            RentAccount::parse(self.encoding() + rest) == Some(self),
    {
        lemma_le_round_trip();
        lemma_key_of_view(self.mint);
        lemma_key_of_view(self.lister);
        lemma_key_of_view(self.lessee);
        let data = self.encoding() + rest;
        assert(data.subrange(1, 33) =~= self.mint@);
        assert(data.subrange(33, 41) =~= u64_le(self.price));
        assert(data.subrange(41, 49) =~= u64_le(self.min_duration));
        assert(data.subrange(49, 57) =~= u64_le(self.max_duration));
        assert(data.subrange(57, 65) =~= u64_le(self.max_timestamp));
        assert(data.subrange(65, 97) =~= self.lister@);
        assert(data.subrange(97, 129) =~= self.lessee@);
        assert(data.subrange(129, 137) =~= u64_le(self.rent_end));
    }

    /// Reads the record at the start of `data`.
    pub fn decode(data: &[u8]) -> (r: Option<RentAccount>)
        ensures
            r == RentAccount::parse(data@),
    {
        if data.len() < 137 {
            return None;
        }
        Some(
            RentAccount {
                bump: data[0],
                mint: get_key(data, 1),
                price: get_u64(data, 33),
                min_duration: get_u64(data, 41),
                max_duration: get_u64(data, 49),
                max_timestamp: get_u64(data, 57),
                lister: get_key(data, 65),
                lessee: get_key(data, 97),
                rent_end: get_u64(data, 129),
            },
        )
    }

    /// The bytes that stand for the record.
    pub fn encode(&self) -> (v: Vec<u8>)
        ensures
            v@ == self.encoding(),
            v@.len() == 137,
    {
        proof {
            lemma_le_round_trip();
        }
        let mut v: Vec<u8> = Vec::new();
        v.push(self.bump);
        put_key(&mut v, &self.mint);
        put_u64(&mut v, self.price);
        put_u64(&mut v, self.min_duration);
        put_u64(&mut v, self.max_duration);
        put_u64(&mut v, self.max_timestamp);
        put_key(&mut v, &self.lister);
        put_key(&mut v, &self.lessee);
        put_u64(&mut v, self.rent_end);
        assert(v@ =~= self.encoding());
        v
    }
}

} // verus!
