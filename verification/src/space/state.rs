//! The registry's records and their byte layout.

use crate::key::Key;
use crate::wire::flag_byte;
use crate::wire::get_array;
use crate::wire::get_i64;
use crate::wire::get_key;
use crate::wire::get_u64;
use crate::wire::i64_at;
use crate::wire::i64_le;
use crate::wire::key_at;
use crate::wire::lemma_array_of_view;
use crate::wire::lemma_key_of_view;
use crate::wire::lemma_le_round_trip;
use crate::wire::put_bytes;
use crate::wire::put_flag;
use crate::wire::put_i64;
use crate::wire::put_key;
use crate::wire::put_u32;
use crate::wire::put_u64;
use crate::wire::get_u32;
use crate::wire::u32_at;
use crate::wire::u32_le;
use crate::wire::u64_at;
use crate::wire::u64_le;
use vstd::prelude::*;

verus! {

/// Bytes reserved for a base record.
pub const BASE_RESERVE: usize = 2048;

/// Most neighborhoods that one base registers.
pub const MAX_NEIGHBORHOODS: usize = 8;

/// Bytes reserved for a neighborhood list.
pub const NEIGHBORHOOD_LIST_RESERVE: usize = 10240;

/// Bytes reserved for a neighborhood's metadata.
pub const NEIGHBORHOOD_METADATA_RESERVE: usize = 512;

/// Bytes reserved for a space's metadata.
pub const SPACE_METADATA_RESERVE: usize = 128;

/// The marketplace keeps one part in this many of every sale.
pub const MARKETPLACE_FEE_DIVISOR: u64 = 100;

/// Bytes of a neighborhood's name.
pub const NAME_LEN: usize = 64;

/// The root of one world instance.
#[derive(Clone, Copy, Debug, PartialEq, Eq)]
pub struct Base {
    pub neighborhood_count: u64,
    pub authority: Key,
    pub authority_privileges: bool,
}

impl Base {
    /// Bytes of an encoded base.
    pub const LEN: usize = 41;

    /// The bytes that stand for the record.
    pub open spec fn encoding(self) -> Seq<u8> {
        u64_le(self.neighborhood_count) + self.authority@ + seq![
            flag_byte(self.authority_privileges),
        ]
    }

    /// The record that the first bytes of `data` stand for, if any.
    pub open spec fn parse(data: Seq<u8>) -> Option<Base> {
        if data.len() >= 41 && data[40] <= 1 {
            Some(
                Base {
                    neighborhood_count: u64_at(data, 0),
                    authority: key_at(data, 8),
                    authority_privileges: data[40] == 1,
                },
            )
        } else {
            None
        }
    }

    /// What is written is read back, whatever follows it.
    pub proof fn lemma_round_trip(self, rest: Seq<u8>)
        ensures
            self.encoding().len() == 41,
            Base::parse(self.encoding() + rest) == Some(self),
    {
        lemma_le_round_trip();
        lemma_key_of_view(self.authority);
        let data = self.encoding() + rest;
        assert(data.subrange(0, 8) =~= u64_le(self.neighborhood_count));
        assert(data.subrange(8, 40) =~= self.authority@);
    }

    /// Reads the record at the start of `data`.
    pub fn decode(data: &[u8]) -> (r: Option<Base>)
        ensures
            r == Base::parse(data@),
    {
        if data.len() < 41 || data[40] > 1 {
            return None;
        }
        Some(
            Base {
                neighborhood_count: get_u64(data, 0),
                authority: get_key(data, 8),
                authority_privileges: data[40] == 1,
            },
        )
    }

    /// The bytes that stand for the record.
    pub fn encode(&self) -> (v: Vec<u8>)
        ensures
            v@ == self.encoding(),
            v@.len() == 41,
    {
        proof {
            lemma_le_round_trip();
        }
        let mut v: Vec<u8> = Vec::new();
        put_u64(&mut v, self.neighborhood_count);
        put_key(&mut v, &self.authority);
        put_flag(&mut v, self.authority_privileges);
        assert(v@ =~= self.encoding());
        v
    }
}

/// What the registry keeps of one neighborhood. Nothing but the name changes
/// after creation.
#[derive(Clone, Copy, Debug, PartialEq, Eq)]
pub struct NeighborhoodMetadata {
    pub bump: u8,
    pub creator: Key,
    pub candymachine_config: Key,
    pub candymachine_account: Key,
    pub neighborhood_name: [u8; 64],
}

impl NeighborhoodMetadata {
    /// Bytes of an encoded record.
    pub const LEN: usize = 161;

    /// The bytes that stand for the record.
    pub open spec fn encoding(self) -> Seq<u8> {
        seq![self.bump] + self.creator@ + self.candymachine_config@ + self.candymachine_account@
            + self.neighborhood_name@
    }

    /// The record that the first bytes of `data` stand for, if any.
    pub open spec fn parse(data: Seq<u8>) -> Option<NeighborhoodMetadata> {
        if data.len() >= 161 {
            Some(
                NeighborhoodMetadata {
                    bump: data[0],
                    creator: key_at(data, 1),
                    candymachine_config: key_at(data, 33),
                    candymachine_account: key_at(data, 65),
                    neighborhood_name: crate::wire::array_of::<64>(data.subrange(97, 161)),
                },
            )
        } else {
            None
        }
    }

    /// What is written is read back, whatever follows it.
    pub proof fn lemma_round_trip(self, rest: Seq<u8>)
        ensures
            self.encoding().len() == 161,
            NeighborhoodMetadata::parse(self.encoding() + rest) == Some(self),
    {
        lemma_key_of_view(self.creator);
        lemma_key_of_view(self.candymachine_config);
        lemma_key_of_view(self.candymachine_account);
        lemma_array_of_view::<64>(self.neighborhood_name);
        let data = self.encoding() + rest;
        assert(data.subrange(1, 33) =~= self.creator@);
        assert(data.subrange(33, 65) =~= self.candymachine_config@);
        assert(data.subrange(65, 97) =~= self.candymachine_account@);
        assert(data.subrange(97, 161) =~= self.neighborhood_name@);
    }

    /// Reads the record at the start of `data`.
    pub fn decode(data: &[u8]) -> (r: Option<NeighborhoodMetadata>)
        ensures
            r == NeighborhoodMetadata::parse(data@),
    {
        if data.len() < 161 {
            return None;
        }
        Some(
            NeighborhoodMetadata {
                bump: data[0],
                creator: get_key(data, 1),
                candymachine_config: get_key(data, 33),
                candymachine_account: get_key(data, 65),
                neighborhood_name: get_array::<64>(data, 97),
            },
        )
    }

    /// The bytes that stand for the record.
    pub fn encode(&self) -> (v: Vec<u8>)
        ensures
            v@ == self.encoding(),
            v@.len() == 161,
    {
        let mut v: Vec<u8> = Vec::new();
        v.push(self.bump);
        put_key(&mut v, &self.creator);
        put_key(&mut v, &self.candymachine_config);
        put_key(&mut v, &self.candymachine_account);
        put_bytes(&mut v, self.neighborhood_name.as_slice());
        assert(v@ =~= self.encoding());
        v
    }
}

/// What the registry keeps of one space. A price of zero means that the space
/// is not for sale.
#[derive(Clone, Copy, Debug, PartialEq, Eq)]
pub struct SpaceMetadata {
    pub bump: u8,
    pub mint: Key,
    pub price: u64,
    pub space_x: i64,
    pub space_y: i64,
}

impl SpaceMetadata {
    /// Bytes of an encoded record.
    pub const LEN: usize = 57;

    /// The bytes that stand for the record.
    pub open spec fn encoding(self) -> Seq<u8> {
        seq![self.bump] + self.mint@ + u64_le(self.price) + i64_le(self.space_x) + i64_le(
            self.space_y,
        )
    }

    /// The record that the first bytes of `data` stand for, if any.
    pub open spec fn parse(data: Seq<u8>) -> Option<SpaceMetadata> {
        if data.len() >= 57 {
            Some(
                SpaceMetadata {
                    bump: data[0],
                    mint: key_at(data, 1),
                    price: u64_at(data, 33),
                    space_x: i64_at(data, 41),
                    space_y: i64_at(data, 49),
                },
            )
        } else {
            None
        }
    }

    /// What is written is read back, whatever follows it.
    pub proof fn lemma_round_trip(self, rest: Seq<u8>)
        ensures
            self.encoding().len() == 57,
            SpaceMetadata::parse(self.encoding() + rest) == Some(self),
    {
        lemma_le_round_trip();
        lemma_key_of_view(self.mint);
        let data = self.encoding() + rest;
        assert(data.subrange(1, 33) =~= self.mint@);
        assert(data.subrange(33, 41) =~= u64_le(self.price));
        assert(data.subrange(41, 49) =~= i64_le(self.space_x));
        assert(data.subrange(49, 57) =~= i64_le(self.space_y));
    }

    /// Reads the record at the start of `data`.
    pub fn decode(data: &[u8]) -> (r: Option<SpaceMetadata>)
        ensures
            r == SpaceMetadata::parse(data@),
    {
        if data.len() < 57 {
            return None;
        }
        Some(
            SpaceMetadata {
                bump: data[0],
                mint: get_key(data, 1),
                price: get_u64(data, 33),
                space_x: get_i64(data, 41),
                space_y: get_i64(data, 49),
            },
        )
    }

    /// The bytes that stand for the record.
    pub fn encode(&self) -> (v: Vec<u8>)
        ensures
            v@ == self.encoding(),
            v@.len() == 57,
    {
        proof {
            lemma_le_round_trip();
        }
        let mut v: Vec<u8> = Vec::new();
        v.push(self.bump);
        put_key(&mut v, &self.mint);
        put_u64(&mut v, self.price);
        put_i64(&mut v, self.space_x);
        put_i64(&mut v, self.space_y);
        assert(v@ =~= self.encoding());
        v
    }
}

/// The neighborhoods of one base, in the order of their creation: two
/// parallel lists of coordinates that only ever grow.
#[derive(Clone, Debug, PartialEq, Eq)]
pub struct NeighborhoodList {
    pub bump: u8,
    pub neighborhoods_x: Vec<i64>,
    pub neighborhoods_y: Vec<i64>,
}

/// A neighborhood list as plain values.
pub struct NeighborhoodListView {
    pub bump: u8,
    pub xs: Seq<i64>,
    pub ys: Seq<i64>,
}

impl View for NeighborhoodList {
    type V = NeighborhoodListView;

    open spec fn view(&self) -> NeighborhoodListView {
        NeighborhoodListView {
            bump: self.bump,
            xs: self.neighborhoods_x@,
            ys: self.neighborhoods_y@,
        }
    }
}

/// The bytes of a list of coordinates, eight per coordinate.
pub open spec fn coordinates_le(xs: Seq<i64>) -> Seq<u8> {
    Seq::new(8 * xs.len(), |i: int| i64_le(xs[i / 8])[i % 8])
}

/// The `n` coordinates stored from offset `at` on.
pub open spec fn coordinates_at(data: Seq<u8>, at: int, n: nat) -> Seq<i64> {
    Seq::new(n, |i: int| i64_at(data, at + 8 * i))
}

/// Appending a coordinate appends its eight bytes.
pub proof fn lemma_coordinates_le_push(xs: Seq<i64>, x: i64)
    ensures
        coordinates_le(xs.push(x)) == coordinates_le(xs) + i64_le(x),
{
    lemma_le_round_trip();
    assert(coordinates_le(xs.push(x)) =~= coordinates_le(xs) + i64_le(x));
}

/// The coordinates stored in their own bytes are the coordinates.
pub proof fn lemma_coordinates_round_trip(before: Seq<u8>, xs: Seq<i64>, after: Seq<u8>)
    ensures
        coordinates_at(before + coordinates_le(xs) + after, before.len() as int, xs.len())
            == xs,
{
    lemma_le_round_trip();
    let data = before + coordinates_le(xs) + after;
    let at = before.len() as int;
    assert forall|i: int| 0 <= i < xs.len() implies i64_at(data, at + 8 * i) == xs[i] by {
        assert(data.subrange(at + 8 * i, at + 8 * i + 8) =~= i64_le(xs[i])) by {
            assert forall|j: int| 0 <= j < 8 implies data[at + 8 * i + j] == i64_le(xs[i])[j] by {
                assert((8 * i + j) / 8 == i && (8 * i + j) % 8 == j);
                assert(data[at + 8 * i + j] == coordinates_le(xs)[8 * i + j]);
            }
        }
    }
    assert(coordinates_at(data, at, xs.len()) =~= xs);
}

impl NeighborhoodListView {
    /// The two lists run in parallel and hold no more than
    /// `MAX_NEIGHBORHOODS` neighborhoods.
    pub open spec fn wf(self) -> bool {
        &&& self.xs.len() == self.ys.len()
        &&& self.xs.len() <= MAX_NEIGHBORHOODS
    }

    /// Number of bytes that stand for the list.
    pub open spec fn encoded_len(self) -> int {
        9 + 8 * (self.xs.len() as int) + 8 * (self.ys.len() as int)
    }

    /// The bytes that stand for the list.
    pub open spec fn encoding(self) -> Seq<u8> {
        seq![self.bump] + u32_le(self.xs.len() as u32) + coordinates_le(self.xs) + u32_le(
            self.ys.len() as u32,
        ) + coordinates_le(self.ys)
    }

    /// The list with one more neighborhood at its end.
    pub open spec fn with(self, x: i64, y: i64) -> NeighborhoodListView {
        NeighborhoodListView { bump: self.bump, xs: self.xs.push(x), ys: self.ys.push(y) }
    }

    /// What is written is read back, whatever follows it.
    pub proof fn lemma_round_trip(self, rest: Seq<u8>)
        requires
            self.xs.len() <= u32::MAX,
            self.ys.len() <= u32::MAX,
        ensures
            self.encoding().len() == self.encoded_len(),
            NeighborhoodList::parse(self.encoding() + rest) == Some(self),
    {
        lemma_le_round_trip();
        let data = self.encoding() + rest;
        let n = self.xs.len() as int;
        let m = self.ys.len() as int;
        assert(data.subrange(1, 5) =~= u32_le(n as u32));
        assert(data.subrange(5 + 8 * n, 9 + 8 * n) =~= u32_le(m as u32));
        let head_x = seq![self.bump] + u32_le(n as u32);
        let tail_x = u32_le(m as u32) + coordinates_le(self.ys) + rest;
        assert(data =~= head_x + coordinates_le(self.xs) + tail_x);
        lemma_coordinates_round_trip(head_x, self.xs, tail_x);
        let head_y = seq![self.bump] + u32_le(n as u32) + coordinates_le(self.xs) + u32_le(
            m as u32,
        );
        assert(data =~= head_y + coordinates_le(self.ys) + rest);
        lemma_coordinates_round_trip(head_y, self.ys, rest);
    }
}

impl NeighborhoodList {
    /// The list that the first bytes of `data` stand for, if any.
    pub open spec fn parse(data: Seq<u8>) -> Option<NeighborhoodListView> {
        if data.len() < 9 {
            None
        } else {
            let n = u32_at(data, 1) as int;
            if 9 + 8 * n > data.len() {
                None
            } else {
                let m = u32_at(data, 5 + 8 * n) as int;
                if 9 + 8 * n + 8 * m > data.len() {
                    None
                } else {
                    Some(
                        NeighborhoodListView {
                            bump: data[0],
                            xs: coordinates_at(data, 5, n as nat),
                            ys: coordinates_at(data, 9 + 8 * n, m as nat),
                        },
                    )
                }
            }
        }
    }

    /// Reads `n` coordinates from offset `at` on.
    fn decode_coordinates(data: &[u8], at: usize, n: usize) -> (v: Vec<i64>)
        requires
            at + 8 * n <= data@.len(),
        ensures
            v@ == coordinates_at(data@, at as int, n as nat),
    {
        let len: usize = data.len();
        let mut v: Vec<i64> = Vec::new();
        let mut i: usize = 0;
        while i < n
            invariant
                i <= n,
                at + 8 * n <= data@.len() <= usize::MAX,
                v@ == coordinates_at(data@, at as int, i as nat),
            decreases n - i,
        {
            let x: i64 = get_i64(data, at + 8 * i);
            v.push(x);
            i += 1;
            assert(v@ =~= coordinates_at(data@, at as int, i as nat));
        }
        v
    }

    /// Reads the list at the start of `data`.
    pub fn decode(data: &[u8]) -> (r: Option<NeighborhoodList>)
        ensures
            match r {
                Some(l) => NeighborhoodList::parse(data@) == Some(l@),
                None => NeighborhoodList::parse(data@) is None,
            },
    {
        let len: usize = data.len();
        if len < 9 {
            return None;
        }
        let n: usize = get_u32(data, 1) as usize;
        if n > (len - 9) / 8 {
            return None;
        }
        let m: usize = get_u32(data, 5 + 8 * n) as usize;
        if m > (len - 9 - 8 * n) / 8 {
            return None;
        }
        let xs = NeighborhoodList::decode_coordinates(data, 5, n);
        let ys = NeighborhoodList::decode_coordinates(data, 9 + 8 * n, m);
        Some(NeighborhoodList { bump: data[0], neighborhoods_x: xs, neighborhoods_y: ys })
    }

    /// Appends the bytes of the coordinates.
    fn encode_coordinates(out: &mut Vec<u8>, xs: &Vec<i64>)
        ensures
            final(out)@ == old(out)@ + coordinates_le(xs@),
    {
        let ghost before = out@;
        let mut i: usize = 0;
        assert(out@ =~= before + coordinates_le(xs@.subrange(0, 0)));
        while i < xs.len()
            invariant
                i <= xs@.len(),
                out@ == before + coordinates_le(xs@.subrange(0, i as int)),
            decreases xs@.len() - i,
        {
            put_i64(out, xs[i]);
            proof {
                lemma_coordinates_le_push(xs@.subrange(0, i as int), xs@[i as int]);
                assert(xs@.subrange(0, i + 1) =~= xs@.subrange(0, i as int).push(xs@[i as int]));
            }
            i += 1;
            assert(out@ =~= before + coordinates_le(xs@.subrange(0, i as int)));
        }
        assert(xs@.subrange(0, xs@.len() as int) =~= xs@);
    }

    /// The bytes that stand for the list.
    pub fn encode(&self) -> (v: Vec<u8>)
        requires
            self@.xs.len() <= u32::MAX,
            self@.ys.len() <= u32::MAX,
        ensures
            v@ == self@.encoding(),
            v@.len() == self@.encoded_len(),
    {
        proof {
            lemma_le_round_trip();
        }
        let mut v: Vec<u8> = Vec::new();
        v.push(self.bump);
        put_u32(&mut v, self.neighborhoods_x.len() as u32);
        NeighborhoodList::encode_coordinates(&mut v, &self.neighborhoods_x);
        put_u32(&mut v, self.neighborhoods_y.len() as u32);
        NeighborhoodList::encode_coordinates(&mut v, &self.neighborhoods_y);
        assert(v@ =~= self@.encoding());
        v
    }
}

} // verus!
