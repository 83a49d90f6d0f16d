//! Responses read back from the sensor, and their conversion into values
//! after the checksums have been checked.
use vstd::prelude::*;

use crate::checksum::{crc8, crc8_of, lemma_pair_checksum_depends_on_both_bytes};
use crate::params::{group_hi, group_lo, pairs_fit, pairs_payload};
use crate::commands::{be16, command_spec, word_bytes, word_frame, CommandCode};
use crate::error::Sgp30Error;

verus! {

/// Whether the three-byte group at index `g` of `s` carries the checksum of
/// its first two bytes.
pub open spec fn group_ok(s: Seq<u8>, g: int) -> bool {
    s[3 * g + 2] == crc8_of(seq![s[3 * g], s[3 * g + 1]])
}

/// Whether `s` is made of whole three-byte groups, each with a matching
/// checksum.
pub open spec fn groups_valid(s: Seq<u8>) -> bool {
    &&& s.len() % 3 == 0
    &&& forall|g: int| 0 <= g < s.len() / 3 ==> #[trigger] group_ok(s, g)
}

/// Whether `crc` is the checksum of the two bytes `hi` and `lo`.
pub fn check_group(hi: u8, lo: u8, crc: u8) -> (r: bool)
    ensures
        r == (crc == crc8_of(seq![hi, lo])),
{
    let pair = [hi, lo];
    assert(pair@ =~= seq![hi, lo]);
    crc8(&pair) == crc
}

/// The word that two bytes spell, most significant first.
pub fn join_word(hi: u8, lo: u8) -> (r: u16)
    ensures
        r == be16(hi, lo),
{
    (hi as u16) * 256 + (lo as u16)
}

/// A response of `N` bytes as read from the bus, or nothing where no read
/// took place. `VERIFY_CRC` says whether its checksums are to be checked
/// before it is converted.
#[derive(Debug)]
pub struct ResponseBytes<const N: usize, const VERIFY_CRC: bool> {
    pub data: Option<[u8; N]>,
}

impl<const N: usize, const VERIFY_CRC: bool> Default for ResponseBytes<N, VERIFY_CRC> {
    fn default() -> (r: Self)
        ensures
            r.data is None,
    {
        Self { data: None }
    }
}

impl<const N: usize, const VERIFY_CRC: bool> ResponseBytes<N, VERIFY_CRC> {
    /// The same response.
    pub fn ignore_crc(self) -> (r: Self)
        ensures
            r == self,
    {
        Self { data: self.data }
    }
}

/// One checked word: absent data is missing, a bad checksum is an error,
/// and otherwise the word is the first two bytes.
pub open spec fn decode_word(data: Option<Seq<u8>>) -> Result<u16, Sgp30Error> {
    match data {
        None => Err(Sgp30Error::MissingData),
        Some(s) => if group_ok(s, 0) {
            Ok(be16(s[0], s[1]))
        } else {
            Err(Sgp30Error::Crc)
        },
    }
}

/// Two checked words, each from its own group.
pub open spec fn decode_word_pair(data: Option<Seq<u8>>) -> Result<(u16, u16), Sgp30Error> {
    match data {
        None => Err(Sgp30Error::MissingData),
        Some(s) => if group_ok(s, 0) && group_ok(s, 1) {
            Ok((be16(s[0], s[1]), be16(s[3], s[4])))
        } else {
            Err(Sgp30Error::Crc)
        },
    }
}

/// The view of an optional buffer.
pub open spec fn data_view<const N: usize>(data: Option<[u8; N]>) -> Option<Seq<u8>> {
    match data {
        None => None,
        Some(d) => Some(d@),
    }
}

impl TryFrom<ResponseBytes<3, true>> for u16 {
    type Error = Sgp30Error;

    fn try_from(val: ResponseBytes<3, true>) -> Result<u16, Sgp30Error> {
        let bytes = match val.data {
            None => return Err(Sgp30Error::MissingData),
            Some(bytes) => bytes,
        };
        if !check_group(bytes[0], bytes[1], bytes[2]) {
            return Err(Sgp30Error::Crc);
        }
        Ok(join_word(bytes[0], bytes[1]))
    }
}

impl vstd::std_specs::convert::TryFromSpecImpl<ResponseBytes<3, true>> for u16 {
    open spec fn obeys_try_from_spec() -> bool {
        true
    }

    open spec fn try_from_spec(val: ResponseBytes<3, true>) -> Result<u16, Sgp30Error> {
        decode_word(data_view(val.data))
    }
}

impl TryFrom<ResponseBytes<2, false>> for u16 {
    type Error = Sgp30Error;

    fn try_from(val: ResponseBytes<2, false>) -> Result<u16, Sgp30Error> {
        match val.data {
            None => Err(Sgp30Error::MissingData),
            Some(bytes) => Ok(join_word(bytes[0], bytes[1])),
        }
    }
}

impl vstd::std_specs::convert::TryFromSpecImpl<ResponseBytes<2, false>> for u16 {
    open spec fn obeys_try_from_spec() -> bool {
        true
    }

    open spec fn try_from_spec(val: ResponseBytes<2, false>) -> Result<u16, Sgp30Error> {
        match val.data {
            None => Err(Sgp30Error::MissingData),
            Some(d) => Ok(be16(d@[0], d@[1])),
        }
    }
}

impl TryFrom<ResponseBytes<6, true>> for (u16, u16) {
    type Error = Sgp30Error;

    fn try_from(val: ResponseBytes<6, true>) -> Result<(u16, u16), Sgp30Error> {
        let bytes = match val.data {
            None => return Err(Sgp30Error::MissingData),
            Some(bytes) => bytes,
        };
        if !check_group(bytes[0], bytes[1], bytes[2]) {
            return Err(Sgp30Error::Crc);
        }
        if !check_group(bytes[3], bytes[4], bytes[5]) {
            return Err(Sgp30Error::Crc);
        }
        Ok((join_word(bytes[0], bytes[1]), join_word(bytes[3], bytes[4])))
    }
}

impl vstd::std_specs::convert::TryFromSpecImpl<ResponseBytes<6, true>> for (u16, u16) {
    open spec fn obeys_try_from_spec() -> bool {
        true
    }

    open spec fn try_from_spec(val: ResponseBytes<6, true>) -> Result<(u16, u16), Sgp30Error> {
        decode_word_pair(data_view(val.data))
    }
}

impl From<ResponseBytes<0, false>> for () {
    fn from(val: ResponseBytes<0, false>) -> () {
        ()
    }
}

impl vstd::std_specs::convert::FromSpecImpl<ResponseBytes<0, false>> for () {
    open spec fn obeys_from_spec() -> bool {
        true
    }

    open spec fn from_spec(val: ResponseBytes<0, false>) -> () {
        ()
    }
}

/// Checks every three-byte group of `bytes`.
pub fn all_groups_valid<const N: usize>(bytes: &[u8; N]) -> (r: bool)
    ensures
        r == groups_valid(bytes@),
{
    if N % 3 != 0 {
        return false;
    }
    let mut g: usize = 0;
    while g < N / 3
        invariant
            N % 3 == 0,
            g <= N / 3,
            bytes@.len() == N,
            forall|h: int| 0 <= h < g ==> #[trigger] group_ok(bytes@, h),
        decreases N / 3 - g,
    {
        if !check_group(bytes[3 * g], bytes[3 * g + 1], bytes[3 * g + 2]) {
            assert(!group_ok(bytes@, g as int));
            return false;
        }
        g = g + 1;
    }
    true
}

impl<const N: usize> TryFrom<ResponseBytes<N, true>> for [u8; N] {
    type Error = Sgp30Error;

    /// The raw bytes, once every group's checksum has been checked. A
    /// length that is not a whole number of groups fails the check.
    fn try_from(val: ResponseBytes<N, true>) -> Result<[u8; N], Sgp30Error> {
        let bytes = match val.data {
            None => return Err(Sgp30Error::MissingData),
            Some(bytes) => bytes,
        };
        if !all_groups_valid(&bytes) {
            return Err(Sgp30Error::Crc);
        }
        Ok(bytes)
    }
}

impl<const N: usize> vstd::std_specs::convert::TryFromSpecImpl<ResponseBytes<N, true>> for [u8; N] {
    open spec fn obeys_try_from_spec() -> bool {
        true
    }

    open spec fn try_from_spec(val: ResponseBytes<N, true>) -> Result<[u8; N], Sgp30Error> {
        match val.data {
            None => Err(Sgp30Error::MissingData),
            Some(d) => if groups_valid(d@) {
                Ok(d)
            } else {
                Err(Sgp30Error::Crc)
            },
        }
    }
}

impl<const N: usize> TryFrom<ResponseBytes<N, false>> for [u8; N] {
    type Error = Sgp30Error;

    fn try_from(val: ResponseBytes<N, false>) -> Result<[u8; N], Sgp30Error> {
        match val.data {
            None => Err(Sgp30Error::MissingData),
            Some(bytes) => Ok(bytes),
        }
    }
}

impl<const N: usize> vstd::std_specs::convert::TryFromSpecImpl<ResponseBytes<N, false>> for [u8; N] {
    open spec fn obeys_try_from_spec() -> bool {
        true
    }

    open spec fn try_from_spec(val: ResponseBytes<N, false>) -> Result<[u8; N], Sgp30Error> {
        match val.data {
            None => Err(Sgp30Error::MissingData),
            Some(d) => Ok(d),
        }
    }
}

/// Every group of a framed parameter payload carries the checksum of its
/// two data bytes, whether it holds a given pair or pads with the zero word.
pub proof fn lemma_pairs_payload_checksummed(pairs: Seq<u8>, n: nat)
    requires
        pairs_fit(pairs, n),
    ensures
        groups_valid(pairs_payload(pairs, n)),
{
    let s = pairs_payload(pairs, n);
    assert forall|g: int| 0 <= g < s.len() / 3 implies #[trigger] group_ok(s, g) by {
        assert((3 * g) / 3 == g && (3 * g) % 3 == 0);
        assert((3 * g + 1) / 3 == g && (3 * g + 1) % 3 == 1);
        assert((3 * g + 2) / 3 == g && (3 * g + 2) % 3 == 2);
        assert(s[3 * g] == group_hi(pairs, g));
        assert(s[3 * g + 1] == group_lo(pairs, g));
    }
}

/// A word's frame passes the checksum check, and reads back as the word.
pub proof fn lemma_word_frame_round_trip(w: u16)
    ensures
        groups_valid(word_frame(w)),
        decode_word(Some(word_frame(w))) == Ok::<u16, Sgp30Error>(w),
{
    let s = word_frame(w);
    assert(seq![s[0], s[1]] =~= word_bytes(w));
    assert(group_ok(s, 0));
    assert forall|g: int| 0 <= g < s.len() / 3 implies #[trigger] group_ok(s, g) by {
        assert(g == 0);
    }
    assert(be16(s[0], s[1]) == w);
}

/// Every command's frame, read back as a checked word, passes the checksum
/// check and gives the command's code.
pub proof fn lemma_command_frame_round_trip(code: CommandCode)
    ensures
        groups_valid(word_frame(command_spec(code).code)),
        decode_word(Some(word_frame(command_spec(code).code))) == Ok::<u16, Sgp30Error>(
            command_spec(code).code,
        ),
{
    lemma_word_frame_round_trip(command_spec(code).code);
}

/// A six-byte response whose two groups carry the checksums of their data
/// bytes reads as the two big-endian words of those bytes.
pub proof fn lemma_word_pair_decodes(s: Seq<u8>)
    requires
        s.len() == 6,
        s[2] == crc8_of(seq![s[0], s[1]]),
        s[5] == crc8_of(seq![s[3], s[4]]),
    ensures
        decode_word_pair(Some(s)) == Ok::<(u16, u16), Sgp30Error>(
            (be16(s[0], s[1]), be16(s[3], s[4])),
        ),
{
    assert(group_ok(s, 0));
    assert(group_ok(s, 1));
}

/// In a response whose groups all check, changing any single byte makes
/// its group fail the check.
pub proof fn lemma_single_byte_change_detected(s: Seq<u8>, i: int, x: u8)
    requires
        groups_valid(s),
        0 <= i < s.len(),
        x != s[i],
    ensures
        !group_ok(s.update(i, x), i / 3),
        !groups_valid(s.update(i, x)),
        s.len() == 3 ==> decode_word(Some(s.update(i, x))) == Err::<u16, Sgp30Error>(Sgp30Error::Crc),
        s.len() == 6 ==> decode_word_pair(Some(s.update(i, x))) == Err::<(u16, u16), Sgp30Error>(
            Sgp30Error::Crc,
        ),
{
    let t = s.update(i, x);
    let g = i / 3;
    assert(0 <= g < s.len() / 3);
    assert(group_ok(s, g));
    let a = s[3 * g];
    let b = s[3 * g + 1];
    if i % 3 == 0 {
        assert(i == 3 * g);
        lemma_pair_checksum_depends_on_both_bytes(b, a, x);
        assert(seq![t[3 * g], t[3 * g + 1]] =~= seq![x, b]);
    } else if i % 3 == 1 {
        assert(i == 3 * g + 1);
        lemma_pair_checksum_depends_on_both_bytes(a, b, x);
        assert(seq![t[3 * g], t[3 * g + 1]] =~= seq![a, x]);
    } else {
        assert(i == 3 * g + 2);
        assert(seq![t[3 * g], t[3 * g + 1]] =~= seq![a, b]);
    }
    assert(!group_ok(t, g));
}

} // verus!
