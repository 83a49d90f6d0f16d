//! Parameter payloads: words sent after a command, each as its two bytes
//! and their checksum.
use vstd::prelude::*;

use crate::checksum::{crc8, crc8_of};
use crate::commands::{split_word, word_frame};

verus! {

/// Encodes one word as its frame: two bytes, most significant first, then
/// their checksum.
pub fn encode_word(w: u16) -> (r: [u8; 3])
    ensures
        r@ == word_frame(w),
{
    let bytes = split_word(w);
    let r = [bytes[0], bytes[1], crc8(&bytes)];
    assert(r@ =~= word_frame(w));
    r
}

/// The word that group `i` of a payload carries, as its high byte: the
/// `i`-th given pair, or the zero word past the last pair.
pub open spec fn group_hi(pairs: Seq<u8>, i: int) -> u8 {
    if i < pairs.len() / 2 {
        pairs[2 * i]
    } else {
        0u8
    }
}

/// The low byte of the word that group `i` of a payload carries.
pub open spec fn group_lo(pairs: Seq<u8>, i: int) -> u8 {
    if i < pairs.len() / 2 {
        pairs[2 * i + 1]
    } else {
        0u8
    }
}

/// The payload that carries the given byte pairs, each followed by its
/// checksum, and after them frames of the zero word up to `n` bytes.
pub open spec fn pairs_payload(pairs: Seq<u8>, n: nat) -> Seq<u8> {
    Seq::new(
        n,
        |k: int|
            if k % 3 == 0 {
                group_hi(pairs, k / 3)
            } else if k % 3 == 1 {
                group_lo(pairs, k / 3)
            } else {
                crc8_of(seq![group_hi(pairs, k / 3), group_lo(pairs, k / 3)])
            },
    )
}

/// Whether `pairs` can be framed into a payload of `n` bytes: `n` is a
/// whole number of frames, `pairs` a whole number of pairs, and there is
/// room for all of them.
pub open spec fn pairs_fit(pairs: Seq<u8>, n: nat) -> bool {
    &&& n % 3 == 0
    &&& pairs.len() % 2 == 0
    &&& pairs.len() / 2 * 3 <= n
}

/// A parameter payload of `N` bytes.
pub struct ParamBytes<const N: usize>(pub [u8; N]);

impl<const N: usize> View for ParamBytes<N> {
    type V = Seq<u8>;

    open spec fn view(&self) -> Seq<u8> {
        self.0@
    }
}

/// An array of `N` bytes whose first `k` bytes are those of `s`, and
/// zeros after them.
pub open spec fn array_prefix<const N: usize>(s: Seq<u8>, k: nat) -> [u8; N]
    decreases k,
{
    if k == 0 {
        vstd::array::spec_array_fill_for_copy_type::<u8, N>(0)
    } else {
        vstd::array::spec_array_update(array_prefix::<N>(s, (k - 1) as nat), k - 1, s[k - 1])
    }
}

/// The payload whose bytes are `s`, where `s` has `N` bytes.
pub open spec fn payload_of<const N: usize>(s: Seq<u8>) -> ParamBytes<N> {
    ParamBytes(array_prefix::<N>(s, N as nat))
}

proof fn lemma_array_prefix<const N: usize>(s: Seq<u8>, k: nat)
    requires
        k <= N,
        k <= s.len(),
    ensures
        forall|i: int| 0 <= i < k ==> #[trigger] array_prefix::<N>(s, k)@[i] == s[i],
        forall|i: int| k <= i < N ==> #[trigger] array_prefix::<N>(s, k)@[i] == 0,
    decreases k,
{
    broadcast use vstd::array::group_array_axioms;

    if k == 0 {
        let a = vstd::array::spec_array_fill_for_copy_type::<u8, N>(0);
        assert(array_prefix::<N>(s, k) == a);
        assert forall|i: int| k <= i < N implies #[trigger] array_prefix::<N>(s, k)@[i] == 0 by {
            assert(a@[i] == 0);
        }
    } else {
        let prev = array_prefix::<N>(s, (k - 1) as nat);
        lemma_array_prefix::<N>(s, (k - 1) as nat);
        let cur = vstd::array::spec_array_update(prev, k - 1, s[k - 1]);
        assert(array_prefix::<N>(s, k) == cur);
        assert(cur@ == prev@.update(k - 1, s[k - 1]));
        assert forall|i: int| 0 <= i < k implies #[trigger] array_prefix::<N>(s, k)@[i] == s[i] by {
            if i < k - 1 {
                assert(prev@[i] == s[i]);
            }
        }
        assert forall|i: int| k <= i < N implies #[trigger] array_prefix::<N>(s, k)@[i] == 0 by {
            assert(prev@[i] == 0);
        }
    }
}

/// The payload made of `N` given bytes holds exactly those bytes.
pub proof fn lemma_payload_of_view<const N: usize>(s: Seq<u8>)
    requires
        s.len() == N,
    ensures
        payload_of::<N>(s)@ == s,
{
    broadcast use vstd::array::group_array_axioms;

    lemma_array_prefix::<N>(s, N as nat);
    assert(payload_of::<N>(s)@ =~= s);
}

proof fn lemma_payload_of<const N: usize>(p: ParamBytes<N>)
    ensures
        payload_of::<N>(p@) == p,
{
    broadcast use vstd::array::group_array_axioms;

    lemma_payload_of_view::<N>(p@);
    assert(payload_of::<N>(p@).0 =~= p.0);
}

impl From<()> for ParamBytes<0> {
    fn from(v: ()) -> Self {
        let r = ParamBytes([]);
        proof {
            lemma_payload_of(r);
            assert(r@ =~= Seq::<u8>::empty());
        }
        r
    }
}

impl vstd::std_specs::convert::FromSpecImpl<()> for ParamBytes<0> {
    open spec fn obeys_from_spec() -> bool {
        true
    }

    open spec fn from_spec(v: ()) -> Self {
        payload_of(Seq::empty())
    }
}

impl From<u16> for ParamBytes<3> {
    fn from(v: u16) -> Self {
        let r = ParamBytes(encode_word(v));
        proof {
            lemma_payload_of(r);
        }
        r
    }
}

impl vstd::std_specs::convert::FromSpecImpl<u16> for ParamBytes<3> {
    open spec fn obeys_from_spec() -> bool {
        true
    }

    open spec fn from_spec(v: u16) -> Self {
        payload_of(word_frame(v))
    }
}

impl From<(u16, u16)> for ParamBytes<6> {
    fn from(v: (u16, u16)) -> Self {
        let a = encode_word(v.0);
        let b = encode_word(v.1);
        let r = ParamBytes([a[0], a[1], a[2], b[0], b[1], b[2]]);
        proof {
            lemma_payload_of(r);
            assert(r@ =~= word_frame(v.0) + word_frame(v.1));
        }
        r
    }
}

impl vstd::std_specs::convert::FromSpecImpl<(u16, u16)> for ParamBytes<6> {
    open spec fn obeys_from_spec() -> bool {
        true
    }

    open spec fn from_spec(v: (u16, u16)) -> Self {
        payload_of(word_frame(v.0) + word_frame(v.1))
    }
}

impl From<(u16, u16, u16)> for ParamBytes<9> {
    fn from(v: (u16, u16, u16)) -> Self {
        let a = encode_word(v.0);
        let b = encode_word(v.1);
        let c = encode_word(v.2);
        let r = ParamBytes([a[0], a[1], a[2], b[0], b[1], b[2], c[0], c[1], c[2]]);
        proof {
            lemma_payload_of(r);
            assert(r@ =~= word_frame(v.0) + word_frame(v.1) + word_frame(v.2));
        }
        r
    }
}

impl vstd::std_specs::convert::FromSpecImpl<(u16, u16, u16)> for ParamBytes<9> {
    open spec fn obeys_from_spec() -> bool {
        true
    }

    open spec fn from_spec(v: (u16, u16, u16)) -> Self {
        payload_of(word_frame(v.0) + word_frame(v.1) + word_frame(v.2))
    }
}

impl<'a, const N: usize> TryFrom<&'a [u8]> for ParamBytes<N> {
    type Error = ();

    /// Frames consecutive byte pairs into a payload of `N` bytes; groups
    /// past the last pair carry the frame of the zero word.
    fn try_from(bytes: &'a [u8]) -> Result<Self, ()> {
        if N % 3 != 0 {
            return Err(());
        }
        if bytes.len() % 2 != 0 {
            return Err(());
        }
        let pairs: usize = bytes.len() / 2;
        if pairs > N / 3 {
            return Err(());
        }
        let mut output = [0u8; N];
        let mut i: usize = 0;
        while i < N / 3
            invariant
                pairs == bytes@.len() / 2,
                pairs <= N / 3,
                N % 3 == 0,
                i <= N / 3,
                output@.len() == N,
                forall|k: int|
                    0 <= k < 3 * i ==> output@[k] == #[trigger] pairs_payload(bytes@, N as nat)[k],
            decreases N / 3 - i,
        {
            let pair = if i < pairs {
                [bytes[2 * i], bytes[2 * i + 1]]
            } else {
                [0u8, 0u8]
            };
            output[3 * i] = pair[0];
            output[3 * i + 1] = pair[1];
            output[3 * i + 2] = crc8(&pair);
            proof {
                let ghost goal = pairs_payload(bytes@, N as nat);
                assert(pair@ =~= seq![group_hi(bytes@, i as int), group_lo(bytes@, i as int)]);
                assert forall|k: int| 0 <= k < 3 * (i + 1) implies output@[k] == #[trigger] goal[k] by {
                    if k >= 3 * i {
                        assert(k / 3 == i);
                    }
                }
            }
            i = i + 1;
        }
        let r = ParamBytes(output);
        proof {
            lemma_payload_of(r);
            assert(r@ =~= pairs_payload(bytes@, N as nat));
        }
        Ok(r)
    }
}

impl<'a, const N: usize> vstd::std_specs::convert::TryFromSpecImpl<&'a [u8]> for ParamBytes<N> {
    open spec fn obeys_try_from_spec() -> bool {
        true
    }

    open spec fn try_from_spec(bytes: &'a [u8]) -> Result<Self, ()> {
        if pairs_fit(bytes@, N as nat) {
            Ok(payload_of(pairs_payload(bytes@, N as nat)))
        } else {
            Err(())
        }
    }
}

} // verus!
