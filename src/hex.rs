//! Hexadecimal rendering of raw bytes, such as a serial number.
use vstd::prelude::*;

verus! {

/// The upper-case ASCII hex digit of a value below 16.
pub open spec fn hex_digit(n: int) -> u8 {
    if n < 10 {
        (48 + n) as u8
    } else {
        (55 + n) as u8
    }
}

/// Two upper-case hex digits for each byte of `input`, high nibble first.
pub open spec fn hex_of(input: Seq<u8>) -> Seq<u8> {
    Seq::new(
        2 * input.len(),
        |k: int|
            if k % 2 == 0 {
                hex_digit(input[k / 2] as int / 16)
            } else {
                hex_digit(input[k / 2] as int % 16)
            },
    )
}

fn nibble_digit(n: u8) -> (r: u8)
    requires
        n < 16,
    ensures
        r == hex_digit(n as int),
{
    if n < 10 {
        48 + n
    } else {
        55 + n
    }
}

/// Writes the hex digits of `input` at the start of `output`, which must
/// have room for two digits per byte; the rest of `output` is left as it
/// was.
pub fn to_hex_string(input: &[u8], output: &mut [u8]) -> (r: Result<(), &'static str>)
    ensures
        old(output)@.len() < 2 * input@.len() ==> r == Err::<(), &'static str>(
            "Output buffer is too small",
        ) && final(output)@ == old(output)@,
        old(output)@.len() >= 2 * input@.len() ==> r is Ok && final(output)@ == hex_of(input@) + old(
            output,
        )@.subrange(2 * input@.len() as int, old(output)@.len() as int),
{
    let room = output.len();
    if room / 2 < input.len() {
        return Err("Output buffer is too small");
    }
    let ghost before = output@;
    let mut i: usize = 0;
    while i < input.len()
        invariant
            i <= input@.len(),
            2 * input@.len() <= output@.len(),
            output@.len() == before.len(),
            output@.len() == room,
            forall|k: int| 0 <= k < 2 * i ==> output@[k] == #[trigger] hex_of(input@)[k],
            forall|k: int| 2 * i <= k < output@.len() ==> output@[k] == #[trigger] before[k],
        decreases input@.len() - i,
    {
        let byte = input[i];
        let high = byte >> 4u8;
        let low = byte & 0x0Fu8;
        assert(byte >> 4u8 == byte / 16) by (bit_vector);
        assert(byte & 0x0Fu8 == byte % 16) by (bit_vector);
        output[2 * i] = nibble_digit(high);
        output[2 * i + 1] = nibble_digit(low);
        proof {
            assert forall|k: int| 0 <= k < 2 * (i + 1) implies output@[k] == #[trigger] hex_of(
                input@,
            )[k] by {
                if k >= 2 * i {
                    assert(k / 2 == i);
                }
            }
        }
        i = i + 1;
    }
    assert(output@ =~= hex_of(input@) + before.subrange(2 * input@.len() as int, before.len() as int));
    Ok(())
}

} // verus!
