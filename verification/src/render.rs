//! The text form of a tick: the tag `tick:` and the counter as eight
//! uppercase hexadecimal digits, zero-padded.

use crate::tick::TickId;
use vstd::prelude::*;
use vstd::string::*;

verus! {

/// The tag that opens every rendered tick.
pub open spec fn tag() -> Seq<char> {
    seq!['t', 'i', 'c', 'k', ':']
}

/// The sixteen hexadecimal digits in order of their value.
pub open spec fn hex_alphabet() -> Seq<char> {
    seq!['0', '1', '2', '3', '4', '5', '6', '7', '8', '9', 'A', 'B', 'C', 'D', 'E', 'F']
}

/// The last `width` hexadecimal digits of `value`, most significant first,
/// with zeros in front where `value` has fewer.
pub open spec fn hex_digits(value: nat, width: nat) -> Seq<char>
    decreases width,
{
    if width == 0 {
        Seq::empty()
    } else {
        hex_digits(value / 16, (width - 1) as nat).push(hex_alphabet()[(value % 16) as int])
    }
}

/// `hex_digits` yields exactly `width` characters.
pub proof fn lemma_hex_digits_len(value: nat, width: nat)
    ensures
        hex_digits(value, width).len() == width,
    decreases width,
{
    if width > 0 {
        lemma_hex_digits_len(value / 16, (width - 1) as nat);
    }
}

impl TickId {
    /// The text form of the tick as a sequence of characters.
    pub open spec fn rendering(self) -> Seq<char> {
        tag() + hex_digits(self@ as nat, 8)
    }

    /// Renders the tick as `tick:` followed by eight uppercase hexadecimal
    /// digits, thirteen characters in all.
    pub fn to_string(&self) -> (text: String)
        ensures
            text@ == self.rendering(),
            text@.len() == 13,
    {
        let alphabet = "0123456789ABCDEF";
        let value: u64 = self.0 as u64;
        let mut text = String::from_str("tick:");
        let mut written: u64 = 0;
        proof {
            reveal_strlit("0123456789ABCDEF");
            reveal_strlit("tick:");
            assert(alphabet@ =~= hex_alphabet());
            assert(text@ =~= tag() + hex_digits((value >> 32) as nat, 0));
        }
        while written < 8
            invariant
                written <= 8,
                alphabet@ == hex_alphabet(),
                text@ == tag() + hex_digits(
                    (value >> (32 - 4 * written) as u64) as nat,
                    written as nat,
                ),
            decreases 8 - written,
        {
            // The digit at this place is the lowest one of what lies above
            // the places still to come.
            let shift: u64 = 28 - 4 * written;
            let nibble: u64 = (value >> shift) & 0xF;
            assert(nibble == (value >> shift) % 16 && (value >> shift) / 16 == value >> (shift
                + 4) as u64) by (bit_vector)
                requires
                    nibble == (value >> shift) & 0xF,
                    shift <= 28,
            ;
            let at: usize = nibble as usize;
            let digit = alphabet.substring_ascii(at, at + 1);
            text.append(digit);
            written = written + 1;
            assert(text@ =~= tag() + hex_digits((value >> shift) as nat, written as nat));
        }
        proof {
            assert(value >> 0 == value) by (bit_vector);
            lemma_hex_digits_len(value as nat, 8);
        }
        text
    }
}

} // verus!
