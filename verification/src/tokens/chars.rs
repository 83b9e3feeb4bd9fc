use vstd::prelude::*;

verus! {

/// `\t`
pub const TAB: u8 = 9;

/// `\n`
pub const NEWLINE: u8 = 10;

/// `\r`
pub const CARRIAGE_RETURN: u8 = 13;

/// ` `
pub const SPACE: u8 = 32;

/// `"`
pub const QUOTE: u8 = 34;

/// `*`
pub const STAR: u8 = 42;

/// `/`
pub const SLASH: u8 = 47;

/// `0`
pub const DIGIT_ZERO: u8 = 48;

/// `_`
pub const UNDERSCORE: u8 = 95;

/// The number of line feeds in `s`.
pub open spec fn count_newlines(s: Seq<u8>) -> nat
    decreases s.len(),
{
    if s.len() == 0 {
        0
    } else {
        count_newlines(s.drop_last()) + if s.last() == NEWLINE {
            1nat
        } else {
            0nat
        }
    }
}

/// Appending one byte adds one to the count exactly when it is a line feed.
pub proof fn lemma_count_newlines_push(s: Seq<u8>, c: u8)
    ensures
        count_newlines(s.push(c)) == count_newlines(s) + if c == NEWLINE {
            1nat
        } else {
            0nat
        },
{
    assert(s.push(c).drop_last() =~= s);
}

} // verus!
