//! Formatting of one display row: bytes as space-separated hex pairs, padded
//! with spaces to a fixed number of characters.

use vstd::prelude::*;

use crate::text::push_char;

verus! {

/// The uppercase hexadecimal digit for a value below 16.
pub open spec fn hex_digit(n: u8) -> char {
    if n < 10 {
        (n + 48) as char
    } else {
        (n + 55) as char
    }
}

/// The two digits of one byte, high nibble first.
pub open spec fn byte_hex(b: u8) -> Seq<char> {
    seq![hex_digit(b / 16), hex_digit(b % 16)]
}

/// Bytes as hex pairs separated by single spaces, without padding.
pub open spec fn hex_row(bytes: Seq<u8>) -> Seq<char>
    decreases bytes.len(),
{
    if bytes.len() == 0 {
        seq![]
    } else if bytes.len() == 1 {
        byte_hex(bytes[0])
    } else {
        hex_row(bytes.drop_last()) + seq![' '] + byte_hex(bytes.last())
    }
}

/// Number of characters that `k` bytes take: two digits each, one space between.
pub open spec fn formatted_width(k: nat) -> nat {
    if k == 0 {
        0
    } else {
        (3 * k - 1) as nat
    }
}

/// `n` spaces.
pub open spec fn spaces(n: nat) -> Seq<char> {
    Seq::new(n, |i: int| ' ')
}

/// The row for `bytes`, right-padded with spaces to `length` characters.
pub open spec fn padded_hex_row(bytes: Seq<u8>, length: nat) -> Seq<char> {
    hex_row(bytes) + spaces((length - formatted_width(bytes.len())) as nat)
}

/// A row of `k` bytes takes `formatted_width(k)` characters.
pub proof fn lemma_hex_row_len(bytes: Seq<u8>)
    ensures
        hex_row(bytes).len() == formatted_width(bytes.len()),
    decreases bytes.len(),
{
    if bytes.len() > 1 {
        lemma_hex_row_len(bytes.drop_last());
    }
}

fn hex_digit_of(n: u8) -> (c: char)
    requires
        n < 16,
    ensures
        c == hex_digit(n),
{
    if n < 10 {
        (n + 48) as char
    } else {
        (n + 55) as char
    }
}

/// A reusable buffer that formats byte rows into exactly `length` characters.
pub struct Line {
    length: usize,
    text: String,
}

impl Line {
    /// The number of characters every formatted row has.
    pub closed spec fn capacity(&self) -> nat {
        self.length as nat
    }

    pub fn new(length: usize) -> (l: Line)
        ensures
            l.capacity() == length,
    {
        Line { length: length, text: String::new() }
    }

    /// Formats `bytes` as hex pairs padded to the line's capacity.
    ///
    /// The bytes must fit: `formatted_width(bytes.len())` may not exceed the capacity.
    pub fn format(&mut self, bytes: &[u8]) -> (r: &str)
        requires
            formatted_width(bytes@.len()) <= old(self).capacity(),
        ensures
            final(self).capacity() == old(self).capacity(),
            r@ == padded_hex_row(bytes@, old(self).capacity()),
    {
        let n = bytes.len();
        let formatted_length: usize = if n == 0 {
            0
        } else {
            n * 2 + n - 1
        };
        let padding = self.length.checked_sub(formatted_length).unwrap();

        self.text = String::new();
        let mut i: usize = 0;
        while i < n
            invariant
                n == bytes@.len(),
                i <= n,
                self.length == old(self).length,
                self.text@ == hex_row(bytes@.subrange(0, i as int)),
            decreases n - i,
        {
            let b = bytes[i];
            if i > 0 {
                push_char(&mut self.text, ' ');
            }
            push_char(&mut self.text, hex_digit_of(b / 16));
            push_char(&mut self.text, hex_digit_of(b % 16));
            proof {
                let next = bytes@.subrange(0, i + 1);
                assert(next.drop_last() =~= bytes@.subrange(0, i as int));
                assert(self.text@ =~= hex_row(next));
            }
            i = i + 1;
        }
        assert(bytes@.subrange(0, n as int) =~= bytes@);
        proof {
            lemma_hex_row_len(bytes@);
        }
        let ghost row = self.text@;
        let mut j: usize = 0;
        while j < padding
            invariant
                j <= padding,
                self.length == old(self).length,
                self.text@ == row + spaces(j as nat),
            decreases padding - j,
        {
            push_char(&mut self.text, ' ');
            j = j + 1;
            assert(self.text@ =~= row + spaces(j as nat));
        }
        self.text.as_str()
    }
}

} // verus!
