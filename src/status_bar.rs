//! The status bar: the mode and the four view parameters, right-aligned on a
//! full-width line.

use vstd::prelude::*;

use crate::line::spaces;
use crate::screen::{Screen, State};
use crate::text::push_char;

verus! {

pub open spec fn digit_char(d: nat) -> char {
    (d + 48) as char
}

/// The decimal digits of `n`, most significant first, without leading zeros.
pub open spec fn decimal(n: nat) -> Seq<char>
    decreases n,
{
    if n < 10 {
        seq![digit_char(n)]
    } else {
        decimal(n / 10).push(digit_char(n % 10))
    }
}

/// How the status bar names a mode.
pub open spec fn state_label(state: State) -> Seq<char> {
    match state {
        State::Wait => "State::Wait"@,
        State::Prompt => "State::Prompt"@,
    }
}

/// The status text: mode, offset, vertical scroll, horizontal scroll and row width.
pub open spec fn status_text(screen: Screen) -> Seq<char> {
    state_label(screen.state) + "|o:"@ + decimal(screen.offset as nat) + "|sy:"@ + decimal(
        screen.scroll_y as nat,
    ) + "|sx:"@ + decimal(screen.scroll_x as nat) + "|w:"@ + decimal(screen.bytes_per_row as nat)
}

fn push_decimal(s: &mut String, n: usize)
    ensures
        final(s)@ == old(s)@ + decimal(n as nat),
    decreases n,
{
    if n >= 10 {
        push_decimal(s, n / 10);
    }
    push_char(s, ((n % 10) as u8 + 48) as char);
    assert(decimal(n as nat) == if n < 10 {
        seq![digit_char(n as nat)]
    } else {
        decimal((n / 10) as nat).push(digit_char((n % 10) as nat))
    });
    assert(final(s)@ =~= old(s)@ + decimal(n as nat));
}

/// A line of `len` spaces.
pub fn line_of_spaces(len: usize) -> (line: String)
    ensures
        line@ == spaces(len as nat),
{
    let mut line = String::new();
    let mut i: usize = 0;
    while i < len
        invariant
            i <= len,
            line@ == spaces(i as nat),
        decreases len - i,
    {
        push_char(&mut line, ' ');
        i = i + 1;
        assert(line@ =~= spaces(i as nat));
    }
    line
}

/// The text shown at the right end of the status bar.
pub fn status_message(screen: &Screen) -> (message: String)
    ensures
        message@ == status_text(*screen),
{
    let label = match screen.state {
        State::Wait => "State::Wait",
        State::Prompt => "State::Prompt",
    };
    let mut message = String::from_str(label);
    message.append("|o:");
    push_decimal(&mut message, screen.offset);
    message.append("|sy:");
    push_decimal(&mut message, screen.scroll_y);
    message.append("|sx:");
    push_decimal(&mut message, screen.scroll_x);
    message.append("|w:");
    push_decimal(&mut message, screen.bytes_per_row);
    message
}

/// The column at which a status message of `message_len` characters starts so
/// that it ends at the right edge; the first column when it is wider than the bar.
pub fn message_column(screen: &Screen, message_len: usize) -> (column: u16)
    ensures
        column == if message_len < screen.frame.width {
            screen.frame.width - message_len
        } else {
            1
        },
{
    let width = screen.status_bar_dimensions().width;
    if message_len < width as usize {
        width - message_len as u16
    } else {
        1
    }
}

} // verus!
