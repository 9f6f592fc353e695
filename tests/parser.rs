use hi::command_prompt::parser::{command, command_name, usize_digit, CommandName};
use hi::command_prompt::{parse_command, Command, CommandParseError};

#[test]
fn parsing_commands() {
    for input in [&b"offset 32"[..], b"o 32"] {
        assert_eq!(command(input), Ok(Command::SetOffset(32)));
    }
    for input in [&b"offset 0"[..], b"o  0"] {
        assert_eq!(command(input), Ok(Command::SetOffset(0)));
    }
    for input in [&b"width 32"[..], b"w 32"] {
        assert_eq!(command(input), Ok(Command::SetWidth(32)));
    }
    for input in [&b"width 0"[..], b"w  0"] {
        assert_eq!(command(input), Ok(Command::SetWidth(0)));
    }
    for input in [&b"scrollx 0"[..], b"x  0"] {
        assert_eq!(command(input), Ok(Command::ScrollX(0)));
    }
    for input in [&b"scrolly 0"[..], b"y  0"] {
        assert_eq!(command(input), Ok(Command::ScrollY(0)));
    }
    for input in [&b"wdith 3"[..], b"width", b"wid"] {
        assert!(command(input).is_err());
    }
    for input in [&b"offest 3"[..], b"offset", b"offse"] {
        assert!(command(input).is_err());
    }
}

#[test]
fn parsing_command_names() {
    for input in [
        &b"w"[..],
        b"width",
        b" width",
        b"\twidth",
        b"\nwidth",
        b"\r\nwidth",
        b" \r \n width",
        b"\tw",
        b"\nw",
        b"\r\nw",
        b" \r \n w",
    ] {
        assert_eq!(command_name(input).map(|(name, _)| name), Ok(CommandName::Width));
    }
    for input in [
        &b"o"[..],
        b"offset",
        b" offset",
        b"\toffset",
        b"\noffset",
        b"\r\noffset",
        b" \r \n offset",
        b"\to",
        b"\no",
        b"\r\no",
        b" \r \n o",
    ] {
        assert_eq!(command_name(input).map(|(name, _)| name), Ok(CommandName::Offset));
    }

    assert!(command_name(b"unknown").is_err());
}

#[test]
fn parsing_usize_digits() {
    for input in [&b"123"[..], b"123 "] {
        assert_eq!(usize_digit(input).map(|(value, _)| value), Ok(123usize));
    }

    for input in [&b"0"[..], b"0 "] {
        assert_eq!(usize_digit(input).map(|(value, _)| value), Ok(0usize));
    }
}

#[test]
fn parse_command_reads_text() {
    assert_eq!(parse_command("offset 32"), Ok(Command::SetOffset(32)));
    assert_eq!(parse_command("o 32"), Ok(Command::SetOffset(32)));
    assert_eq!(parse_command("width 0"), Ok(Command::SetWidth(0)));
    assert_eq!(parse_command("w  0"), Ok(Command::SetWidth(0)));
    assert_eq!(parse_command("wdith 3"), Err(CommandParseError));
    assert_eq!(parse_command("width"), Err(CommandParseError));
    assert_eq!(parse_command("wid"), Err(CommandParseError));
}

#[test]
fn parse_command_allows_whitespace_around_every_token() {
    assert_eq!(parse_command(" \t scrolly\r\n 7 \n"), Ok(Command::ScrollY(7)));
    assert_eq!(parse_command("x12"), Ok(Command::ScrollX(12)));
}

#[test]
fn parse_command_rejects_trailing_garbage_and_case_changes() {
    assert_eq!(parse_command("o 32 x"), Err(CommandParseError));
    assert_eq!(parse_command("o 32x"), Err(CommandParseError));
    assert_eq!(parse_command("Offset 1"), Err(CommandParseError));
    assert_eq!(parse_command(""), Err(CommandParseError));
    assert_eq!(parse_command("o -1"), Err(CommandParseError));
    assert_eq!(parse_command("ö 1"), Err(CommandParseError));
}

#[test]
fn parse_command_takes_the_largest_usize_and_no_more() {
    assert_eq!(
        parse_command("w 18446744073709551615"),
        Ok(Command::SetWidth(18446744073709551615))
    );
    assert_eq!(parse_command("w 18446744073709551616"), Err(CommandParseError));
    assert_eq!(parse_command("w 000000000000000000000000000012"), Ok(Command::SetWidth(12)));
}

#[test]
fn command_name_reports_where_the_name_ends() {
    assert_eq!(command_name(b"  scrollx 3"), Ok((CommandName::ScrollX, 9)));
    assert_eq!(command_name(b"y"), Ok((CommandName::ScrollY, 1)));
    assert!(command_name(b"   ").is_err());
}

#[test]
fn usize_digit_reports_how_many_digits_it_read() {
    assert_eq!(usize_digit(b"4096 rest"), Ok((4096, 4)));
    assert!(usize_digit(b" 1").is_err());
    assert!(usize_digit(b"").is_err());
}
