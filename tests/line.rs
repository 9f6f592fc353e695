use hi::byte_display::max_bytes;
use hi::line::Line;
use hi::status_bar::line_of_spaces;

#[test]
fn it_returns_a_string_of_spaces() {
    assert_eq!(line_of_spaces(0), "");
    assert_eq!(line_of_spaces(4), "    ");
}

#[test]
fn max_bytes_when_line_length_is_less_than_2() {
    assert_eq!(max_bytes(1), 0);
    assert_eq!(max_bytes(0), 0);
}

#[test]
fn max_bytes_when_line_length_accounting_for_padding() {
    assert_eq!(max_bytes(2), 1);
    assert_eq!(max_bytes(3), 1);
    assert_eq!(max_bytes(4), 1);
    assert_eq!(max_bytes(5), 2);
    assert_eq!(max_bytes(6), 2);
    assert_eq!(max_bytes(7), 2);
    assert_eq!(max_bytes(8), 3);
}

#[test]
fn max_bytes_on_the_widest_line() {
    assert_eq!(max_bytes(u16::MAX), 21845);
}

#[test]
fn format_represents_bytes_as_hex_values() {
    let mut line = Line::new(2);

    assert_eq!(line.format(&[129]), "81");
}

#[test]
fn format_inserts_spaces_between_values() {
    let mut line = Line::new(5);

    assert_eq!(line.format(&[129, 0]), "81 00");
}

#[test]
fn format_pads_line_with_spaces() {
    let mut line = Line::new(10);

    assert_eq!(line.format(&[129, 0]), "81 00     ");
}

#[test]
fn format_works_when_given_an_empty_slice() {
    let mut line = Line::new(0);

    assert_eq!(line.format(&[]), "");
}

#[test]
#[should_panic]
fn format_panics_if_given_more_bytes_than_there_is_line_space() {
    Line::new(4).format(&[111, 222, 000]);
}

#[test]
fn format_uses_uppercase_digits_for_every_nibble() {
    let mut line = Line::new(11);

    assert_eq!(line.format(&[0x00, 0x01, 0x0F, 0xFF]), "00 01 0F FF");
}

#[test]
fn format_pads_an_empty_slice_to_the_whole_line() {
    let mut line = Line::new(3);

    assert_eq!(line.format(&[]), "   ");
}

#[test]
fn format_reuses_the_line_for_shorter_rows() {
    let mut line = Line::new(8);

    assert_eq!(line.format(&[0xAB, 0xCD, 0xEF]), "AB CD EF");
    assert_eq!(line.format(&[0x10]), "10      ");
}
