use hi::byte_display::display_rows;
use hi::screen::{max_scroll_y, PromptPaint, Screen};
use hi::status_bar::{message_column, status_message};
use hi::{Frame, State};

#[test]
fn it_allows_scrolling_half_a_screen_past_end_of_data() {
    // data displayed across more rows than height
    let height = 60;
    let data: &[u8; 80] = &[0; 80];
    let width = 1;
    assert_eq!(max_scroll_y(height, data, width), 20 + height / 2);
}

#[test]
fn it_disables_scroll_when_data_fits_on_one_screen() {
    // data displayed across fewer rows than height
    let height = 60;
    let data: &[u8; 20] = &[0; 20];
    let width = 1;
    assert_eq!(max_scroll_y(height, data, width), 0);
}

#[test]
fn max_scroll_counts_a_partial_last_row() {
    let data = [0u8; 81];
    assert_eq!(max_scroll_y(4, &data, 10), 9 - 2);
    assert_eq!(max_scroll_y(9, &data, 10), 0);
    assert_eq!(max_scroll_y(8, &data, 10), 9 - 4);
}

#[test]
fn max_scroll_of_whole_rows() {
    for (h, k, w) in [(0usize, 3usize, 4usize), (3, 3, 2), (4, 9, 5), (7, 8, 1)] {
        let data = vec![7u8; k * w];
        let expected = if k <= h { 0 } else { k - h / 2 };
        assert_eq!(max_scroll_y(h, &data, w), expected);
    }
}

#[test]
fn a_new_screen_starts_waiting_with_everything_dirty() {
    let data = [1u8, 2, 3];
    let screen = Screen::new(&data, Frame { width: 20, height: 10 });
    assert_eq!(screen.state, State::Wait);
    assert_eq!(screen.bytes_per_row, 32);
    assert_eq!((screen.offset, screen.scroll_y, screen.scroll_x), (0, 0, 0));
    assert!(screen.data_frame_dirty && screen.prompt_bar_dirty && screen.status_bar_dirty);
    assert!(!screen.switch_focus_to_prompt);
    assert_eq!(screen.data_frame_height(), 8);
    assert_eq!(screen.data_frame_width(), 20);
    assert_eq!(screen.status_bar_position().x, 1);
    assert_eq!(screen.status_bar_position().y, 9);
    assert_eq!(screen.status_bar_dimensions().width, 20);
    assert_eq!(screen.status_bar_dimensions().height, 1);
}

#[test]
fn a_frame_too_low_for_the_bars_has_no_data_rows() {
    let data = [0u8; 4];
    let screen = Screen::new(&data, Frame { width: 20, height: 1 });
    assert_eq!(screen.data_frame_height(), 0);
    assert!(display_rows(&screen).is_empty());
}

#[test]
fn set_width_keeps_the_top_left_byte_in_place() {
    let data = [0u8; 64];
    let mut screen = Screen::new(&data, Frame { width: 80, height: 24 });
    screen.offset = 5;
    screen.scroll_y = 2;
    screen.bytes_per_row = 10;
    screen.clear_dirty_flags();
    screen.state = State::Prompt;

    screen.set_width(8);

    assert_eq!(screen.bytes_per_row, 8);
    assert_eq!(screen.offset + screen.scroll_y * 8, 25);
    assert!(screen.offset < 8);
    assert_eq!((screen.offset, screen.scroll_y), (1, 3));
    assert_eq!(screen.state, State::Wait);
    assert!(screen.data_frame_dirty && screen.prompt_bar_dirty && screen.status_bar_dirty);
}

#[test]
fn set_width_to_a_wider_row() {
    let data = [0u8; 64];
    let mut screen = Screen::new(&data, Frame { width: 80, height: 24 });
    screen.offset = 3;
    screen.scroll_y = 4;
    screen.bytes_per_row = 8;

    screen.set_width(32);

    assert_eq!((screen.offset, screen.scroll_y), (3, 1));
}

#[test]
fn a_full_screen_of_data_shows_every_row_and_does_not_scroll() {
    let data: Vec<u8> = (0u8..64).collect();
    let mut screen = Screen::new(&data, Frame { width: 95, height: 4 });
    assert_eq!(screen.data_frame_height(), 2);

    let rows = display_rows(&screen);
    assert_eq!(rows.len(), 2);
    let first = rows[0].as_ref().unwrap();
    let second = rows[1].as_ref().unwrap();
    assert_eq!(first.len(), 95);
    assert!(first.starts_with("00 01 02 "));
    assert!(first.ends_with(" 1E 1F"));
    assert!(second.starts_with("20 21 "));
    assert!(second.ends_with(" 3E 3F"));

    screen.end();
    assert_eq!(screen.scroll_y, 0);
    screen.down();
    assert_eq!(screen.scroll_y, 0);
}

#[test]
fn display_rows_follow_offset_and_scrolling() {
    let data: Vec<u8> = (0u8..10).collect();
    let mut screen = Screen::new(&data, Frame { width: 8, height: 5 });
    screen.bytes_per_row = 4;
    screen.offset = 1;
    screen.scroll_y = 1;
    screen.scroll_x = 1;

    let rows = display_rows(&screen);
    assert_eq!(
        rows,
        vec![Some("06 07 08".to_string()), Some("        ".to_string()), None]
    );
}

#[test]
fn display_rows_clip_to_the_line_and_tolerate_offsets_past_the_end() {
    let data: Vec<u8> = (0u8..10).collect();
    let mut screen = Screen::new(&data, Frame { width: 5, height: 3 });
    screen.bytes_per_row = 10;
    assert_eq!(display_rows(&screen), vec![Some("00 01".to_string())]);

    screen.set_offset(50);
    assert_eq!(display_rows(&screen), vec![None]);
    screen.down();
    screen.end();
    assert_eq!(screen.scroll_y, 0);
}

#[test]
fn down_stops_half_a_screen_past_the_last_row() {
    let data = [0u8; 10];
    let mut screen = Screen::new(&data, Frame { width: 20, height: 6 });
    screen.bytes_per_row = 1;
    screen.clear_dirty_flags();

    screen.down();
    assert_eq!(screen.scroll_y, 1);
    assert!(screen.data_frame_dirty && screen.status_bar_dirty && !screen.prompt_bar_dirty);

    screen.end();
    assert_eq!(screen.scroll_y, 8);
    screen.down();
    assert_eq!(screen.scroll_y, 8);

    screen.up();
    assert_eq!(screen.scroll_y, 7);
    screen.start();
    assert_eq!(screen.scroll_y, 0);
    screen.up();
    assert_eq!(screen.scroll_y, 0);
}

#[test]
fn paging_moves_by_a_screen_and_stops_at_the_limits() {
    let data = [0u8; 30];
    let mut screen = Screen::new(&data, Frame { width: 20, height: 6 });
    screen.bytes_per_row = 1;

    screen.page_down();
    assert_eq!(screen.scroll_y, 4);
    screen.page_down();
    assert_eq!(screen.scroll_y, 8);
    for _ in 0..10 {
        screen.page_down();
    }
    assert_eq!(screen.scroll_y, 28);

    screen.page_up();
    assert_eq!(screen.scroll_y, 24);
    screen.scroll_y = 3;
    screen.page_up();
    assert_eq!(screen.scroll_y, 0);
}

#[test]
fn horizontal_scrolling_is_clamped() {
    let data = [0u8; 100];
    let mut screen = Screen::new(&data, Frame { width: 11, height: 6 });
    screen.bytes_per_row = 6;
    // four bytes fit on the screen: the limit is 6 - 4 / 2
    for _ in 0..10 {
        screen.scroll_right();
    }
    assert_eq!(screen.scroll_x, 4);
    for _ in 0..10 {
        screen.scroll_left();
    }
    assert_eq!(screen.scroll_x, 0);

    screen.bytes_per_row = 1;
    for _ in 0..10 {
        screen.scroll_right();
    }
    assert_eq!(screen.scroll_x, 2);
}

#[test]
fn offset_moves_within_the_data() {
    let data = [0u8; 2];
    let mut screen = Screen::new(&data, Frame { width: 11, height: 6 });
    screen.left();
    assert_eq!(screen.offset, 0);
    screen.right();
    screen.right();
    screen.right();
    assert_eq!(screen.offset, 2);
    screen.left();
    assert_eq!(screen.offset, 1);
}

#[test]
fn commands_set_values_without_clamping() {
    let data = [0u8; 2];
    let mut screen = Screen::new(&data, Frame { width: 11, height: 6 });
    screen.clear_dirty_flags();
    screen.prompt();
    screen.set_scroll_x(1000);
    assert_eq!(screen.scroll_x, 1000);
    assert_eq!(screen.state, State::Wait);
    screen.set_scroll_y(77);
    assert_eq!(screen.scroll_y, 77);
    screen.set_offset(9);
    assert_eq!(screen.offset, 9);
    assert!(screen.data_frame_dirty && screen.prompt_bar_dirty && screen.status_bar_dirty);
}

#[test]
fn prompt_painting_follows_the_flags() {
    let data = [0u8; 2];
    let mut screen = Screen::new(&data, Frame { width: 11, height: 6 });
    assert_eq!(screen.prompt_paint(), PromptPaint::Hide);
    screen.clear_dirty_flags();
    assert_eq!(screen.prompt_paint(), PromptPaint::Keep);
    screen.prompt();
    assert_eq!(screen.state, State::Prompt);
    assert_eq!(screen.prompt_paint(), PromptPaint::Focus);
    screen.clear_dirty_flags();
    screen.update_prompt();
    assert_eq!(screen.prompt_paint(), PromptPaint::Show);
    screen.clear_dirty_flags();
    screen.reset_prompt();
    assert_eq!(screen.state, State::Wait);
    assert_eq!(screen.prompt_paint(), PromptPaint::Hide);
}

#[test]
fn status_message_lists_mode_and_parameters() {
    let data = [0u8; 2];
    let mut screen = Screen::new(&data, Frame { width: 40, height: 6 });
    assert_eq!(status_message(&screen), "State::Wait|o:0|sy:0|sx:0|w:32");
    screen.set_scroll_y(1234567);
    screen.set_scroll_x(10);
    screen.prompt();
    let message = status_message(&screen);
    assert_eq!(message, "State::Prompt|o:0|sy:1234567|sx:10|w:32");
    assert_eq!(message_column(&screen, message.len()), 1);
    assert_eq!(message_column(&screen, 30), 10);
    assert_eq!(message_column(&screen, 45), 1);
}
