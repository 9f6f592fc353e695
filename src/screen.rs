//! The viewport: the view parameters over a borrowed byte buffer, the clamping
//! rules of navigation, and the dirty flags that drive incremental redraws.

use vstd::prelude::*;
use vstd::arithmetic::div_mod::{
    lemma_div_by_multiple,
    lemma_fundamental_div_mod,
    lemma_fundamental_div_mod_converse,
    lemma_mod_multiples_basic,
    lemma_mod_pos_bound,
};
use vstd::slice::slice_subrange;

verus! {

/// The interaction mode.
#[derive(Clone, Copy, Debug, PartialEq, Eq, Structural)]
pub enum State {
    Wait,
    Prompt,
}

/// Represents the screen's display dimensions
#[derive(Clone, Copy, Debug, PartialEq, Eq, Structural)]
pub struct Frame {
    pub width: u16,
    pub height: u16,
}

#[derive(Clone, Copy, Debug, PartialEq, Eq, Structural)]
pub struct Point {
    pub x: u16,
    pub y: u16,
}

#[derive(Clone, Copy, Debug, PartialEq, Eq, Structural)]
pub struct Dimension {
    pub width: u16,
    pub height: u16,
}

/// How the prompt line is to be repainted.
#[derive(Clone, Copy, Debug, PartialEq, Eq, Structural)]
pub enum PromptPaint {
    /// Nothing to do.
    Keep,
    /// Focus has just moved to the prompt: show the cursor and an empty `:` line.
    Focus,
    /// Clear the line and hide the cursor.
    Hide,
    /// Show `:` followed by the text being edited.
    Show,
}

/// Number of rows of `width` bytes that `len` bytes fill, the last one possibly partial.
pub open spec fn row_count(len: nat, width: nat) -> nat
    recommends
        width > 0,
{
    len / width + if len % width == 0 {
        0nat
    } else {
        1nat
    }
}

/// The largest vertical scroll: up to half a screen past the last row of data,
/// and none when the data fits on the screen.
pub open spec fn max_scroll_rows(height: nat, len: nat, width: nat) -> nat
    recommends
        width > 0,
{
    let rows = row_count(len, width);
    if rows > height {
        (rows - height / 2) as nat
    } else {
        0
    }
}

/// The largest horizontal scroll, in bytes, for rows of `bytes_per_row` bytes
/// shown on `screen_width` columns.
pub open spec fn max_scroll_columns(bytes_per_row: nat, screen_width: nat) -> nat {
    let bytes_on_screen = (screen_width + 1) / 3;
    if bytes_per_row < bytes_on_screen / 2 {
        bytes_on_screen / 2
    } else {
        (bytes_per_row - bytes_on_screen / 2) as nat
    }
}

/// The viewport over a borrowed byte buffer: the view parameters, the mode,
/// and one dirty flag for each screen region (data, status bar, prompt).
pub struct Screen<'a> {
    pub state: State,
    pub frame: Frame,
    pub offset: usize,
    pub scroll_y: usize,
    pub scroll_x: usize,
    pub bytes_per_row: usize,
    pub data_frame_dirty: bool,
    pub prompt_bar_dirty: bool,
    pub status_bar_dirty: bool,
    pub switch_focus_to_prompt: bool,
    pub data: &'a [u8],
}

impl<'a> Screen<'a> {
    /// Rows have at least one byte.
    pub open spec fn wf(&self) -> bool {
        self.bytes_per_row > 0
    }

    /// Rows available for data: the frame less the status bar and the prompt.
    pub open spec fn data_height(&self) -> nat {
        if self.frame.height >= 2 {
            (self.frame.height - 2) as nat
        } else {
            0
        }
    }

    /// The bytes from the offset on; empty when the offset lies past the end.
    pub open spec fn visible_bytes(&self) -> Seq<u8> {
        if self.offset <= self.data@.len() {
            self.data@.subrange(self.offset as int, self.data@.len() as int)
        } else {
            Seq::empty()
        }
    }

    /// The largest `scroll_y` that navigation reaches.
    pub open spec fn scroll_ceiling(&self) -> nat {
        max_scroll_rows(self.data_height(), self.visible_bytes().len(), self.bytes_per_row as nat)
    }

    /// Absolute index of the byte in the top-left display cell.
    pub open spec fn anchor(&self) -> int {
        self.offset + self.scroll_y * self.bytes_per_row
    }

    /// The state after a navigation step that moves the view to `scroll_y`.
    pub open spec fn navigated(self, scroll_y: usize) -> Self {
        Screen { scroll_y: scroll_y, data_frame_dirty: true, status_bar_dirty: true, ..self }
    }

    /// The state after a command from the prompt line: back to waiting, all regions dirty.
    pub open spec fn commanded(self) -> Self {
        Screen {
            state: State::Wait,
            data_frame_dirty: true,
            prompt_bar_dirty: true,
            status_bar_dirty: true,
            ..self
        }
    }

    /// After `left`: one byte back, unless at the start.
    pub open spec fn moved_left(self) -> Self {
        if self.offset > 0 {
            Screen {
                offset: (self.offset - 1) as usize,
                data_frame_dirty: true,
                status_bar_dirty: true,
                ..self
            }
        } else {
            self
        }
    }

    /// After `right`: one byte on, unless at the end of the data.
    pub open spec fn moved_right(self) -> Self {
        if self.offset < self.data@.len() {
            Screen {
                offset: (self.offset + 1) as usize,
                data_frame_dirty: true,
                status_bar_dirty: true,
                ..self
            }
        } else {
            self
        }
    }

    /// After `scroll_left`: one column left, unless at the first.
    pub open spec fn scrolled_left(self) -> Self {
        if self.scroll_x > 0 {
            Screen {
                scroll_x: (self.scroll_x - 1) as usize,
                data_frame_dirty: true,
                status_bar_dirty: true,
                ..self
            }
        } else {
            self
        }
    }

    /// After `scroll_right`: one column right, unless at `max_scroll_columns`.
    pub open spec fn scrolled_right(self) -> Self {
        if self.scroll_x < max_scroll_columns(self.bytes_per_row as nat, self.frame.width as nat) {
            Screen {
                scroll_x: (self.scroll_x + 1) as usize,
                data_frame_dirty: true,
                status_bar_dirty: true,
                ..self
            }
        } else {
            self
        }
    }

    /// After `down`: one row down while below the scroll ceiling.
    pub open spec fn moved_down(self) -> Self {
        self.navigated(
            if self.scroll_y < self.scroll_ceiling() {
                (self.scroll_y + 1) as usize
            } else {
                self.scroll_y
            },
        )
    }

    /// After `up`: one row up, stopping at the first.
    pub open spec fn moved_up(self) -> Self {
        self.navigated(
            if self.scroll_y > 0 {
                (self.scroll_y - 1) as usize
            } else {
                0
            },
        )
    }

    /// After `page_down`: a screen's height down, or to the scroll ceiling
    /// when that is nearer.
    pub open spec fn paged_down(self) -> Self {
        self.navigated(
            if self.scroll_y + self.data_height() < self.scroll_ceiling() {
                (self.scroll_y + self.data_height()) as usize
            } else {
                self.scroll_ceiling() as usize
            },
        )
    }

    /// After `page_up`: a screen's height up, stopping at the first row.
    pub open spec fn paged_up(self) -> Self {
        self.navigated(
            if self.data_height() > self.scroll_y {
                0
            } else {
                (self.scroll_y - self.data_height()) as usize
            },
        )
    }

    /// After `end`: at the scroll ceiling.
    pub open spec fn at_end(self) -> Self {
        self.navigated(self.scroll_ceiling() as usize)
    }

    /// After `prompt`: editing a command, with the one-shot focus switch set.
    pub open spec fn prompting(self) -> Self {
        Screen {
            state: State::Prompt,
            prompt_bar_dirty: true,
            status_bar_dirty: true,
            switch_focus_to_prompt: true,
            ..self
        }
    }

    /// After `reset_prompt`: back to waiting.
    pub open spec fn prompt_reset(self) -> Self {
        Screen { state: State::Wait, prompt_bar_dirty: true, status_bar_dirty: true, ..self }
    }

    /// After `update_prompt`.
    pub open spec fn prompt_updated(self) -> Self {
        Screen { prompt_bar_dirty: true, status_bar_dirty: true, ..self }
    }

    /// After `set_width(width)`: the anchor byte keeps the top-left cell, with
    /// the offset its column in rows of `width` bytes and `scroll_y` its row.
    pub open spec fn width_set(self, width: usize) -> Self {
        Screen {
            bytes_per_row: width,
            offset: (self.anchor() % width as int) as usize,
            scroll_y: (self.anchor() / width as int) as usize,
            ..self.commanded()
        }
    }

    pub fn new(data: &'a [u8], frame: Frame) -> (s: Screen<'a>)
        ensures
            s == (Screen {
                state: State::Wait,
                frame: frame,
                offset: 0,
                scroll_y: 0,
                scroll_x: 0,
                bytes_per_row: 32,
                data_frame_dirty: true,
                prompt_bar_dirty: true,
                status_bar_dirty: true,
                switch_focus_to_prompt: false,
                data: data,
            }),
            s.wf(),
    {
        Screen {
            state: State::Wait,
            frame: frame,
            offset: 0,
            scroll_y: 0,
            scroll_x: 0,
            bytes_per_row: 32,
            data: data,
            data_frame_dirty: true,
            prompt_bar_dirty: true,
            status_bar_dirty: true,
            switch_focus_to_prompt: false,
        }
    }

    fn status_bar_height() -> (h: u16)
        ensures
            h == 1,
    {
        1
    }

    fn prompt_height() -> (h: u16)
        ensures
            h == 1,
    {
        1
    }

    /// Rows available for data; none on a frame too low to hold the two bars.
    pub fn data_frame_height(&self) -> (h: u16)
        ensures
            h == self.data_height(),
    {
        self.frame.height.saturating_sub(Self::status_bar_height() + Self::prompt_height())
    }

    pub fn data_frame_width(&self) -> (w: u16)
        ensures
            w == self.frame.width,
    {
        self.frame.width
    }

    /// The status bar sits on the row above the prompt.
    pub fn status_bar_position(&self) -> (p: Point)
        ensures
            p.x == 1,
            p.y == if self.frame.height >= 1 {
                self.frame.height - 1
            } else {
                0
            },
    {
        Point { x: 1, y: self.frame.height.saturating_sub(Self::prompt_height()) }
    }

    pub fn status_bar_dimensions(&self) -> (d: Dimension)
        ensures
            d.width == self.frame.width,
            d.height == 1,
    {
        Dimension { width: self.frame.width, height: Self::status_bar_height() }
    }

    /// Decrease offset by 1
    ///
    /// Offset is clamped, preventing attempts to index past the start of the data.
    pub fn left(&mut self)
        ensures
            *final(self) == old(self).moved_left(),
    {
        if self.offset > 0 {
            self.data_frame_dirty = true;
            self.status_bar_dirty = true;

            self.offset -= 1;
        }
    }

    /// Increase offset by 1
    ///
    /// Offset is clamped, preventing attempts to index past the end of the data.
    pub fn right(&mut self)
        ensures
            *final(self) == old(self).moved_right(),
    {
        if self.offset < self.data.len() {
            self.data_frame_dirty = true;
            self.status_bar_dirty = true;

            self.offset += 1;
        }
    }

    /// Scroll left one column
    pub fn scroll_left(&mut self)
        ensures
            *final(self) == old(self).scrolled_left(),
    {
        if self.scroll_x > 0 {
            self.data_frame_dirty = true;
            self.status_bar_dirty = true;

            self.scroll_x -= 1;
        }
    }

    /// Scroll right one column, no further than `max_scroll_columns`.
    pub fn scroll_right(&mut self)
        ensures
            *final(self) == old(self).scrolled_right(),
    {
        if self.scroll_x < max_scroll_x(self.bytes_per_row, self.data_frame_width() as usize) {
            self.data_frame_dirty = true;
            self.status_bar_dirty = true;
            self.scroll_x += 1;
        }
    }

    /// The scroll ceiling for the data from the offset on.
    fn scroll_ceiling_exec(&self) -> (m: usize)
        requires
            self.wf(),
        ensures
            m == self.scroll_ceiling(),
    {
        let len = self.data.len();
        let start = if self.offset <= len {
            self.offset
        } else {
            len
        };
        let data = slice_subrange(self.data, start, len);
        max_scroll_y(self.data_frame_height() as usize, data, self.bytes_per_row)
    }

    /// Scroll down one line
    ///
    /// Scrolling is clamped and will not move further than half a screen past the last line.
    pub fn down(&mut self)
        requires
            old(self).wf(),
        ensures
            *final(self) == old(self).moved_down(),
    {
        self.data_frame_dirty = true;
        self.status_bar_dirty = true;

        if self.scroll_y < self.scroll_ceiling_exec() {
            self.scroll_y += 1;
        }
    }

    /// Scroll up one line
    ///
    /// Scrolling is clamped and will not move past the first line.
    pub fn up(&mut self)
        ensures
            *final(self) == old(self).moved_up(),
    {
        self.data_frame_dirty = true;
        self.status_bar_dirty = true;

        if self.scroll_y > 0 {
            self.scroll_y -= 1;
        }
    }

    /// Scroll one page down
    ///
    /// Will scroll down half a frame below the last line.
    pub fn page_down(&mut self)
        requires
            old(self).wf(),
        ensures
            *final(self) == old(self).paged_down(),
    {
        self.data_frame_dirty = true;
        self.status_bar_dirty = true;

        let ceiling = self.scroll_ceiling_exec();
        let height = self.data_frame_height() as usize;
        if self.scroll_y < ceiling && ceiling - self.scroll_y > height {
            self.scroll_y += height;
        } else {
            self.scroll_y = ceiling;
        }
    }

    /// Scroll one page up
    ///
    /// Will not scroll up past the first line.
    pub fn page_up(&mut self)
        ensures
            *final(self) == old(self).paged_up(),
    {
        self.data_frame_dirty = true;
        self.status_bar_dirty = true;

        let height = self.data_frame_height() as usize;
        if height > self.scroll_y {
            self.scroll_y = 0;
        } else {
            self.scroll_y -= height;
        }
    }

    /// Scroll vertically to the start of the data
    pub fn start(&mut self)
        ensures
            *final(self) == old(self).navigated(0),
    {
        self.data_frame_dirty = true;
        self.status_bar_dirty = true;

        self.scroll_y = 0;
    }

    /// Scroll vertically to the end of the data
    pub fn end(&mut self)
        requires
            old(self).wf(),
        ensures
            *final(self) == old(self).at_end(),
    {
        self.data_frame_dirty = true;
        self.status_bar_dirty = true;

        self.scroll_y = self.scroll_ceiling_exec();
    }

    /// Shift focus to the prompt bar
    pub fn prompt(&mut self)
        ensures
            *final(self) == old(self).prompting(),
    {
        self.prompt_bar_dirty = true;
        self.status_bar_dirty = true;
        self.switch_focus_to_prompt = true;
        self.state = State::Prompt;
    }

    /// Signal that the command prompt has been reset
    ///
    /// This should be called when the prompt should become inactive, and focus should return to
    /// the main window, e.g. a command has been accepted
    pub fn reset_prompt(&mut self)
        ensures
            *final(self) == old(self).prompt_reset(),
    {
        self.prompt_bar_dirty = true;
        self.status_bar_dirty = true;
        self.state = State::Wait;
    }

    /// Signal that the command prompt has been updated
    pub fn update_prompt(&mut self)
        ensures
            *final(self) == old(self).prompt_updated(),
    {
        self.prompt_bar_dirty = true;
        self.status_bar_dirty = true;
    }

    /// Set number of bytes to display per row
    ///
    /// When setting the width, the byte in the top left corner of the screen will stay in place,
    /// offsets and scroll_y can change to accommodate this constraint: the offset becomes the
    /// anchor's column in the new rows and scroll_y its row.
    pub fn set_width(&mut self, width: usize)
        requires
            width > 0,
            old(self).anchor() <= usize::MAX,
        ensures
            *final(self) == old(self).width_set(width),
            final(self).anchor() == old(self).anchor(),
            final(self).offset < width,
    {
        self.data_frame_dirty = true;
        self.prompt_bar_dirty = true;
        self.status_bar_dirty = true;
        self.state = State::Wait;

        let anchor = top_left_byte_index(self.offset, self.scroll_y, self.bytes_per_row);
        self.bytes_per_row = width;

        let s = scroll_y_for_anchor(anchor, self.offset, width);
        let o = offset_for_anchor(anchor, self.offset, width);
        proof {
            let a = anchor as int;
            let n = width as int;
            let oi = o as int;
            let si = s as int;
            lemma_fundamental_div_mod(a - old(self).offset, n);
            lemma_fundamental_div_mod(oi, n);
            lemma_mod_pos_bound(oi, n);
            assert(a == (si + oi / n) * n + oi % n) by (nonlinear_arith)
                requires
                    a == oi + si * n,
                    oi == n * (oi / n) + oi % n,
            ;
            lemma_fundamental_div_mod_converse(a, n, si + oi / n, oi % n);
        }
        let (s, o) = balance_offset_and_scroll_y(s, o, width);

        self.scroll_y = s;
        self.offset = o;
        proof {
            lemma_fundamental_div_mod(anchor as int, width as int);
            assert(self.anchor() == anchor) by (nonlinear_arith)
                requires
                    self.anchor() == o + s * width,
                    anchor == width * s + o,
            ;
        }
    }

    /// Set data offset
    ///
    /// No clamping is performed: an offset past the end of the data shows no data.
    pub fn set_offset(&mut self, offset: usize)
        ensures
            *final(self) == (Screen { offset: offset, ..old(self).commanded() }),
    {
        self.data_frame_dirty = true;
        self.prompt_bar_dirty = true;
        self.status_bar_dirty = true;
        self.state = State::Wait;

        self.offset = offset;
    }

    /// Scroll to a given horizontal screen position
    ///
    /// No clamping is performed, so its possible to scroll far past the end of the data.
    pub fn set_scroll_x(&mut self, scroll: usize)
        ensures
            *final(self) == (Screen { scroll_x: scroll, ..old(self).commanded() }),
    {
        self.data_frame_dirty = true;
        self.prompt_bar_dirty = true;
        self.status_bar_dirty = true;
        self.state = State::Wait;

        self.scroll_x = scroll;
    }

    /// Scroll to a given vertical screen position
    ///
    /// No clamping is performed, so its possible to scroll far past the end of the data.
    pub fn set_scroll_y(&mut self, scroll: usize)
        ensures
            *final(self) == (Screen { scroll_y: scroll, ..old(self).commanded() }),
    {
        self.data_frame_dirty = true;
        self.prompt_bar_dirty = true;
        self.status_bar_dirty = true;
        self.state = State::Wait;

        self.scroll_y = scroll;
    }

    /// Marks every region as painted; called once per render cycle.
    pub fn clear_dirty_flags(&mut self)
        ensures
            *final(self) == (Screen {
                data_frame_dirty: false,
                prompt_bar_dirty: false,
                status_bar_dirty: false,
                switch_focus_to_prompt: false,
                ..*old(self)
            }),
    {
        self.data_frame_dirty = false;
        self.prompt_bar_dirty = false;
        self.status_bar_dirty = false;
        self.switch_focus_to_prompt = false;
    }

    /// What the redraw owes the prompt line. The one-shot focus switch wins
    /// over a plain update of the line.
    pub fn prompt_paint(&self) -> (p: PromptPaint)
        ensures
            p == if self.switch_focus_to_prompt {
                PromptPaint::Focus
            } else if !self.prompt_bar_dirty {
                PromptPaint::Keep
            } else if self.state == State::Wait {
                PromptPaint::Hide
            } else {
                PromptPaint::Show
            },
    {
        if self.switch_focus_to_prompt {
            PromptPaint::Focus
        } else if !self.prompt_bar_dirty {
            PromptPaint::Keep
        } else {
            match self.state {
                State::Wait => PromptPaint::Hide,
                State::Prompt => PromptPaint::Show,
            }
        }
    }
}

/// The largest vertical scroll for `data` shown in rows of `width` bytes on
/// `height` rows.
pub fn max_scroll_y(height: usize, data: &[u8], width: usize) -> (m: usize)
    requires
        width > 0,
    ensures
        m == max_scroll_rows(height as nat, data@.len(), width as nat),
{
    let len = data.len();
    proof {
        if len % width != 0 {
            lemma_fundamental_div_mod(len as int, width as int);
            lemma_mod_pos_bound(len as int, width as int);
            assert(len / width < usize::MAX) by (nonlinear_arith)
                requires
                    len == width * (len / width) + len % width,
                    0 < len % width < width,
                    len <= usize::MAX,
            ;
        }
    }
    let lines = len / width + if len % width == 0 {
        0
    } else {
        1
    };
    if lines > height {
        lines - height / 2
    } else {
        0
    }
}

fn max_scroll_x(bytes_per_row: usize, screen_width: usize) -> (m: usize)
    requires
        screen_width <= u16::MAX,
    ensures
        m == max_scroll_columns(bytes_per_row as nat, screen_width as nat),
{
    let bytes_on_screen = (screen_width + 1) / 3;

    if bytes_per_row < bytes_on_screen / 2 {
        bytes_on_screen / 2
    } else {
        bytes_per_row - (bytes_on_screen / 2)
    }
}

fn balance_offset_and_scroll_y(scroll_y: usize, offset: usize, bytes_per_row: usize) -> (r: (
    usize,
    usize,
))
    requires
        bytes_per_row > 0,
        scroll_y + offset / bytes_per_row <= usize::MAX,
    ensures
        r.0 == scroll_y + offset / bytes_per_row,
        r.1 == offset % bytes_per_row,
{
    let scroll_y = scroll_y + offset / bytes_per_row;
    let offset = offset % bytes_per_row;
    (scroll_y, offset)
}

fn top_left_byte_index(offset: usize, scroll_y: usize, bytes_per_row: usize) -> (i: usize)
    requires
        offset + scroll_y * bytes_per_row <= usize::MAX,
    ensures
        i == offset + scroll_y * bytes_per_row,
{
    offset + scroll_y * bytes_per_row
}

fn scroll_y_for_anchor(anchor: usize, offset: usize, bytes_per_row: usize) -> (s: usize)
    requires
        offset <= anchor,
        bytes_per_row > 0,
    ensures
        s == (anchor - offset) / (bytes_per_row as int),
{
    (anchor - offset) / bytes_per_row
}

fn offset_for_anchor(anchor: usize, offset: usize, bytes_per_row: usize) -> (o: usize)
    requires
        offset <= anchor,
        bytes_per_row > 0,
    ensures
        o == offset + (anchor - offset) % (bytes_per_row as int),
{
    proof {
        lemma_mod_pos_bound(anchor - offset, bytes_per_row as int);
        vstd::arithmetic::div_mod::lemma_mod_decreases((anchor - offset) as nat, bytes_per_row as nat);
    }
    offset + (anchor - offset) % bytes_per_row
}

/// For data that fills exactly `k` rows of `w` bytes on a screen of `h` rows,
/// the scroll ceiling is zero when the rows fit on the screen and `k - h / 2`
/// otherwise.
pub proof fn lemma_max_scroll_whole_rows(h: nat, k: nat, w: nat)
    requires
        w > 0,
    ensures
        max_scroll_rows(h, k * w, w) == if k <= h {
            0
        } else {
            (k - h / 2) as nat
        },
{
    lemma_div_by_multiple(k as int, w as int);
    lemma_mod_multiples_basic(k as int, w as int);
}

} // verus!
