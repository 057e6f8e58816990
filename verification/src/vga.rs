//! The text-mode display driver: colored character cells, a ring-buffered
//! scrollback store of full rows, and the writer that composites a visible
//! window of the history onto the physical display.
//!
//! The store is a circular sequence of fixed-width rows. `tail` is the slot
//! of the oldest retained row and `head` the slot of the row currently being
//! written; when the store is full, starting a new row discards the oldest
//! one. A scroll offset selects which window of the history is visible; it
//! is clamped so it neither goes negative nor reaches past the last full
//! screen of history.
//!
//! The physical display itself is modelled as the `frame` grid owned by the
//! writer; the unverified shell copies that grid into video memory.

use vstd::prelude::*;
use vstd::pervasive::VecAdditionalExecFns;
use vstd::string::StringSliceAdditionalSpecFns;

use crate::common::{VGA_HEIGHT, VGA_WIDTH};

verus! {

/// The sixteen hardware text-mode colors.
#[allow(missing_docs)]
#[derive(Debug, Clone, Copy, PartialEq, Eq, Structural)]
pub enum Color {
    Black,
    Blue,
    Green,
    Cyan,
    Red,
    Magenta,
    Brown,
    LightGray,
    DarkGray,
    LightBlue,
    LightGreen,
    LightCyan,
    LightRed,
    Pink,
    Yellow,
    White,
}

impl Color {
    /// The 4-bit hardware code of this color.
    pub open spec fn spec_code(self) -> u8 {
        match self {
            Color::Black => 0,
            Color::Blue => 1,
            Color::Green => 2,
            Color::Cyan => 3,
            Color::Red => 4,
            Color::Magenta => 5,
            Color::Brown => 6,
            Color::LightGray => 7,
            Color::DarkGray => 8,
            Color::LightBlue => 9,
            Color::LightGreen => 10,
            Color::LightCyan => 11,
            Color::LightRed => 12,
            Color::Pink => 13,
            Color::Yellow => 14,
            Color::White => 15,
        }
    }

    /// The 4-bit hardware code of this color.
    pub fn code(self) -> (c: u8)
        ensures
            c == self.spec_code(),
    {
        match self {
            Color::Black => 0,
            Color::Blue => 1,
            Color::Green => 2,
            Color::Cyan => 3,
            Color::Red => 4,
            Color::Magenta => 5,
            Color::Brown => 6,
            Color::LightGray => 7,
            Color::DarkGray => 8,
            Color::LightBlue => 9,
            Color::LightGreen => 10,
            Color::LightCyan => 11,
            Color::LightRed => 12,
            Color::Pink => 13,
            Color::Yellow => 14,
            Color::White => 15,
        }
    }
}

/// A packed color attribute: background color in the high nibble, foreground
/// color in the low nibble.
#[derive(Debug, Clone, Copy, PartialEq, Eq, Structural)]
pub struct ColorCode(pub u8);

impl ColorCode {
    /// Packs a foreground and a background color into one attribute byte.
    pub fn new(fg: Color, bg: Color) -> (c: ColorCode)
        ensures
            c == (ColorCode((bg.spec_code() << 4) | fg.spec_code())),
    {
        ColorCode((bg.code() << 4) | fg.code())
    }
}

/// One cell of the text grid: a character byte and its color attribute.
#[derive(Debug, Clone, Copy, PartialEq, Eq, Structural)]
pub struct ScreenChar {
    pub ascii_char: u8,
    pub color_code: ColorCode,
}

/// The blank cell: a space in the given color.
pub open spec fn blank_cell(color: ColorCode) -> ScreenChar {
    ScreenChar { ascii_char: 32, color_code: color }
}

/// A full row of blank cells.
pub open spec fn blank_row(color: ColorCode) -> Seq<ScreenChar> {
    Seq::new(VGA_WIDTH as nat, |j: int| blank_cell(color))
}

/// Builds one blank row.
fn blank_row_vec(color: ColorCode) -> (r: Vec<ScreenChar>)
    ensures
        r@ == blank_row(color),
{
    let mut r: Vec<ScreenChar> = Vec::new();
    while r.len() < VGA_WIDTH
        invariant
            r@.len() <= VGA_WIDTH,
            forall|j: int| 0 <= j < r@.len() ==> r@[j] == blank_cell(color),
        decreases VGA_WIDTH - r@.len(),
    {
        r.push(ScreenChar { ascii_char: 32, color_code: color });
    }
    proof {
        assert(r@ =~= blank_row(color));
    }
    r
}

/// The circular store of retained rows. The row at `head` is the one being
/// written; the row at `tail` is the oldest retained one. The store always
/// holds at least the current row, and at most its fixed capacity of rows.
pub struct Scrollback {
    slots: Vec<Vec<ScreenChar>>,
    head: usize,
    tail: usize,
}

impl Scrollback {
    /// Fixed capacity: the number of slots allocated at construction.
    pub closed spec fn cap(self) -> int {
        self.slots@.len() as int
    }

    /// Structural invariant: at least one slot, both indices in range, every
    /// slot one full row wide.
    pub closed spec fn wf(self) -> bool {
        &&& 1 <= self.cap()
        &&& self.head < self.cap()
        &&& self.tail < self.cap()
        &&& forall|i: int| 0 <= i < self.cap() ==> #[trigger] self.slots@[i]@.len() == VGA_WIDTH
    }

    /// Number of retained rows, the current row included.
    pub closed spec fn len_spec(self) -> int {
        if self.tail <= self.head {
            self.head - self.tail + 1
        } else {
            self.cap() - self.tail + self.head + 1
        }
    }

    /// The storage slot of the `i`-th retained row (counting from the
    /// oldest).
    pub closed spec fn slot_of(self, i: int) -> int {
        if self.tail + i < self.cap() {
            self.tail + i
        } else {
            self.tail + i - self.cap()
        }
    }

    /// The retained rows, oldest first; the last one is the current row.
    pub closed spec fn rows(self) -> Seq<Seq<ScreenChar>> {
        Seq::new(self.len_spec() as nat, |i: int| self.slots@[self.slot_of(i)]@)
    }

    /// A store of `capacity` slots holding one blank current row.
    pub fn new(capacity: usize, color: ColorCode) -> (s: Scrollback)
        requires
            1 <= capacity,
        ensures
            s.wf(),
            s.cap() == capacity,
            s.rows() == seq![blank_row(color)],
    {
        let mut slots: Vec<Vec<ScreenChar>> = Vec::new();
        while slots.len() < capacity
            invariant
                slots@.len() <= capacity,
                forall|i: int| 0 <= i < slots@.len() ==> #[trigger] slots@[i]@ == blank_row(color),
            decreases capacity - slots@.len(),
        {
            slots.push(blank_row_vec(color));
        }
        let s = Scrollback { slots, head: 0, tail: 0 };
        proof {
            assert(s.rows() =~= seq![blank_row(color)]);
        }
        s
    }

    /// Number of retained rows, the current row included.
    pub fn line_count(&self) -> (n: usize)
        requires
            self.wf(),
        ensures
            n == self.rows().len(),
    {
        let cap = self.slots.len();
        if self.tail <= self.head {
            self.head - self.tail + 1
        } else {
            cap - self.tail + self.head + 1
        }
    }

    /// A copy of the `i`-th retained row, oldest first.
    pub fn get_line(&self, i: usize) -> (r: Vec<ScreenChar>)
        requires
            self.wf(),
            i < self.rows().len(),
        ensures
            r@ == self.rows()[i as int],
    {
        let cap = self.slots.len();
        let idx: usize = if i < cap - self.tail {
            self.tail + i
        } else {
            i - (cap - self.tail)
        };
        proof {
            assert(idx == self.slot_of(i as int));
            assert(self.slots@[idx as int]@.len() == VGA_WIDTH);
        }
        let line = &self.slots[idx];
        let mut r: Vec<ScreenChar> = Vec::new();
        let mut j: usize = 0;
        while j < VGA_WIDTH
            invariant
                j <= VGA_WIDTH,
                line@.len() == VGA_WIDTH,
                r@ =~= line@.take(j as int),
            decreases VGA_WIDTH - j,
        {
            r.push(line[j]);
            j = j + 1;
        }
        proof {
            assert(line@.take(VGA_WIDTH as int) =~= line@);
        }
        r
    }

    /// Writes one cell of the current row.
    pub fn set_cell(&mut self, col: usize, c: ScreenChar)
        requires
            old(self).wf(),
            col < VGA_WIDTH,
        ensures
            final(self).wf(),
            final(self).cap() == old(self).cap(),
            final(self).rows() == old(self).rows().update(
                old(self).rows().len() - 1,
                old(self).rows().last().update(col as int, c),
            ),
    {
        let h = self.head;
        proof {
            assert(self.slots@[h as int]@.len() == VGA_WIDTH);
        }
        let line = &mut self.slots[h];
        line.set(col, c);
        proof {
            let prev = *old(self);
            assert forall|i: int| 0 <= i < self.rows().len() implies self.rows()[i] == prev.rows()
                .update(prev.rows().len() - 1, prev.rows().last().update(col as int, c))[i] by {
                assert(self.slot_of(i) == prev.slot_of(i));
                if i < prev.rows().len() - 1 {
                    assert(prev.slot_of(i) != prev.head as int);
                } else {
                    assert(prev.slot_of(i) == prev.head as int);
                }
            }
            assert(self.rows() =~= prev.rows().update(
                prev.rows().len() - 1,
                prev.rows().last().update(col as int, c),
            ));
        }
    }

    /// Replaces the `i`-th retained row with a blank row.
    pub fn set_row_blank(&mut self, i: usize, color: ColorCode)
        requires
            old(self).wf(),
            i < old(self).rows().len(),
        ensures
            final(self).wf(),
            final(self).cap() == old(self).cap(),
            final(self).rows() == old(self).rows().update(i as int, blank_row(color)),
    {
        let cap = self.slots.len();
        let idx: usize = if i < cap - self.tail {
            self.tail + i
        } else {
            i - (cap - self.tail)
        };
        proof {
            assert(idx == self.slot_of(i as int));
        }
        self.slots.set(idx, blank_row_vec(color));
        proof {
            let prev = *old(self);
            assert forall|k: int| 0 <= k < self.rows().len() implies self.rows()[k] == prev.rows()
                .update(i as int, blank_row(color))[k] by {
                assert(self.slot_of(k) == prev.slot_of(k));
                if k != i {
                    assert(prev.slot_of(k) != prev.slot_of(i as int));
                }
            }
            assert(self.rows() =~= prev.rows().update(i as int, blank_row(color)));
        }
    }

    /// Starts a new blank current row, discarding the oldest retained row
    /// when the store is already at capacity.
    pub fn advance(&mut self, color: ColorCode)
        requires
            old(self).wf(),
        ensures
            final(self).wf(),
            final(self).cap() == old(self).cap(),
            old(self).rows().len() == old(self).cap() ==> final(self).rows() == old(self).rows()
                .skip(1).push(blank_row(color)),
            old(self).rows().len() < old(self).cap() ==> final(self).rows() == old(self).rows()
                .push(blank_row(color)),
    {
        let cap = self.slots.len();
        let new_head: usize = if self.head + 1 == cap {
            0
        } else {
            self.head + 1
        };
        let full = new_head == self.tail;
        if full {
            self.tail = if self.tail + 1 == cap {
                0
            } else {
                self.tail + 1
            };
        }
        self.head = new_head;
        self.slots.set(new_head, blank_row_vec(color));
        proof {
            let prev = *old(self);
            assert(full <==> prev.len_spec() == prev.cap());
            if full {
                assert forall|i: int| 0 <= i < self.rows().len() - 1 implies self.rows()[i]
                    == prev.rows()[i + 1] by {
                    assert(self.slot_of(i) == prev.slot_of(i + 1));
                    assert(prev.slot_of(i + 1) != new_head as int);
                }
                assert(self.rows().last() == blank_row(color)) by {
                    assert(self.slot_of(self.len_spec() - 1) == new_head as int);
                }
                assert(self.rows() =~= prev.rows().skip(1).push(blank_row(color)));
            } else {
                assert forall|i: int| 0 <= i < prev.rows().len() implies self.rows()[i]
                    == prev.rows()[i] by {
                    assert(self.slot_of(i) == prev.slot_of(i));
                    assert(prev.slot_of(i) != new_head as int);
                }
                assert(self.rows().last() == blank_row(color)) by {
                    assert(self.slot_of(self.len_spec() - 1) == new_head as int);
                }
                assert(self.rows() =~= prev.rows().push(blank_row(color)));
            }
        }
    }
}

/// Abstract state of the display driver: the retained rows (the last one is
/// the row being written), the cursor column within that row, the color of
/// newly written cells, the scroll offset of the visible window, and the
/// fixed capacity of the history.
#[verifier::ext_equal]
pub ghost struct VgaModel {
    pub rows: Seq<Seq<ScreenChar>>,
    pub col: int,
    pub color: ColorCode,
    pub offset: int,
    pub cap: int,
}

/// Well-formed driver state: at least the current row and at most `cap`
/// rows, every row one screen wide, the cursor within the row width, and
/// the scroll offset within its clamp range.
pub open spec fn model_wf(m: VgaModel) -> bool {
    &&& 1 <= m.rows.len() <= m.cap
    &&& forall|i: int| 0 <= i < m.rows.len() ==> #[trigger] m.rows[i].len() == VGA_WIDTH
    &&& 0 <= m.col <= VGA_WIDTH
    &&& 0 <= m.offset <= max_offset(m.rows.len() as int)
}

/// The largest scroll offset that still shows a full screen of history:
/// `L - H` for `L` retained rows and a visible height of `H`, and `0` while
/// fewer than `H` rows exist.
pub open spec fn max_offset(len: int) -> int {
    if len > VGA_HEIGHT {
        len - VGA_HEIGHT
    } else {
        0
    }
}

/// A newline: the current row is left in the history as written and a new
/// blank current row begins, discarding the oldest row when the history is
/// at capacity; the cursor returns to column zero.
pub open spec fn model_newline(m: VgaModel) -> VgaModel {
    let rows = if m.rows.len() >= m.cap {
        m.rows.skip(1).push(blank_row(m.color))
    } else {
        m.rows.push(blank_row(m.color))
    };
    VgaModel { rows, col: 0, color: m.color, offset: m.offset, cap: m.cap }
}

/// The glyph stored for a written byte: printable ASCII passes through
/// verbatim, everything else becomes the placeholder glyph `0xfe`.
pub open spec fn glyph_of(b: u8) -> u8 {
    if 0x20 <= b <= 0x7e {
        b
    } else {
        0xfe
    }
}

/// One byte written to the driver: a newline or carriage return moves the
/// cursor, and any other byte puts its glyph at the cursor of the current
/// row, wrapping to a new row first when the row is already full.
pub open spec fn model_put(m: VgaModel, b: u8) -> VgaModel {
    if b == 10 {
        model_newline(m)
    } else if b == 13 {
        VgaModel { rows: m.rows, col: 0, color: m.color, offset: m.offset, cap: m.cap }
    } else {
        let m1 = if m.col >= VGA_WIDTH {
            model_newline(m)
        } else {
            m
        };
        let last = m1.rows.len() - 1;
        VgaModel {
            rows: m1.rows.update(
                last,
                m1.rows[last].update(
                    m1.col,
                    ScreenChar { ascii_char: glyph_of(b), color_code: m.color },
                ),
            ),
            col: m1.col + 1,
            color: m.color,
            offset: m.offset,
            cap: m.cap,
        }
    }
}

/// A byte sequence written to the driver, in order.
pub open spec fn model_put_bytes(m: VgaModel, s: Seq<u8>) -> VgaModel
    decreases s.len(),
{
    if s.len() == 0 {
        m
    } else {
        model_put(model_put_bytes(m, s.drop_last()), s.last())
    }
}

/// One scroll step toward older history; already at the top, it stays.
pub open spec fn model_scroll_up(m: VgaModel) -> VgaModel {
    let offset = if m.offset > 0 {
        m.offset - 1
    } else {
        0
    };
    VgaModel { rows: m.rows, col: m.col, color: m.color, offset, cap: m.cap }
}

/// One scroll step toward newer history, clamped at the last full screen.
pub open spec fn model_scroll_down(m: VgaModel) -> VgaModel {
    let offset = if m.offset + 1 <= max_offset(m.rows.len() as int) {
        m.offset + 1
    } else {
        m.offset
    };
    VgaModel { rows: m.rows, col: m.col, color: m.color, offset, cap: m.cap }
}

/// The visible window: `VGA_HEIGHT` rows of history starting at the scroll
/// offset, padded with blank rows where the history ends.
pub open spec fn composite(m: VgaModel) -> Seq<Seq<ScreenChar>> {
    Seq::new(
        VGA_HEIGHT as nat,
        |r: int|
            if m.offset + r < m.rows.len() {
                m.rows[m.offset + r]
            } else {
                blank_row(m.color)
            },
    )
}

/// The row stored after writing the bytes of `s` onto a fresh row: the
/// characters of `s` in the given color, padded with blank cells.
pub open spec fn row_of_bytes(s: Seq<u8>, color: ColorCode) -> Seq<ScreenChar> {
    Seq::new(
        VGA_WIDTH as nat,
        |j: int|
            if j < s.len() {
                ScreenChar { ascii_char: s[j], color_code: color }
            } else {
                blank_cell(color)
            },
    )
}

/// Scrollback round trip: writing printable bytes onto a fresh (blank,
/// cursor at column zero) current row stores exactly those characters —
/// afterwards the current row holds the bytes of `s` in the writer's color
/// padded with blanks, every older row is untouched, and the cursor stands
/// right after the last written character. Reading the row back therefore
/// returns the identical cells.
pub proof fn lemma_write_round_trip(m: VgaModel, s: Seq<u8>)
    requires
        model_wf(m),
        m.col == 0,
        m.rows.last() == blank_row(m.color),
        s.len() <= VGA_WIDTH,
        forall|i: int| 0 <= i < s.len() ==> 0x20 <= #[trigger] s[i] <= 0x7e,
    ensures
        model_wf(model_put_bytes(m, s)),
        model_put_bytes(m, s).rows == m.rows.update(m.rows.len() - 1, row_of_bytes(s, m.color)),
        model_put_bytes(m, s).col == s.len(),
        model_put_bytes(m, s).color == m.color,
        model_put_bytes(m, s).offset == m.offset,
        model_put_bytes(m, s).cap == m.cap,
    decreases s.len(),
{
    if s.len() == 0 {
        assert(row_of_bytes(s, m.color) =~= blank_row(m.color));
        assert(m.rows.update(m.rows.len() - 1, row_of_bytes(s, m.color)) =~= m.rows);
    } else {
        let prefix = s.drop_last();
        let b = s.last();
        assert(forall|i: int| 0 <= i < prefix.len() ==> 0x20 <= #[trigger] prefix[i] <= 0x7e);
        lemma_write_round_trip(m, prefix);
        let m1 = model_put_bytes(m, prefix);
        assert(model_put_bytes(m, s) == model_put(m1, b));
        assert(m1.col == prefix.len() < VGA_WIDTH);
        assert(0x20 <= b <= 0x7e);
        assert(glyph_of(b) == b);
        let last = m1.rows.len() - 1;
        assert(m1.rows[last] == row_of_bytes(prefix, m.color));
        assert(row_of_bytes(prefix, m.color).update(
            prefix.len() as int,
            ScreenChar { ascii_char: b, color_code: m.color },
        ) =~= row_of_bytes(s, m.color));
        assert(model_put(m1, b).rows =~= m.rows.update(
            m.rows.len() - 1,
            row_of_bytes(s, m.color),
        ));
        assert(forall|i: int|
            0 <= i < model_put(m1, b).rows.len() ==> #[trigger] model_put(m1, b).rows[i].len()
                == VGA_WIDTH);
    }
}

/// Scroll-offset clamp: from any well-formed state, one scroll step in
/// either direction leaves the offset within `[0, L - H]` (zero while fewer
/// than `H` rows exist), so repeated `scroll_down` calls never drive the
/// offset above `L - H` and repeated `scroll_up` calls never drive it below
/// zero.
pub proof fn lemma_scroll_clamped(m: VgaModel)
    requires
        model_wf(m),
    ensures
        model_wf(model_scroll_up(m)),
        model_wf(model_scroll_down(m)),
        0 <= model_scroll_up(m).offset <= max_offset(m.rows.len() as int),
        0 <= model_scroll_down(m).offset <= max_offset(m.rows.len() as int),
{
}

/// The full observable state of the driver: its abstract model and the
/// frame that currently stands in the physical display.
#[verifier::ext_equal]
pub ghost struct VgaState {
    pub model: VgaModel,
    pub frame: Seq<Seq<ScreenChar>>,
}

/// What one frame redraw does to the full state: the model is untouched and
/// the frame becomes the composite of the model.
pub open spec fn draw_frame_spec(s: VgaState) -> VgaState {
    VgaState { model: s.model, frame: composite(s.model) }
}

/// Redrawing is idempotent: with no state change in between, a second
/// redraw produces exactly the state the first one left, so the physical
/// frame is identical both times.
pub proof fn lemma_draw_frame_idempotent(s: VgaState)
    ensures
        draw_frame_spec(draw_frame_spec(s)) == draw_frame_spec(s),
{
}

/// The display driver: the scrollback history, the cursor column within the
/// current row, the color applied to written cells, the scroll offset, and
/// the frame standing in the physical display.
pub struct Writer {
    scrollback: Scrollback,
    column_pos: usize,
    color_code: ColorCode,
    scroll_offset: usize,
    frame: Vec<Vec<ScreenChar>>,
}

impl View for Writer {
    type V = VgaModel;

    closed spec fn view(&self) -> VgaModel {
        VgaModel {
            rows: self.scrollback.rows(),
            col: self.column_pos as int,
            color: self.color_code,
            offset: self.scroll_offset as int,
            cap: self.scrollback.cap(),
        }
    }
}

impl Writer {
    /// Structural invariant of the driver.
    pub closed spec fn wf(self) -> bool {
        &&& self.scrollback.wf()
        &&& model_wf(self@)
    }

    /// The frame standing in the physical display.
    pub closed spec fn frame_view(self) -> Seq<Seq<ScreenChar>> {
        Seq::new(self.frame@.len(), |i: int| self.frame@[i]@)
    }

    /// The full observable state: model plus displayed frame.
    pub open spec fn full_view(self) -> VgaState {
        VgaState { model: self@, frame: self.frame_view() }
    }

    /// The displayed frame is exactly the composite of the current model,
    /// as it is after every operation of the driver.
    pub open spec fn synced(self) -> bool {
        self.frame_view() == composite(self@)
    }

    /// A driver over a history of `capacity` rows, with one blank current
    /// row, the cursor at column zero, no scroll offset, and the blank
    /// history composited onto the display.
    pub fn new(color_code: ColorCode, capacity: usize) -> (w: Writer)
        requires
            1 <= capacity,
        ensures
            w.wf(),
            w.synced(),
            w@ == (VgaModel {
                rows: seq![blank_row(color_code)],
                col: 0,
                color: color_code,
                offset: 0,
                cap: capacity as int,
            }),
    {
        let mut w = Writer {
            scrollback: Scrollback::new(capacity, color_code),
            column_pos: 0,
            color_code,
            scroll_offset: 0,
            frame: Vec::new(),
        };
        w.draw_frame();
        w
    }

    /// The cursor column within the current row.
    pub fn column_pos(&self) -> (c: usize)
        ensures
            c == self@.col,
    {
        self.column_pos
    }

    /// The color applied to written cells.
    pub fn color_code(&self) -> (c: ColorCode)
        ensures
            c == self@.color,
    {
        self.color_code
    }

    /// The scroll offset of the visible window.
    pub fn scroll_offset(&self) -> (o: usize)
        ensures
            o == self@.offset,
    {
        self.scroll_offset
    }

    /// The scrollback store, for reading retained rows back.
    pub fn scrollback(&self) -> (s: &Scrollback)
        requires
            self.wf(),
        ensures
            s.wf(),
            s.rows() == self@.rows,
    {
        &self.scrollback
    }

    /// Number of retained rows, the current row included.
    pub fn line_count(&self) -> (n: usize)
        requires
            self.wf(),
        ensures
            n == self@.rows.len(),
    {
        self.scrollback.line_count()
    }

    /// A copy of the `i`-th retained row.
    pub fn get_line(&self, i: usize) -> (r: Vec<ScreenChar>)
        requires
            self.wf(),
            i < self@.rows.len(),
        ensures
            r@ == self@.rows[i as int],
    {
        self.scrollback.get_line(i)
    }

    /// A copy of row `r` of the displayed frame.
    pub fn frame_line(&self, r: usize) -> (line: Vec<ScreenChar>)
        requires
            self.wf(),
            self.synced(),
            r < VGA_HEIGHT,
        ensures
            line@ == self.frame_view()[r as int],
    {
        proof {
            let m = self@;
            assert(self.frame_view() == composite(m));
            assert(self.frame@.len() == VGA_HEIGHT);
            if m.offset + r < m.rows.len() {
                assert(composite(m)[r as int] == m.rows[m.offset + r]);
                assert(m.rows[m.offset + r].len() == VGA_WIDTH);
            } else {
                assert(composite(m)[r as int] == blank_row(m.color));
            }
            assert(self.frame@[r as int]@ == self.frame_view()[r as int]);
            assert(self.frame@[r as int]@.len() == VGA_WIDTH);
        }
        let row = &self.frame[r];
        let mut line: Vec<ScreenChar> = Vec::new();
        let mut j: usize = 0;
        while j < VGA_WIDTH
            invariant
                j <= VGA_WIDTH,
                row@.len() == VGA_WIDTH,
                line@ =~= row@.take(j as int),
            decreases VGA_WIDTH - j,
        {
            line.push(row[j]);
            j = j + 1;
        }
        proof {
            assert(row@.take(VGA_WIDTH as int) =~= row@);
        }
        line
    }

    /// Starts a new current row and recomposites the display.
    pub fn newline(&mut self)
        requires
            old(self).wf(),
        ensures
            final(self).wf(),
            final(self).synced(),
            final(self)@ == model_newline(old(self)@),
    {
        self.newline_inner();
        self.draw_frame();
    }

    /// Starts a new current row without redrawing.
    fn newline_inner(&mut self)
        requires
            old(self).wf(),
        ensures
            final(self).wf(),
            final(self)@ == model_newline(old(self)@),
    {
        self.scrollback.advance(self.color_code);
        self.column_pos = 0;
        proof {
            assert(self@ =~= model_newline(old(self)@));
        }
    }

    /// Writes one byte and recomposites the display.
    pub fn write_byte(&mut self, byte: u8)
        requires
            old(self).wf(),
        ensures
            final(self).wf(),
            final(self).synced(),
            final(self)@ == model_put(old(self)@, byte),
    {
        self.write_byte_inner(byte);
        self.draw_frame();
    }

    /// Writes one byte without redrawing.
    fn write_byte_inner(&mut self, byte: u8)
        requires
            old(self).wf(),
        ensures
            final(self).wf(),
            final(self)@ == model_put(old(self)@, byte),
    {
        if byte == 10 {
            self.newline_inner();
        } else if byte == 13 {
            self.column_pos = 0;
        } else {
            if self.column_pos >= VGA_WIDTH {
                self.newline_inner();
            }
            let glyph = if 0x20 <= byte && byte <= 0x7e {
                byte
            } else {
                0xfe
            };
            let cell = ScreenChar { ascii_char: glyph, color_code: self.color_code };
            self.scrollback.set_cell(self.column_pos, cell);
            self.column_pos = self.column_pos + 1;
            proof {
                assert(self@ =~= model_put(old(self)@, byte));
            }
        }
    }

    /// Writes every byte of `s` in order, then recomposites the display.
    pub fn write_string(&mut self, s: &str)
        requires
            old(self).wf(),
        ensures
            final(self).wf(),
            final(self).synced(),
            final(self)@ == model_put_bytes(old(self)@, s.spec_bytes()),
    {
        let bytes = s.as_bytes();
        let mut i: usize = 0;
        while i < bytes.len()
            invariant
                self.wf(),
                i <= bytes@.len(),
                self@ == model_put_bytes(old(self)@, bytes@.take(i as int)),
            decreases bytes@.len() - i,
        {
            self.write_byte_inner(bytes[i]);
            proof {
                assert(bytes@.take(i + 1).drop_last() =~= bytes@.take(i as int));
                assert(bytes@.take(i + 1).last() == bytes@[i as int]);
            }
            i = i + 1;
        }
        proof {
            assert(bytes@.take(bytes@.len() as int) =~= bytes@);
        }
        self.draw_frame();
    }

    /// Replaces the `row`-th retained row with a blank row and recomposites
    /// the display.
    pub fn clear_row(&mut self, row: usize)
        requires
            old(self).wf(),
            row < old(self)@.rows.len(),
        ensures
            final(self).wf(),
            final(self).synced(),
            final(self)@ == (VgaModel {
                rows: old(self)@.rows.update(row as int, blank_row(old(self)@.color)),
                col: old(self)@.col,
                color: old(self)@.color,
                offset: old(self)@.offset,
                cap: old(self)@.cap,
            }),
    {
        self.scrollback.set_row_blank(row, self.color_code);
        proof {
            assert(self@ =~= (VgaModel {
                rows: old(self)@.rows.update(row as int, blank_row(old(self)@.color)),
                col: old(self)@.col,
                color: old(self)@.color,
                offset: old(self)@.offset,
                cap: old(self)@.cap,
            }));
        }
        self.draw_frame();
    }

    /// Scrolls one row toward older history and recomposites the display;
    /// at the top of the history the offset stays at zero.
    pub fn scroll_up(&mut self)
        requires
            old(self).wf(),
        ensures
            final(self).wf(),
            final(self).synced(),
            final(self)@ == model_scroll_up(old(self)@),
    {
        if self.scroll_offset > 0 {
            self.scroll_offset = self.scroll_offset - 1;
        }
        proof {
            assert(self@ =~= model_scroll_up(old(self)@));
        }
        self.draw_frame();
    }

    /// Scrolls one row toward newer history and recomposites the display;
    /// the offset never passes the last full screen of history.
    pub fn scroll_down(&mut self)
        requires
            old(self).wf(),
        ensures
            final(self).wf(),
            final(self).synced(),
            final(self)@ == model_scroll_down(old(self)@),
    {
        let count = self.scrollback.line_count();
        let limit: usize = if count > VGA_HEIGHT {
            count - VGA_HEIGHT
        } else {
            0
        };
        if self.scroll_offset < limit {
            self.scroll_offset = self.scroll_offset + 1;
        }
        proof {
            assert(self@ =~= model_scroll_down(old(self)@));
        }
        self.draw_frame();
    }

    /// Copies the visible window of the history into the displayed frame:
    /// `VGA_HEIGHT` rows starting at the scroll offset, padded with blank
    /// rows where the history ends. This is the single place the physical
    /// display is written.
    pub fn draw_frame(&mut self)
        requires
            old(self).wf(),
        ensures
            final(self).wf(),
            final(self).synced(),
            final(self)@ == old(self)@,
            final(self).full_view() == draw_frame_spec(old(self).full_view()),
    {
        let count = self.scrollback.line_count();
        let mut fresh: Vec<Vec<ScreenChar>> = Vec::new();
        let mut r: usize = 0;
        while r < VGA_HEIGHT
            invariant
                r <= VGA_HEIGHT,
                self.wf(),
                self@ == old(self)@,
                self.scrollback == old(self).scrollback,
                count == self@.rows.len(),
                fresh@.len() == r,
                forall|k: int| 0 <= k < r ==> #[trigger] fresh@[k]@ == composite(self@)[k],
            decreases VGA_HEIGHT - r,
        {
            if r < count && self.scroll_offset <= count - 1 - r {
                let line = self.scrollback.get_line(self.scroll_offset + r);
                fresh.push(line);
            } else {
                fresh.push(blank_row_vec(self.color_code));
            }
            r = r + 1;
        }
        self.frame = fresh;
        proof {
            assert(self.frame_view() =~= composite(self@));
            assert(self.full_view() =~= draw_frame_spec(old(self).full_view()));
        }
    }
}

} // verus!

