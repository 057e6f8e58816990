//! Plain text output onto the 80x25 character grid.
//!
//! The physical video memory is a fixed grid of character cells; this module
//! models it as an explicit `Screen` value that the printing helpers thread
//! through, with a cursor row and column. Every cell written through these
//! helpers carries the fixed bright-white attribute, so only the character
//! byte of each cell is modelled.
//!
//! A cursor that has run past the grid is folded back to the top (or to the
//! left) before the next byte is placed; a newline moves the cursor to the
//! start of the next row and a carriage return to the start of the same row.

use vstd::prelude::*;
use vstd::pervasive::VecAdditionalExecFns;

verus! {

/// Number of character columns of the text grid.
pub const VGA_WIDTH: usize = 80;

/// Number of character rows of the text grid.
pub const VGA_HEIGHT: usize = 25;

/// Converts a value below 16 to the ASCII digit that prints it:
/// `0..=9` become `'0'..='9'`, `10..=15` become `'a'..='f'`.
pub fn int_to_char(n: u8) -> (c: u8)
    requires
        n < 16,
    ensures
        c == digit_char(n),
{
    if n <= 9 {
        n + 48
    } else {
        n + 87
    }
}

/// The ASCII digit for a value below 16.
pub open spec fn digit_char(n: u8) -> u8
    recommends
        n < 16,
{
    if n <= 9 {
        (n + 48) as u8
    } else {
        (n + 87) as u8
    }
}

/// Abstract state of the text grid: the character of every cell, and the
/// cursor position at which the next character lands.
#[verifier::ext_equal]
pub ghost struct ScreenView {
    pub grid: Seq<Seq<u8>>,
    pub row: int,
    pub col: int,
}

/// The 80x25 character grid together with the output cursor.
pub struct Screen {
    grid: Vec<Vec<u8>>,
    row: usize,
    col: usize,
}

/// One byte placed onto the screen. A cursor outside the grid is first
/// folded back to row 0 (or column 0). A newline advances the row and resets
/// the column, a carriage return resets the column, and any other byte is
/// written at the cursor, which then moves one column right.
pub open spec fn put_byte(v: ScreenView, b: u8) -> ScreenView {
    let row = if v.row >= VGA_HEIGHT {
        0
    } else {
        v.row
    };
    let col = if v.col >= VGA_WIDTH {
        0
    } else {
        v.col
    };
    if b == 10 {
        ScreenView { grid: v.grid, row: row + 1, col: 0 }
    } else if b == 13 {
        ScreenView { grid: v.grid, row, col: 0 }
    } else {
        ScreenView {
            grid: v.grid.update(row, v.grid[row].update(col, b)),
            row,
            col: col + 1,
        }
    }
}

/// A byte sequence placed onto the screen, in order.
pub open spec fn put_bytes(v: ScreenView, s: Seq<u8>) -> ScreenView
    decreases s.len(),
{
    if s.len() == 0 {
        v
    } else {
        put_byte(put_bytes(v, s.drop_last()), s.last())
    }
}

/// The cursor moved to the start of the next row.
pub open spec fn screen_newline(v: ScreenView) -> ScreenView {
    ScreenView { grid: v.grid, row: v.row + 1, col: 0 }
}

impl View for Screen {
    type V = ScreenView;

    closed spec fn view(&self) -> ScreenView {
        ScreenView {
            grid: Seq::new(self.grid@.len(), |i: int| self.grid@[i]@),
            row: self.row as int,
            col: self.col as int,
        }
    }
}

impl Screen {
    /// Structural invariant: the grid has exactly `VGA_HEIGHT` rows of
    /// exactly `VGA_WIDTH` cells each.
    pub open spec fn wf(self) -> bool {
        &&& self@.grid.len() == VGA_HEIGHT
        &&& forall|i: int| 0 <= i < VGA_HEIGHT ==> #[trigger] self@.grid[i].len() == VGA_WIDTH
    }

    /// A blank screen: every cell a space, the cursor at the top left.
    pub fn new() -> (s: Screen)
        ensures
            s.wf(),
            s@.row == 0,
            s@.col == 0,
            forall|i: int, j: int|
                0 <= i < VGA_HEIGHT && 0 <= j < VGA_WIDTH ==> s@.grid[i][j] == 32u8,
    {
        let mut grid: Vec<Vec<u8>> = Vec::new();
        while grid.len() < VGA_HEIGHT
            invariant
                grid@.len() <= VGA_HEIGHT,
                forall|i: int|
                    0 <= i < grid@.len() ==> #[trigger] grid@[i]@ =~= Seq::new(
                        VGA_WIDTH as nat,
                        |j: int| 32u8,
                    ),
            decreases VGA_HEIGHT - grid@.len(),
        {
            let mut line: Vec<u8> = Vec::new();
            while line.len() < VGA_WIDTH
                invariant
                    line@.len() <= VGA_WIDTH,
                    forall|j: int| 0 <= j < line@.len() ==> line@[j] == 32u8,
                decreases VGA_WIDTH - line@.len(),
            {
                line.push(32);
            }
            proof {
                assert(line@ =~= Seq::new(VGA_WIDTH as nat, |j: int| 32u8));
            }
            grid.push(line);
        }
        Screen { grid, row: 0, col: 0 }
    }

    /// The character at row `r`, column `c`.
    pub fn cell(&self, r: usize, c: usize) -> (b: u8)
        requires
            self.wf(),
            r < VGA_HEIGHT,
            c < VGA_WIDTH,
        ensures
            b == self@.grid[r as int][c as int],
    {
        proof {
            assert(self@.grid[r as int].len() == VGA_WIDTH);
        }
        self.grid[r][c]
    }

    /// The cursor row.
    pub fn row(&self) -> (r: usize)
        ensures
            r == self@.row,
    {
        self.row
    }

    /// The cursor column.
    pub fn col(&self) -> (c: usize)
        ensures
            c == self@.col,
    {
        self.col
    }
}

/// Prints the bytes of `s` one after the other at the cursor.
pub fn print(screen: &mut Screen, s: &[u8])
    requires
        old(screen).wf(),
    ensures
        final(screen).wf(),
        final(screen)@ == put_bytes(old(screen)@, s@),
{
    let mut i: usize = 0;
    while i < s.len()
        invariant
            screen.wf(),
            i <= s@.len(),
            screen@ == put_bytes(old(screen)@, s@.take(i as int)),
        decreases s@.len() - i,
    {
        let b = s[i];
        let ghost before = screen@;
        if screen.row >= VGA_HEIGHT {
            screen.row = 0;
        }
        if screen.col >= VGA_WIDTH {
            screen.col = 0;
        }
        if b == 10 {
            screen.row = screen.row + 1;
            screen.col = 0;
        } else if b == 13 {
            screen.col = 0;
        } else {
            let r = screen.row;
            let c = screen.col;
            proof {
                assert(screen@.grid[r as int].len() == VGA_WIDTH);
            }
            let line = &mut screen.grid[r];
            line.set(c, b);
            screen.col = c + 1;
        }
        proof {
            assert(screen@ =~= put_byte(before, b));
            assert(s@.take(i + 1).drop_last() =~= s@.take(i as int));
            assert(s@.take(i + 1).last() == s@[i as int]);
        }
        i = i + 1;
    }
    proof {
        assert(s@.take(s@.len() as int) =~= s@);
    }
}

/// Moves the cursor to the start of the next row.
pub fn newline(screen: &mut Screen)
    requires
        old(screen).wf(),
        old(screen)@.row < usize::MAX,
    ensures
        final(screen).wf(),
        final(screen)@ == screen_newline(old(screen)@),
{
    screen.row = screen.row + 1;
    screen.col = 0;
}

/// Prints the bytes of `s`, then moves the cursor to the next row.
pub fn println(screen: &mut Screen, s: &[u8])
    requires
        old(screen).wf(),
        old(screen)@.row < usize::MAX,
    ensures
        final(screen).wf(),
        final(screen)@ == screen_newline(put_bytes(old(screen)@, s@)),
{
    print(screen, s);
    newline(screen);
}

/// Powers of ten, for bounding how many decimal digits a value can have.
pub open spec fn pow10(k: nat) -> int
    decreases k,
{
    if k == 0 {
        1
    } else {
        10 * pow10((k - 1) as nat)
    }
}

/// Powers of sixteen, for bounding how many hex digits a value can have.
pub open spec fn pow16(k: nat) -> int
    decreases k,
{
    if k == 0 {
        1
    } else {
        16 * pow16((k - 1) as nat)
    }
}

/// The decimal digits of `n`, most significant first; zero has none.
pub open spec fn dec_digits(n: int) -> Seq<u8>
    decreases n,
{
    if n <= 0 {
        Seq::empty()
    } else {
        dec_digits(n / 10).push(digit_char((n % 10) as u8))
    }
}

/// The hexadecimal digits of `n`, most significant first; zero has none.
pub open spec fn hex_digits(n: int) -> Seq<u8>
    decreases n,
{
    if n <= 0 {
        Seq::empty()
    } else {
        hex_digits(n / 16).push(digit_char((n % 16) as u8))
    }
}

/// Prints the decimal digits of `n`; zero prints nothing.
pub fn print_int(screen: &mut Screen, n: u32)
    requires
        old(screen).wf(),
    ensures
        final(screen).wf(),
        final(screen)@ == put_bytes(old(screen)@, dec_digits(n as int)),
{
    let mut buf: Vec<u8> = Vec::new();
    let mut k: usize = 0;
    while k < 10
        invariant
            k <= 10,
            buf@.len() == k,
        decreases 10 - k,
    {
        buf.push(0);
        k = k + 1;
    }
    let mut i: usize = 0;
    let mut m: u32 = n;
    proof {
        reveal_with_fuel(pow10, 11);
        assert(pow10(10) == 10000000000);
    }
    while m > 0
        invariant
            buf@.len() == 10,
            i <= 10,
            m < pow10((10 - i) as nat),
            dec_digits(n as int) =~= dec_digits(m as int) + buf@.subrange(10 - i, 10),
        decreases m,
    {
        proof {
            // One unfolding: a positive value below pow10(10 - i) forces
            // 10 - i >= 1, so the buffer has room for one more digit.
            assert(pow10((10 - i) as nat) == 10 * pow10((10 - i - 1) as nat));
        }
        let d = int_to_char((m % 10) as u8);
        buf.set(9 - i, d);
        let ghost prev_m = m as int;
        m = m / 10;
        i = i + 1;
        proof {
            assert(dec_digits(prev_m) == dec_digits(prev_m / 10).push(
                digit_char((prev_m % 10) as u8),
            ));
            assert(buf@.subrange(10 - i, 10) =~= seq![d] + buf@.subrange(10 - i + 1, 10));
            assert(dec_digits(n as int) =~= dec_digits(m as int) + buf@.subrange(10 - i, 10));
        }
    }
    let mut out: Vec<u8> = Vec::new();
    let mut j: usize = 10 - i;
    while j < 10
        invariant
            i <= 10,
            buf@.len() == 10,
            10 - i <= j <= 10,
            out@ =~= buf@.subrange(10 - i, j as int),
        decreases 10 - j,
    {
        out.push(buf[j]);
        j = j + 1;
    }
    proof {
        assert(dec_digits(n as int) =~= out@);
    }
    print(screen, out.as_slice());
}

/// Prints `0x` followed by the hexadecimal digits of `n`; zero prints only
/// the `0x` prefix.
pub fn print_hex(screen: &mut Screen, n: u32)
    requires
        old(screen).wf(),
    ensures
        final(screen).wf(),
        final(screen)@ == put_bytes(old(screen)@, seq![48u8, 120u8] + hex_digits(n as int)),
{
    let mut prefix: Vec<u8> = Vec::new();
    prefix.push(48);
    prefix.push(120);
    print(screen, prefix.as_slice());
    let mut buf: Vec<u8> = Vec::new();
    let mut k: usize = 0;
    while k < 8
        invariant
            k <= 8,
            buf@.len() == k,
        decreases 8 - k,
    {
        buf.push(0);
        k = k + 1;
    }
    let mut i: usize = 0;
    let mut m: u32 = n;
    proof {
        reveal_with_fuel(pow16, 9);
        assert(pow16(8) == 0x100000000);
    }
    while m > 0
        invariant
            buf@.len() == 8,
            i <= 8,
            m < pow16((8 - i) as nat),
            hex_digits(n as int) =~= hex_digits(m as int) + buf@.subrange(8 - i, 8),
        decreases m,
    {
        proof {
            assert(pow16((8 - i) as nat) == 16 * pow16((8 - i - 1) as nat));
        }
        let d = int_to_char((m % 16) as u8);
        buf.set(7 - i, d);
        let ghost prev_m = m as int;
        m = m / 16;
        i = i + 1;
        proof {
            assert(hex_digits(prev_m) == hex_digits(prev_m / 16).push(
                digit_char((prev_m % 16) as u8),
            ));
            assert(buf@.subrange(8 - i, 8) =~= seq![d] + buf@.subrange(8 - i + 1, 8));
            assert(hex_digits(n as int) =~= hex_digits(m as int) + buf@.subrange(8 - i, 8));
        }
    }
    let mut out: Vec<u8> = Vec::new();
    let mut j: usize = 8 - i;
    while j < 8
        invariant
            i <= 8,
            buf@.len() == 8,
            8 - i <= j <= 8,
            out@ =~= buf@.subrange(8 - i, j as int),
        decreases 8 - j,
    {
        out.push(buf[j]);
        j = j + 1;
    }
    proof {
        assert(hex_digits(n as int) =~= out@);
    }
    print(screen, out.as_slice());
    proof {
        lemma_put_bytes_concat(old(screen)@, prefix@, out@);
        assert(prefix@ + out@ =~= seq![48u8, 120u8] + hex_digits(n as int));
    }
}

/// Prints `0x` followed by the hexadecimal digits of `n`; zero prints only
/// the `0x` prefix.
pub fn print_hex_64(screen: &mut Screen, n: u64)
    requires
        old(screen).wf(),
    ensures
        final(screen).wf(),
        final(screen)@ == put_bytes(old(screen)@, seq![48u8, 120u8] + hex_digits(n as int)),
{
    let mut prefix: Vec<u8> = Vec::new();
    prefix.push(48);
    prefix.push(120);
    print(screen, prefix.as_slice());
    let mut buf: Vec<u8> = Vec::new();
    let mut k: usize = 0;
    while k < 16
        invariant
            k <= 16,
            buf@.len() == k,
        decreases 16 - k,
    {
        buf.push(0);
        k = k + 1;
    }
    let mut i: usize = 0;
    let mut m: u64 = n;
    proof {
        reveal_with_fuel(pow16, 17);
        assert(pow16(16) == 0x10000000000000000);
    }
    while m > 0
        invariant
            buf@.len() == 16,
            i <= 16,
            m < pow16((16 - i) as nat),
            hex_digits(n as int) =~= hex_digits(m as int) + buf@.subrange(16 - i, 16),
        decreases m,
    {
        proof {
            assert(pow16((16 - i) as nat) == 16 * pow16((16 - i - 1) as nat));
        }
        let d = int_to_char((m % 16) as u8);
        buf.set(15 - i, d);
        let ghost prev_m = m as int;
        m = m / 16;
        i = i + 1;
        proof {
            assert(hex_digits(prev_m) == hex_digits(prev_m / 16).push(
                digit_char((prev_m % 16) as u8),
            ));
            assert(buf@.subrange(16 - i, 16) =~= seq![d] + buf@.subrange(16 - i + 1, 16));
            assert(hex_digits(n as int) =~= hex_digits(m as int) + buf@.subrange(16 - i, 16));
        }
    }
    let mut out: Vec<u8> = Vec::new();
    let mut j: usize = 16 - i;
    while j < 16
        invariant
            i <= 16,
            buf@.len() == 16,
            16 - i <= j <= 16,
            out@ =~= buf@.subrange(16 - i, j as int),
        decreases 16 - j,
    {
        out.push(buf[j]);
        j = j + 1;
    }
    proof {
        assert(hex_digits(n as int) =~= out@);
    }
    print(screen, out.as_slice());
    proof {
        lemma_put_bytes_concat(old(screen)@, prefix@, out@);
        assert(prefix@ + out@ =~= seq![48u8, 120u8] + hex_digits(n as int));
    }
}

/// Printing a concatenation equals printing the parts one after the other.
pub proof fn lemma_put_bytes_concat(v: ScreenView, a: Seq<u8>, b: Seq<u8>)
    ensures
        put_bytes(v, a + b) == put_bytes(put_bytes(v, a), b),
    decreases b.len(),
{
    if b.len() == 0 {
        assert(a + b =~= a);
    } else {
        lemma_put_bytes_concat(v, a, b.drop_last());
        assert((a + b).drop_last() =~= a + b.drop_last());
        assert((a + b).last() == b.last());
    }
}

} // verus!
