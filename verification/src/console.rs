//! Interrupt-safe text console over a fixed character grid.
//!
//! The screen is a `BUFFER_HEIGHT` x `BUFFER_WIDTH` grid of cells, each one
//! printable byte plus one color-attribute byte. Writing appends at the
//! cursor on the bottom row; a newline (or running past the right edge)
//! scrolls every row up by one and clears the bottom row. Bytes outside the
//! printable range are substituted with a fixed placeholder glyph.
//!
//! The real device is a memory-mapped region with volatile cells; this
//! library works on an owned grid of plain values, and the unverified shell
//! that owns the device copies the grid out to it.
use vstd::prelude::*;
use vstd::string::StringSliceAdditionalSpecFns;

verus! {

pub const BUFFER_HEIGHT: usize = 25;

pub const BUFFER_WIDTH: usize = 80;

/// Newline byte: triggers a scroll instead of occupying a cell.
pub const NEWLINE: u8 = 0x0a;

/// Glyph shown in place of a byte outside the printable range.
pub const PLACEHOLDER: u8 = 0xfe;

/// Glyph of a cleared cell.
pub const BLANK: u8 = 0x20;

/// The sixteen colors of the character device's attribute byte.
#[derive(Clone, Copy, Debug, PartialEq, Eq, Structural)]
pub enum Color {
    Black,
    Blue,
    Green,
    Cyan,
    Red,
    Magenta,
    Brown,
    LightGray,
    DarkGray,
    LightBlue,
    LightGreen,
    LightCyan,
    LightRed,
    Pink,
    Yellow,
    White,
}

impl Color {
    /// The device's numeric code for this color.
    pub open spec fn spec_code(self) -> u8 {
        match self {
            Color::Black => 0,
            Color::Blue => 1,
            Color::Green => 2,
            Color::Cyan => 3,
            Color::Red => 4,
            Color::Magenta => 5,
            Color::Brown => 6,
            Color::LightGray => 7,
            Color::DarkGray => 8,
            Color::LightBlue => 9,
            Color::LightGreen => 10,
            Color::LightCyan => 11,
            Color::LightRed => 12,
            Color::Pink => 13,
            Color::Yellow => 14,
            Color::White => 15,
        }
    }

    pub fn code(self) -> (r: u8)
        ensures
            r == self.spec_code(),
    {
        match self {
            Color::Black => 0,
            Color::Blue => 1,
            Color::Green => 2,
            Color::Cyan => 3,
            Color::Red => 4,
            Color::Magenta => 5,
            Color::Brown => 6,
            Color::LightGray => 7,
            Color::DarkGray => 8,
            Color::LightBlue => 9,
            Color::LightGreen => 10,
            Color::LightCyan => 11,
            Color::LightRed => 12,
            Color::Pink => 13,
            Color::Yellow => 14,
            Color::White => 15,
        }
    }
}

/// One attribute byte: background color in the high half, foreground in the
/// low half.
#[derive(Clone, Copy, Debug, PartialEq, Eq, Structural)]
pub struct ColorCode(pub u8);

impl ColorCode {
    pub fn new(foreground: Color, background: Color) -> (r: ColorCode)
        ensures
            r.0 == background.spec_code() << 4 | foreground.spec_code(),
    {
        ColorCode(background.code() << 4 | foreground.code())
    }
}

/// One grid cell: a glyph byte and its color attribute.
#[derive(Clone, Copy, Debug, PartialEq, Eq, Structural)]
pub struct ScreenChar {
    pub glyph: u8,
    pub attribute: ColorCode,
}

/// The cell that `clear_row` fills with.
pub open spec fn blank_cell() -> ScreenChar {
    ScreenChar { glyph: BLANK, attribute: ColorCode(0) }
}

pub open spec fn spec_blank_row() -> Seq<ScreenChar> {
    Seq::new(BUFFER_WIDTH as nat, |i: int| blank_cell())
}

/// Bytes that occupy a cell as they are: the printable range.
pub open spec fn is_visible(b: u8) -> bool {
    0x20 <= b <= 0x7e
}

/// What `write_string` does to each byte before writing it.
pub open spec fn sanitize(b: u8) -> u8 {
    if is_visible(b) || b == NEWLINE {
        b
    } else {
        PLACEHOLDER
    }
}

/// Mathematical state of one console sink: the grid, the cursor column on
/// the bottom row, and the color it writes with.
#[verifier::ext_equal]
pub ghost struct ConsoleView {
    pub grid: Seq<Seq<ScreenChar>>,
    pub col: int,
    pub color: ColorCode,
}

impl ConsoleView {
    /// Geometry invariant: exactly `BUFFER_HEIGHT` rows of exactly
    /// `BUFFER_WIDTH` cells, and the cursor never past the width.
    pub open spec fn wf(self) -> bool {
        &&& self.grid.len() == BUFFER_HEIGHT
        &&& forall|r: int| 0 <= r < self.grid.len() ==> (#[trigger] self.grid[r]).len()
            == BUFFER_WIDTH
        &&& 0 <= self.col <= BUFFER_WIDTH
    }

    /// A console whose every cell is blank and whose cursor is at the left
    /// edge.
    pub open spec fn is_blank(self) -> bool {
        &&& self.grid == Seq::new(BUFFER_HEIGHT as nat, |i: int| spec_blank_row())
        &&& self.col == 0
    }

    /// Every row moves up one position, the bottom row is cleared, and the
    /// cursor returns to the left edge.
    pub open spec fn scroll(self) -> ConsoleView {
        ConsoleView {
            grid: self.grid.subrange(1, BUFFER_HEIGHT as int).push(spec_blank_row()),
            col: 0,
            color: self.color,
        }
    }

    /// One visible byte lands at the cursor on the bottom row (after a
    /// scroll if the line is already full) and the cursor advances.
    pub open spec fn put_visible(self, b: u8) -> ConsoleView {
        let v = if self.col >= BUFFER_WIDTH {
            self.scroll()
        } else {
            self
        };
        ConsoleView {
            grid: v.grid.update(
                BUFFER_HEIGHT - 1,
                v.grid[BUFFER_HEIGHT - 1].update(
                    v.col,
                    ScreenChar { glyph: b, attribute: v.color },
                ),
            ),
            col: v.col + 1,
            color: v.color,
        }
    }

    /// What one byte handed to `write_byte` does.
    pub open spec fn put_byte(self, b: u8) -> ConsoleView {
        if b == NEWLINE {
            self.scroll()
        } else {
            self.put_visible(b)
        }
    }

    /// What a byte sequence handed to `write_byte`, byte by byte, does.
    pub open spec fn put_bytes(self, bs: Seq<u8>) -> ConsoleView
        decreases bs.len(),
    {
        if bs.len() == 0 {
            self
        } else {
            self.put_byte(bs[0]).put_bytes(bs.subrange(1, bs.len() as int))
        }
    }

    /// What `write_string` does: every byte is sanitized, then written.
    pub open spec fn render(self, bs: Seq<u8>) -> ConsoleView {
        self.put_bytes(bs.map_values(|b: u8| sanitize(b)))
    }

    /// What `write_byte_at` does on an in-bounds visible byte.
    pub open spec fn put_at(self, b: u8, row: int, col: int) -> ConsoleView {
        ConsoleView {
            grid: self.grid.update(
                row,
                self.grid[row].update(col, ScreenChar { glyph: b, attribute: self.color }),
            ),
            col: self.col,
            color: self.color,
        }
    }
}

/// Law: whatever bytes are written, the console keeps its fixed geometry —
/// the row count never exceeds the fixed height, every row keeps the fixed
/// width, and the cursor never exceeds the width before a wrap is
/// triggered.
pub proof fn lemma_console_geometry(v: ConsoleView, bs: Seq<u8>)
    requires
        v.wf(),
    ensures
        v.put_bytes(bs).wf(),
        v.put_bytes(bs).color == v.color,
    decreases bs.len(),
{
    if bs.len() > 0 {
        lemma_put_byte_wf(v, bs[0]);
        lemma_console_geometry(v.put_byte(bs[0]), bs.subrange(1, bs.len() as int));
    }
}

/// One byte preserves the geometry invariant and the sink's color.
pub proof fn lemma_put_byte_wf(v: ConsoleView, b: u8)
    requires
        v.wf(),
    ensures
        v.put_byte(b).wf(),
        v.put_byte(b).color == v.color,
{
    lemma_scroll_wf(v);
}

pub proof fn lemma_scroll_wf(v: ConsoleView)
    requires
        v.wf(),
    ensures
        v.scroll().wf(),
        v.scroll().color == v.color,
{
}

/// Writing one more byte at the end of a sequence is one more `put_byte`.
pub proof fn lemma_put_bytes_snoc(v: ConsoleView, bs: Seq<u8>, b: u8)
    ensures
        v.put_bytes(bs.push(b)) == v.put_bytes(bs).put_byte(b),
    decreases bs.len(),
{
    if bs.len() == 0 {
        assert(bs.push(b)[0] == b);
        assert(bs.push(b).subrange(1, 1) =~= Seq::<u8>::empty());
        assert(bs =~= Seq::<u8>::empty());
        assert(v.put_bytes(bs.push(b)) == v.put_byte(b).put_bytes(Seq::<u8>::empty()));
    } else {
        assert(bs.push(b)[0] == bs[0]);
        assert(bs.push(b).subrange(1, bs.len() + 1 as int) =~= bs.subrange(
            1,
            bs.len() as int,
        ).push(b));
        lemma_put_bytes_snoc(v.put_byte(bs[0]), bs.subrange(1, bs.len() as int), b);
    }
}

/// From a blank console, up to a full line of printable bytes lands on the
/// bottom row, cell by cell, without any wrap: the cursor counts the bytes,
/// the bytes stand left to right on the bottom row, and every other cell is
/// still blank.
proof fn lemma_fill_bottom_row(v0: ConsoleView, bs: Seq<u8>)
    requires
        v0.wf(),
        v0.is_blank(),
        bs.len() <= BUFFER_WIDTH,
        forall|i: int| 0 <= i < bs.len() ==> is_visible(#[trigger] bs[i]),
    ensures
        v0.put_bytes(bs).wf(),
        v0.put_bytes(bs).col == bs.len(),
        v0.put_bytes(bs).color == v0.color,
        forall|r: int|
            0 <= r < BUFFER_HEIGHT - 1 ==> #[trigger] v0.put_bytes(bs).grid[r]
                == spec_blank_row(),
        forall|i: int|
            0 <= i < bs.len() ==> #[trigger] v0.put_bytes(bs).grid[BUFFER_HEIGHT - 1][i]
                == (ScreenChar { glyph: bs[i], attribute: v0.color }),
        forall|i: int|
            bs.len() <= i < BUFFER_WIDTH ==> #[trigger] v0.put_bytes(bs).grid[BUFFER_HEIGHT - 1][i]
                == blank_cell(),
    decreases bs.len(),
{
    lemma_console_geometry(v0, bs);
    if bs.len() == 0 {
        assert(forall|r: int|
            0 <= r < BUFFER_HEIGHT ==> #[trigger] v0.grid[r] == spec_blank_row());
    } else {
        let prefix = bs.drop_last();
        let b = bs.last();
        lemma_fill_bottom_row(v0, prefix);
        lemma_put_bytes_snoc(v0, prefix, b);
        assert(prefix.push(b) =~= bs);
        let v1 = v0.put_bytes(prefix);
        let v2 = v1.put_byte(b);
        assert(v2.grid == v1.grid.update(
            BUFFER_HEIGHT - 1,
            v1.grid[BUFFER_HEIGHT - 1].update(
                v1.col,
                ScreenChar { glyph: b, attribute: v1.color },
            ),
        ));
        assert(forall|r: int|
            0 <= r < BUFFER_HEIGHT - 1 ==> #[trigger] v2.grid[r] == v1.grid[r]);
    }
}

/// Law: from a blank console, writing exactly `BUFFER_WIDTH + 1` printable
/// bytes produces exactly one wrap, and all `BUFFER_WIDTH + 1` bytes remain
/// present, split across the two bottom rows: the first `BUFFER_WIDTH`
/// stand on the next-to-bottom row, the last byte opens the bottom row with
/// the cursor right after it, and every other cell is still blank.
pub proof fn lemma_wrap_after_full_line(v0: ConsoleView, bs: Seq<u8>)
    requires
        v0.wf(),
        v0.is_blank(),
        bs.len() == BUFFER_WIDTH + 1,
        forall|i: int| 0 <= i < bs.len() ==> is_visible(#[trigger] bs[i]),
    ensures
        v0.render(bs) == v0.put_bytes(bs),
        v0.put_bytes(bs).wf(),
        v0.put_bytes(bs).col == 1,
        forall|i: int|
            0 <= i < BUFFER_WIDTH ==> #[trigger] v0.put_bytes(bs).grid[BUFFER_HEIGHT - 2][i]
                == (ScreenChar { glyph: bs[i], attribute: v0.color }),
        v0.put_bytes(bs).grid[BUFFER_HEIGHT - 1][0] == (ScreenChar {
            glyph: bs[BUFFER_WIDTH as int],
            attribute: v0.color,
        }),
        forall|r: int|
            0 <= r < BUFFER_HEIGHT - 2 ==> #[trigger] v0.put_bytes(bs).grid[r]
                == spec_blank_row(),
        forall|c: int|
            1 <= c < BUFFER_WIDTH ==> #[trigger] v0.put_bytes(bs).grid[BUFFER_HEIGHT - 1][c]
                == blank_cell(),
{
    assert(bs.map_values(|x: u8| sanitize(x)) =~= bs);
    let first = bs.take(BUFFER_WIDTH as int);
    let b = bs[BUFFER_WIDTH as int];
    lemma_fill_bottom_row(v0, first);
    lemma_put_bytes_snoc(v0, first, b);
    assert(first.push(b) =~= bs);
    let v1 = v0.put_bytes(first);
    let s = v1.scroll();
    let v2 = v1.put_byte(b);
    assert(forall|r: int| 0 <= r < BUFFER_HEIGHT - 1 ==> #[trigger] s.grid[r] == v1.grid[r + 1]);
    assert(v2.grid == s.grid.update(
        BUFFER_HEIGHT - 1,
        s.grid[BUFFER_HEIGHT - 1].update(0, ScreenChar { glyph: b, attribute: v1.color }),
    ));
    assert(forall|i: int|
        0 <= i < BUFFER_WIDTH ==> #[trigger] v2.grid[BUFFER_HEIGHT - 2][i] == (ScreenChar {
            glyph: first[i],
            attribute: v0.color,
        }));
    assert(forall|i: int| 0 <= i < BUFFER_WIDTH ==> first[i] == bs[i]);
}

/// One console sink. The writer owns its grid of plain cells; the real
/// memory-mapped device is written from it outside the library.
pub struct Writer {
    pub column_pos: usize,
    pub color: ColorCode,
    pub grid: Vec<Vec<ScreenChar>>,
}

impl View for Writer {
    type V = ConsoleView;

    open spec fn view(&self) -> ConsoleView {
        ConsoleView {
            grid: Seq::new(self.grid@.len(), |r: int| self.grid@[r]@),
            col: self.column_pos as int,
            color: self.color,
        }
    }
}

fn blank_row() -> (r: Vec<ScreenChar>)
    ensures
        r@ =~= spec_blank_row(),
{
    let mut row: Vec<ScreenChar> = Vec::new();
    while row.len() < BUFFER_WIDTH
        invariant
            row@.len() <= BUFFER_WIDTH,
            forall|i: int| 0 <= i < row@.len() ==> row@[i] == blank_cell(),
        decreases BUFFER_WIDTH - row.len(),
    {
        row.push(ScreenChar { glyph: BLANK, attribute: ColorCode(0) });
    }
    row
}

impl Writer {
    /// A fresh sink: blank grid, cursor at the left edge, writing with the
    /// given color.
    pub fn new(color: ColorCode) -> (r: Writer)
        ensures
            r@.wf(),
            r@.is_blank(),
            r@.color == color,
    {
        let mut grid: Vec<Vec<ScreenChar>> = Vec::new();
        while grid.len() < BUFFER_HEIGHT
            invariant
                grid@.len() <= BUFFER_HEIGHT,
                forall|r: int| 0 <= r < grid@.len() ==> (#[trigger] grid@[r])@ =~= spec_blank_row(),
            decreases BUFFER_HEIGHT - grid.len(),
        {
            grid.push(blank_row());
        }
        let w = Writer { column_pos: 0, color, grid };
        proof {
            assert(w@.grid =~~= Seq::new(BUFFER_HEIGHT as nat, |i: int| spec_blank_row()));
        }
        w
    }

    /// Scrolls: every row moves up one position and the bottom row is
    /// cleared.
    fn new_line(&mut self)
        requires
            old(self)@.wf(),
        ensures
            final(self)@ == old(self)@.scroll(),
            final(self)@.wf(),
    {
        let _dropped = self.grid.remove(0);
        let row = blank_row();
        self.grid.push(row);
        self.column_pos = 0;
        proof {
            assert(self@.grid =~~= old(self)@.scroll().grid);
            assert(self@ =~= old(self)@.scroll());
            lemma_scroll_wf(old(self)@);
        }
    }

    /// Clears one row to blank cells.
    pub fn clear_row(&mut self, row: usize)
        requires
            old(self)@.wf(),
            row < BUFFER_HEIGHT,
        ensures
            final(self)@.wf(),
            final(self)@.grid =~~= old(self)@.grid.update(row as int, spec_blank_row()),
            final(self)@.col == old(self)@.col,
            final(self)@.color == old(self)@.color,
    {
        let blank = blank_row();
        proof {
            assert(self.grid@.len() == BUFFER_HEIGHT) by {
                assert(self@.grid.len() == BUFFER_HEIGHT);
            };
        }
        self.grid[row] = blank;
        proof {
            assert(self@.grid =~~= old(self)@.grid.update(row as int, spec_blank_row()));
        }
    }

    /// Writes one byte at the cursor: a newline scrolls; anything else
    /// lands on the bottom row (wrapping first if the line is full) and
    /// advances the cursor.
    pub fn write_byte(&mut self, byte: u8)
        requires
            old(self)@.wf(),
        ensures
            final(self)@ == old(self)@.put_byte(byte),
            final(self)@.wf(),
    {
        proof {
            lemma_put_byte_wf(old(self)@, byte);
        }
        if byte == NEWLINE {
            self.new_line();
        } else {
            if self.column_pos >= BUFFER_WIDTH {
                self.new_line();
            }
            let ghost mid = self@;
            let row = BUFFER_HEIGHT - 1;
            let col = self.column_pos;
            let cell = ScreenChar { glyph: byte, attribute: self.color };
            proof {
                assert(self.grid@.len() == BUFFER_HEIGHT) by {
                    assert(self@.grid.len() == BUFFER_HEIGHT);
                };
                assert(self.grid@[row as int]@.len() == BUFFER_WIDTH) by {
                    assert(self@.grid[row as int].len() == BUFFER_WIDTH);
                };
            }
            self.grid[row][col] = cell;
            self.column_pos = col + 1;
            proof {
                assert(self@.grid =~~= mid.grid.update(
                    BUFFER_HEIGHT - 1,
                    mid.grid[BUFFER_HEIGHT - 1].update(mid.col, cell),
                ));
                assert(self@ =~= old(self)@.put_byte(byte));
            }
        }
    }

    /// Writes a string byte by byte, substituting the placeholder glyph
    /// for every byte outside the printable range.
    pub fn write_string(&mut self, s: &str)
        requires
            old(self)@.wf(),
        ensures
            final(self)@ == old(self)@.render(s.spec_bytes()),
            final(self)@.wf(),
    {
        let ghost orig = self@;
        let bytes = s.as_bytes();
        let ghost cleaned = bytes@.map_values(|b: u8| sanitize(b));
        let n = bytes.len();
        let mut i: usize = 0;
        while i < n
            invariant
                orig.wf(),
                n == bytes@.len(),
                i <= n,
                cleaned == bytes@.map_values(|b: u8| sanitize(b)),
                self@ == orig.put_bytes(cleaned.take(i as int)),
                self@.wf(),
            decreases n - i,
        {
            let b = bytes[i];
            proof {
                assert(cleaned.take(i + 1) =~= cleaned.take(i as int).push(sanitize(b)));
                lemma_put_bytes_snoc(orig, cleaned.take(i as int), sanitize(b));
            }
            if (0x20 <= b && b <= 0x7e) || b == NEWLINE {
                self.write_byte(b);
            } else {
                self.write_byte(PLACEHOLDER);
            }
            i = i + 1;
        }
        proof {
            assert(cleaned.take(n as int) =~= cleaned);
        }
    }

    /// Bounds-checked direct write. A newline still scrolls (as at the
    /// cursor); any other byte lands exactly at `(row, col)` with the
    /// sink's color, without moving the cursor. Out-of-bounds coordinates
    /// are rejected and change nothing.
    pub fn write_byte_at(&mut self, byte: u8, row: usize, col: usize) -> (r: Result<
        (),
        &'static str,
    >)
        requires
            old(self)@.wf(),
        ensures
            final(self)@.wf(),
            r is Ok <==> row < BUFFER_HEIGHT && col < BUFFER_WIDTH,
            r is Err ==> final(self)@ == old(self)@,
            r is Ok ==> final(self)@ == (if byte == NEWLINE {
                old(self)@.scroll()
            } else {
                old(self)@.put_at(byte, row as int, col as int)
            }),
    {
        if row >= BUFFER_HEIGHT || col >= BUFFER_WIDTH {
            return Err("Indexes out of bounds");
        }
        if byte == NEWLINE {
            self.new_line();
        } else {
            let cell = ScreenChar { glyph: byte, attribute: self.color };
            proof {
                assert(self.grid@.len() == BUFFER_HEIGHT) by {
                    assert(self@.grid.len() == BUFFER_HEIGHT);
                };
                assert(self.grid@[row as int]@.len() == BUFFER_WIDTH) by {
                    assert(self@.grid[row as int].len() == BUFFER_WIDTH);
                };
            }
            self.grid[row][col] = cell;
            proof {
                assert(self@.grid =~~= old(self)@.put_at(byte, row as int, col as int).grid);
                assert(self@ =~= old(self)@.put_at(byte, row as int, col as int));
            }
        }
        proof {
            lemma_scroll_wf(old(self)@);
        }
        Ok(())
    }

    /// The printable bytes of one row, left to right; out-of-bounds rows
    /// are rejected.
    pub fn get_row_bytes(&self, row: usize) -> (r: Result<Vec<u8>, &'static str>)
        requires
            self@.wf(),
        ensures
            r is Ok <==> row < BUFFER_HEIGHT,
            r matches Ok(v) ==> v@ =~= self@.grid[row as int].map_values(|c: ScreenChar| c.glyph),
    {
        if row >= BUFFER_HEIGHT {
            return Err("Row out of bounds");
        }
        let mut out: Vec<u8> = Vec::new();
        let mut i: usize = 0;
        while i < BUFFER_WIDTH
            invariant
                self@.wf(),
                row < BUFFER_HEIGHT,
                i <= BUFFER_WIDTH,
                out@.len() == i,
                forall|j: int| 0 <= j < i ==> out@[j] == self@.grid[row as int][j].glyph,
            decreases BUFFER_WIDTH - i,
        {
            proof {
                assert(self.grid@.len() == BUFFER_HEIGHT) by {
                    assert(self@.grid.len() == BUFFER_HEIGHT);
                };
                assert(self.grid@[row as int]@.len() == BUFFER_WIDTH) by {
                    assert(self@.grid[row as int].len() == BUFFER_WIDTH);
                };
            }
            let b = self.grid[row][i].glyph;
            out.push(b);
            i = i + 1;
        }
        Ok(out)
    }
}

} // verus!
