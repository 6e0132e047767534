use vstd::prelude::*;
use crate::cpu::cpu::is_power_on;
use crate::emulator::{
    Emulator,
    EmulatorState,
    wf,
    read_ok,
    bus_value,
    after_read,
    hex_digits,
    lower_hex,
    run_checked,
    run,
    run_safe,
    lemma_run_checked,
    cycle,
    cycle_safe,
    CYCLES_PER_FRAME,
};

verus! {

/// The width of the pattern-table image in pixels: two 128-pixel tables side by side.
pub const PATTERN_TABLE_WIDTH: usize = 256;

/// The height of the pattern-table image in pixels.
pub const PATTERN_TABLE_HEIGHT: usize = 128;

/// The bytes of pattern data that the image shows: two tables of 4 KiB.
pub const PATTERN_DATA_LEN: usize = 8192;

/// The length of the RGB pattern-table image.
pub const PATTERN_TABLE_LEN: usize = 98304;

/// The state of the front end: the emulator, the text fields and switches of
/// the window, and the rendered pattern tables.
pub struct UiApp {
    pub emulator: Emulator,
    pub memory_inspect_target: String,
    pub memory_inspect_value: String,
    pub rom_filepath: String,
    pub tracelogger_text: String,
    pub tracelogger_view: bool,
    pub pattern_table_view: bool,
    pub pattern_table: Vec<u8>,
}

/// Bit `k` of `b`, as 0 or 1.
pub open spec fn bit_of(b: u8, k: int) -> int {
    if (b >> (k as u8)) & 1 == 1 {
        1
    } else {
        0
    }
}

/// The grey level of pixel (`px`, `py`) of the pattern-table image drawn from
/// `chr`: tile (`column`, `row`) of table `px / 128` is 16 bytes, eight rows of
/// low bit planes then eight of high ones; a pixel's two bits, leftmost pixel
/// in bit 7, give a shade of 0, 85 or 170 (both bits set counts two).
pub open spec fn pixel_shade(chr: Seq<u8>, px: int, py: int) -> u8 {
    let table = px / 128;
    let column = (px % 128) / 8;
    let x = px % 8;
    let row = py / 8;
    let y = py % 8;
    let base = table * 4096 + row * 256 + column * 16 + y;
    ((bit_of(chr[base], 7 - x) + bit_of(chr[base + 8], 7 - x)) * 85) as u8
}

/// The RGB image of both pattern tables in `chr`: 256 by 128 pixels, row by
/// row, three equal bytes per pixel.
pub open spec fn pattern_table_image(chr: Seq<u8>) -> Seq<u8> {
    Seq::new(
        PATTERN_TABLE_LEN as nat,
        |i: int| pixel_shade(chr, (i / 3) % 256, (i / 3) / 256),
    )
}

/// Whether `c` is a decimal digit.
pub open spec fn is_decimal_digit(c: char) -> bool {
    '0' <= c && c <= '9'
}

/// The value of the decimal digits `d`.
pub open spec fn digits_value(d: Seq<char>) -> nat
    decreases d.len(),
{
    if d.len() == 0 {
        0
    } else {
        digits_value(d.drop_last()) * 10 + ((d.last() as int - 48) as nat)
    }
}

/// The number that `s` spells for `u16`'s `FromStr`: an optional `+` followed
/// by one or more decimal digits whose value fits in 16 bits; `None` for
/// anything else.
pub open spec fn decimal_u16(s: Seq<char>) -> Option<u16> {
    let d = if s.len() > 0 && s[0] == '+' {
        s.drop_first()
    } else {
        s
    };
    if d.len() > 0 && (forall|i: int| 0 <= i < d.len() ==> is_decimal_digit(#[trigger] d[i]))
        && digits_value(d) <= 0xFFFF {
        Some(digits_value(d) as u16)
    } else {
        None
    }
}

/// Parses `text` as a `u16` with std's `str::parse`.
///
/// Trusted: claims that `u16`'s `FromStr` accepts exactly an optional `+` and
/// one or more decimal digits whose value fits in 16 bits (no whitespace, no
/// sign `-`, no underscores), as its documentation states.
#[verifier::external_body]
fn parse_u16(text: &str) -> (r: Option<u16>)
    ensures
        r == decimal_u16(text@),
{
    text.parse::<u16>().ok()
}

/// Pixel (`px`, `py`) of the image is bytes `3 * (px + 256 * py)` to
/// `3 * (px + 256 * py) + 2`: the image runs row by row, 256 pixels to a row.
pub proof fn lemma_pattern_image_layout(chr: Seq<u8>, px: int, py: int, k: int)
    requires
        0 <= px < 256,
        0 <= py < 128,
        0 <= k < 3,
    ensures
        pattern_table_image(chr)[3 * (px + 256 * py) + k] == pixel_shade(chr, px, py),
{
    let i = 3 * (px + 256 * py) + k;
    assert(i / 3 == px + 256 * py) by (nonlinear_arith)
        requires
            i == 3 * (px + 256 * py) + k,
            0 <= k < 3,
            0 <= px,
            0 <= py,
    ;
    assert((px + 256 * py) % 256 == px && (px + 256 * py) / 256 == py) by (nonlinear_arith)
        requires
            0 <= px < 256,
            0 <= py,
    ;
}

/// The top-left tile of the first table is drawn from the first 16 bytes:
/// pixel (`x`, `y`) takes bit 7 - `x` of byte `y` (the low plane) and of byte
/// `y + 8` (the high plane), and is 85 times the number of those bits set.
pub proof fn lemma_first_tile(chr: Seq<u8>, x: int, y: int)
    requires
        0 <= x < 8,
        0 <= y < 8,
        chr.len() >= PATTERN_DATA_LEN,
    ensures
        pixel_shade(chr, x, y) == 85 * ((if (chr[y] >> ((7 - x) as u8)) & 1 == 1 { 1int } else {
            0int
        }) + (if (chr[y + 8] >> ((7 - x) as u8)) & 1 == 1 { 1int } else { 0int })),
{
}

/// Tiles stand 16 bytes apart along a row of tiles: the tile one step right is
/// drawn, in the same way, from the data 16 bytes further on.
pub proof fn lemma_tile_step_right(chr: Seq<u8>, px: int, py: int)
    requires
        0 <= px < 120,
        0 <= py < 128,
        chr.len() >= PATTERN_DATA_LEN,
    ensures
        pixel_shade(chr, px + 8, py) == pixel_shade(chr.subrange(16, chr.len() as int), px, py),
{
    assert((px + 8) % 128 == px + 8 && (px + 8) / 128 == 0 && px / 128 == 0 && px % 128 == px);
    assert((px + 8) / 8 == px / 8 + 1 && (px + 8) % 8 == px % 8);
}

/// Rows of tiles stand 256 bytes apart: the tile one step down is drawn, in the
/// same way, from the data 256 bytes further on.
pub proof fn lemma_tile_step_down(chr: Seq<u8>, px: int, py: int)
    requires
        0 <= px < 128,
        0 <= py < 120,
        chr.len() >= PATTERN_DATA_LEN,
    ensures
        pixel_shade(chr, px, py + 8) == pixel_shade(chr.subrange(256, chr.len() as int), px, py),
{
    assert((py + 8) / 8 == py / 8 + 1 && (py + 8) % 8 == py % 8);
}

/// Both tables are drawn alike: the second table, in the right half of the
/// image, is drawn from the second 4 KiB exactly as the first table, in the
/// left half, is drawn from the first.
pub proof fn lemma_second_table_like_first(chr: Seq<u8>, px: int, py: int)
    requires
        0 <= px < 128,
        0 <= py < 128,
        chr.len() >= PATTERN_DATA_LEN,
    ensures
        pixel_shade(chr, px + 128, py) == pixel_shade(chr.subrange(4096, chr.len() as int), px, py),
{
    assert((px + 128) % 128 == px && (px + 128) / 128 == 1 && px / 128 == 0 && px % 128 == px);
    assert((px + 128) % 8 == px % 8);
}

/// The pattern-table image is grey: the three bytes of a pixel are equal, and
/// each is one of the four shades 0, 85 and 170 that two bit planes give (both
/// bits set counting two).
pub proof fn lemma_pattern_image_is_grey(chr: Seq<u8>, i: int, j: int)
    requires
        0 <= i < PATTERN_TABLE_LEN,
        0 <= j < PATTERN_TABLE_LEN,
        i / 3 == j / 3,
    ensures
        pattern_table_image(chr)[i] == pattern_table_image(chr)[j],
        pattern_table_image(chr)[i] == 0 || pattern_table_image(chr)[i] == 85
            || pattern_table_image(chr)[i] == 170,
{
}

impl Default for UiApp {
    fn default() -> (r: UiApp)
        ensures
            wf(r.emulator@),
            is_power_on(r.emulator@.cpu),
            forall|i: int| 0 <= i < 0x800 ==> r.emulator@.ram[i] == 0,
            r.emulator@.rom == Seq::<u8>::empty(),
            r.emulator@.mdr == 0,
            r.emulator@.last_text == Seq::<char>::empty(),
            r.emulator@.chrdata == Seq::<u8>::empty(),
            r.memory_inspect_target@ == Seq::<char>::empty(),
            r.memory_inspect_value@ == Seq::<char>::empty(),
            r.rom_filepath@ == Seq::<char>::empty(),
            r.tracelogger_text@ == Seq::<char>::empty(),
            !r.tracelogger_view,
            !r.pattern_table_view,
            r.pattern_table@ == Seq::<u8>::empty(),
    {
        UiApp {
            emulator: Emulator::default(),
            memory_inspect_target: String::new(),
            memory_inspect_value: String::new(),
            rom_filepath: String::new(),
            tracelogger_text: String::new(),
            tracelogger_view: false,
            pattern_table_view: false,
            pattern_table: Vec::with_capacity(PATTERN_TABLE_LEN),
        }
    }
}

/// The grey level of pixel (`px`, `py`) of the pattern-table image of `chr`.
fn shade_at(chr: &Vec<u8>, px: usize, py: usize) -> (r: u8)
    requires
        chr@.len() >= PATTERN_DATA_LEN,
        px < PATTERN_TABLE_WIDTH,
        py < PATTERN_TABLE_HEIGHT,
    ensures
        r == pixel_shade(chr@, px as int, py as int),
{
    let table = px / 128;
    let column = (px % 128) / 8;
    let x = px % 8;
    let row = py / 8;
    let y = py % 8;
    assert(table <= 1 && column <= 15 && x <= 7 && row <= 15 && y <= 7);
    let base = y + column * 16 + row * 256 + table * 4096;
    assert(base + 8 < PATTERN_DATA_LEN);
    let shift = (7 - x) as u8;
    let low_bit = bit_at(chr[base], shift);
    let high_bit = bit_at(chr[8 + base], shift);
    (low_bit + high_bit) * 85
}

/// Bit `k` of `b`, as 0 or 1.
fn bit_at(b: u8, k: u8) -> (r: u8)
    requires
        k < 8,
    ensures
        r == bit_of(b, k as int),
{
    if ((b >> k) & 1) == 1 {
        1
    } else {
        0
    }
}

/// The RGB image of both pattern tables in `chr`.
fn render_pattern_tables(chr: &Vec<u8>) -> (image: Vec<u8>)
    requires
        chr@.len() >= PATTERN_DATA_LEN,
    ensures
        image@ == pattern_table_image(chr@),
{
    let mut image: Vec<u8> = Vec::with_capacity(PATTERN_TABLE_LEN);
    let mut p: usize = 0;
    while p < PATTERN_TABLE_WIDTH * PATTERN_TABLE_HEIGHT
        invariant
            chr@.len() >= PATTERN_DATA_LEN,
            p <= PATTERN_TABLE_WIDTH * PATTERN_TABLE_HEIGHT,
            image@.len() == 3 * p,
            forall|j: int|
                0 <= j < 3 * p ==> image@[j] == #[trigger] pixel_shade(
                    chr@,
                    (j / 3) % 256,
                    (j / 3) / 256,
                ),
        decreases PATTERN_TABLE_WIDTH * PATTERN_TABLE_HEIGHT - p,
    {
        let shade = shade_at(chr, p % PATTERN_TABLE_WIDTH, p / PATTERN_TABLE_WIDTH);
        proof {
            assert((3 * p) / 3 == p && (3 * p + 1) / 3 == p && (3 * p + 2) / 3 == p)
                by (nonlinear_arith)
                requires
                    p >= 0,
            ;
        }
        image.push(shade);
        image.push(shade);
        image.push(shade);
        p = p + 1;
    }
    image
}

impl UiApp {
    /// Renders the emulator's pattern data into `pattern_table`.
    pub fn load_pattern_table(&mut self)
        requires
            old(self).emulator@.chrdata.len() >= PATTERN_DATA_LEN,
        ensures
            final(self).pattern_table@ == pattern_table_image(old(self).emulator@.chrdata),
            final(self).emulator@ == old(self).emulator@,
            final(self).memory_inspect_target@ == old(self).memory_inspect_target@,
            final(self).memory_inspect_value@ == old(self).memory_inspect_value@,
            final(self).rom_filepath@ == old(self).rom_filepath@,
            final(self).tracelogger_text@ == old(self).tracelogger_text@,
            final(self).tracelogger_view == old(self).tracelogger_view,
            final(self).pattern_table_view == old(self).pattern_table_view,
    {
        let image = render_pattern_tables(self.emulator.chr());
        self.pattern_table = image;
    }

    /// Advances the emulation for one repaint: a whole frame, or a single
    /// cycle while the trace logger is shown. Stops before a cycle that is not
    /// safe and then returns false.
    pub fn advance(&mut self) -> (ok: bool)
        requires
            wf(old(self).emulator@),
        ensures
            wf(final(self).emulator@),
            !old(self).tracelogger_view ==> (final(self).emulator@, ok) == run_checked(
                old(self).emulator@,
                CYCLES_PER_FRAME as nat,
            ),
            old(self).tracelogger_view ==> ok == cycle_safe(old(self).emulator@) && (ok
                ==> final(self).emulator@ == cycle(old(self).emulator@)) && (!ok
                ==> final(self).emulator@ == old(self).emulator@),
            !old(self).tracelogger_view && run_safe(old(self).emulator@, CYCLES_PER_FRAME as nat)
                ==> ok && final(self).emulator@ == run(
                old(self).emulator@,
                CYCLES_PER_FRAME as nat,
            ),
            final(self).memory_inspect_target@ == old(self).memory_inspect_target@,
            final(self).memory_inspect_value@ == old(self).memory_inspect_value@,
            final(self).rom_filepath@ == old(self).rom_filepath@,
            final(self).tracelogger_text@ == old(self).tracelogger_text@,
            final(self).tracelogger_view == old(self).tracelogger_view,
            final(self).pattern_table_view == old(self).pattern_table_view,
            final(self).pattern_table@ == old(self).pattern_table@,
    {
        proof {
            lemma_run_checked(self.emulator@, CYCLES_PER_FRAME as nat);
        }
        if !self.tracelogger_view {
            self.emulator.run_frame_checked()
        } else {
            self.emulator.master_cycle_checked()
        }
    }

    /// Reads the memory address typed into `memory_inspect_target` and shows
    /// its value in hexadecimal in `memory_inspect_value`, or "Invalid number"
    /// when the text is no 16-bit decimal number. Returns false, changing
    /// nothing, when the address lies past the cartridge ROM.
    pub fn probe_memory(&mut self) -> (ok: bool)
        requires
            wf(old(self).emulator@),
        ensures
            wf(final(self).emulator@),
            match decimal_u16(old(self).memory_inspect_target@) {
                None => ok && final(self).memory_inspect_value@ == "Invalid number"@
                    && final(self).emulator@ == old(self).emulator@,
                Some(address) => ok == read_ok(old(self).emulator@, address) && (ok
                    ==> final(self).memory_inspect_value@ == hex_digits(
                    bus_value(old(self).emulator@, address) as nat,
                ) && final(self).emulator@ == after_read(old(self).emulator@, address)) && (!ok
                    ==> final(self).memory_inspect_value@ == old(self).memory_inspect_value@
                    && final(self).emulator@ == old(self).emulator@),
            },
            final(self).memory_inspect_target@ == old(self).memory_inspect_target@,
    {
        match parse_u16(self.memory_inspect_target.as_str()) {
            Some(num) => {
                if !self.emulator.readable(num) {
                    return false;
                }
                let value = self.emulator.mem_read(num);
                self.memory_inspect_value = lower_hex(value as u16);
                true
            },
            None => {
                self.memory_inspect_value = "Invalid number".to_owned();
                true
            },
        }
    }
}

} // verus!
