//! Canonical two-column rendering of binary data: an offset, sixteen bytes per
//! line as hexadecimal pairs in two groups of eight, and a text gutter.

use vstd::prelude::*;

verus! {

/// Bytes shown on one line.
pub const BYTES_PER_LINE: usize = 16;

/// The least number of digits an offset is written with.
pub const OFFSET_WIDTH: usize = 8;

/// The lower-case hexadecimal digit for a value below sixteen.
pub open spec fn hex_digit(n: u8) -> char {
    if n < 10 {
        (48 + n) as u8 as char
    } else {
        (87 + n) as u8 as char
    }
}

/// The `width` least significant hexadecimal digits of `n`, most significant first.
pub open spec fn hex_fixed(n: nat, width: nat) -> Seq<char>
    decreases width,
{
    if width == 0 {
        Seq::empty()
    } else {
        hex_fixed(n / 16, (width - 1) as nat).push(hex_digit((n % 16) as u8))
    }
}

/// How many hexadecimal digits `n` needs.
pub open spec fn hex_width(n: nat) -> nat
    decreases n,
{
    if n < 16 {
        1
    } else {
        1 + hex_width(n / 16)
    }
}

/// An offset as it starts a line: hexadecimal, padded with zeros to eight
/// digits, longer where the offset needs more.
pub open spec fn offset_text(offset: nat) -> Seq<char> {
    if hex_width(offset) <= OFFSET_WIDTH {
        hex_fixed(offset, OFFSET_WIDTH as nat)
    } else {
        hex_fixed(offset, hex_width(offset))
    }
}

/// A byte is shown as itself in the gutter when it is an ASCII letter or digit.
pub open spec fn is_alphanumeric(b: u8) -> bool {
    ||| 0x30 <= b <= 0x39
    ||| 0x41 <= b <= 0x5a
    ||| 0x61 <= b <= 0x7a
}

/// ... or an ASCII punctuation mark.
pub open spec fn is_punctuation(b: u8) -> bool {
    ||| 0x21 <= b <= 0x2f
    ||| 0x3a <= b <= 0x40
    ||| 0x5b <= b <= 0x60
    ||| 0x7b <= b <= 0x7e
}

/// What the gutter shows for a byte: the byte as a character, or a full stop
/// for anything that is neither a letter, a digit nor punctuation (a space too).
pub open spec fn gutter_char(b: u8) -> char {
    if is_alphanumeric(b) || is_punctuation(b) {
        b as char
    } else {
        '.'
    }
}

/// Column `i` of the hexadecimal part: the byte's two digits and a space, or
/// three spaces past the end of the chunk; one more space closes the first
/// group of eight.
pub open spec fn hex_cell(chunk: Seq<u8>, i: int) -> Seq<char> {
    let cell = if 0 <= i < chunk.len() {
        seq![hex_digit(chunk[i] / 16), hex_digit(chunk[i] % 16), ' ']
    } else {
        seq![' ', ' ', ' ']
    };
    if i == 7 {
        cell.push(' ')
    } else {
        cell
    }
}

/// The first `n` columns of the hexadecimal part.
pub open spec fn hex_columns(chunk: Seq<u8>, n: nat) -> Seq<char>
    decreases n,
{
    if n == 0 {
        Seq::empty()
    } else {
        hex_columns(chunk, (n - 1) as nat) + hex_cell(chunk, n - 1)
    }
}

/// The gutter for a chunk: one character for each byte.
pub open spec fn gutter(chunk: Seq<u8>) -> Seq<char> {
    Seq::new(chunk.len(), |i: int| gutter_char(chunk[i]))
}

/// One line: offset, two spaces, sixteen columns, and the gutter between bars.
pub open spec fn dump_line(offset: nat, chunk: Seq<u8>) -> Seq<char> {
    offset_text(offset) + seq![' ', ' '] + hex_columns(chunk, BYTES_PER_LINE as nat) + seq![
        ' ',
        '|',
    ] + gutter(chunk) + seq!['|']
}

/// How many lines the data takes.
pub open spec fn line_count(data: Seq<u8>) -> nat {
    ((data.len() + BYTES_PER_LINE - 1) / (BYTES_PER_LINE as int)) as nat
}

/// The bytes of line `k`: sixteen, or what is left on the last line.
pub open spec fn chunk_at(data: Seq<u8>, k: nat) -> Seq<u8> {
    let start = k * BYTES_PER_LINE;
    let end = if start + BYTES_PER_LINE <= data.len() {
        start + BYTES_PER_LINE
    } else {
        data.len() as int
    };
    data.subrange(start, end)
}

/// The first `n` lines of the dump, separated by line feeds.
pub open spec fn dump_lines(data: Seq<u8>, n: nat) -> Seq<char>
    decreases n,
{
    if n == 0 {
        Seq::empty()
    } else if n == 1 {
        dump_line(0, chunk_at(data, 0))
    } else {
        dump_lines(data, (n - 1) as nat) + seq!['\n'] + dump_line(
            ((n - 1) * BYTES_PER_LINE) as nat,
            chunk_at(data, (n - 1) as nat),
        )
    }
}

/// The whole dump. Empty data gives the empty text; the last line has no line
/// feed after it.
pub open spec fn hexdump_text(data: Seq<u8>) -> Seq<char> {
    dump_lines(data, line_count(data))
}

fn hex_digit_of(n: u8) -> (c: char)
    requires
        n < 16,
    ensures
        c == hex_digit(n),
{
    if n < 10 {
        (48 + n) as char
    } else {
        (87 + n) as char
    }
}

fn hex_width_of(n: usize) -> (w: usize)
    ensures
        w == hex_width(n as nat),
    decreases n,
{
    if n < 16 {
        1
    } else {
        let w = hex_width_of(n / 16);
        proof {
            lemma_hex_width_small((n / 16) as nat);
        }
        w + 1
    }
}

/// A number never needs more digits than its value plus one.
proof fn lemma_hex_width_small(n: nat)
    ensures
        hex_width(n) <= n + 1,
    decreases n,
{
    if n >= 16 {
        lemma_hex_width_small(n / 16);
    }
}

fn push_hex_fixed(out: &mut String, n: usize, width: usize)
    ensures
        final(out)@ == old(out)@ + hex_fixed(n as nat, width as nat),
    decreases width,
{
    if width > 0 {
        push_hex_fixed(out, n / 16, width - 1);
        out.push(hex_digit_of((n % 16) as u8));
        assert(out@ == old(out)@ + hex_fixed(n as nat, width as nat));
    } else {
        assert(out@ == old(out)@ + hex_fixed(n as nat, width as nat));
    }
}

fn push_offset(out: &mut String, offset: usize)
    ensures
        final(out)@ == old(out)@ + offset_text(offset as nat),
{
    let w = hex_width_of(offset);
    if w <= OFFSET_WIDTH {
        push_hex_fixed(out, offset, OFFSET_WIDTH);
    } else {
        push_hex_fixed(out, offset, w);
    }
}

fn gutter_char_of(b: u8) -> (c: char)
    ensures
        c == gutter_char(b),
{
    let alphanumeric = (0x30 <= b && b <= 0x39) || (0x41 <= b && b <= 0x5a) || (0x61 <= b && b
        <= 0x7a);
    let punctuation = (0x21 <= b && b <= 0x2f) || (0x3a <= b && b <= 0x40) || (0x5b <= b && b
        <= 0x60) || (0x7b <= b && b <= 0x7e);
    if alphanumeric || punctuation {
        b as char
    } else {
        '.'
    }
}

fn push_line(out: &mut String, offset: usize, chunk: &[u8])
    requires
        chunk@.len() <= BYTES_PER_LINE,
    ensures
        final(out)@ == old(out)@ + dump_line(offset as nat, chunk@),
{
    push_offset(out, offset);
    out.push(' ');
    out.push(' ');
    let ghost head = out@;
    let mut column: usize = 0;
    while column < BYTES_PER_LINE
        invariant
            column <= BYTES_PER_LINE,
            chunk@.len() <= BYTES_PER_LINE,
            out@ == head + hex_columns(chunk@, column as nat),
        decreases BYTES_PER_LINE - column,
    {
        let ghost before = out@;
        if column < chunk.len() {
            let b: u8 = chunk[column];
            out.push(hex_digit_of(b / 16));
            out.push(hex_digit_of(b % 16));
            out.push(' ');
        } else {
            out.push(' ');
            out.push(' ');
            out.push(' ');
        }
        if column == 7 {
            out.push(' ');
        }
        assert(out@ == before + hex_cell(chunk@, column as int));
        column += 1;
    }
    out.push(' ');
    out.push('|');
    let ghost body = out@;
    let mut i: usize = 0;
    while i < chunk.len()
        invariant
            i <= chunk@.len(),
            out@ == body + gutter(chunk@).take(i as int),
        decreases chunk@.len() - i,
    {
        out.push(gutter_char_of(chunk[i]));
        assert(gutter(chunk@).take(i + 1) == gutter(chunk@).take(i as int).push(
            gutter_char(chunk@[i as int]),
        ));
        i += 1;
    }
    assert(gutter(chunk@).take(i as int) == gutter(chunk@));
    out.push('|');
    assert(out@ == old(out)@ + dump_line(offset as nat, chunk@));
}

/// Renders `data` as the canonical dump.
pub fn hexdump(data: &[u8]) -> (out: String)
    ensures
        out@ == hexdump_text(data@),
{
    let mut out = String::new();
    let mut start: usize = 0;
    let ghost mut lines: nat = 0;
    while start < data.len()
        invariant
            start <= data@.len(),
            start == lines * BYTES_PER_LINE || start == data@.len(),
            start == data@.len() ==> lines == line_count(data@),
            lines <= line_count(data@),
            out@ == dump_lines(data@, lines),
        decreases data@.len() - start,
    {
        let end = if data.len() - start >= BYTES_PER_LINE {
            start + BYTES_PER_LINE
        } else {
            data.len()
        };
        let chunk = vstd::slice::slice_subrange(data, start, end);
        assert(start == lines * BYTES_PER_LINE);
        assert(chunk@ == chunk_at(data@, lines));
        if start != 0 {
            out.push('\n');
        }
        push_line(&mut out, start, chunk);
        proof {
            lines = lines + 1;
        }
        start = end;
    }
    out
}

} // verus!
