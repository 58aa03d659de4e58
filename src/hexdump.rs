//! Hex dump of a byte buffer as text: sixteen bytes per line, with the
//! address, the bytes in hex and their printable characters.

use vstd::prelude::*;

verus! {

/// Width of the banner lines.
pub const HEXDUMP_WIDTH: usize = 70;

pub open spec fn hex_digit(d: nat) -> u8 {
    if d < 10 {
        (48 + d) as u8
    } else {
        (87 + d) as u8
    }
}

/// Lowercase hex digits of `n`, without leading zeros.
pub open spec fn hex_digits(n: nat) -> Seq<u8>
    decreases n,
{
    if n < 16 {
        seq![hex_digit(n)]
    } else {
        hex_digits(n / 16).push(hex_digit(n % 16))
    }
}

pub open spec fn repeat(b: u8, k: nat) -> Seq<u8> {
    Seq::new(k, |i: int| b)
}

/// `n` in hex, zero-padded to at least `width` digits.
pub open spec fn hex_padded(n: nat, width: nat) -> Seq<u8> {
    let d = hex_digits(n);
    if d.len() >= width {
        d
    } else {
        repeat(48u8, (width - d.len()) as nat) + d
    }
}

/// Printable ASCII.
pub open spec fn printable(c: u8) -> bool {
    0x20 <= c && c <= 0x7e
}

pub open spec fn byte_cell(data: Seq<u8>, k: int) -> Seq<u8> {
    if k < data.len() {
        hex_padded(data[k] as nat, 2).push(32u8)
    } else {
        repeat(32u8, 3)
    }
}

pub open spec fn char_cell(data: Seq<u8>, k: int) -> Seq<u8> {
    if k < data.len() {
        if printable(data[k]) {
            seq![data[k]]
        } else {
            seq![46u8]
        }
    } else {
        repeat(32u8, 3)
    }
}

pub open spec fn hex_cells(data: Seq<u8>, off: int, i: nat) -> Seq<u8>
    decreases i,
{
    if i == 0 {
        Seq::empty()
    } else {
        hex_cells(data, off, (i - 1) as nat) + byte_cell(data, off + i - 1)
    }
}

pub open spec fn char_cells(data: Seq<u8>, off: int, i: nat) -> Seq<u8>
    decreases i,
{
    if i == 0 {
        Seq::empty()
    } else {
        char_cells(data, off, (i - 1) as nat) + char_cell(data, off + i - 1)
    }
}

/// The line for the sixteen bytes at `off`, printed at address `addr`.
pub open spec fn dump_line(data: Seq<u8>, off: int, addr: nat) -> Seq<u8> {
    hex_padded(addr, 8).push(32u8) + hex_cells(data, off, 16) + repeat(32u8, 6) + char_cells(
        data,
        off,
        16,
    ) + seq![10u8]
}

/// The first `n` lines of the dump of `data` starting at address `start`.
pub open spec fn dump_lines(data: Seq<u8>, start: nat, n: nat) -> Seq<u8>
    decreases n,
{
    if n == 0 {
        Seq::empty()
    } else {
        dump_lines(data, start, (n - 1) as nat) + dump_line(
            data,
            16 * (n - 1),
            (start + 16 * (n - 1)) as nat,
        )
    }
}

pub open spec fn line_count(len: nat) -> nat {
    (len + 15) / 16
}

/// `title` centered in a line of dashes.
pub open spec fn banner(title: Seq<u8>) -> Seq<u8> {
    let pad = (HEXDUMP_WIDTH - title.len()) as nat;
    repeat(45u8, pad / 2) + title + repeat(45u8, (pad - pad / 2) as nat) + seq![10u8]
}

pub open spec fn title_start() -> Seq<u8> {
    seq![32u8, 104u8, 101u8, 120u8, 100u8, 117u8, 109u8, 112u8, 32u8]
}

pub open spec fn title_end() -> Seq<u8> {
    seq![32u8, 104u8, 101u8, 120u8, 100u8, 117u8, 109u8, 112u8, 32u8, 101u8, 110u8, 100u8, 32u8]
}

/// The whole dump of `data` starting at address `start`.
pub open spec fn hexdump_text(data: Seq<u8>, start: nat) -> Seq<u8> {
    banner(title_start()) + dump_lines(data, start, line_count(data.len())) + banner(title_end())
}

fn push_repeat(out: &mut Vec<u8>, b: u8, k: usize)
    ensures
        final(out)@ == old(out)@ + repeat(b, k as nat),
{
    let mut i: usize = 0;
    while i < k
        invariant
            i <= k,
            out@ == old(out)@ + repeat(b, i as nat),
        decreases k - i,
    {
        out.push(b);
        i = i + 1;
        assert(out@ =~= old(out)@ + repeat(b, i as nat));
    }
}

fn push_hex(out: &mut Vec<u8>, n: usize)
    ensures
        final(out)@ == old(out)@ + hex_digits(n as nat),
    decreases n,
{
    if n >= 16 {
        push_hex(out, n / 16);
    }
    let d = n % 16;
    let c: u8 = if d < 10 {
        48 + d as u8
    } else {
        87 + d as u8
    };
    out.push(c);
    proof {
        if n >= 16 {
            assert(old(out)@ + hex_digits((n / 16) as nat) + seq![c] =~= old(out)@ + hex_digits(
                (n / 16) as nat,
            ).push(c));
        } else {
            assert(old(out)@.push(c) =~= old(out)@ + seq![c]);
        }
    }
}

fn hex_len(n: usize) -> (r: usize)
    ensures
        r == hex_digits(n as nat).len(),
    decreases n,
{
    proof {
        lemma_hex_len_bound(n as nat);
    }
    if n < 16 {
        1
    } else {
        let k = hex_len(n / 16);
        proof {
            lemma_hex_len_bound((n / 16) as nat);
        }
        k + 1
    }
}

proof fn lemma_hex_len_bound(n: nat)
    ensures
        1 <= hex_digits(n).len() <= n + 1,
    decreases n,
{
    if n >= 16 {
        lemma_hex_len_bound(n / 16);
    }
}

fn push_hex_padded(out: &mut Vec<u8>, n: usize, width: usize)
    ensures
        final(out)@ == old(out)@ + hex_padded(n as nat, width as nat),
{
    let len = hex_len(n);
    let ghost mid = out@;
    if len < width {
        push_repeat(out, 48, width - len);
    }
    let ghost padded = out@;
    push_hex(out, n);
    proof {
        if len < width {
            assert(old(out)@ + repeat(48u8, (width - len) as nat) + hex_digits(n as nat) =~= old(
                out,
            )@ + (repeat(48u8, (width - len) as nat) + hex_digits(n as nat)));
        }
    }
}

fn push_banner(out: &mut Vec<u8>, title: &Vec<u8>)
    requires
        title@.len() <= HEXDUMP_WIDTH,
    ensures
        final(out)@ == old(out)@ + banner(title@),
{
    let pad = HEXDUMP_WIDTH - title.len();
    push_repeat(out, 45, pad / 2);
    let ghost a = out@;
    let mut i: usize = 0;
    while i < title.len()
        invariant
            i <= title@.len(),
            out@ == a + title@.take(i as int),
        decreases title@.len() - i,
    {
        out.push(title[i]);
        i = i + 1;
        assert(out@ =~= a + title@.take(i as int));
    }
    push_repeat(out, 45, pad - pad / 2);
    out.push(10);
    proof {
        assert(title@.take(title@.len() as int) =~= title@);
        assert(out@ =~= old(out)@ + banner(title@));
    }
}

/// The hex dump of `data` as text, addresses starting at `start_addr`:
/// a banner, one line per sixteen bytes, and a closing banner.
pub fn hexdump(data: &[u8], start_addr: usize) -> (r: Vec<u8>)
    requires
        start_addr + 16 * line_count(data@.len()) <= usize::MAX,
        data@.len() + 16 <= usize::MAX,
    ensures
        r@ == hexdump_text(data@, start_addr as nat),
{
    let mut out: Vec<u8> = Vec::new();
    let title: Vec<u8> = vec![32u8, 104, 101, 120, 100, 117, 109, 112, 32];
    assert(title@ =~= title_start());
    push_banner(&mut out, &title);
    let ghost head = out@;
    let len = data.len();
    let mut offset: usize = 0;
    let mut addr: usize = start_addr;
    let mut line: usize = 0;
    while offset < len
        invariant
            len == data@.len(),
            len + 16 <= usize::MAX,
            start_addr + 16 * line_count(len as nat) <= usize::MAX,
            offset == 16 * line,
            addr == start_addr + 16 * line,
            line == 0 || 16 * (line - 1) < len,
            out@ == head + dump_lines(data@, start_addr as nat, line as nat),
        decreases len + 16 - offset,
    {
        assert(line < line_count(len as nat)) by (nonlinear_arith)
            requires
                offset == 16 * line,
                offset < len,
        ;
        assert(addr + 16 <= usize::MAX) by (nonlinear_arith)
            requires
                addr == start_addr + 16 * line,
                line < line_count(len as nat),
                start_addr + 16 * line_count(len as nat) <= usize::MAX,
        ;
        let ghost before = out@;
        push_hex_padded(&mut out, addr, 8);
        out.push(32);
        let ghost cells_base = out@;
        let mut i: usize = 0;
        while i < 16
            invariant
                i <= 16,
                len == data@.len(),
                offset < len,
                len + 16 <= usize::MAX,
                out@ == cells_base + hex_cells(data@, offset as int, i as nat),
            decreases 16 - i,
        {
            if offset + i < len {
                push_hex_padded(&mut out, data[offset + i] as usize, 2);
                out.push(32);
            } else {
                push_repeat(&mut out, 32, 3);
            }
            i = i + 1;
            assert(out@ =~= cells_base + hex_cells(data@, offset as int, i as nat));
        }
        push_repeat(&mut out, 32, 6);
        let ghost chars_base = out@;
        let mut j: usize = 0;
        while j < 16
            invariant
                j <= 16,
                len == data@.len(),
                offset < len,
                len + 16 <= usize::MAX,
                out@ == chars_base + char_cells(data@, offset as int, j as nat),
            decreases 16 - j,
        {
            if offset + j < len {
                let c = data[offset + j];
                if c >= 0x20 && c <= 0x7e {
                    out.push(c);
                } else {
                    out.push(46);
                }
            } else {
                push_repeat(&mut out, 32, 3);
            }
            j = j + 1;
            assert(out@ =~= chars_base + char_cells(data@, offset as int, j as nat));
        }
        out.push(10);
        proof {
            assert(out@ =~= before + dump_line(data@, offset as int, addr as nat));
            assert(out@ =~= head + dump_lines(data@, start_addr as nat, (line + 1) as nat));
        }
        addr = addr + 16;
        offset = offset + 16;
        line = line + 1;
    }
    assert(line == line_count(len as nat)) by (nonlinear_arith)
        requires
            offset == 16 * line,
            offset >= len,
            line == 0 || 16 * (line - 1) < len,
    ;
    let end_title: Vec<u8> = vec![32u8, 104, 101, 120, 100, 117, 109, 112, 32, 101, 110, 100, 32];
    assert(end_title@ =~= title_end());
    push_banner(&mut out, &end_title);
    out
}

} // verus!
