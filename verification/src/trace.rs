//! The disassembling trace formatter: one line per fetched instruction,
//! bit-exact against the reference golden-log format, built as ASCII
//! bytes whose layout is pinned by spec functions.
use vstd::prelude::*;

use vstd::string::StringSliceAdditionalSpecFns;

use vstd::utf8::encode_utf8;

use crate::cpu::AddressingMode;
use crate::cpu::CPU;
use crate::cpu::resolve_addr;
use crate::cpu::resolve_ok;
use crate::cpu::resolve_post;
use crate::mem::Fault;
use crate::mem::Mem;
use crate::opcodes::OpCode;
use crate::opcodes::known_opcode;
use crate::opcodes::lookup;
use crate::opcodes::mnemonic_of;
use crate::opcodes::mode_len;
use crate::opcodes::mode_of;

verus! {

/// Every byte of the sequence is ASCII.
pub open spec fn all_ascii(s: Seq<u8>) -> bool {
    forall|i: int| 0 <= i < s.len() ==> s[i] < 0x80
}

/// The uppercase hexadecimal digit for a nibble.
pub open spec fn hex_digit(n: u8) -> u8 {
    if n < 10 {
        (0x30 + n) as u8
    } else {
        (0x37 + n) as u8
    }
}

/// Two uppercase hexadecimal digits for a byte.
pub open spec fn hex2(b: u8) -> Seq<u8> {
    seq![hex_digit(b >> 4), hex_digit(b & 0x0F)]
}

/// Four uppercase hexadecimal digits for a word.
pub open spec fn hex4(w: u16) -> Seq<u8> {
    hex2((w >> 8) as u8) + hex2((w & 0xFF) as u8)
}

/// `n` spaces.
pub open spec fn spaces(n: int) -> Seq<u8> {
    Seq::new(
        (if n < 0 {
            0int
        } else {
            n
        }) as nat,
        |i: int| 0x20u8,
    )
}

/// The sequence padded with spaces on the right out to `n` bytes.
pub open spec fn pad_right(s: Seq<u8>, n: int) -> Seq<u8> {
    s + spaces(n - s.len())
}

/// The sequence padded with spaces on the left out to `n` bytes.
pub open spec fn pad_left(s: Seq<u8>, n: int) -> Seq<u8> {
    spaces(n - s.len()) + s
}

/// The sequence with every non-ASCII byte replaced by a question mark;
/// the mnemonics are ASCII, so in practice this replaces nothing.
pub open spec fn sanitize_ascii(s: Seq<u8>) -> Seq<u8> {
    s.map_values(
        |b: u8|
            if b < 0x80 {
                b
            } else {
                0x3Fu8
            },
    )
}

/// The bytes as characters; for ASCII bytes, the string they spell.
pub open spec fn ascii_chars(s: Seq<u8>) -> Seq<char> {
    s.map_values(|b: u8| b as char)
}

/// The operand column of a trace line, exactly as the golden-log format
/// renders each addressing mode. `b1` and `b2` are the operand bytes,
/// `mem_addr` the resolved effective address, `stored` the byte behind
/// it, `x` and `y` the index registers.
pub open spec fn operand_text(
    code: u8,
    mode: AddressingMode,
    b1: u8,
    b2: u8,
    mem_addr: u16,
    stored: u8,
    x: u8,
    y: u8,
) -> Seq<u8> {
    match mode {
        AddressingMode::Implied => Seq::<u8>::empty(),
        AddressingMode::Accumulator => seq![0x41u8],  // A
        AddressingMode::Immediate => seq![0x23u8, 0x24u8] + hex2(b1),  // #$HH
        AddressingMode::ZeroPage => seq![0x24u8] + hex2((mem_addr & 0xFF) as u8) + seq![
            0x20u8,
            0x3Du8,
            0x20u8,
        ] + hex2(stored),  // $HH = VV
        AddressingMode::ZeroPage_X => seq![0x24u8] + hex2(b1) + seq![0x2Cu8, 0x58u8, 0x20u8, 0x40u8, 0x20u8]
            + hex2((mem_addr & 0xFF) as u8) + seq![0x20u8, 0x3Du8, 0x20u8] + hex2(
            stored,
        ),  // $HH,X @ EE = VV
        AddressingMode::ZeroPage_Y => seq![0x24u8] + hex2(b1) + seq![0x2Cu8, 0x59u8, 0x20u8, 0x40u8, 0x20u8]
            + hex2((mem_addr & 0xFF) as u8) + seq![0x20u8, 0x3Du8, 0x20u8] + hex2(
            stored,
        ),  // $HH,Y @ EE = VV
        AddressingMode::RELATIVE => seq![0x24u8] + hex4(mem_addr),  // $EEEE
        AddressingMode::Absolute => if code == 0x4C || code == 0x20 {
            seq![0x24u8] + hex4((((b2 as u16) << 8) | (b1 as u16)))  // $HHHH
        } else {
            seq![0x24u8] + hex4(mem_addr) + seq![0x20u8, 0x3Du8, 0x20u8] + hex2(stored)
        },  // $HHHH = VV
        AddressingMode::Absolute_X => seq![0x24u8] + hex4((((b2 as u16) << 8) | (b1 as u16)))
            + seq![0x2Cu8, 0x58u8, 0x20u8, 0x40u8, 0x20u8] + hex4(mem_addr) + seq![
            0x20u8,
            0x3Du8,
            0x20u8,
        ] + hex2(stored),  // $HHHH,X @ EEEE = VV
        AddressingMode::Absolute_Y => seq![0x24u8] + hex4((((b2 as u16) << 8) | (b1 as u16)))
            + seq![0x2Cu8, 0x59u8, 0x20u8, 0x40u8, 0x20u8] + hex4(mem_addr) + seq![
            0x20u8,
            0x3Du8,
            0x20u8,
        ] + hex2(stored),  // $HHHH,Y @ EEEE = VV
        AddressingMode::Indirect => seq![0x28u8, 0x24u8] + hex4((((b2 as u16) << 8) | (b1 as u16)))
            + seq![0x29u8, 0x20u8, 0x3Du8, 0x20u8] + hex4(mem_addr),  // ($HHHH) = EEEE
        AddressingMode::Indirect_X => seq![0x28u8, 0x24u8] + hex2(b1) + seq![0x2Cu8, 0x58u8, 0x29u8, 0x20u8, 0x40u8, 0x20u8]
            + hex2(b1.wrapping_add(x)) + seq![0x20u8, 0x3Du8, 0x20u8] + hex4(mem_addr) + seq![
            0x20u8,
            0x3Du8,
            0x20u8,
        ] + hex2(stored),  // ($HH,X) @ EE = EEEE = VV
        AddressingMode::Indirect_Y => seq![0x28u8, 0x24u8] + hex2(b1) + seq![0x29u8, 0x2Cu8, 0x59u8, 0x20u8, 0x3Du8, 0x20u8]
            + hex4(mem_addr.wrapping_sub(y as u16)) + seq![0x20u8, 0x40u8, 0x20u8] + hex4(mem_addr)
            + seq![0x20u8, 0x3Du8, 0x20u8] + hex2(stored),  // ($HH),Y = EEEE @ EEEE = VV
    }
}

/// The raw hex dump of the instruction's bytes, space-separated.
pub open spec fn hex_dump(length: u8, code: u8, b1: u8, b2: u8) -> Seq<u8> {
    if length <= 1 {
        hex2(code)
    } else if length == 2 {
        hex2(code) + seq![0x20u8] + hex2(b1)
    } else {
        hex2(code) + seq![0x20u8] + hex2(b1) + seq![0x20u8] + hex2(b2)
    }
}

/// A whole trace line: the program counter, the hex dump padded to eight
/// columns, the mnemonic right-aligned to four, the operand column, the
/// disassembly padded to 47 columns, then the register tail.
pub open spec fn line_spec(
    pc: u16,
    code: u8,
    mnemonic: Seq<u8>,
    length: u8,
    mode: AddressingMode,
    b1: u8,
    b2: u8,
    mem_addr: u16,
    stored: u8,
    a: u8,
    x: u8,
    y: u8,
    p: u8,
    sp: u8,
) -> Seq<u8> {
    let op_text = operand_text(code, mode, b1, b2, mem_addr, stored, x, y);
    let column = hex4(pc) + seq![0x20u8, 0x20u8] + pad_right(hex_dump(length, code, b1, b2), 8) + seq![
        0x20u8,
    ] + pad_left(sanitize_ascii(mnemonic), 4) + (if op_text.len() == 0 {
        Seq::<u8>::empty()
    } else {
        seq![0x20u8] + op_text
    });
    pad_right(column, 47) + register_tail(a, x, y, p, sp)
}

/// The register tail of a trace line: `A:`, `X:`, `Y:`, `P:` and `SP:`
/// with their zero-padded uppercase hex values.
pub open spec fn register_tail(a: u8, x: u8, y: u8, p: u8, sp: u8) -> Seq<u8> {
    seq![0x20u8, 0x41u8, 0x3Au8] + hex2(a) + seq![0x20u8, 0x58u8, 0x3Au8] + hex2(x) + seq![
        0x20u8,
        0x59u8,
        0x3Au8,
    ] + hex2(y) + seq![0x20u8, 0x50u8, 0x3Au8] + hex2(p) + seq![0x20u8, 0x53u8, 0x50u8, 0x3Au8]
        + hex2(sp)
}

/// Appends the register tail.
fn push_register_tail(out: &mut Vec<u8>, a: u8, x: u8, y: u8, p: u8, sp: u8)
    ensures
        final(out)@ == old(out)@ + register_tail(a, x, y, p, sp),
        all_ascii(old(out)@) ==> all_ascii(final(out)@),
{
    push_byte(out, 0x20);
    push_byte(out, 0x41);
    push_byte(out, 0x3A);
    push_hex2(out, a);
    push_byte(out, 0x20);
    push_byte(out, 0x58);
    push_byte(out, 0x3A);
    push_hex2(out, x);
    push_byte(out, 0x20);
    push_byte(out, 0x59);
    push_byte(out, 0x3A);
    push_hex2(out, y);
    push_byte(out, 0x20);
    push_byte(out, 0x50);
    push_byte(out, 0x3A);
    push_hex2(out, p);
    push_byte(out, 0x20);
    push_byte(out, 0x53);
    push_byte(out, 0x50);
    push_byte(out, 0x3A);
    push_hex2(out, sp);
    proof {
        assert(final(out)@ =~= old(out)@ + register_tail(a, x, y, p, sp));
    }
}

/// The uppercase hexadecimal digit for a nibble.
fn hex_digit_exec(n: u8) -> (r: u8)
    requires
        n < 16,
    ensures
        r == hex_digit(n),
        r < 0x80,
{
    if n < 10 {
        0x30 + n
    } else {
        0x37 + n
    }
}

/// Both nibbles of a byte are nibbles.
proof fn lemma_nibbles(b: u8)
    by (bit_vector)
    ensures
        (b >> 4) < 16,
        (b & 0x0F) < 16,
{
}

/// Appends the two hex digits of a byte.
fn push_hex2(out: &mut Vec<u8>, b: u8)
    ensures
        final(out)@ == old(out)@ + hex2(b),
        all_ascii(old(out)@) ==> all_ascii(final(out)@),
{
    proof {
        lemma_nibbles(b);
    }
    out.push(hex_digit_exec(b >> 4));
    out.push(hex_digit_exec(b & 0x0F));
    proof {
        assert(final(out)@ =~= old(out)@ + hex2(b));
    }
}

/// Appends the four hex digits of a word.
fn push_hex4(out: &mut Vec<u8>, w: u16)
    ensures
        final(out)@ == old(out)@ + hex4(w),
        all_ascii(old(out)@) ==> all_ascii(final(out)@),
{
    push_hex2(out, (w >> 8) as u8);
    push_hex2(out, (w & 0xFF) as u8);
    proof {
        assert(final(out)@ =~= old(out)@ + hex4(w));
    }
}

/// Appends one byte.
fn push_byte(out: &mut Vec<u8>, b: u8)
    requires
        b < 0x80,
    ensures
        final(out)@ == old(out)@ + seq![b],
        all_ascii(old(out)@) ==> all_ascii(final(out)@),
{
    out.push(b);
    proof {
        assert(final(out)@ =~= old(out)@ + seq![b]);
    }
}

/// Appends the mnemonic's bytes, right-aligned to four columns, any
/// non-ASCII byte replaced.
fn push_mnemonic(out: &mut Vec<u8>, mnemonic: &str)
    ensures
        final(out)@ == old(out)@ + pad_left(sanitize_ascii(mnemonic.spec_bytes()), 4),
        all_ascii(old(out)@) ==> all_ascii(final(out)@),
{
    let bs = mnemonic.as_bytes();
    let n = bs.len();
    let mut k: usize = n;
    while k < 4
        invariant
            n == mnemonic.spec_bytes().len(),
            n <= k,
            k == n || k <= 4,
            out@ == old(out)@ + spaces(k - n),
            all_ascii(old(out)@) ==> all_ascii(out@),
        decreases 4 - k,
    {
        out.push(0x20);
        proof {
            assert(out@ =~= old(out)@ + spaces(k + 1 - n));
        }
        k = k + 1;
    }
    let mut i: usize = 0;
    while i < n
        invariant
            n == mnemonic.spec_bytes().len(),
            bs@ == mnemonic.spec_bytes(),
            i <= n,
            out@ == old(out)@ + spaces(if 4 - n >= 0 { 4 - n } else { 0 }) + sanitize_ascii(
                mnemonic.spec_bytes().subrange(0, i as int),
            ),
            all_ascii(old(out)@) ==> all_ascii(out@),
        decreases n - i,
    {
        let b = bs[i];
        out.push(
            if b < 0x80 {
                b
            } else {
                0x3F
            },
        );
        proof {
            assert(out@ =~= old(out)@ + spaces(
                if 4 - n >= 0 {
                    4int - n
                } else {
                    0int
                },
            ) + sanitize_ascii(mnemonic.spec_bytes().subrange(0, i + 1)));
        }
        i = i + 1;
    }
    proof {
        assert(mnemonic.spec_bytes().subrange(0, n as int) =~= mnemonic.spec_bytes());
        assert(final(out)@ =~= old(out)@ + pad_left(sanitize_ascii(mnemonic.spec_bytes()), 4));
    }
}

/// Appends spaces until the buffer holds `n` bytes.
fn pad_right_to(out: &mut Vec<u8>, n: usize)
    ensures
        final(out)@ == pad_right(old(out)@, n as int),
        all_ascii(old(out)@) ==> all_ascii(final(out)@),
{
    let start = out.len();
    let mut k: usize = start;
    while k < n
        invariant
            start <= k,
            k <= n || k == start,
            out@ == old(out)@ + spaces(k - start),
            all_ascii(old(out)@) ==> all_ascii(out@),
        decreases n - k,
    {
        out.push(0x20);
        proof {
            assert(out@ =~= old(out)@ + spaces(k + 1 - start));
        }
        k = k + 1;
    }
    proof {
        assert(final(out)@ =~= pad_right(old(out)@, n as int));
    }
}

/// Turns a buffer of ASCII bytes into the string spelling them.
///
/// Relies on `String::from_utf8`: bytes below 0x80 are valid UTF-8 and
/// decode to the characters with the same code points.
#[verifier::external_body]
fn ascii_to_string(bytes: Vec<u8>) -> (r: String)
    requires
        all_ascii(bytes@),
    ensures
        r@ == ascii_chars(bytes@),
{
    match String::from_utf8(bytes) {
        Ok(s) => s,
        Err(_) => String::new(),
    }
}

/// Builds one trace line from the already-gathered values: the
/// pre-dispatch register file, the instruction's bytes, and the resolved
/// operand address with the byte behind it.
#[verifier::rlimit(100)]
pub fn format_trace_line(
    pc: u16,
    op: &OpCode,
    b1: u8,
    b2: u8,
    mem_addr: u16,
    stored: u8,
    a: u8,
    x: u8,
    y: u8,
    p: u8,
    sp: u8,
) -> (r: String)
    ensures
        r@ == ascii_chars(
            line_spec(
                pc,
                op.code,
                op.mnemonic.spec_bytes(),
                op.length,
                op.mode,
                b1,
                b2,
                mem_addr,
                stored,
                a,
                x,
                y,
                p,
                sp,
            ),
        ),
{
    let mut out: Vec<u8> = Vec::new();
    push_hex4(&mut out, pc);
    push_byte(&mut out, 0x20);
    push_byte(&mut out, 0x20);
    let mut dump: Vec<u8> = Vec::new();
    push_hex2(&mut dump, op.code);
    if op.length == 2 {
        push_byte(&mut dump, 0x20);
        push_hex2(&mut dump, b1);
    } else if op.length >= 3 {
        push_byte(&mut dump, 0x20);
        push_hex2(&mut dump, b1);
        push_byte(&mut dump, 0x20);
        push_hex2(&mut dump, b2);
    }
    assert(dump@ =~= hex_dump(op.length, op.code, b1, b2)) by {
        assert(Seq::<u8>::empty() + hex2(op.code) =~= hex2(op.code));
    }
    let dump_len = dump.len();
    let mut j: usize = 0;
    while j < dump_len
        invariant
            dump_len == dump@.len(),
            j <= dump_len,
            out@ == hex4(pc) + seq![0x20u8, 0x20u8] + dump@.subrange(0, j as int),
            all_ascii(dump@),
            all_ascii(out@),
        decreases dump_len - j,
    {
        let b = dump[j];
        out.push(b);
        proof {
            assert(out@ =~= hex4(pc) + seq![0x20u8, 0x20u8] + dump@.subrange(0, j + 1));
        }
        j = j + 1;
    }
    proof {
        assert(dump@.subrange(0, dump_len as int) =~= dump@);
    }
    pad_right_to(&mut out, 4 + 2 + 8);
    proof {
        assert(pad_right(hex4(pc) + seq![0x20u8, 0x20u8] + dump@, 14) =~= hex4(pc) + seq![
            0x20u8,
            0x20u8,
        ] + pad_right(dump@, 8));
    }
    push_byte(&mut out, 0x20);
    push_mnemonic(&mut out, op.mnemonic);
    let mut op_text: Vec<u8> = Vec::new();
    push_operand_text(&mut op_text, op, b1, b2, mem_addr, stored, x, y);
    if op_text.len() > 0 {
        push_byte(&mut out, 0x20);
    }
    let op_len = op_text.len();
    let ghost out_before = out@;
    let mut t: usize = 0;
    while t < op_len
        invariant
            op_len == op_text@.len(),
            t <= op_len,
            out@ == out_before + op_text@.subrange(0, t as int),
            all_ascii(op_text@),
            all_ascii(out@),
        decreases op_len - t,
    {
        let b = op_text[t];
        out.push(b);
        proof {
            assert(out@ =~= out_before + op_text@.subrange(0, t + 1));
        }
        t = t + 1;
    }
    proof {
        assert(op_text@.subrange(0, op_len as int) =~= op_text@);
        if op_len == 0 {
            assert(out@ =~= out_before);
        }
    }
    pad_right_to(&mut out, 47);
    push_register_tail(&mut out, a, x, y, p, sp);
    proof {
        assert(out@ =~= line_spec(
            pc,
            op.code,
            op.mnemonic.spec_bytes(),
            op.length,
            op.mode,
            b1,
            b2,
            mem_addr,
            stored,
            a,
            x,
            y,
            p,
            sp,
        ));
    }
    ascii_to_string(out)
}

/// Appends the operand column for the decoded instruction.
#[verifier::rlimit(100)]
fn push_operand_text(
    out: &mut Vec<u8>,
    op: &OpCode,
    b1: u8,
    b2: u8,
    mem_addr: u16,
    stored: u8,
    x: u8,
    y: u8,
)
    requires
        old(out)@.len() == 0,
    ensures
        final(out)@ == operand_text(op.code, op.mode, b1, b2, mem_addr, stored, x, y),
        all_ascii(final(out)@),
{
    match op.mode {
        AddressingMode::Implied => {},
        AddressingMode::Accumulator => {
            push_byte(out, 0x41);
        },
        AddressingMode::Immediate => {
            push_byte(out, 0x23);
            push_byte(out, 0x24);
            push_hex2(out, b1);
        },
        AddressingMode::ZeroPage => {
            push_byte(out, 0x24);
            push_hex2(out, (mem_addr & 0xFF) as u8);
            push_byte(out, 0x20);
            push_byte(out, 0x3D);
            push_byte(out, 0x20);
            push_hex2(out, stored);
        },
        AddressingMode::ZeroPage_X => {
            push_byte(out, 0x24);
            push_hex2(out, b1);
            push_byte(out, 0x2C);
            push_byte(out, 0x58);
            push_byte(out, 0x20);
            push_byte(out, 0x40);
            push_byte(out, 0x20);
            push_hex2(out, (mem_addr & 0xFF) as u8);
            push_byte(out, 0x20);
            push_byte(out, 0x3D);
            push_byte(out, 0x20);
            push_hex2(out, stored);
        },
        AddressingMode::ZeroPage_Y => {
            push_byte(out, 0x24);
            push_hex2(out, b1);
            push_byte(out, 0x2C);
            push_byte(out, 0x59);
            push_byte(out, 0x20);
            push_byte(out, 0x40);
            push_byte(out, 0x20);
            push_hex2(out, (mem_addr & 0xFF) as u8);
            push_byte(out, 0x20);
            push_byte(out, 0x3D);
            push_byte(out, 0x20);
            push_hex2(out, stored);
        },
        AddressingMode::RELATIVE => {
            push_byte(out, 0x24);
            push_hex4(out, mem_addr);
        },
        AddressingMode::Absolute => {
            if op.code == 0x4C || op.code == 0x20 {
                push_byte(out, 0x24);
                push_hex4(out, ((b2 as u16) << 8) | (b1 as u16));
            } else {
                push_byte(out, 0x24);
                push_hex4(out, mem_addr);
                push_byte(out, 0x20);
                push_byte(out, 0x3D);
                push_byte(out, 0x20);
                push_hex2(out, stored);
            }
        },
        AddressingMode::Absolute_X => {
            push_byte(out, 0x24);
            push_hex4(out, ((b2 as u16) << 8) | (b1 as u16));
            push_byte(out, 0x2C);
            push_byte(out, 0x58);
            push_byte(out, 0x20);
            push_byte(out, 0x40);
            push_byte(out, 0x20);
            push_hex4(out, mem_addr);
            push_byte(out, 0x20);
            push_byte(out, 0x3D);
            push_byte(out, 0x20);
            push_hex2(out, stored);
        },
        AddressingMode::Absolute_Y => {
            push_byte(out, 0x24);
            push_hex4(out, ((b2 as u16) << 8) | (b1 as u16));
            push_byte(out, 0x2C);
            push_byte(out, 0x59);
            push_byte(out, 0x20);
            push_byte(out, 0x40);
            push_byte(out, 0x20);
            push_hex4(out, mem_addr);
            push_byte(out, 0x20);
            push_byte(out, 0x3D);
            push_byte(out, 0x20);
            push_hex2(out, stored);
        },
        AddressingMode::Indirect => {
            push_byte(out, 0x28);
            push_byte(out, 0x24);
            push_hex4(out, ((b2 as u16) << 8) | (b1 as u16));
            push_byte(out, 0x29);
            push_byte(out, 0x20);
            push_byte(out, 0x3D);
            push_byte(out, 0x20);
            push_hex4(out, mem_addr);
        },
        AddressingMode::Indirect_X => {
            push_byte(out, 0x28);
            push_byte(out, 0x24);
            push_hex2(out, b1);
            push_byte(out, 0x2C);
            push_byte(out, 0x58);
            push_byte(out, 0x29);
            push_byte(out, 0x20);
            push_byte(out, 0x40);
            push_byte(out, 0x20);
            push_hex2(out, b1.wrapping_add(x));
            push_byte(out, 0x20);
            push_byte(out, 0x3D);
            push_byte(out, 0x20);
            push_hex4(out, mem_addr);
            push_byte(out, 0x20);
            push_byte(out, 0x3D);
            push_byte(out, 0x20);
            push_hex2(out, stored);
        },
        AddressingMode::Indirect_Y => {
            push_byte(out, 0x28);
            push_byte(out, 0x24);
            push_hex2(out, b1);
            push_byte(out, 0x29);
            push_byte(out, 0x2C);
            push_byte(out, 0x59);
            push_byte(out, 0x20);
            push_byte(out, 0x3D);
            push_byte(out, 0x20);
            push_hex4(out, mem_addr.wrapping_sub(y as u16));
            push_byte(out, 0x20);
            push_byte(out, 0x40);
            push_byte(out, 0x20);
            push_hex4(out, mem_addr);
            push_byte(out, 0x20);
            push_byte(out, 0x3D);
            push_byte(out, 0x20);
            push_hex2(out, stored);
        },
    }
    proof {
        assert(final(out)@ =~= operand_text(op.code, op.mode, b1, b2, mem_addr, stored, x, y));
    }
}


/// Whether every memory read that building a trace line takes succeeds:
/// the opcode fetch, the operand resolution with the read through it
/// (none for operand-less modes), and the raw operand bytes for the hex
/// dump.
pub open spec fn trace_ok<M: Mem>(v0: M::V, pc: u16, x: u8, y: u8) -> bool {
    &&& M::ok_read(v0, pc)
    &&& known_opcode(M::read_val(v0, pc))
    &&& ({
        let code = M::read_val(v0, pc);
        let v1 = M::post_read(v0, pc);
        let mode = mode_of(code);
        let len = mode_len(mode);
        let base = pc.wrapping_add(1);
        let implied = mode is Implied || mode is Accumulator;
        let vr = resolve_post::<M>(v1, mode, base, x, y);
        let maddr = resolve_addr::<M>(v1, mode, base, x, y);
        let v2 = if implied {
            v1
        } else {
            M::post_read(vr, maddr)
        };
        &&& (implied || (resolve_ok::<M>(v1, mode, base, x, y) && M::ok_read(vr, maddr)))
        &&& (len == 1 || M::ok_read(v2, base))
        &&& (len <= 2 || M::ok_read(M::post_read(v2, base), pc.wrapping_add(2)))
    })
}

/// The bytes of the trace line for the instruction at `pc`, with every
/// ingredient read from the memory model in the formatter's order: the
/// opcode byte, the resolved operand address and the byte behind it,
/// then the raw operand bytes.
pub open spec fn trace_line_bytes<M: Mem>(
    v0: M::V,
    pc: u16,
    a: u8,
    x: u8,
    y: u8,
    p: u8,
    sp: u8,
) -> Seq<u8> {
    let code = M::read_val(v0, pc);
    let v1 = M::post_read(v0, pc);
    let mode = mode_of(code);
    let len = mode_len(mode);
    let base = pc.wrapping_add(1);
    let implied = mode is Implied || mode is Accumulator;
    let maddr = if implied {
        0u16
    } else {
        resolve_addr::<M>(v1, mode, base, x, y)
    };
    let vr = resolve_post::<M>(v1, mode, base, x, y);
    let stored = if implied {
        0u8
    } else {
        M::read_val(vr, maddr)
    };
    let v2 = if implied {
        v1
    } else {
        M::post_read(vr, maddr)
    };
    let b1 = if len >= 2 {
        M::read_val(v2, base)
    } else {
        0u8
    };
    let v3 = if len >= 2 {
        M::post_read(v2, base)
    } else {
        v2
    };
    let b2 = if len >= 3 {
        M::read_val(v3, pc.wrapping_add(2))
    } else {
        0u8
    };
    line_spec(
        pc,
        code,
        encode_utf8(mnemonic_of(code)),
        len,
        mode,
        b1,
        b2,
        maddr,
        stored,
        a,
        x,
        y,
        p,
        sp,
    )
}

/// One golden-log line for the instruction at the program counter, with
/// the processor in its pre-dispatch state. The line is built by
/// `format_trace_line`, whose contract pins every byte; gathering its
/// inputs reads through the bus, so the registers are untouched but the
/// bus may advance as any read does.
pub fn trace<M: Mem>(cpu: &mut CPU<M>) -> (r: Result<String, Fault>)
    requires
        old(cpu).inv(),
    ensures
        final(cpu).inv(),
        old(cpu).same_regs(*final(cpu)),
        r is Ok <==> trace_ok::<M>(
            old(cpu).bus@,
            old(cpu).program_counter,
            old(cpu).register_x,
            old(cpu).register_y,
        ),
        r matches Ok(s) ==> s@ == ascii_chars(
            trace_line_bytes::<M>(
                old(cpu).bus@,
                old(cpu).program_counter,
                old(cpu).register_a,
                old(cpu).register_x,
                old(cpu).register_y,
                old(cpu).status,
                old(cpu).stack_pointer,
            ),
        ),
        !M::ok_read(old(cpu).bus@, old(cpu).program_counter) ==> r == Err::<String, Fault>(
            M::read_fault(old(cpu).bus@, old(cpu).program_counter),
        ),
        M::ok_read(old(cpu).bus@, old(cpu).program_counter) && !known_opcode(
            M::read_val(old(cpu).bus@, old(cpu).program_counter),
        ) ==> r == Err::<String, Fault>(
            Fault::UnknownOpcode(
                M::read_val(old(cpu).bus@, old(cpu).program_counter),
                old(cpu).program_counter,
            ),
        ),
{
    let begin = cpu.program_counter;
    let code = cpu.bus.mem_read(begin)?;
    let op = match lookup(code) {
        Some(op) => op,
        None => {
            return Err(Fault::UnknownOpcode(code, begin));
        },
    };
    let implied_like = matches!(op.mode, AddressingMode::Implied) || matches!(
        op.mode,
        AddressingMode::Accumulator,
    );
    let mut mem_addr: u16 = 0;
    let mut stored: u8 = 0;
    if !implied_like {
        mem_addr = cpu.get_absolute_address(&op.mode, begin.wrapping_add(1))?;
        stored = cpu.bus.mem_read(mem_addr)?;
    }
    let mut b1: u8 = 0;
    let mut b2: u8 = 0;
    if op.length == 2 {
        b1 = cpu.bus.mem_read(begin.wrapping_add(1))?;
    } else if op.length >= 3 {
        b1 = cpu.bus.mem_read(begin.wrapping_add(1))?;
        b2 = cpu.bus.mem_read(begin.wrapping_add(2))?;
    }
    Ok(
        format_trace_line(
            begin,
            &op,
            b1,
            b2,
            mem_addr,
            stored,
            cpu.register_a,
            cpu.register_x,
            cpu.register_y,
            cpu.status,
            cpu.stack_pointer,
        ),
    )
}

} // verus!
