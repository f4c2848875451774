//! What an overlay beside the display shows: a frame around the display, and
//! the state of the machine as lines of text. Printing them is left to the
//! host.
use crate::chip::semantics::word_at;
use crate::inst::text::{digit, hex, push_digit, push_hex, reversed};
use crate::inst::{reverse_inst, DecodedInstruction};
use crate::mem::{valid_slice, Mem, State};
use vstd::prelude::*;
use vstd::string::{StrSliceExecFns, StringExecFns};

verus! {

/// The number `value` in decimal digits.
pub open spec fn dec(value: nat) -> Seq<char>
    decreases value,
{
    if value < 10 {
        seq![digit(value as int, true)]
    } else {
        dec(value / 10).push(digit((value % 10) as int, true))
    }
}

/// Appends `value` in decimal digits.
pub fn push_dec(text: &mut String, value: u64)
    ensures
        final(text)@ == old(text)@ + dec(value as nat),
    decreases value,
{
    if value >= 10 {
        push_dec(text, value / 10);
    }
    push_digit(text, (value % 10) as u16, true);
    assert(text@ =~= old(text)@ + dec(value as nat));
}

/// Where a text is printed on a terminal of `size` columns and rows, and how
/// much of it: nothing below the last row; else at the column and the row
/// after `(x, y)`, as the terminal counts them from 1, and as many
/// characters as there are columns from `x` on.
pub open spec fn clipped(text: Seq<char>, x: u16, y: u16, size: (u16, u16)) -> Option<
    (u16, u16, Seq<char>),
> {
    if y < size.1 {
        let max = if size.0 > x {
            size.0 - x
        } else {
            0
        };
        Some(
            (
                x.saturating_add(1),
                y.saturating_add(1),
                if text.len() > max {
                    text.take(max)
                } else {
                    text
                },
            ),
        )
    } else {
        None
    }
}

/// Clips `text` to a terminal of `size` columns and rows, for printing at
/// `(x, y)`.
pub fn clip<'a>(text: &'a str, x: u16, y: u16, size: (u16, u16)) -> (place: Option<
    (u16, u16, &'a str),
>)
    ensures
        match clipped(text@, x, y, size) {
            Some((column, row, visible)) => place matches Some((to_column, to_row, shown))
                && to_column == column && to_row == row && shown@ == visible,
            None => place is None,
        },
{
    let (tw, th) = size;
    if y < th {
        let max = tw.saturating_sub(x) as usize;
        let shown = if text.unicode_len() > max {
            text.substring_char(0, max)
        } else {
            text
        };
        Some((x.saturating_add(1), y.saturating_add(1), shown))
    } else {
        None
    }
}

/// A text of `n` blocks, the material of the frame.
pub open spec fn bar(n: nat) -> Seq<char> {
    Seq::new(n, |k: int| '▒')
}

/// The frame around a display of `width` by `height` pixels that starts at
/// column 1 and row 1: what to print, and at which column and row. The top
/// comes first, then the bottom, then the sides row by row.
pub open spec fn frame_text(width: nat, height: nat) -> Seq<(u16, u16, Seq<char>)> {
    Seq::new(
        2 + 2 * (height + 1),
        |k: int|
            if k == 0 {
                (0u16, 0u16, bar(width + 2))
            } else if k == 1 {
                (0u16, (height + 1) as u16, bar(width + 2))
            } else if k % 2 == 0 {
                (0u16, ((k - 2) / 2) as u16, bar(1))
            } else {
                ((width + 1) as u16, ((k - 2) / 2) as u16, bar(1))
            },
    )
}

/// A text of `n` blocks.
fn blocks(n: usize) -> (text: String)
    ensures
        text@ == bar(n as nat),
{
    let mut text = String::new();
    proof {
        reveal_strlit("▒");
    }
    let mut k: usize = 0;
    while k < n
        invariant
            k <= n,
            "▒"@ == seq!['▒'],
            text@ == bar(k as nat),
        decreases n - k,
    {
        text.append("▒");
        k += 1;
        assert(text@ =~= bar(k as nat));
    }
    text
}

/// The frame around a display of `width` by `height` pixels.
pub fn frame(width: u16, height: u16) -> (parts: Vec<(u16, u16, String)>)
    requires
        width < 0xFFFE,
        height < 0xFFFF,
    ensures
        parts@.len() == frame_text(width as nat, height as nat).len(),
        forall|k: int|
            0 <= k < parts@.len() ==> {
                let part = #[trigger] parts@[k];
                let text = frame_text(width as nat, height as nat)[k];
                part.0 == text.0 && part.1 == text.1 && part.2@ == text.2
            },
{
    let ghost whole = frame_text(width as nat, height as nat);
    let offset = 1 + width;
    let mut parts: Vec<(u16, u16, String)> = Vec::new();
    parts.push((0, 0, blocks(width as usize + 2)));
    parts.push((0, height + 1, blocks(width as usize + 2)));
    let mut y: u16 = 0;
    while y < height + 1
        invariant
            y <= height + 1,
            height < 0xFFFF,
            offset == width + 1,
            whole == frame_text(width as nat, height as nat),
            parts@.len() == 2 + 2 * y,
            forall|k: int|
                0 <= k < parts@.len() ==> {
                    let part = #[trigger] parts@[k];
                    part.0 == whole[k].0 && part.1 == whole[k].1 && part.2@ == whole[k].2
                },
        decreases height + 1 - y,
    {
        parts.push((0, y, blocks(1)));
        parts.push((offset, y, blocks(1)));
        y += 1;
    }
    parts
}

/// The frames of a stack as they are listed, the newest first: sixteen
/// entries, each a frame in four hexadecimal digits or, where the stack has
/// no more frames, six blanks.
pub open spec fn stack_text(frames: Seq<u16>) -> Seq<Seq<char>> {
    Seq::new(
        16,
        |k: int|
            if k < frames.len() {
                "0x"@ + hex(frames[frames.len() - 1 - k] as nat, 4, true)
            } else {
                "      "@
            },
    )
}

/// The line for the registers `la` and `la + 8`.
pub open spec fn register_text(s: State, la: int) -> Seq<char> {
    "    [V"@ + hex(la as nat, 1, true) + "]: 0x"@ + hex(s.reg[la] as nat, 2, true) + "   [V"@
        + hex((la + 8) as nat, 1, true) + "]: 0x"@ + hex(s.reg[la + 8] as nat, 2, true)
}

/// The state of the machine as lines of text: the sizes of the display and of
/// the terminal, the index register and the timers, the program counter, the
/// registers in two columns, the instruction at the program counter, and the
/// stack.
pub open spec fn registers_text(s: State, terminal: (u16, u16), viewport: (usize, usize)) -> Seq<
    Seq<char>,
> {
    let inst = word_at(s.ram, s.pc as int);
    seq![
        "term: "@ + dec(viewport.0 as nat) + "x"@ + dec(viewport.1 as nat) + " ("@ + dec(
            terminal.0 as nat,
        ) + "x"@ + dec(terminal.1 as nat) + ")"@,
        ""@,
        " [I]: 0x"@ + hex(s.i as nat, 4, true) + "     [DT]: 0x"@ + hex(s.dt as nat, 2, true),
        "[PC]: 0x"@ + hex(s.pc as nat, 3, true) + "      [ST]: 0x"@ + hex(s.st as nat, 2, true),
        ""@,
    ] + Seq::new(8, |la: int| register_text(s, la)) + seq![
        ""@,
        "[INSTRUCTION]"@,
        match reversed(inst) {
            Some((opcode, decoded)) => decoded.text(opcode.spec_name()@),
            None => DecodedInstruction::Unknown(inst).text("unknown"@),
        },
        ""@,
        "[STACK]"@,
    ] + stack_text(s.stack) + seq!["<empty>"@]
}

/// A text of its own.
fn line(text: &str) -> (line: String)
    ensures
        line@ == text@,
{
    String::from_str(text)
}

/// The state of the machine as lines of text, for a display of the size
/// `viewport` on a terminal of the size `terminal`. The program counter must
/// point to two bytes of RAM.
pub fn registers(mem: Mem, terminal: (u16, u16), viewport: (usize, usize)) -> (lines: Vec<String>)
    requires
        valid_slice(mem.pc, 2),
    ensures
        lines@.len() == registers_text(mem@, terminal, viewport).len(),
        forall|k: int|
            0 <= k < lines@.len() ==> (#[trigger] lines@[k])@ == registers_text(
                mem@,
                terminal,
                viewport,
            )[k],
{
    let ghost whole = registers_text(mem@, terminal, viewport);
    let mut lines: Vec<String> = Vec::new();

    let mut text = line("term: ");
    push_dec(&mut text, viewport.0 as u64);
    text.append("x");
    push_dec(&mut text, viewport.1 as u64);
    text.append(" (");
    push_dec(&mut text, terminal.0 as u64);
    text.append("x");
    push_dec(&mut text, terminal.1 as u64);
    text.append(")");
    lines.push(text);
    lines.push(line(""));

    let mut text = line(" [I]: 0x");
    push_hex(&mut text, mem.i, 4, true);
    text.append("     [DT]: 0x");
    push_hex(&mut text, mem.dt as u16, 2, true);
    lines.push(text);
    let mut text = line("[PC]: 0x");
    push_hex(&mut text, mem.pc, 3, true);
    text.append("      [ST]: 0x");
    push_hex(&mut text, mem.st as u16, 2, true);
    lines.push(text);
    lines.push(line(""));

    let mut la: u8 = 0;
    while la < 8
        invariant
            la <= 8,
            whole == registers_text(mem@, terminal, viewport),
            lines@.len() == 5 + la,
            forall|k: int| 0 <= k < lines@.len() ==> (#[trigger] lines@[k])@ == whole[k],
        decreases 8 - la,
    {
        let ra = la + 8;
        let lv = match mem.reg.get(la) {
            Ok(value) => value,
            Err(_) => 0,
        };
        let rv = match mem.reg.get(ra) {
            Ok(value) => value,
            Err(_) => 0,
        };
        let mut text = line("    [V");
        push_hex(&mut text, la as u16, 1, true);
        text.append("]: 0x");
        push_hex(&mut text, lv as u16, 2, true);
        text.append("   [V");
        push_hex(&mut text, ra as u16, 1, true);
        text.append("]: 0x");
        push_hex(&mut text, rv as u16, 2, true);
        assert(text@ =~= register_text(mem@, la as int));
        lines.push(text);
        la += 1;
    }

    lines.push(line(""));
    lines.push(line("[INSTRUCTION]"));
    let inst = match mem.ram.read_bytes(mem.pc, 2) {
        Ok(bytes) => (bytes[0] as u16) << 8 | (bytes[1] as u16),
        Err(_) => 0,
    };
    let (name, decoded) = reverse_inst(inst);
    lines.push(decoded.to_string(name));
    lines.push(line(""));
    lines.push(line("[STACK]"));

    let mut stack = mem.stack;
    let mut n: u8 = 0;
    let ghost frames = mem@.stack;
    proof {
        use_type_invariant(&stack);
        stack.lemma_len();
    }
    while n < 16
        invariant
            n <= 16,
            whole == registers_text(mem@, terminal, viewport),
            frames == mem@.stack,
            frames.len() <= 16,
            stack@ == frames.take(
                if n < frames.len() {
                    frames.len() - n
                } else {
                    0
                },
            ),
            lines@.len() == 18 + n,
            forall|k: int| 0 <= k < lines@.len() ==> (#[trigger] lines@[k])@ == whole[k],
        decreases 16 - n,
    {
        let text = match stack.pop() {
            Ok(frame) => {
                let mut text = line("0x");
                push_hex(&mut text, frame, 4, true);
                text
            },
            Err(_) => line("      "),
        };
        assert(text@ == stack_text(frames)[n as int]);
        assert(stack@ =~= frames.take(
            if n + 1 < frames.len() {
                frames.len() - (n + 1)
            } else {
                0
            },
        ));
        lines.push(text);
        n += 1;
    }

    lines.push(line("<empty>"));
    lines
}

} // verus!
