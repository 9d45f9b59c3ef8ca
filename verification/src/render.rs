use crate::digits::{push_decimal, spec_decimal};
use crate::progress::Progress;
use vstd::prelude::*;

verus! {

/// The in-progress indicator: a clockwise-open arrow and a space.
pub open spec fn arrow_indicator() -> Seq<char> {
    seq!['\u{27f3}', ' ']
}

/// The completion indicator: a check mark and a space.
pub open spec fn check_indicator() -> Seq<char> {
    seq!['\u{2713}', ' ']
}

/// The glyph of a filled cell: a solid block.
pub open spec fn complete_cell() -> char {
    '\u{2588}'
}

/// The glyph of an unfilled cell: a light-shade block.
pub open spec fn incomplete_cell() -> char {
    '\u{2592}'
}

/// The trailing control sequence: move the cursor up one line, so that the
/// next print overwrites this one.
pub open spec fn line_end() -> Seq<char> {
    seq!['\u{1b}', '[', '1', 'F']
}

/// `n` copies of one character.
pub open spec fn repeat_char(ch: char, n: nat) -> Seq<char> {
    Seq::new(n, |i: int| ch)
}

/// The indicator for `p`: the completion glyph exactly when the displayed
/// percentage is one hundred, the in-progress glyph otherwise.
pub open spec fn spec_indicator(p: Progress) -> Seq<char> {
    if p.spec_percent() == 100 {
        check_indicator()
    } else {
        arrow_indicator()
    }
}

/// The displayed percentage as text: the decimal number and a percent sign.
pub open spec fn spec_percent_text(p: Progress) -> Seq<char> {
    spec_decimal(p.spec_percent() as nat) + seq!['%']
}

/// How many fill cells a bar of width `size` offers: one cell is reserved for
/// each bracket and two more besides; a width too small for that offers none.
pub open spec fn spec_cell_count(size: int) -> int {
    if size >= 4 {
        size - 4
    } else {
        0
    }
}

/// The fill sequence over `n` cells: the filled cells, then the unfilled ones.
pub open spec fn spec_fill(p: Progress, n: int) -> Seq<char> {
    repeat_char(complete_cell(), p.spec_complete(n) as nat) + repeat_char(
        incomplete_cell(),
        (n - p.spec_complete(n)) as nat,
    )
}

/// What stands between the brackets: at the structural minimum width of five
/// the percent text alone, at any other width the fill sequence.
pub open spec fn spec_inner(p: Progress, size: int) -> Seq<char> {
    if size == 5 {
        spec_percent_text(p)
    } else {
        spec_fill(p, spec_cell_count(size))
    }
}

/// The bracketed segment of the bar.
pub open spec fn spec_segment(p: Progress, size: int) -> Seq<char> {
    seq!['['] + spec_inner(p, size) + seq![']']
}

/// The whole rendered bar at an already-resolved width. Mirrored rendering
/// moves the indicator behind the bracketed segment; the segment itself and
/// the trailing control sequence are unchanged, the latter staying last.
pub open spec fn spec_render(p: Progress, rtl: bool, size: int) -> Seq<char> {
    if rtl {
        spec_segment(p, size) + spec_indicator(p) + line_end()
    } else {
        spec_indicator(p) + spec_segment(p, size) + line_end()
    }
}

/// The effective width: an explicit override is taken as it is; a queried
/// column count is clamped to at least seven; with neither, eighty.
pub open spec fn spec_resolve_width(width: Option<usize>, cols: Option<u16>) -> int {
    match width {
        Some(w) => w as int,
        None => match cols {
            Some(c) => if c <= 7 {
                7
            } else {
                c as int
            },
            None => 80,
        },
    }
}

/// Resolves the effective width from the override and the queried column
/// count, exactly as [`spec_resolve_width`] says.
pub fn resolve_width(width: Option<usize>, cols: Option<u16>) -> (size: usize)
    ensures
        size == spec_resolve_width(width, cols),
{
    match width {
        Some(w) => w,
        None => {
            let c: u16 = match cols {
                Some(c) => c,
                None => 80,
            };
            if c <= 7 {
                7
            } else {
                c as usize
            }
        },
    }
}

/// Appends `count` copies of the single character in `piece` to `out`.
fn append_repeat(out: &mut String, piece: &str, count: usize)
    requires
        piece@.len() == 1,
    ensures
        final(out)@ == old(out)@ + repeat_char(piece@[0], count as nat),
{
    let ghost start = out@;
    let mut k: usize = 0;
    while k < count
        invariant
            k <= count,
            piece@.len() == 1,
            out@ == start + repeat_char(piece@[0], k as nat),
        decreases count - k,
    {
        out.append(piece);
        k = k + 1;
        proof {
            assert(start + repeat_char(piece@[0], (k - 1) as nat) + piece@ =~= start
                + repeat_char(piece@[0], k as nat));
        }
    }
}

/// Renders the bar for `p` at an already-resolved width.
pub fn render_sized(p: &Progress, rtl: bool, size: usize) -> (s: String)
    requires
        p.wf(),
    ensures
        s@ == spec_render(*p, rtl, size as int),
{
    proof {
        reveal_strlit("\u{2713} ");
        reveal_strlit("\u{27f3} ");
        reveal_strlit("[");
        reveal_strlit("]");
        reveal_strlit("%");
        reveal_strlit("\u{2588}");
        reveal_strlit("\u{2592}");
        reveal_strlit("\u{1b}[1F");
    }
    let pct = p.percent();
    let indicator: &str = if pct == 100 {
        "\u{2713} "
    } else {
        "\u{27f3} "
    };
    proof {
        assert(indicator@ =~= spec_indicator(*p));
    }

    let mut inner = String::new();
    if size == 5 {
        push_decimal(&mut inner, pct);
        inner.append("%");
        proof {
            assert(inner@ =~= spec_inner(*p, size as int));
        }
    } else {
        let n: usize = if size >= 4 {
            size - 4
        } else {
            0
        };
        let c = p.complete_cells(n);
        let i = n - c;
        append_repeat(&mut inner, "\u{2588}", c);
        append_repeat(&mut inner, "\u{2592}", i);
        proof {
            assert(inner@ =~= spec_inner(*p, size as int));
        }
    }

    let mut s = String::new();
    if rtl {
        s.append("[");
        s.append(inner.as_str());
        s.append("]");
        s.append(indicator);
    } else {
        s.append(indicator);
        s.append("[");
        s.append(inner.as_str());
        s.append("]");
    }
    s.append("\u{1b}[1F");
    proof {
        assert(s@ =~= spec_render(*p, rtl, size as int));
    }
    s
}

} // verus!
