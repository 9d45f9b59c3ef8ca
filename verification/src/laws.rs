use crate::digits::spec_decimal;
use crate::progress::Progress;
use crate::render::{
    arrow_indicator, check_indicator, complete_cell, incomplete_cell, line_end, spec_cell_count,
    spec_fill, spec_indicator, spec_inner, spec_render, spec_resolve_width, spec_segment,
};
use vstd::prelude::*;

verus! {

/// Partition law: at any fixed width of at least six, with progress below
/// one, the filled and unfilled cells together exactly cover the width less
/// the four reserved cells, and the filled count is the plain floor of the
/// cell count scaled by the progress fraction.
pub proof fn lemma_fill_partition(p: Progress, w: int)
    requires
        p.wf(),
        p.num < p.den,
        w >= 6,
    ensures
        spec_cell_count(w) == w - 4,
        p.spec_complete(w - 4) == ((w - 4) * p.num) / (p.den as int),
        p.spec_complete(w - 4) + ((w - 4) - p.spec_complete(w - 4)) == w - 4,
        spec_fill(p, w - 4).len() == w - 4,
{
    p.lemma_scaled_uncapped(w - 4);
    p.lemma_complete_bounds(w - 4);
}

/// Indicator law: a fraction of exactly one puts up the completion glyph,
/// and any fraction below one the in-progress glyph.
pub proof fn lemma_indicator_glyph(p: Progress)
    requires
        p.wf(),
    ensures
        p.num == p.den ==> spec_indicator(p) == check_indicator(),
        p.num < p.den ==> spec_indicator(p) == arrow_indicator(),
{
    if p.num == p.den {
        p.lemma_percent_complete();
    } else if p.num < p.den {
        p.lemma_percent_partial();
    }
}

/// Minimum-width law: at the structural minimum width of five the output is
/// exactly the indicator, the bracketed percent text, and the line-end
/// sequence, with no fill glyphs — whatever the progress; mirrored, the
/// indicator stands behind the brackets instead.
pub proof fn lemma_minimum_width(p: Progress)
    requires
        p.wf(),
    ensures
        spec_render(p, false, 5) == spec_indicator(p) + seq!['['] + spec_decimal(
            p.spec_percent() as nat,
        ) + seq!['%'] + seq![']'] + line_end(),
        spec_render(p, true, 5) == seq!['['] + spec_decimal(p.spec_percent() as nat) + seq!['%']
            + seq![']'] + spec_indicator(p) + line_end(),
{
    assert(spec_render(p, false, 5) =~= spec_indicator(p) + seq!['['] + spec_decimal(
        p.spec_percent() as nat,
    ) + seq!['%'] + seq![']'] + line_end());
    assert(spec_render(p, true, 5) =~= seq!['['] + spec_decimal(p.spec_percent() as nat)
        + seq!['%'] + seq![']'] + spec_indicator(p) + line_end());
}

/// Mirroring law: at the same progress and width, the mirrored output is the
/// bracketed segment, then the indicator, then the line-end sequence — the
/// segment itself unchanged and the line-end still last — where the
/// non-mirrored output is the indicator, then the same segment, then the
/// line-end sequence.
pub proof fn lemma_mirror(p: Progress, size: int)
    requires
        p.wf(),
    ensures
        spec_render(p, false, size) == spec_indicator(p) + spec_segment(p, size) + line_end(),
        spec_render(p, true, size) == spec_segment(p, size) + spec_indicator(p) + line_end(),
{
}

/// A sequence of one repeated character reads the same in both directions.
proof fn lemma_uniform_reverse(s: Seq<char>, ch: char)
    requires
        forall|i: int| 0 <= i < s.len() ==> s[i] == ch,
    ensures
        s.reverse() == s,
{
    assert(s.reverse() =~= s);
}

/// Mirroring law, reversal form: where the fill is all one glyph — no cell
/// filled, or every cell filled — the mirrored output equals the bracketed
/// reverse of the fill sequence, then the indicator, then the line-end
/// sequence. A mixed fill is left out: mirroring keeps the fill order, so
/// reversing it there would swap the filled and unfilled runs.
pub proof fn lemma_mirror_reverse(p: Progress, size: int)
    requires
        p.wf(),
        size != 5,
        p.spec_complete(spec_cell_count(size)) == 0 || p.spec_complete(spec_cell_count(size))
            == spec_cell_count(size),
    ensures
        spec_render(p, true, size) == seq!['['] + spec_inner(p, size).reverse() + seq![']']
            + spec_indicator(p) + line_end(),
{
    let n = spec_cell_count(size);
    let fill = spec_inner(p, size);
    p.lemma_complete_bounds(n);
    let ch = if p.spec_complete(n) == 0 {
        incomplete_cell()
    } else {
        complete_cell()
    };
    assert(forall|i: int| 0 <= i < fill.len() ==> fill[i] == ch);
    lemma_uniform_reverse(fill, ch);
    assert(spec_render(p, true, size) =~= seq!['['] + fill + seq![']'] + spec_indicator(p)
        + line_end());
}

/// Idempotence law: the rendering is a function of the bar's fields and the
/// resolved width alone, so two renders of the same bar at the same resolved
/// width are the same string.
pub proof fn lemma_render_idempotent(
    p: Progress,
    rtl: bool,
    size: int,
    first: Seq<char>,
    second: Seq<char>,
)
    requires
        first == spec_render(p, rtl, size),
        second == spec_render(p, rtl, size),
    ensures
        first == second,
{
}

/// Fallback law: when no width override is set and the terminal cannot be
/// asked, the width resolves to eighty, and the render equals the render
/// under an explicit width of eighty.
pub proof fn lemma_default_width(p: Progress, rtl: bool, cols: Option<u16>)
    ensures
        spec_resolve_width(None, None) == 80,
        spec_render(p, rtl, spec_resolve_width(None, None)) == spec_render(
            p,
            rtl,
            spec_resolve_width(Some(80usize), cols),
        ),
{
}

} // verus!
