use crate::progress::Progress;
use crate::render::{render_sized, resolve_width, spec_render, spec_resolve_width};
use vstd::prelude::*;

verus! {

/// A single-line progress bar: the fraction done, the rendering direction,
/// and an optional fixed width. With no width set, the width is resolved from
/// the terminal each time the bar is rendered.
pub struct Bar {
    /// The fraction of the work that is done, intended to lie in `[0, 1]`.
    pub progress: Progress,
    /// Render mirrored, for right-to-left display.
    pub rtl: bool,
    /// A fixed character width; `None` resolves the width dynamically.
    pub width: Option<usize>,
}

/// Relies on termsize::get for the column count of the terminal on standard
/// output; it answers `None` when there is no terminal to ask or the query
/// fails. What comes back depends on the machine, so nothing more is claimed.
#[verifier::external_body]
fn query_terminal_cols() -> (cols: Option<u16>) {
    termsize::get().map(|size| size.cols)
}

impl Bar {
    pub fn new(progress: Progress, rtl: bool, width: Option<usize>) -> (bar: Bar)
        ensures
            bar == (Bar { progress, rtl, width }),
    {
        Bar { progress, rtl, width }
    }

    /// Renders the bar with the terminal column count, if any, already in
    /// hand; the result is exactly the rendering function of the bar's fields
    /// and the resolved width.
    pub fn render_with(&self, cols: Option<u16>) -> (s: String)
        requires
            self.progress.wf(),
        ensures
            s@ == spec_render(self.progress, self.rtl, spec_resolve_width(self.width, cols)),
    {
        let size = resolve_width(self.width, cols);
        render_sized(&self.progress, self.rtl, size)
    }

    /// Renders the bar, asking the terminal for its size only when no width
    /// override is set. Whatever the terminal answers, the result is the
    /// rendering function of the bar's fields and the width resolved from
    /// that answer; under an override the answer plays no part at all.
    pub fn render(&self) -> (s: String)
        requires
            self.progress.wf(),
        ensures
            exists|cols: Option<u16>|
                s@ == spec_render(self.progress, self.rtl, spec_resolve_width(self.width, cols)),
            self.width matches Some(w) ==> s@ == spec_render(self.progress, self.rtl, w as int),
    {
        let cols = match self.width {
            Some(_) => None,
            None => query_terminal_cols(),
        };
        self.render_with(cols)
    }
}

impl From<bool> for Bar {
    /// A default bar: nothing done yet, and the default width of eighty fixed.
    fn from(rtl: bool) -> (bar: Bar) {
        Bar { progress: Progress { num: 0, den: 1 }, rtl, width: Some(80) }
    }
}

impl vstd::std_specs::convert::FromSpecImpl<bool> for Bar {
    open spec fn obeys_from_spec() -> bool {
        true
    }

    open spec fn from_spec(rtl: bool) -> Bar {
        Bar { progress: Progress { num: 0, den: 1 }, rtl, width: Some(80) }
    }
}

} // verus!
