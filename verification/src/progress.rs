use vstd::arithmetic::div_mod::{lemma_div_multiples_vanish, lemma_div_pos_is_pos, lemma_multiply_divide_lt};
use vstd::arithmetic::mul::{lemma_mul_nonnegative, lemma_mul_upper_bound};
use vstd::prelude::*;

verus! {

/// Progress toward completion, as the exact fraction `num / den`.
///
/// The intended range is `[0, 1]` (`num <= den`); larger fractions are
/// accepted without validation and the renderer caps the filled-cell count at
/// the space available instead of failing.
#[derive(Clone, Copy, Debug, PartialEq, Eq, Structural)]
pub struct Progress {
    /// Numerator of the fraction.
    pub num: u32,
    /// Denominator of the fraction; zero makes the fraction meaningless.
    pub den: u32,
}

impl Progress {
    /// The fraction denotes a value: its denominator is nonzero.
    pub open spec fn wf(self) -> bool {
        self.den > 0
    }

    /// The whole percentage the fraction amounts to: `floor(100 * num / den)`.
    pub open spec fn spec_percent(self) -> int {
        (100 * self.num) / (self.den as int)
    }

    /// Of `n` cells, how many the fraction fills before capping: `floor(n * num / den)`.
    pub open spec fn spec_scaled(self, n: int) -> int {
        (n * self.num) / (self.den as int)
    }

    /// Of `n` cells, how many are rendered filled: `floor(n * num / den)`,
    /// capped at `n` so that a fraction above one overfills nothing.
    pub open spec fn spec_complete(self, n: int) -> int {
        if self.spec_scaled(n) > n {
            n
        } else {
            self.spec_scaled(n)
        }
    }

    pub fn new(num: u32, den: u32) -> (p: Progress)
        requires
            den > 0,
        ensures
            p == (Progress { num, den }),
            p.wf(),
    {
        Progress { num, den }
    }

    /// The whole percentage, for display.
    pub fn percent(&self) -> (v: u64)
        requires
            self.wf(),
        ensures
            v == self.spec_percent(),
    {
        (100 * (self.num as u64)) / (self.den as u64)
    }

    /// How many of `n` cells are rendered filled.
    pub fn complete_cells(&self, n: usize) -> (c: usize)
        requires
            self.wf(),
        ensures
            c == self.spec_complete(n as int),
            c <= n,
    {
        proof {
            lemma_mul_upper_bound(n as int, usize::MAX as int, self.num as int, u32::MAX as int);
            lemma_div_pos_is_pos((n as int) * (self.num as int), self.den as int);
        }
        let prod: u128 = (n as u128) * (self.num as u128);
        let q: u128 = prod / (self.den as u128);
        if q > n as u128 {
            n
        } else {
            q as usize
        }
    }

    /// The rendered cell count always lies between zero and the space given.
    pub proof fn lemma_complete_bounds(self, n: int)
        requires
            self.wf(),
            n >= 0,
        ensures
            0 <= self.spec_complete(n) <= n,
    {
        lemma_mul_nonnegative(n, self.num as int);
        lemma_div_pos_is_pos(n * self.num, self.den as int);
    }

    /// While the fraction is below one, scaling stays within the space given,
    /// so the cap never takes effect and the count is the plain floor.
    pub proof fn lemma_scaled_uncapped(self, n: int)
        requires
            self.wf(),
            self.num < self.den,
            n >= 0,
        ensures
            self.spec_complete(n) == self.spec_scaled(n),
            self.spec_scaled(n) <= n,
    {
        assert(n * self.num < (self.den as int) * (n + 1)) by (nonlinear_arith)
            requires
                self.num < self.den,
                n >= 0,
                self.den > 0,
        ;
        lemma_multiply_divide_lt(n * self.num, self.den as int, n + 1);
    }

    /// A fraction of exactly one amounts to one hundred percent.
    pub proof fn lemma_percent_complete(self)
        requires
            self.wf(),
            self.num == self.den,
        ensures
            self.spec_percent() == 100,
    {
        lemma_div_multiples_vanish(100, self.den as int);
    }

    /// A fraction below one amounts to strictly less than one hundred percent.
    pub proof fn lemma_percent_partial(self)
        requires
            self.wf(),
            self.num < self.den,
        ensures
            0 <= self.spec_percent() < 100,
    {
        lemma_div_pos_is_pos(100 * self.num, self.den as int);
        lemma_multiply_divide_lt(100 * self.num, self.den as int, 100);
    }
}

} // verus!
