use loadingbar::{Bar, Progress};

/// The exact value of a positive, normal, finite binary32 float as a fraction
/// of 32-bit integers. Panics when the value needs a wider denominator.
fn rat(x: f32) -> Progress {
    assert!(x > 0.0 && x.is_finite());
    let bits = x.to_bits();
    let exp = ((bits >> 23) & 0xff) as i32 - 127;
    assert!(exp > -127, "subnormal values are not exactly representable here");
    let mut num: u32 = (bits & 0x007f_ffff) | 0x0080_0000;
    let mut pow: i32 = 23 - exp; // x == num / 2^pow
    while pow > 0 && num % 2 == 0 {
        num /= 2;
        pow -= 1;
    }
    while pow < 0 {
        num = num.checked_mul(2).expect("value too large for a 32-bit numerator");
        pow += 1;
    }
    assert!(pow <= 31, "value too small for a 32-bit denominator");
    Progress::new(num, 1u32 << pow)
}

#[test]
fn new_ltr_40_i() {
    let bar = Bar::new(rat(0.5), false, Some(40));
    assert_eq!(
        bar.render(),
        "⟳ [██████████████████▒▒▒▒▒▒▒▒▒▒▒▒▒▒▒▒▒▒]\u{001b}[1F"
    )
}

#[test]
fn new_rtl_40_i() {
    let bar = Bar::new(rat(0.5), true, Some(40));
    assert_eq!(
        bar.render(),
        "[██████████████████▒▒▒▒▒▒▒▒▒▒▒▒▒▒▒▒▒▒]⟳ \u{001b}[1F"
    )
}

#[test]
fn new_ltr_5_i() {
    let bar = Bar::new(rat(0.8), false, Some(5));
    assert_eq!(bar.render(), "⟳ [80%]\u{001b}[1F")
}

#[test]
fn new_rtl_5_i() {
    let bar = Bar::new(rat(0.8), true, Some(5));
    assert_eq!(bar.render(), "[80%]⟳ \u{001b}[1F")
}

#[test]
fn new_ltr_40_c() {
    let bar = Bar::new(rat(1.0), false, Some(40));
    assert_eq!(
        bar.render(),
        "✓ [████████████████████████████████████]\u{001b}[1F"
    )
}

#[test]
fn new_rtl_40_c() {
    let bar = Bar::new(rat(1.0), true, Some(40));
    assert_eq!(
        bar.render(),
        "[████████████████████████████████████]✓ \u{001b}[1F"
    )
}

#[test]
fn new_ltr_5_c() {
    let bar = Bar::new(rat(1.0), false, Some(5));
    assert_eq!(bar.render(), "✓ [100%]\u{001b}[1F")
}

#[test]
fn new_rtl_5_c() {
    let bar = Bar::new(rat(1.0), true, Some(5));
    assert_eq!(bar.render(), "[100%]✓ \u{001b}[1F")
}

#[test]
fn fill_partition_counts() {
    // width 10 leaves 6 cells; a third of 6 is 2 filled, 4 unfilled
    let bar = Bar::new(Progress::new(1, 3), false, Some(10));
    assert_eq!(bar.render(), "⟳ [██▒▒▒▒]\u{001b}[1F")
}

#[test]
fn indicator_threshold() {
    let almost = Bar::new(Progress::new(999_999, 1_000_000), false, Some(5));
    assert_eq!(almost.render(), "⟳ [99%]\u{001b}[1F");
    let done = Bar::new(Progress::new(1_000_000, 1_000_000), false, Some(5));
    assert_eq!(done.render(), "✓ [100%]\u{001b}[1F")
}

#[test]
fn minimum_width_zero_percent() {
    let bar = Bar::new(Progress::new(0, 1), false, Some(5));
    assert_eq!(bar.render(), "⟳ [0%]\u{001b}[1F")
}

#[test]
fn render_is_idempotent() {
    let bar = Bar::new(rat(0.5), false, Some(40));
    assert_eq!(bar.render(), bar.render())
}

#[test]
fn default_width_fallback() {
    let dynamic = Bar::new(rat(0.5), false, None);
    let fixed = Bar::new(rat(0.5), false, Some(80));
    assert_eq!(dynamic.render_with(None), fixed.render())
}

#[test]
fn mirror_moves_indicator() {
    let ltr = Bar::new(Progress::new(1, 3), false, Some(10));
    let rtl = Bar::new(Progress::new(1, 3), true, Some(10));
    assert_eq!(ltr.render(), "⟳ [██▒▒▒▒]\u{001b}[1F");
    assert_eq!(rtl.render(), "[██▒▒▒▒]⟳ \u{001b}[1F")
}

#[test]
fn mirror_of_uniform_fill() {
    // an empty fill reads the same reversed, so both forms of the mirroring
    // law agree here
    let ltr = Bar::new(Progress::new(0, 1), false, Some(9));
    let rtl = Bar::new(Progress::new(0, 1), true, Some(9));
    assert_eq!(ltr.render(), "⟳ [▒▒▒▒▒]\u{001b}[1F");
    assert_eq!(rtl.render(), "[▒▒▒▒▒]⟳ \u{001b}[1F")
}

#[test]
fn overfull_progress_saturates() {
    // three halves would fill nine of six cells; the count is capped
    let bar = Bar::new(Progress::new(3, 2), false, Some(10));
    assert_eq!(bar.render(), "⟳ [██████]\u{001b}[1F")
}

#[test]
fn overfull_progress_percent_text() {
    // over one hundred percent is spelled out, and is not the completion mark
    let bar = Bar::new(Progress::new(3, 2), false, Some(5));
    assert_eq!(bar.render(), "⟳ [150%]\u{001b}[1F")
}

#[test]
fn degenerate_small_widths() {
    // below the four reserved cells nothing fits between the brackets
    let zero = Bar::new(rat(0.5), false, Some(0));
    assert_eq!(zero.render(), "⟳ []\u{001b}[1F");
    let four = Bar::new(rat(0.5), false, Some(4));
    assert_eq!(four.render(), "⟳ []\u{001b}[1F");
    let six = Bar::new(rat(0.5), false, Some(6));
    assert_eq!(six.render(), "⟳ [█▒]\u{001b}[1F")
}

#[test]
fn from_bool_default_bar() {
    let rtl = Bar::from(true);
    assert_eq!(rtl.render(), format!("[{}]⟳ \u{001b}[1F", "▒".repeat(76)));
    let ltr = Bar::from(false);
    assert_eq!(ltr.render(), format!("⟳ [{}]\u{001b}[1F", "▒".repeat(76)))
}

#[test]
fn percent_values() {
    assert_eq!(Progress::new(1, 3).percent(), 33);
    assert_eq!(Progress::new(2, 3).percent(), 66);
    assert_eq!(Progress::new(1, 1).percent(), 100);
    assert_eq!(Progress::new(0, 7).percent(), 0)
}
