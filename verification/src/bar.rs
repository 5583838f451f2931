//! The indicatif bar for a configuration.

use vstd::prelude::*;
use indicatif::{ProgressBar, ProgressState, ProgressStyle};
use crate::config::Config;
use crate::outside::{
    digit_free, elapsed_secs, eta_secs, given_glyphs, given_template, glyph_width, made_finish,
    made_glyphs, made_hidden, made_length, made_prefix, made_template, made_written, measure,
    progress_chars, template_accepted, uniform_glyphs, with_finish, with_hidden_target, with_key,
    with_prefix, with_template, written,
};
use crate::plan::{
    bar_length, length_of, plan, plan_of, slot_views, slots_by_key, style_plan, style_plan_of,
    BarPlan, BarPlanView, StylePlan, StylePlanView,
};
use crate::scale::Scale;
use crate::slots::{template_text, Slot, Snapshot};
use crate::text::is_digit;

verus! {

/// Why no bar was made.
#[derive(Clone, Copy, Debug, PartialEq, Eq, Structural)]
pub enum BarError {
    /// The length is the product of a double, which this library does not
    /// compute.
    FloatLength,
    /// indicatif refused the template of the line.
    Template,
    /// There are fewer than two glyphs for the bar, or they differ in width.
    Glyphs,
}

/// Reads what the line shows out of the state of a bar.
fn snapshot(state: &ProgressState) -> Snapshot {
    Snapshot {
        position: state.pos(),
        length: state.len(),
        elapsed_secs: elapsed_secs(state),
        eta_secs: eta_secs(state),
    }
}

/// Writes a slot for the state that a bar is in: the text of the slot at
/// one snapshot of that state.
pub(crate) fn write_slot(slot: &Slot, state: &ProgressState) -> (r: String)
    ensures
        exists|at: Snapshot| r@ == slot@.text(at),
{
    let at = snapshot(state);
    slot.render(&at)
}

/// The template of the line holds no digit.
pub proof fn lemma_template_digit_free()
    ensures
        digit_free(template_text()),
{
    reveal_strlit(
        "{prefix}{percent}|{wide_bar}| {pos}/{len} [{elapsed}<{eta}, {per_sec}{postfix}]",
    );
}

/// Tells whether a text holds no decimal digit.
pub fn has_no_digit(text: &str) -> (r: bool)
    ensures
        r == digit_free(text@),
{
    let n = text.unicode_len();
    let mut i: usize = 0;
    while i < n
        invariant
            n == text@.len(),
            i <= n,
            forall|j: int| 0 <= j < i ==> !is_digit(#[trigger] text@[j]),
        decreases n - i,
    {
        let c = text.get_char(i);
        if '0' <= c && c <= '9' {
            return false;
        }
        i = i + 1;
    }
    true
}

/// Tells whether glyphs can make a bar.
pub fn glyphs_fit(glyphs: &str) -> (r: bool)
    ensures
        r == uniform_glyphs(glyphs@),
{
    let n = glyphs.unicode_len();
    if n < 2 {
        return false;
    }
    let first = measure(glyphs.get_char(0));
    let mut i: usize = 1;
    while i < n
        invariant
            n == glyphs@.len(),
            1 <= i <= n,
            first == glyph_width(glyphs@[0]),
            forall|j: int| 0 <= j < i ==> glyph_width(#[trigger] glyphs@[j]) == first,
        decreases n - i,
    {
        if measure(glyphs.get_char(i)) != first {
            return false;
        }
        i = i + 1;
    }
    true
}

/// What `style` comes to: a style where indicatif takes the template and
/// the glyphs can make a bar, and else the first of the two that fails.
pub open spec fn style_outcome<T>(
    outcome: Result<T, BarError>,
    template: Seq<char>,
    glyphs: Seq<char>,
) -> bool {
    match outcome {
        Ok(_) => template_accepted(template) && uniform_glyphs(glyphs),
        Err(BarError::Template) => !template_accepted(template),
        Err(BarError::Glyphs) => template_accepted(template) && !uniform_glyphs(glyphs),
        Err(BarError::FloatLength) => false,
    }
}

/// Whether a style was made as a plan describes: from its template, with
/// a writer for each of its slots under the key of the slot, and with its
/// glyphs.
pub open spec fn style_holds(style: ProgressStyle, plan: StylePlanView) -> bool {
    &&& given_template(style) == plan.template
    &&& written(style) == slots_by_key(plan.slots)
    &&& given_glyphs(style) == plan.progress_chars
}

/// Whether a bar was made as a plan describes: with its length, its
/// finish and its prefix, with the hidden target exactly where the plan is
/// hidden, and with a style that was made as the plan describes.
pub open spec fn bar_holds(bar: ProgressBar, plan: BarPlanView) -> bool {
    &&& made_length(bar) == Some(plan.length)
    &&& made_finish(bar) == Some(plan.finish)
    &&& made_prefix(bar) == plan.prefix
    &&& made_hidden(bar) == plan.hidden
    &&& made_template(bar) == plan.style.template
    &&& made_written(bar) == slots_by_key(plan.style.slots)
    &&& made_glyphs(bar) == plan.style.progress_chars
}

/// Makes the style that a plan describes: its template, a writer under the
/// key of each of its slots, and its glyphs. A template with digits is not
/// taken, since indicatif reads them as a width and panics on a large one.
pub fn style_from(plan: &StylePlan) -> (r: Result<ProgressStyle, BarError>)
    requires
        digit_free(plan.template@),
    ensures
        style_outcome(r, plan.template@, plan.progress_chars@),
        r matches Ok(style) ==> style_holds(style, plan@),
{
    let parsed = match with_template(plan.template.as_str()) {
        Ok(style) => style,
        Err(_) => {
            return Err(BarError::Template);
        },
    };
    if !glyphs_fit(plan.progress_chars.as_str()) {
        return Err(BarError::Glyphs);
    }
    let ghost views = slot_views(plan.slots@);
    let mut style = parsed;
    let mut i: usize = 0;
    assert(views.take(0).len() == 0);
    while i < plan.slots.len()
        invariant
            i <= plan.slots.len(),
            views == slot_views(plan.slots@),
            given_template(style) == plan.template@,
            written(style) == slots_by_key(views.take(i as int)),
        decreases plan.slots.len() - i,
    {
        let slot = plan.slots[i].clone();
        proof {
            let next = views.take(i + 1);
            assert(next.drop_last() =~= views.take(i as int));
            assert(next.last() == plan.slots@[i as int]@);
        }
        style = with_key(style, slot.key(), slot);
        i = i + 1;
    }
    assert(views.take(i as int) =~= views);
    Ok(progress_chars(style, plan.progress_chars.as_str()))
}

/// Makes the bar that a plan describes: a bar of its length with its
/// finish, its prefix and the style of `style_from`, drawing to a hidden
/// target where the plan says so. The style is made first, so that no bar
/// exists where there is an error.
pub fn bar_from(plan: BarPlan) -> (r: Result<ProgressBar, BarError>)
    requires
        digit_free(plan.style.template@),
    ensures
        style_outcome(r, plan.style.template@, plan.style.progress_chars@),
        r matches Ok(bar) ==> bar_holds(bar, plan@),
{
    let style = match style_from(&plan.style) {
        Ok(style) => style,
        Err(e) => {
            return Err(e);
        },
    };
    let bar = ProgressBar::new(plan.length);
    let bar = with_finish(bar, plan.finish);
    let bar = with_prefix(bar, plan.prefix);
    let bar = bar.with_style(style);
    if plan.hidden {
        Ok(with_hidden_target(bar))
    } else {
        Ok(bar)
    }
}

/// The style of the line for a scale, a postfix and the glyphs of the bar:
/// the style of `style_plan_of`, that is the template of the line, a writer
/// for each slot of `slots_of`, and the glyphs.
pub fn style(unit_scale: Scale, postfix: &str, glyphs: &str) -> (r: Result<
    ProgressStyle,
    BarError,
>)
    ensures
        style_outcome(r, template_text(), glyphs@),
        r matches Ok(made) ==> style_holds(made, style_plan_of(unit_scale, postfix@, glyphs@)),
{
    proof {
        lemma_template_digit_free();
    }
    style_from(&style_plan(unit_scale, postfix, glyphs))
}

/// The bar of `plan_of` for a configuration, at a length that the caller
/// has settled.
pub fn progress_bar_at(config: &Config, length: u64) -> (r: Result<ProgressBar, BarError>)
    ensures
        style_outcome(r, template_text(), config@.progress_chars),
        r matches Ok(bar) ==> bar_holds(bar, plan_of(config@, length)),
{
    proof {
        lemma_template_digit_free();
    }
    bar_from(plan(config, length))
}

/// What `progress_bar` comes to.
pub open spec fn bar_outcome<T>(
    outcome: Result<T, BarError>,
    length: Option<u64>,
    glyphs: Seq<char>,
) -> bool {
    match length {
        Some(_) => style_outcome(outcome, template_text(), glyphs),
        None => outcome == Err::<T, BarError>(BarError::FloatLength),
    }
}

/// The bar for a configuration and the length of what is wrapped. Its
/// length is `length_of`, and the rest is the bar of `plan_of` at that
/// length.
pub fn progress_bar(config: Config, iter_len: usize) -> (r: Result<ProgressBar, BarError>)
    ensures
        bar_outcome(
            r,
            length_of(config@.total, config@.unit_scale, iter_len as nat),
            config@.progress_chars,
        ),
        r matches Ok(bar) ==> bar_holds(
            bar,
            plan_of(
                config@,
                length_of(config@.total, config@.unit_scale, iter_len as nat).unwrap(),
            ),
        ),
{
    match bar_length(config.total, config.unit_scale, iter_len) {
        Some(length) => progress_bar_at(&config, length),
        None => Err(BarError::FloatLength),
    }
}

} // verus!
