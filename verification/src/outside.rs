//! What this library takes on trust from indicatif and unicode-width.
//!
//! Nothing here is proved. Each declaration names the function that it
//! stands for and says what is claimed of it; the calls themselves are all
//! there is in the bodies.
//!
//! A style and a bar of indicatif cannot be looked into. What is known of
//! one is what it was made with, and the names `given_*`, `written` and
//! `made_*` stand for that: each function that builds a style or a bar
//! says which of them it sets and that it keeps the others, and the two
//! that make one say what indicatif puts there of its own accord.

use vstd::prelude::*;
use indicatif::style::TemplateError;
use indicatif::{ProgressBar, ProgressDrawTarget, ProgressFinish, ProgressState, ProgressStyle};
use std::fmt::Write;
use unicode_width::UnicodeWidthStr;
use crate::bar::write_slot;
use crate::config::Finish;
use crate::slots::{Slot, SlotView};
use crate::text::is_digit;

verus! {

/// indicatif's `ProgressBar`, a handle on the shared state of one bar.
#[verifier::external_type_specification]
#[verifier::external_body]
pub struct ExProgressBar(ProgressBar);

/// indicatif's `ProgressStyle`: a template, glyphs and the writers of keys.
#[verifier::external_type_specification]
#[verifier::external_body]
pub struct ExProgressStyle(ProgressStyle);

/// indicatif's `ProgressState`, which a writer of a key is handed when the
/// line is drawn.
#[verifier::external_type_specification]
#[verifier::external_body]
pub struct ExProgressState(ProgressState);

/// indicatif's `TemplateError`, the refusal of a template.
#[verifier::external_type_specification]
#[verifier::external_body]
pub struct ExTemplateError(TemplateError);

/// Whether `ProgressStyle::with_template` takes a template.
pub uninterp spec fn template_accepted(template: Seq<char>) -> bool;

/// The columns that `UnicodeWidthStr::width` counts for the text of one
/// character.
pub uninterp spec fn glyph_width(glyph: char) -> usize;

/// The template that a style was made from.
pub uninterp spec fn given_template(style: ProgressStyle) -> Seq<char>;

/// The writers that a style was given, each under its key. A writer stands
/// here as the slot that it writes.
pub uninterp spec fn written(style: ProgressStyle) -> Map<Seq<char>, SlotView>;

/// The glyphs that a style was made with for its bar: those that it was
/// given, and indicatif's own where it was given none.
pub uninterp spec fn given_glyphs(style: ProgressStyle) -> Seq<char>;

/// The length that a bar was made with. This and the names that follow say
/// what a bar was made with, not what the state that it shares with its
/// clones holds at a later moment.
pub uninterp spec fn made_length(bar: ProgressBar) -> Option<u64>;

/// What a bar was made to do with its line at its finish, where that is
/// one of the two that this library names: `Leave` for indicatif's
/// `AndLeave`, `Clear` for its `AndClear`, and none for its other three.
pub uninterp spec fn made_finish(bar: ProgressBar) -> Option<Finish>;

/// The prefix that a bar was made with.
pub uninterp spec fn made_prefix(bar: ProgressBar) -> Seq<char>;

/// Whether a bar was given the hidden target to draw to.
pub uninterp spec fn made_hidden(bar: ProgressBar) -> bool;

/// The template of the style that a bar was made with.
pub uninterp spec fn made_template(bar: ProgressBar) -> Seq<char>;

/// The writers of the style that a bar was made with.
pub uninterp spec fn made_written(bar: ProgressBar) -> Map<Seq<char>, SlotView>;

/// The glyphs of the style that a bar was made with.
pub uninterp spec fn made_glyphs(bar: ProgressBar) -> Seq<char>;

/// The glyphs that indicatif gives to a style of its own accord: a full
/// block and a light shade.
pub open spec fn indicatif_glyphs() -> Seq<char> {
    seq!['\u{2588}', '\u{2591}']
}

/// The template of the style that indicatif gives to a new bar.
pub open spec fn indicatif_bar_template() -> Seq<char> {
    "{wide_bar} {pos}/{len}"@
}

/// No writer under any key.
pub open spec fn no_slots() -> Map<Seq<char>, SlotView> {
    Map::empty()
}

/// The empty text.
pub open spec fn no_text() -> Seq<char> {
    Seq::empty()
}

/// Whether a text holds no decimal digit.
pub open spec fn digit_free(text: Seq<char>) -> bool {
    forall|i: int| 0 <= i < text.len() ==> !is_digit(#[trigger] text[i])
}

/// Whether glyphs can make a bar: two at least, all of one width.
pub open spec fn uniform_glyphs(glyphs: Seq<char>) -> bool {
    &&& glyphs.len() >= 2
    &&& forall|i: int|
        0 <= i < glyphs.len() ==> glyph_width(#[trigger] glyphs[i]) == glyph_width(glyphs[0])
}

/// `ProgressStyle::with_template`: parses a template into a style, or
/// refuses it. Which of the two depends on the template alone. The style
/// is made from that template, with no writer and with indicatif's own two
/// glyphs. A width in a template is parsed with a panic on overflow, so
/// templates with digits are kept away.
#[verifier::external_body]
pub(crate) fn with_template(template: &str) -> (r: Result<ProgressStyle, TemplateError>)
    requires
        digit_free(template@),
    ensures
        r is Ok <==> template_accepted(template@),
        r matches Ok(style) ==> given_template(style) == template@,
        r matches Ok(style) ==> written(style) == no_slots(),
        r matches Ok(style) ==> given_glyphs(style) == indicatif_glyphs(),
{
    ProgressStyle::with_template(template)
}

/// `ProgressStyle::with_key`: the style with a writer put under a key, in
/// place of what stood under that key, and the rest as it was. Whenever
/// indicatif draws that key it hands the state of the bar to `write_slot`
/// with the slot, and prints what comes back.
#[verifier::external_body]
pub(crate) fn with_key(style: ProgressStyle, key: &'static str, slot: Slot) -> (r: ProgressStyle)
    ensures
        written(r) == written(style).insert(key@, slot@),
        given_template(r) == given_template(style),
        given_glyphs(r) == given_glyphs(style),
{
    style.with_key(key, move |state: &ProgressState, w: &mut dyn Write| {
        let _ = w.write_str(write_slot(&slot, state).as_str());
    })
}

/// `UnicodeWidthStr::width` on the text of one character: the columns that
/// the character takes, which is how indicatif measures a glyph.
#[verifier::external_body]
pub(crate) fn measure(glyph: char) -> (w: usize)
    ensures
        w == glyph_width(glyph),
{
    UnicodeWidthStr::width(glyph.to_string().as_str())
}

/// `ProgressStyle::progress_chars`: the style with other glyphs for its
/// bar, and the rest as it was. indicatif panics on fewer than two glyphs
/// and on glyphs of unequal widths, so those are kept away.
#[verifier::external_body]
pub(crate) fn progress_chars(style: ProgressStyle, glyphs: &str) -> (r: ProgressStyle)
    requires
        uniform_glyphs(glyphs@),
    ensures
        given_glyphs(r) == glyphs@,
        given_template(r) == given_template(style),
        written(r) == written(style),
{
    style.progress_chars(glyphs)
}

/// `ProgressBar::new`: a bar of a length at position zero, which draws to
/// the standard error stream and not to the hidden target. It has an empty
/// prefix, clears its line at its finish, and has the style that indicatif
/// gives to a bar: its own template and glyphs, and no writer.
pub assume_specification[ ProgressBar::new ](len: u64) -> (r: ProgressBar)
    ensures
        made_length(r) == Some(len),
        made_finish(r) == Some(Finish::Clear),
        made_prefix(r) == no_text(),
        !made_hidden(r),
        made_template(r) == indicatif_bar_template(),
        made_written(r) == no_slots(),
        made_glyphs(r) == indicatif_glyphs(),
;

/// `ProgressBar::with_style`: the bar, with its style replaced by the one
/// given, and the rest as it was.
pub assume_specification[ ProgressBar::with_style ](
    progress: ProgressBar,
    look: ProgressStyle,
) -> (r: ProgressBar)
    ensures
        made_template(r) == given_template(look),
        made_written(r) == written(look),
        made_glyphs(r) == given_glyphs(look),
        made_length(r) == made_length(progress),
        made_finish(r) == made_finish(progress),
        made_prefix(r) == made_prefix(progress),
        made_hidden(r) == made_hidden(progress),
;

/// `ProgressBar::with_finish`: the bar, with what it does to its line once
/// it has finished, and the rest as it was.
#[verifier::external_body]
pub(crate) fn with_finish(bar: ProgressBar, finish: Finish) -> (r: ProgressBar)
    ensures
        made_finish(r) == Some(finish),
        made_length(r) == made_length(bar),
        made_prefix(r) == made_prefix(bar),
        made_hidden(r) == made_hidden(bar),
        made_template(r) == made_template(bar),
        made_written(r) == made_written(bar),
        made_glyphs(r) == made_glyphs(bar),
{
    bar.with_finish(
        match finish {
            Finish::Leave => ProgressFinish::AndLeave,
            Finish::Clear => ProgressFinish::AndClear,
        },
    )
}

/// `ProgressBar::with_prefix`: the bar, with the text of its prefix, and
/// the rest as it was.
#[verifier::external_body]
pub(crate) fn with_prefix(bar: ProgressBar, prefix: String) -> (r: ProgressBar)
    ensures
        made_prefix(r) == prefix@,
        made_length(r) == made_length(bar),
        made_finish(r) == made_finish(bar),
        made_hidden(r) == made_hidden(bar),
        made_template(r) == made_template(bar),
        made_written(r) == made_written(bar),
        made_glyphs(r) == made_glyphs(bar),
{
    bar.with_prefix(prefix)
}

/// `ProgressBar::set_draw_target` with `ProgressDrawTarget::hidden`: the
/// bar draws nothing from here on, and the rest is as it was.
#[verifier::external_body]
pub(crate) fn with_hidden_target(bar: ProgressBar) -> (r: ProgressBar)
    ensures
        made_hidden(r),
        made_length(r) == made_length(bar),
        made_finish(r) == made_finish(bar),
        made_prefix(r) == made_prefix(bar),
        made_template(r) == made_template(bar),
        made_written(r) == made_written(bar),
        made_glyphs(r) == made_glyphs(bar),
{
    bar.set_draw_target(ProgressDrawTarget::hidden());
    bar
}

/// `ProgressState::pos`: the position of the bar at this moment.
pub assume_specification[ ProgressState::pos ](state: &ProgressState) -> u64;

/// `ProgressState::len`: the length of the bar at this moment.
pub assume_specification[ ProgressState::len ](state: &ProgressState) -> Option<u64>;

/// `ProgressState::elapsed`, in whole seconds.
#[verifier::external_body]
pub(crate) fn elapsed_secs(state: &ProgressState) -> u64 {
    state.elapsed().as_secs()
}

/// `ProgressState::eta`, in whole seconds.
#[verifier::external_body]
pub(crate) fn eta_secs(state: &ProgressState) -> u64 {
    state.eta().as_secs()
}

} // verus!
