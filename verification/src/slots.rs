//! The fields of the progress line, each a text computed from the state of
//! the bar at the moment it is drawn.

use vstd::prelude::*;
use crate::text::{decimal, digits, integer_text, natural_text, pad_left, pad_start};

verus! {

/// What a bar holds at one moment, as far as its line shows it.
#[derive(Clone, Copy, Debug, PartialEq, Eq, Structural)]
pub struct Snapshot {
    /// Steps done so far.
    pub position: u64,
    /// Steps to do, where that is known.
    pub length: Option<u64>,
    /// Whole seconds since the bar started.
    pub elapsed_secs: u64,
    /// Whole seconds that the rest is expected to take.
    pub eta_secs: u64,
}

/// The percentage done, rounded down; none where the length is unknown or
/// zero, so that nothing is ever divided by zero.
pub open spec fn percent_of(position: nat, length: Option<nat>) -> Option<nat> {
    match length {
        Some(l) => if l > 0 {
            Some(position * 100 / l)
        } else {
            None
        },
        None => None,
    }
}

/// What stands in the percentage field while there is no percentage.
pub open spec fn indeterminate() -> Seq<char> {
    seq![' ', ' ', '0']
}

/// The percentage field: the percentage right-aligned in three columns, or
/// the indeterminate text.
pub open spec fn percent_text(position: nat, length: Option<nat>) -> Seq<char> {
    match percent_of(position, length) {
        Some(p) => pad_left(digits(p), 3, ' '),
        None => indeterminate(),
    }
}

/// A duration as minutes and seconds, two digits each at least. Minutes do
/// not roll over into hours: an hour and more widens the minutes.
pub open spec fn clock_text(secs: nat) -> Seq<char> {
    pad_left(digits(secs / 60), 2, '0') + seq![':'] + pad_left(digits(secs % 60), 2, '0')
}

/// The rate field: the number, the unit right behind it, and `/s`.
pub open spec fn rate_text(number: Seq<char>, unit: Seq<char>) -> Seq<char> {
    number + unit + seq!['/', 's']
}

/// The percentage field is three characters wide at least. With a length
/// above zero it is the padded numeral of the percentage, rounded down;
/// with a length of zero or none it is the indeterminate text, whatever the
/// position.
pub proof fn lemma_percent_text(position: nat, length: Option<nat>)
    ensures
        percent_text(position, length).len() >= 3,
        length matches Some(l) ==> l > 0 ==> percent_text(position, length) == pad_left(
            digits(position * 100 / l),
            3,
            ' ',
        ),
        length is None || length == Some(0nat) ==> percent_text(position, length)
            == indeterminate(),
{
}

/// Computes the percentage done.
pub fn percent(position: u64, length: Option<u64>) -> (r: Option<u128>)
    ensures
        r matches Some(p) ==> percent_of(position as nat, lift(length)) == Some(p as nat),
        r is None ==> percent_of(position as nat, lift(length)) is None,
{
    match length {
        Some(l) => if l > 0 {
            Some((position as u128) * 100 / (l as u128))
        } else {
            None
        },
        None => None,
    }
}

/// A length as the contracts take it.
pub open spec fn lift(length: Option<u64>) -> Option<nat> {
    match length {
        Some(l) => Some(l as nat),
        None => None,
    }
}

/// Writes the percentage field.
pub fn percent_slot(position: u64, length: Option<u64>) -> (r: String)
    ensures
        r@ == percent_text(position as nat, lift(length)),
{
    match percent(position, length) {
        Some(p) => {
            let number = natural_text(p);
            proof {
                reveal_strlit(" ");
            }
            pad_start(number.as_str(), 3, " ")
        },
        None => {
            proof {
                reveal_strlit("  0");
            }
            let r = String::from_str("  0");
            assert(r@ =~= indeterminate());
            r
        },
    }
}

/// Writes a duration of whole seconds as minutes and seconds.
pub fn clock_slot(secs: u64) -> (r: String)
    ensures
        r@ == clock_text(secs as nat),
{
    proof {
        reveal_strlit("0");
        reveal_strlit(":");
    }
    let minutes = natural_text((secs / 60) as u128);
    let seconds = natural_text((secs % 60) as u128);
    let mut r = pad_start(minutes.as_str(), 2, "0");
    r.append(":");
    let tail = pad_start(seconds.as_str(), 2, "0");
    r.append(tail.as_str());
    assert(r@ =~= clock_text(secs as nat));
    r
}

/// Writes the rate field from the text of its number and the unit.
pub fn rate_slot(number: &str, unit: &str) -> (r: String)
    ensures
        r@ == rate_text(number@, unit@),
{
    proof {
        reveal_strlit("/s");
    }
    let mut r = String::from_str(number);
    r.append(unit);
    r.append("/s");
    assert(r@ =~= rate_text(number@, unit@));
    r
}

/// The line of a bar, in the template syntax of indicatif: the fields in
/// their fixed order, each name in braces, with the marks between them.
pub open spec fn template_text() -> Seq<char> {
    "{prefix}{percent}|{wide_bar}| {pos}/{len} [{elapsed}<{eta}, {per_sec}{postfix}]"@
}

/// The template of the line.
pub fn template() -> (r: &'static str)
    ensures
        r@ == template_text(),
{
    "{prefix}{percent}|{wide_bar}| {pos}/{len} [{elapsed}<{eta}, {per_sec}{postfix}]"
}

/// A field that this library writes itself. The prefix and the bar are
/// indicatif's own; the rate, and the two counts under a scale that is a
/// double, take floating-point arithmetic and are not among these.
#[derive(Debug)]
pub enum Slot {
    /// The percentage done.
    Percent,
    /// The time since the start.
    Elapsed,
    /// The time that the rest is expected to take.
    Eta,
    /// The position, times the integer scale.
    Position(i64),
    /// The length, or the position where no length is known, times the
    /// integer scale.
    Length(i64),
    /// The postfix, as it was configured.
    Postfix(String),
}

/// A slot as the contracts see it.
pub enum SlotView {
    Percent,
    Elapsed,
    Eta,
    Position(i64),
    Length(i64),
    Postfix(Seq<char>),
}

impl SlotView {
    /// The name under which the template refers to the slot.
    pub open spec fn key(self) -> Seq<char> {
        match self {
            SlotView::Percent => "percent"@,
            SlotView::Elapsed => "elapsed"@,
            SlotView::Eta => "eta"@,
            SlotView::Position(_) => "pos"@,
            SlotView::Length(_) => "len"@,
            SlotView::Postfix(_) => "postfix"@,
        }
    }

    /// What the slot shows for a state of the bar.
    pub open spec fn text(self, at: Snapshot) -> Seq<char> {
        match self {
            SlotView::Percent => percent_text(at.position as nat, lift(at.length)),
            SlotView::Elapsed => clock_text(at.elapsed_secs as nat),
            SlotView::Eta => clock_text(at.eta_secs as nat),
            SlotView::Position(k) => decimal(k * at.position),
            SlotView::Length(k) => decimal(k * shown_length(at)),
            SlotView::Postfix(text) => text,
        }
    }
}

/// How a template refers to a key: the key in braces.
pub open spec fn placeholder(key: Seq<char>) -> Seq<char> {
    seq!['{'] + key + seq!['}']
}

/// The line, field by field: the prefix, the percentage, the bar between
/// two strokes, position and length around a slash, and in square brackets
/// the time gone, the time to come, the rate and the postfix.
pub open spec fn layout() -> Seq<char> {
    placeholder("prefix"@) + placeholder(SlotView::Percent.key()) + seq!['|'] + placeholder(
        "wide_bar"@,
    ) + seq!['|', ' '] + placeholder(SlotView::Position(1).key()) + seq!['/'] + placeholder(
        SlotView::Length(1).key(),
    ) + seq![' ', '['] + placeholder(SlotView::Elapsed.key()) + seq!['<'] + placeholder(
        SlotView::Eta.key(),
    ) + seq![',', ' '] + placeholder("per_sec"@) + placeholder(
        SlotView::Postfix(Seq::empty()).key(),
    ) + seq![']']
}

/// The template of the line is its layout: every slot stands in it under
/// its own key, in the fixed order.
pub proof fn lemma_template_is_layout()
    ensures
        template_text() == layout(),
{
    reveal_strlit(
        "{prefix}{percent}|{wide_bar}| {pos}/{len} [{elapsed}<{eta}, {per_sec}{postfix}]",
    );
    reveal_strlit("prefix");
    reveal_strlit("percent");
    reveal_strlit("wide_bar");
    reveal_strlit("pos");
    reveal_strlit("len");
    reveal_strlit("elapsed");
    reveal_strlit("eta");
    reveal_strlit("per_sec");
    reveal_strlit("postfix");
    assert(template_text() =~= layout());
}

/// The length that the line shows: the length of the bar, and its position
/// where it has no length.
pub open spec fn shown_length(at: Snapshot) -> nat {
    match at.length {
        Some(l) => l as nat,
        None => at.position as nat,
    }
}

/// Picks the length that the line shows.
pub fn length_shown(at: &Snapshot) -> (r: u64)
    ensures
        r == shown_length(*at),
{
    match at.length {
        Some(l) => l,
        None => at.position,
    }
}

impl View for Slot {
    type V = SlotView;

    open spec fn view(&self) -> SlotView {
        match self {
            Slot::Percent => SlotView::Percent,
            Slot::Elapsed => SlotView::Elapsed,
            Slot::Eta => SlotView::Eta,
            Slot::Position(k) => SlotView::Position(*k),
            Slot::Length(k) => SlotView::Length(*k),
            Slot::Postfix(text) => SlotView::Postfix(text@),
        }
    }
}

impl Clone for Slot {
    fn clone(&self) -> (r: Self)
        ensures
            r@ == self@,
    {
        match self {
            Slot::Percent => Slot::Percent,
            Slot::Elapsed => Slot::Elapsed,
            Slot::Eta => Slot::Eta,
            Slot::Position(k) => Slot::Position(*k),
            Slot::Length(k) => Slot::Length(*k),
            Slot::Postfix(text) => Slot::Postfix(text.clone()),
        }
    }
}

/// Writes the product of an integer scale and a count.
pub fn count_slot(scale: i64, count: u64) -> (r: String)
    ensures
        r@ == decimal(scale * count),
{
    assert(-0x8000_0000_0000_0000 * 0xffff_ffff_ffff_ffff <= scale * count
        <= 0x7fff_ffff_ffff_ffff * 0xffff_ffff_ffff_ffff) by (nonlinear_arith)
        requires
            -0x8000_0000_0000_0000 <= scale <= 0x7fff_ffff_ffff_ffff,
            0 <= count <= 0xffff_ffff_ffff_ffff,
    ;
    integer_text((scale as i128) * (count as i128))
}

impl Slot {
    /// The name under which the template refers to the slot.
    pub fn key(&self) -> (r: &'static str)
        ensures
            r@ == self@.key(),
    {
        match self {
            Slot::Percent => "percent",
            Slot::Elapsed => "elapsed",
            Slot::Eta => "eta",
            Slot::Position(_) => "pos",
            Slot::Length(_) => "len",
            Slot::Postfix(_) => "postfix",
        }
    }

    /// Writes the slot for a state of the bar.
    pub fn render(&self, at: &Snapshot) -> (r: String)
        ensures
            r@ == self@.text(*at),
    {
        match self {
            Slot::Percent => percent_slot(at.position, at.length),
            Slot::Elapsed => clock_slot(at.elapsed_secs),
            Slot::Eta => clock_slot(at.eta_secs),
            Slot::Position(k) => count_slot(*k, at.position),
            Slot::Length(k) => count_slot(*k, length_shown(at)),
            Slot::Postfix(text) => text.clone(),
        }
    }
}

} // verus!
