//! What a configuration asks of a bar, settled before any bar is made.

use vstd::prelude::*;
use crate::config::{Config, ConfigView, Finish};
use crate::scale::Scale;
use crate::slots::{template, template_text, Slot, SlotView};

verus! {

/// The integer `n` as a length: zero for a negative number, the largest
/// length for one beyond it.
pub open spec fn clamped(n: int) -> u64 {
    if n < 0 {
        0
    } else if n > u64::MAX {
        u64::MAX
    } else {
        n as u64
    }
}

/// The length of the bar. An explicit total goes before the length of what
/// is wrapped, and is itself multiplied by the scale. Where the total or the
/// scale is a double the product is no integer computation, and there is
/// none.
pub open spec fn length_of(total: Option<Scale>, scale: Scale, iter_len: nat) -> Option<u64> {
    match total {
        None => Some(clamped(iter_len as int)),
        Some(Scale::Integer(t)) => match scale {
            Scale::Integer(k) => Some(clamped(t * k)),
            Scale::Float(_) => None,
        },
        Some(Scale::Float(_)) => None,
    }
}

/// Settles the length of the bar.
pub fn bar_length(total: Option<Scale>, scale: Scale, iter_len: usize) -> (r: Option<u64>)
    ensures
        r == length_of(total, scale, iter_len as nat),
        total is None ==> r == Some(iter_len as u64),
{
    match total {
        None => Some(iter_len as u64),
        Some(Scale::Integer(t)) => match scale {
            Scale::Integer(k) => {
                assert(-0x8000_0000_0000_0000 * 0x8000_0000_0000_0000 <= t * k
                    <= 0x8000_0000_0000_0000 * 0x8000_0000_0000_0000) by (nonlinear_arith)
                    requires
                        -0x8000_0000_0000_0000 <= t <= 0x7fff_ffff_ffff_ffff,
                        -0x8000_0000_0000_0000 <= k <= 0x7fff_ffff_ffff_ffff,
                ;
                let product: i128 = (t as i128) * (k as i128);
                if product < 0 {
                    Some(0)
                } else if product > u64::MAX as i128 {
                    Some(u64::MAX)
                } else {
                    Some(product as u64)
                }
            },
            Scale::Float(_) => None,
        },
        Some(Scale::Float(_)) => None,
    }
}

/// The slots that this library writes for a scale and a postfix, in the
/// order in which they are handed to the style: the percentage and the two
/// times, the two counts where the scale is an integer, and the postfix.
pub open spec fn slots_of(scale: Scale, postfix: Seq<char>) -> Seq<SlotView> {
    let counts = match scale {
        Scale::Integer(k) => seq![SlotView::Position(k), SlotView::Length(k)],
        Scale::Float(_) => Seq::empty(),
    };
    seq![SlotView::Percent, SlotView::Elapsed, SlotView::Eta] + counts + seq![
        SlotView::Postfix(postfix),
    ]
}

/// Slots as the contracts see them.
pub open spec fn slot_views(slots: Seq<Slot>) -> Seq<SlotView> {
    slots.map_values(|slot: Slot| slot@)
}

/// The writers that a style holds once each slot of a list has been put
/// under its key, one after the other: a later slot takes the place of an
/// earlier one under the same key.
pub open spec fn slots_by_key(slots: Seq<SlotView>) -> Map<Seq<char>, SlotView>
    decreases slots.len(),
{
    if slots.len() == 0 {
        Map::empty()
    } else {
        slots_by_key(slots.drop_last()).insert(slots.last().key(), slots.last())
    }
}

/// Lists the slots that this library writes.
pub fn slots(scale: Scale, postfix: &str) -> (r: Vec<Slot>)
    ensures
        slot_views(r@) == slots_of(scale, postfix@),
{
    let mut r: Vec<Slot> = Vec::new();
    r.push(Slot::Percent);
    r.push(Slot::Elapsed);
    r.push(Slot::Eta);
    match scale {
        Scale::Integer(k) => {
            r.push(Slot::Position(k));
            r.push(Slot::Length(k));
        },
        Scale::Float(_) => {},
    }
    r.push(Slot::Postfix(String::from_str(postfix)));
    assert(slot_views(r@) =~= slots_of(scale, postfix@));
    r
}

/// What is handed to indicatif for the style of a bar.
#[derive(Debug)]
pub struct StylePlan {
    /// The template of the line.
    pub template: String,
    /// The slots that this library writes, each under its key.
    pub slots: Vec<Slot>,
    /// The glyphs of the bar, from full to empty.
    pub progress_chars: String,
}

/// A style plan as the contracts see it.
pub struct StylePlanView {
    pub template: Seq<char>,
    pub slots: Seq<SlotView>,
    pub progress_chars: Seq<char>,
}

impl View for StylePlan {
    type V = StylePlanView;

    open spec fn view(&self) -> StylePlanView {
        StylePlanView {
            template: self.template@,
            slots: slot_views(self.slots@),
            progress_chars: self.progress_chars@,
        }
    }
}

/// What is handed to indicatif for a bar.
#[derive(Debug)]
pub struct BarPlan {
    /// The length of the bar.
    pub length: u64,
    /// What becomes of the line once the bar has finished.
    pub finish: Finish,
    /// The text at the start of the line.
    pub prefix: String,
    /// Whether the bar draws to a hidden target. Its position and length
    /// are kept all the same.
    pub hidden: bool,
    /// The style of the bar.
    pub style: StylePlan,
}

/// A bar plan as the contracts see it.
pub struct BarPlanView {
    pub length: u64,
    pub finish: Finish,
    pub prefix: Seq<char>,
    pub hidden: bool,
    pub style: StylePlanView,
}

impl View for BarPlan {
    type V = BarPlanView;

    open spec fn view(&self) -> BarPlanView {
        BarPlanView {
            length: self.length,
            finish: self.finish,
            prefix: self.prefix@,
            hidden: self.hidden,
            style: self.style@,
        }
    }
}

/// The style that a scale, a postfix and a set of glyphs ask for.
pub open spec fn style_plan_of(
    scale: Scale,
    postfix: Seq<char>,
    progress_chars: Seq<char>,
) -> StylePlanView {
    StylePlanView {
        template: template_text(),
        slots: slots_of(scale, postfix),
        progress_chars: progress_chars,
    }
}

/// The bar that a configuration asks for, at a length.
pub open spec fn plan_of(config: ConfigView, length: u64) -> BarPlanView {
    BarPlanView {
        length: length,
        finish: if config.leave {
            Finish::Leave
        } else {
            Finish::Clear
        },
        prefix: config.prefix,
        hidden: config.disable,
        style: style_plan_of(config.unit_scale, config.postfix, config.progress_chars),
    }
}

/// Settles the style for a scale, a postfix and a set of glyphs.
pub fn style_plan(scale: Scale, postfix: &str, progress_chars: &str) -> (r: StylePlan)
    ensures
        r@ == style_plan_of(scale, postfix@, progress_chars@),
{
    StylePlan {
        template: String::from_str(template()),
        slots: slots(scale, postfix),
        progress_chars: String::from_str(progress_chars),
    }
}

/// Settles the bar for a configuration, at a length.
pub fn plan(config: &Config, length: u64) -> (r: BarPlan)
    ensures
        r@ == plan_of(config@, length),
{
    BarPlan {
        length: length,
        finish: config.progress_finish(),
        prefix: config.prefix.clone(),
        hidden: config.disable,
        style: style_plan(
            config.unit_scale,
            config.postfix.as_str(),
            config.progress_chars.as_str(),
        ),
    }
}

/// Without an explicit total the bar is as long as what is wrapped,
/// whatever the scale.
pub proof fn lemma_length_without_total(scale: Scale, iter_len: usize)
    ensures
        length_of(None, scale, iter_len as nat) == Some(iter_len as u64),
{
}

/// An explicit total goes before the length of what is wrapped: with one,
/// the length of the bar is the same for every source.
pub proof fn lemma_total_goes_first(total: Scale, scale: Scale, a: usize, b: usize)
    ensures
        length_of(Some(total), scale, a as nat) == length_of(Some(total), scale, b as nat),
{
}

/// To disable a bar changes where it draws and nothing else: length,
/// finish, prefix and style are those of the bar that draws.
pub proof fn lemma_disable_only_hides(config: ConfigView, disable: bool, length: u64)
    ensures
        plan_of(ConfigView { disable: disable, ..config }, length) == (BarPlanView {
            hidden: disable,
            ..plan_of(config, length)
        }),
{
}

/// The line of a bar is cleared at its finish exactly where the
/// configuration does not leave it, and left exactly where it does.
pub proof fn lemma_finish_follows_leave(config: ConfigView, length: u64)
    ensures
        plan_of(config, length).finish == Finish::Clear <==> !config.leave,
        plan_of(config, length).finish == Finish::Leave <==> config.leave,
{
}

/// Slots of different sorts have different keys.
pub proof fn lemma_key_tells_sort(a: SlotView, b: SlotView)
    ensures
        a.key() == b.key() ==> (a is Percent <==> b is Percent) && (a is Elapsed <==> b is Elapsed)
            && (a is Eta <==> b is Eta) && (a is Position <==> b is Position) && (a is Length
            <==> b is Length) && (a is Postfix <==> b is Postfix),
{
    reveal_strlit("percent");
    reveal_strlit("elapsed");
    reveal_strlit("eta");
    reveal_strlit("pos");
    reveal_strlit("len");
    reveal_strlit("postfix");
    assert("percent"@[0] == 'p' && "percent"@[1] == 'e');
    assert("elapsed"@[0] == 'e' && "elapsed"@[1] == 'l');
    assert("postfix"@[0] == 'p' && "postfix"@[1] == 'o');
    assert("pos"@[0] == 'p' && "len"@[0] == 'l' && "eta"@[0] == 'e');
    assert("percent"@.len() == 7 && "elapsed"@.len() == 7 && "postfix"@.len() == 7);
    assert("pos"@.len() == 3 && "len"@.len() == 3 && "eta"@.len() == 3);
    if a.key() == b.key() {
        assert(a.key().len() == b.key().len());
        assert(a.key()[0] == b.key()[0]);
        assert(a.key()[1] == b.key()[1]);
    }
}

/// No two of the slots that this library writes share a key, so no writer
/// takes the place of another in the style.
pub proof fn lemma_slot_keys_differ(scale: Scale, postfix: Seq<char>, i: int, j: int)
    requires
        0 <= i < j < slots_of(scale, postfix).len(),
    ensures
        slots_of(scale, postfix)[i].key() != slots_of(scale, postfix)[j].key(),
{
    let listed = slots_of(scale, postfix);
    match scale {
        Scale::Integer(k) => {
            assert(listed =~= seq![
                SlotView::Percent,
                SlotView::Elapsed,
                SlotView::Eta,
                SlotView::Position(k),
                SlotView::Length(k),
                SlotView::Postfix(postfix),
            ]);
        },
        Scale::Float(_) => {
            assert(listed =~= seq![
                SlotView::Percent,
                SlotView::Elapsed,
                SlotView::Eta,
                SlotView::Postfix(postfix),
            ]);
        },
    }
    lemma_key_tells_sort(listed[i], listed[j]);
}

/// Where no two slots of a list share a key, each of them is found under
/// its own key once all have been put into a style.
pub proof fn lemma_slots_by_key_holds_each(slots: Seq<SlotView>, i: int)
    requires
        0 <= i < slots.len(),
        forall|a: int, b: int| 0 <= a < b < slots.len() ==> slots[a].key() != slots[b].key(),
    ensures
        slots_by_key(slots).contains_key(slots[i].key()),
        slots_by_key(slots)[slots[i].key()] == slots[i],
    decreases slots.len(),
{
    if i < slots.len() - 1 {
        let front = slots.drop_last();
        assert forall|a: int, b: int| 0 <= a < b < front.len() implies front[a].key()
            != front[b].key() by {
            assert(front[a] == slots[a] && front[b] == slots[b]);
        }
        lemma_slots_by_key_holds_each(front, i);
        assert(front[i] == slots[i]);
    }
}

/// Each slot that this library writes is found under its own key in the
/// style: none is lost to another.
pub proof fn lemma_every_slot_is_written(scale: Scale, postfix: Seq<char>, i: int)
    requires
        0 <= i < slots_of(scale, postfix).len(),
    ensures
        slots_by_key(slots_of(scale, postfix)).contains_key(slots_of(scale, postfix)[i].key()),
        slots_by_key(slots_of(scale, postfix))[slots_of(scale, postfix)[i].key()] == slots_of(
            scale,
            postfix,
        )[i],
{
    let listed = slots_of(scale, postfix);
    assert forall|a: int, b: int| 0 <= a < b < listed.len() implies listed[a].key()
        != listed[b].key() by {
        lemma_slot_keys_differ(scale, postfix, a, b);
    }
    lemma_slots_by_key_holds_each(listed, i);
}

} // verus!
