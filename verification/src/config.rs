//! The options of a bar, set one at a time.

use vstd::prelude::*;
use crate::scale::Scale;

verus! {

/// What a bar does with its line once it has finished.
#[derive(Clone, Copy, Debug, PartialEq, Eq, Structural)]
pub enum Finish {
    /// The line stays on the screen.
    Leave,
    /// The line is cleared.
    Clear,
}

/// The options of a progress bar.
///
/// Each setter takes the configuration and gives it back with one option
/// changed; none checks what it is given.
#[derive(Debug)]
pub struct Config {
    /// Placed at the start of the line (default: empty).
    pub prefix: String,
    /// The expected number of steps, in place of the length of what is
    /// wrapped (default: none).
    pub total: Option<Scale>,
    /// Whether the line stays after the bar has finished (default: true).
    pub leave: bool,
    /// Whether nothing is drawn (default: false).
    pub disable: bool,
    /// The unit of the rate (default: "it").
    pub unit: String,
    /// Multiplies the position, the length and the rate before they are
    /// shown (default: the integer 1).
    pub unit_scale: Scale,
    /// Placed at the end of the line (default: empty).
    pub postfix: String,
    /// The glyphs of the bar, from full to empty.
    pub progress_chars: String,
}

/// A configuration as the contracts see it: its texts as sequences of
/// characters.
pub struct ConfigView {
    pub prefix: Seq<char>,
    pub total: Option<Scale>,
    pub leave: bool,
    pub disable: bool,
    pub unit: Seq<char>,
    pub unit_scale: Scale,
    pub postfix: Seq<char>,
    pub progress_chars: Seq<char>,
}

impl View for Config {
    type V = ConfigView;

    open spec fn view(&self) -> ConfigView {
        ConfigView {
            prefix: self.prefix@,
            total: self.total,
            leave: self.leave,
            disable: self.disable,
            unit: self.unit@,
            unit_scale: self.unit_scale,
            postfix: self.postfix@,
            progress_chars: self.progress_chars@,
        }
    }
}

/// What a description carries behind it as a prefix.
pub open spec fn desc_mark() -> Seq<char> {
    seq![':', ' ']
}

/// What a postfix carries before it.
pub open spec fn postfix_mark() -> Seq<char> {
    seq![',', ' ']
}

/// The postfix that is kept for a text: the mark and the text, and nothing
/// for an empty text.
pub open spec fn marked_postfix(text: Seq<char>) -> Seq<char> {
    if text.len() == 0 {
        text
    } else {
        postfix_mark() + text
    }
}

/// A prefix made from a description ends in `": "`, and what stands before
/// that is the description.
pub proof fn lemma_desc_ends_in_mark(desc: Seq<char>)
    ensures
        (desc + desc_mark()).len() == desc.len() + 2,
        (desc + desc_mark()).subrange(desc.len() as int, desc.len() as int + 2) == desc_mark(),
        (desc + desc_mark()).subrange(0, desc.len() as int) == desc,
{
    let prefix = desc + desc_mark();
    assert(prefix.subrange(desc.len() as int, desc.len() as int + 2) =~= desc_mark());
    assert(prefix.subrange(0, desc.len() as int) =~= desc);
}

/// A postfix that was set through `with_postfix` is empty exactly for an
/// empty text, and else begins with `", "` and goes on with the text.
pub proof fn lemma_postfix_begins_with_mark(text: Seq<char>)
    ensures
        marked_postfix(text).len() == 0 <==> text.len() == 0,
        text.len() > 0 ==> marked_postfix(text).subrange(0, 2) == postfix_mark(),
        text.len() > 0 ==> marked_postfix(text).subrange(2, text.len() as int + 2) == text,
{
    if text.len() > 0 {
        assert(marked_postfix(text).subrange(0, 2) =~= postfix_mark());
        assert(marked_postfix(text).subrange(2, text.len() as int + 2) =~= text);
    }
}

/// The glyphs of a bar that was given none: eight blocks from full to thin,
/// then a space.
pub open spec fn default_glyphs() -> Seq<char> {
    "█▉▊▋▌▍▎▏ "@
}

/// The configuration that `Config::new` gives.
pub open spec fn default_view() -> ConfigView {
    ConfigView {
        prefix: Seq::empty(),
        total: None,
        leave: true,
        disable: false,
        unit: "it"@,
        unit_scale: Scale::Integer(1),
        postfix: Seq::empty(),
        progress_chars: default_glyphs(),
    }
}

impl Default for Config {
    fn default() -> (r: Config)
        ensures
            r@ == default_view(),
    {
        Config {
            total: None,
            prefix: String::new(),
            leave: true,
            disable: false,
            unit: String::from_str("it"),
            unit_scale: Scale::Integer(1),
            postfix: String::new(),
            progress_chars: String::from_str("█▉▊▋▌▍▎▏ "),
        }
    }
}

impl Clone for Config {
    fn clone(&self) -> (r: Config)
        ensures
            r@ == self@,
    {
        Config {
            prefix: self.prefix.clone(),
            total: self.total,
            leave: self.leave,
            disable: self.disable,
            unit: self.unit.clone(),
            unit_scale: self.unit_scale,
            postfix: self.postfix.clone(),
            progress_chars: self.progress_chars.clone(),
        }
    }
}

impl Config {
    /// The default configuration.
    pub fn new() -> (r: Config)
        ensures
            r@ == default_view(),
    {
        Config::default()
    }

    /// Sets the text at the start of the line.
    pub fn with_prefix(self, prefix: &str) -> (r: Config)
        ensures
            r@ == (ConfigView { prefix: prefix@, ..self@ }),
    {
        let mut config = self;
        config.prefix = String::from_str(prefix);
        config
    }

    /// Sets the text at the start of the line to a description: the text
    /// with `": "` behind it.
    pub fn with_desc(self, desc: &str) -> (r: Config)
        ensures
            r@ == (ConfigView { prefix: desc@ + desc_mark(), ..self@ }),
    {
        proof {
            reveal_strlit(": ");
        }
        let mut prefix = String::from_str(desc);
        prefix.append(": ");
        assert(prefix@ =~= desc@ + desc_mark());
        self.with_prefix(prefix.as_str())
    }

    /// Sets the expected number of steps.
    pub fn with_total(self, total: Scale) -> (r: Config)
        ensures
            r@ == (ConfigView { total: Some(total), ..self@ }),
    {
        let mut config = self;
        config.total = Some(total);
        config
    }

    /// Sets whether the line stays after the bar has finished.
    pub fn with_leave(self, leave: bool) -> (r: Config)
        ensures
            r@ == (ConfigView { leave: leave, ..self@ }),
    {
        let mut config = self;
        config.leave = leave;
        config
    }

    /// Sets whether nothing is drawn.
    pub fn with_disable(self, disable: bool) -> (r: Config)
        ensures
            r@ == (ConfigView { disable: disable, ..self@ }),
    {
        let mut config = self;
        config.disable = disable;
        config
    }

    /// Sets the unit of the rate.
    pub fn with_unit(self, unit: &str) -> (r: Config)
        ensures
            r@ == (ConfigView { unit: unit@, ..self@ }),
    {
        let mut config = self;
        config.unit = String::from_str(unit);
        config
    }

    /// Sets the multiplier of the position, the length and the rate.
    pub fn with_scale(self, scale: Scale) -> (r: Config)
        ensures
            r@ == (ConfigView { unit_scale: scale, ..self@ }),
    {
        let mut config = self;
        config.unit_scale = scale;
        config
    }

    /// Sets the text at the end of the line: the text with `", "` before it,
    /// and nothing for an empty text.
    pub fn with_postfix(self, postfix: &str) -> (r: Config)
        ensures
            r@ == (ConfigView { postfix: marked_postfix(postfix@), ..self@ }),
    {
        let mut config = self;
        if postfix.unicode_len() == 0 {
            config.postfix = String::from_str(postfix);
        } else {
            proof {
                reveal_strlit(", ");
            }
            let mut marked = String::from_str(", ");
            marked.append(postfix);
            assert(marked@ =~= postfix_mark() + postfix@);
            config.postfix = marked;
        }
        config
    }

    /// Sets the glyphs of the bar, from full to empty.
    pub fn with_progress_chars(self, progress_chars: &str) -> (r: Config)
        ensures
            r@ == (ConfigView { progress_chars: progress_chars@, ..self@ }),
    {
        let mut config = self;
        config.progress_chars = String::from_str(progress_chars);
        config
    }

    /// What the bar does with its line once it has finished.
    pub fn progress_finish(&self) -> (r: Finish)
        ensures
            r == (if self.leave {
                Finish::Leave
            } else {
                Finish::Clear
            }),
    {
        if self.leave {
            Finish::Leave
        } else {
            Finish::Clear
        }
    }
}

} // verus!
