//! The DIMJOGLINE command's steps: pick a linear or aligned dimension (or
//! switch to removing a jog), then pick the jog's location or accept the
//! default one with Enter. The jog is handed to the drawing as a marker
//! whose layer name carries the dimension's handle and the location.
use vstd::prelude::*;

use crate::text::{ascii_upper_seq, chars_eq_str, chars_of, decimal, decimal_chars, extend_chars, str_trim, string_of, trimmed, upper_ascii_char};

verus! {

/// The step the command is at.
#[derive(Clone, Copy, Debug, PartialEq, Eq, Structural)]
pub enum JogStep {
    /// Waiting for the dimension.
    PickDim,
    /// Waiting for the jog's location on dimension `handle`.
    PickJogPos { handle: u64 },
}

/// Where the jog goes.
#[derive(Clone, Copy, Debug, PartialEq, Eq, Structural)]
pub enum JogAt {
    /// At the picked point.
    Point,
    /// At the dimension's default jog position.
    Default,
    /// Nowhere: the dimension's jog is removed.
    Remove,
}

/// What a step of the command answers.
#[derive(Clone, Copy, Debug, PartialEq, Eq, Structural)]
pub enum JogResult {
    /// The picked entity is not a linear or aligned dimension.
    NotADimension,
    /// Ask for another point.
    NeedPoint,
    /// Replace dimension `handle`'s jog.
    Mark { handle: u64, at: JogAt },
    /// End without a change.
    Cancel,
}

/// The DIMJOGLINE command's state.
pub struct DimJogLineCommand {
    pub step: JogStep,
    pub remove: bool,
    /// A linear or aligned dimension was picked.
    pub has_dimension: bool,
}

impl DimJogLineCommand {
    /// A new command, waiting for the dimension.
    pub fn new() -> (c: Self)
        ensures
            c.step == JogStep::PickDim,
            !c.remove,
            !c.has_dimension,
    {
        DimJogLineCommand { step: JogStep::PickDim, remove: false, has_dimension: false }
    }

    /// The command's name.
    pub fn name(&self) -> (r: &'static str)
        ensures
            r@ == "DIMJOGLINE"@,
    {
        "DIMJOGLINE"
    }

    /// The prompt of the current step.
    pub fn prompt(&self) -> (r: &'static str)
        ensures
            r == (match self.step {
                JogStep::PickDim => if self.remove {
                    "DIMJOGLINE  Select dimension to remove jog:"
                } else {
                    "DIMJOGLINE  Select dimension to add jog or [Remove]:"
                },
                JogStep::PickJogPos { .. } => "DIMJOGLINE  Specify jog location (or press Enter):",
            }),
    {
        match self.step {
            JogStep::PickDim => if self.remove {
                "DIMJOGLINE  Select dimension to remove jog:"
            } else {
                "DIMJOGLINE  Select dimension to add jog or [Remove]:"
            },
            JogStep::PickJogPos { .. } => "DIMJOGLINE  Specify jog location (or press Enter):",
        }
    }

    /// The keyword options of the current step, as (label, keyword): Remove
    /// while the dimension is still to be picked for adding a jog.
    pub fn options(&self) -> (r: Vec<(&'static str, &'static str)>)
        ensures
            r@ == (if self.step == JogStep::PickDim && !self.remove {
                seq![("Remove", "REMOVE")]
            } else {
                Seq::empty()
            }),
    {
        if self.step == JogStep::PickDim && !self.remove {
            vec![("Remove", "REMOVE")]
        } else {
            Vec::new()
        }
    }

    /// Whether the point step also takes keywords.
    pub fn point_step_accepts_keywords(&self) -> (r: bool)
        ensures
            r == (self.step == JogStep::PickDim && !self.remove),
    {
        self.step == JogStep::PickDim && !self.remove
    }

    /// Whether the step picks an entity.
    pub fn needs_entity_pick(&self) -> (r: bool)
        ensures
            r == (self.step == JogStep::PickDim),
    {
        self.step == JogStep::PickDim
    }

    /// A picked entity (`is_dimension`: it is a linear or aligned
    /// dimension). A null handle asks again; when removing, the jog of the
    /// picked dimension goes; otherwise the location is asked next.
    pub fn on_entity_pick(&mut self, handle: u64, is_dimension: bool) -> (r: JogResult)
        ensures
            r == (if !is_dimension {
                JogResult::NotADimension
            } else if handle == 0 {
                JogResult::NeedPoint
            } else if old(self).remove {
                JogResult::Mark { handle, at: JogAt::Remove }
            } else {
                JogResult::NeedPoint
            }),
            final(self).remove == old(self).remove,
            (is_dimension && handle != 0 && !old(self).remove) ==> final(self).step == (JogStep::PickJogPos { handle })
                && final(self).has_dimension,
            !(is_dimension && handle != 0 && !old(self).remove) ==> final(self).step == old(self).step
                && final(self).has_dimension == old(self).has_dimension,
    {
        if !is_dimension {
            return JogResult::NotADimension;
        }
        if handle == 0 {
            return JogResult::NeedPoint;
        }
        if self.remove {
            return JogResult::Mark { handle, at: JogAt::Remove };
        }
        self.has_dimension = true;
        self.step = JogStep::PickJogPos { handle };
        JogResult::NeedPoint
    }

    /// Typed text: `R` or `REMOVE` (trimmed, any ASCII case) while the
    /// dimension is still to be picked switches to removing; any other text
    /// is not for this command.
    pub fn on_text_input(&mut self, text: &str) -> (r: Option<JogResult>)
        ensures
            ({
                let word = ascii_upper_seq(str_trim(text@));
                let takes = old(self).step == JogStep::PickDim && (word == "R"@ || word == "REMOVE"@);
                &&& r == (if takes { Some(JogResult::NeedPoint) } else { None })
                &&& final(self).remove == (old(self).remove || takes)
                &&& final(self).step == old(self).step
                &&& final(self).has_dimension == old(self).has_dimension
            }),
    {
        if self.step != JogStep::PickDim {
            return None;
        }
        let raw = chars_of(trimmed(text));
        let mut word: Vec<char> = Vec::new();
        let mut i: usize = 0;
        while i < raw.len()
            invariant
                i <= raw@.len(),
                word@ == ascii_upper_seq(raw@.take(i as int)),
            decreases raw.len() - i,
        {
            word.push(upper_ascii_char(raw[i]));
            i += 1;
            assert(word@ =~= ascii_upper_seq(raw@.take(i as int)));
        }
        assert(raw@.take(i as int) =~= raw@);
        if chars_eq_str(&word, "R") || chars_eq_str(&word, "REMOVE") {
            self.remove = true;
            Some(JogResult::NeedPoint)
        } else {
            None
        }
    }

    /// A picked point: the jog's location once the dimension is known.
    pub fn on_point(&self) -> (r: JogResult)
        ensures
            r == (match self.step {
                JogStep::PickJogPos { handle } => JogResult::Mark { handle, at: JogAt::Point },
                JogStep::PickDim => JogResult::NeedPoint,
            }),
    {
        match self.step {
            JogStep::PickJogPos { handle } => JogResult::Mark { handle, at: JogAt::Point },
            JogStep::PickDim => JogResult::NeedPoint,
        }
    }

    /// Enter: the jog at the default position (`default_known`: the picked
    /// dimension has one), else the command ends without a change.
    pub fn on_enter(&self, default_known: bool) -> (r: JogResult)
        ensures
            r == (match self.step {
                JogStep::PickJogPos { handle } => if self.has_dimension && default_known {
                    JogResult::Mark { handle, at: JogAt::Default }
                } else {
                    JogResult::Cancel
                },
                JogStep::PickDim => JogResult::Cancel,
            }),
    {
        match self.step {
            JogStep::PickJogPos { handle } => if self.has_dimension && default_known {
                JogResult::Mark { handle, at: JogAt::Default }
            } else {
                JogResult::Cancel
            },
            JogStep::PickDim => JogResult::Cancel,
        }
    }
}

/// The layer name of the marker that removes dimension `handle`'s jog.
pub fn remove_marker_layer(handle: u64) -> (s: String)
    ensures
        s@ == "__DIMJOG_REMOVE__"@ + decimal(handle as nat),
{
    let mut v = chars_of("__DIMJOG_REMOVE__");
    let digits = decimal_chars(handle as u128);
    extend_chars(&mut v, &digits);
    string_of(&v)
}

/// The start of the layer name of the marker that puts dimension
/// `handle`'s jog at a location; the location's three coordinates follow,
/// comma-separated.
pub fn jog_marker_prefix(handle: u64) -> (s: String)
    ensures
        s@ == "__DIMJOG__"@ + decimal(handle as nat) + "|"@,
{
    let mut v = chars_of("__DIMJOG__");
    let digits = decimal_chars(handle as u128);
    extend_chars(&mut v, &digits);
    let bar = chars_of("|");
    extend_chars(&mut v, &bar);
    string_of(&v)
}

} // verus!
