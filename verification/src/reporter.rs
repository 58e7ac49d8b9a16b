//! Duration classification for color-coded profiling output.

use vstd::prelude::*;

use colored::Colorize;

use crate::text::occurs_in;

verus! {

/// Threshold configuration for color coding.
#[derive(Debug, Clone, Copy)]
pub struct Thresholds {
    /// Stages faster than this (ms) are green
    pub ok_ms: u128,
    /// Stages slower than this (ms) are red
    pub slow_ms: u128,
}

impl Default for Thresholds {
    fn default() -> (t: Self)
        ensures
            t.ok_ms == 50,
            t.slow_ms == 500,
    {
        Thresholds { ok_ms: 50, slow_ms: 500 }
    }
}

/// Duration status based on thresholds.
#[derive(Debug, Clone, Copy, PartialEq, Eq, Structural)]
pub enum DurationStatus {
    Okay,
    Warn,
    Slow,
}

/// The escape sequence with which a terminal foreground color starts.
pub open spec fn ansi_open(code: Seq<char>) -> Seq<char> {
    "\x1B["@ + code + "m"@
}

/// The escape sequence that resets terminal colors.
pub open spec fn ansi_reset() -> Seq<char> {
    "\x1B[0m"@
}

/// What painting `text` with the terminal color `code` may produce: the
/// text unchanged (colors disabled by the environment), or the text between
/// the color's escape sequence and the reset sequence. When the text itself
/// holds a reset sequence the output is not described.
pub open spec fn painted(text: Seq<char>, code: Seq<char>, out: Seq<char>) -> bool {
    ||| out == text
    ||| out == ansi_open(code) + text + ansi_reset()
    ||| occurs_in(text, ansi_reset())
}

/// `colored::Colorize::green` rendered with `to_string`. Whether escape codes
/// are emitted depends on the environment (NO_COLOR, CLICOLOR,
/// CLICOLOR_FORCE, whether stdout is a terminal); the contract states the two
/// possible outcomes, and nothing when the text holds a reset sequence.
#[verifier::external_body]
fn paint_green(text: &str) -> (s: String)
    ensures
        painted(text@, "32"@, s@),
{
    text.green().to_string()
}

/// `colored::Colorize::yellow` rendered with `to_string`; as for
/// [`paint_green`], with the color code 33.
#[verifier::external_body]
fn paint_yellow(text: &str) -> (s: String)
    ensures
        painted(text@, "33"@, s@),
{
    text.yellow().to_string()
}

/// `colored::Colorize::red` rendered with `to_string`; as for
/// [`paint_green`], with the color code 31.
#[verifier::external_body]
fn paint_red(text: &str) -> (s: String)
    ensures
        painted(text@, "31"@, s@),
{
    text.red().to_string()
}

/// Classification of a duration against thresholds.
pub open spec fn spec_status(ms: u128, t: Thresholds) -> DurationStatus {
    if ms < t.ok_ms {
        DurationStatus::Okay
    } else if ms < t.slow_ms {
        DurationStatus::Warn
    } else {
        DurationStatus::Slow
    }
}

/// Terminal color code of a status.
pub open spec fn status_color(s: DurationStatus) -> Seq<char> {
    match s {
        DurationStatus::Okay => "32"@,
        DurationStatus::Warn => "33"@,
        DurationStatus::Slow => "31"@,
    }
}

/// Plain label of a status.
pub open spec fn status_word(s: DurationStatus) -> Seq<char> {
    match s {
        DurationStatus::Okay => "OK"@,
        DurationStatus::Warn => "WARN"@,
        DurationStatus::Slow => "SLOW"@,
    }
}

impl DurationStatus {
    /// Classify a duration (ms) into Ok/Warn/Slow.
    pub fn from_ms(ms: u128, thresholds: &Thresholds) -> (s: Self)
        ensures
            s == spec_status(ms, *thresholds),
    {
        if ms < thresholds.ok_ms {
            DurationStatus::Okay
        } else if ms < thresholds.slow_ms {
            DurationStatus::Warn
        } else {
            DurationStatus::Slow
        }
    }

    /// Colored label for terminal output.
    pub fn label(&self) -> (s: String)
        ensures
            s@ == status_word(*self) || s@ == ansi_open(status_color(*self)) + status_word(*self)
                + ansi_reset(),
    {
        proof {
            reveal_strlit("\x1B[0m");
            reveal_strlit("OK");
            reveal_strlit("WARN");
            reveal_strlit("SLOW");
            let w = status_word(*self);
            assert(!occurs_in(w, ansi_reset())) by {
                assert forall|i: int| 0 <= i <= w.len() - ansi_reset().len() implies #[trigger] w.subrange(
                    i,
                    i + ansi_reset().len(),
                ) != ansi_reset() by {
                    assert(w.subrange(i, i + 4)[0] == w[i]);
                    assert(ansi_reset()[0] == '\x1B');
                }
            }
        }
        match self {
            DurationStatus::Okay => paint_green("OK"),
            DurationStatus::Warn => paint_yellow("WARN"),
            DurationStatus::Slow => paint_red("SLOW"),
        }
    }

    /// Apply the status color to a text.
    pub fn colorize(&self, text: &str) -> (s: String)
        ensures
            painted(text@, status_color(*self), s@),
    {
        match self {
            DurationStatus::Okay => paint_green(text),
            DurationStatus::Warn => paint_yellow(text),
            DurationStatus::Slow => paint_red(text),
        }
    }
}

} // verus!
