//! How far a song has played, and how that is written out for display.

use vstd::prelude::*;
use vstd::string::StringExecFns;
use crate::models::Duration;
use crate::text::{append_decimal, append_two_digits, decimal, two_digits};

verus! {

/// The progress of a song: the time played, never more than the length, and
/// the length, never less than a second.
#[derive(Clone, Copy, Debug, PartialEq, Eq, Structural)]
pub struct PlaybackProgress {
    elapsed: Duration,
    total: Duration,
}

impl PlaybackProgress {
    #[verifier::type_invariant]
    spec fn well_formed(self) -> bool {
        &&& self.total.spec_secs() > 0
        &&& self.elapsed.total_nanos() <= self.total.total_nanos()
    }

    /// The time played.
    pub closed spec fn spec_elapsed(self) -> Duration {
        self.elapsed
    }

    /// The length of the song.
    pub closed spec fn spec_total(self) -> Duration {
        self.total
    }

    /// The progress of a song of length `total` after `elapsed`. There is
    /// none for a song of less than a second; time played beyond the length
    /// counts as the length.
    pub fn new(elapsed: Duration, total: Duration) -> (progress: Option<PlaybackProgress>)
        ensures
            total.spec_secs() == 0 ==> progress is None,
            total.spec_secs() > 0 ==> {
                &&& progress is Some
                &&& progress->0.spec_total() == total
                &&& progress->0.spec_elapsed() == if elapsed.total_nanos() <= total.total_nanos() {
                    elapsed
                } else {
                    total
                }
            },
    {
        if total.as_secs() == 0 {
            return None;
        }
        Some(PlaybackProgress { elapsed: elapsed.min(total), total })
    }

    /// The time played.
    pub fn elapsed(&self) -> (elapsed: Duration)
        ensures
            elapsed == self.spec_elapsed(),
            elapsed.total_nanos() <= self.spec_total().total_nanos(),
    {
        proof {
            use_type_invariant(self);
        }
        self.elapsed
    }

    /// The length of the song.
    pub fn total(&self) -> (total: Duration)
        ensures
            total == self.spec_total(),
            total.spec_secs() > 0,
    {
        proof {
            use_type_invariant(self);
        }
        self.total
    }
}

/// A span as `MM:SS`, or as `HH:MM:SS` from one hour on, each part with at
/// least two digits.
pub open spec fn clock_text(secs: nat) -> Seq<char> {
    if secs / 3600 > 0 {
        two_digits(secs / 3600) + seq![':'] + two_digits((secs % 3600) / 60) + seq![':']
            + two_digits(secs % 60)
    } else {
        two_digits((secs % 3600) / 60) + seq![':'] + two_digits(secs % 60)
    }
}

/// A span as `M:SS`, or as `H:MM:SS` from one hour on, without a leading
/// zero on its first part.
pub open spec fn compact_clock_text(secs: nat) -> Seq<char> {
    if secs / 3600 > 0 {
        decimal(secs / 3600) + seq![':'] + two_digits((secs % 3600) / 60) + seq![':']
            + two_digits(secs % 60)
    } else {
        decimal((secs % 3600) / 60) + seq![':'] + two_digits(secs % 60)
    }
}

fn append_clock(out: &mut String, secs: u64, compact: bool)
    ensures
        final(out)@ == old(out)@ + if compact {
            compact_clock_text(secs as nat)
        } else {
            clock_text(secs as nat)
        },
{
    proof {
        reveal_strlit(":");
    }
    let hours = secs / 3600;
    let minutes = (secs % 3600) / 60;
    let seconds = secs % 60;
    if hours > 0 {
        if compact {
            append_decimal(out, hours);
        } else {
            append_two_digits(out, hours);
        }
        out.append(":");
        append_two_digits(out, minutes);
    } else {
        if compact {
            append_decimal(out, minutes);
        } else {
            append_two_digits(out, minutes);
        }
    }
    out.append(":");
    append_two_digits(out, seconds);
    proof {
        assert(final(out)@ =~= old(out)@ + if compact {
            compact_clock_text(secs as nat)
        } else {
            clock_text(secs as nat)
        });
    }
}

/// Writes a span as `MM:SS` or `HH:MM:SS`.
pub fn format_duration(duration: Duration) -> (text: String)
    ensures
        text@ == clock_text(duration.spec_secs()),
{
    let mut text = String::new();
    append_clock(&mut text, duration.as_secs(), false);
    proof {
        assert(text@ =~= clock_text(duration.spec_secs()));
    }
    text
}

/// Writes a span in the compact form `M:SS` or `H:MM:SS`.
pub fn format_duration_compact(duration: Duration) -> (text: String)
    ensures
        text@ == compact_clock_text(duration.spec_secs()),
{
    let mut text = String::new();
    append_clock(&mut text, duration.as_secs(), true);
    proof {
        assert(text@ =~= compact_clock_text(duration.spec_secs()));
    }
    text
}

/// Progress, written out for display.
#[derive(Debug, PartialEq, Eq)]
pub struct FormattedProgress {
    pub elapsed_text: String,
    pub total_text: String,
    pub combined_label: String,
    pub percentage: u8,
}

impl Clone for FormattedProgress {
    fn clone(&self) -> (copy: FormattedProgress)
        ensures
            copy == *self,
    {
        FormattedProgress {
            elapsed_text: self.elapsed_text.clone(),
            total_text: self.total_text.clone(),
            combined_label: self.combined_label.clone(),
            percentage: self.percentage,
        }
    }
}

/// A way to write the label of a progress bar.
pub trait ProgressLabelFormatter {
    /// The label for this progress.
    spec fn label(&self, elapsed: Duration, total: Duration, percentage: u8) -> Seq<char>;

    /// Writes the label for this progress.
    fn format(&self, elapsed: Duration, total: Duration, percentage: u8) -> (text: String)
        ensures
            text@ == self.label(elapsed, total, percentage),
    ;
}

/// Writes `00:34 / 03:10`.
#[derive(Debug)]
pub struct DefaultProgressFormatter {}

/// Writes `0:34/3:10`.
#[derive(Debug)]
pub struct CompactProgressFormatter {}

/// Writes `18% (0:34/3:10)`.
#[derive(Debug)]
pub struct PercentageProgressFormatter {}

impl ProgressLabelFormatter for DefaultProgressFormatter {
    open spec fn label(&self, elapsed: Duration, total: Duration, percentage: u8) -> Seq<char> {
        clock_text(elapsed.spec_secs()) + " / "@ + clock_text(total.spec_secs())
    }

    fn format(&self, elapsed: Duration, total: Duration, percentage: u8) -> (text: String) {
        let mut text = String::new();
        append_clock(&mut text, elapsed.as_secs(), false);
        text.append(" / ");
        append_clock(&mut text, total.as_secs(), false);
        proof {
            assert(text@ =~= self.label(elapsed, total, percentage));
        }
        text
    }
}

impl ProgressLabelFormatter for CompactProgressFormatter {
    open spec fn label(&self, elapsed: Duration, total: Duration, percentage: u8) -> Seq<char> {
        compact_clock_text(elapsed.spec_secs()) + "/"@ + compact_clock_text(total.spec_secs())
    }

    fn format(&self, elapsed: Duration, total: Duration, percentage: u8) -> (text: String) {
        let mut text = String::new();
        append_clock(&mut text, elapsed.as_secs(), true);
        text.append("/");
        append_clock(&mut text, total.as_secs(), true);
        proof {
            assert(text@ =~= self.label(elapsed, total, percentage));
        }
        text
    }
}

impl ProgressLabelFormatter for PercentageProgressFormatter {
    open spec fn label(&self, elapsed: Duration, total: Duration, percentage: u8) -> Seq<char> {
        decimal(percentage as nat) + "% ("@ + compact_clock_text(elapsed.spec_secs()) + "/"@
            + compact_clock_text(total.spec_secs()) + ")"@
    }

    fn format(&self, elapsed: Duration, total: Duration, percentage: u8) -> (text: String) {
        let mut text = String::new();
        append_decimal(&mut text, percentage as u64);
        text.append("% (");
        append_clock(&mut text, elapsed.as_secs(), true);
        text.append("/");
        append_clock(&mut text, total.as_secs(), true);
        text.append(")");
        proof {
            assert(text@ =~= self.label(elapsed, total, percentage));
        }
        text
    }
}

/// Writes progress out with a label in the style of `F`.
#[derive(Debug)]
pub struct ProgressFormatter<F: ProgressLabelFormatter> {
    label_formatter: F,
}

impl<F: ProgressLabelFormatter> ProgressFormatter<F> {
    /// The style of the label.
    pub closed spec fn style(&self) -> F {
        self.label_formatter
    }

    pub fn new(label_formatter: F) -> (formatter: ProgressFormatter<F>)
        ensures
            formatter.style() == label_formatter,
    {
        ProgressFormatter { label_formatter }
    }

    /// Writes both times as clocks, the label in the style of `F`, and
    /// hands the percentage through.
    pub fn format(&self, elapsed: Duration, total: Duration, percentage: u8) -> (formatted:
        FormattedProgress)
        ensures
            formatted.elapsed_text@ == clock_text(elapsed.spec_secs()),
            formatted.total_text@ == clock_text(total.spec_secs()),
            formatted.combined_label@ == self.style().label(elapsed, total, percentage),
            formatted.percentage == percentage,
    {
        FormattedProgress {
            elapsed_text: format_duration(elapsed),
            total_text: format_duration(total),
            combined_label: self.label_formatter.format(elapsed, total, percentage),
            percentage,
        }
    }
}

impl ProgressFormatter<DefaultProgressFormatter> {
    pub fn default_formatter() -> (formatter: ProgressFormatter<DefaultProgressFormatter>) {
        ProgressFormatter::new(DefaultProgressFormatter {  })
    }
}

impl ProgressFormatter<CompactProgressFormatter> {
    pub fn compact_formatter() -> (formatter: ProgressFormatter<CompactProgressFormatter>) {
        ProgressFormatter::new(CompactProgressFormatter {  })
    }
}

impl ProgressFormatter<PercentageProgressFormatter> {
    pub fn percentage_formatter() -> (formatter: ProgressFormatter<PercentageProgressFormatter>) {
        ProgressFormatter::new(PercentageProgressFormatter {  })
    }
}

} // verus!
