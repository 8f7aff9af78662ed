//! What the tool reports once a build has finished.

use vstd::prelude::*;
use crate::builds::{build_label, color_of, group_of, Build, FormatBuildStateCase, StateColor};
use crate::cli::{OutputArgs, OutputType};
use crate::text::title_cased;

verus! {

/// What `chrono_humanize::HumanTime::to_text_en` with precise accuracy, in the
/// past tense, writes for a duration of `secs` seconds and `nanos` nanoseconds
/// (such as `1 minute and 5 seconds ago`).
pub uninterp spec fn humanized_past(secs: i64, nanos: u32) -> Seq<char>;

/// Whether `secs` seconds and `nanos` nanoseconds surely make a
/// `chrono::TimeDelta` (`TimeDelta::new` gives one for whole seconds strictly
/// inside its bounds of `i64::MAX` milliseconds either way, and nanoseconds
/// below one second).
pub open spec fn is_time_delta(secs: i64, nanos: u32) -> bool {
    -9223372036854775 <= secs <= 9223372036854774 && nanos < 1_000_000_000
}

/// Writes a past duration for people: builds the `chrono::TimeDelta` of `secs`
/// seconds and `nanos` nanoseconds (`TimeDelta::new`), then has
/// `chrono_humanize::HumanTime::to_text_en(Accuracy::Precise, Tense::Past)`
/// write it.  Claimed: the text is a function of the duration alone
/// (`humanized_past`).
#[verifier::external_body]
fn humanize_past(secs: i64, nanos: u32) -> (r: String)
    requires
        is_time_delta(secs, nanos),
    ensures
        r@ == humanized_past(secs, nanos),
{
    let delta = chrono::TimeDelta::new(secs, nanos).unwrap();
    chrono_humanize::HumanTime::from(delta)
        .to_text_en(chrono_humanize::Accuracy::Precise, chrono_humanize::Tense::Past)
}

/// The notification sent when a build finishes.
pub struct NotificationContent {
    pub title: String,
    pub message: String,
}

/// The notification title: `<State>: <pipeline>/<number> <branch>`.
pub open spec fn notification_title(build: Build) -> Seq<char> {
    title_cased(build.state@) + ": "@ + build_label(build.pipeline.slug@, build.number) + " "@ + build.branch@
}

impl NotificationContent {
    /// The notification for a finished build, with `finished` the text that
    /// says when it finished.
    pub fn with_finished_text(build: &Build, finished: &str) -> (r: NotificationContent)
        ensures
            r.title@ == notification_title(*build),
            r.message@ == "Finished "@ + finished@,
    {
        let mut title = build.state_case(FormatBuildStateCase::Title);
        title.append(": ");
        let label = build.label();
        title.append(label.as_str());
        title.append(" ");
        title.append(build.branch.as_str());
        let mut message = "Finished ".to_owned();
        message.append(finished);
        NotificationContent { title, message }
    }

    /// The notification for a build that finished `finished_ago_secs` seconds
    /// and `finished_ago_nanos` nanoseconds ago.
    pub fn for_build(build: &Build, finished_ago_secs: i64, finished_ago_nanos: u32) -> (r: NotificationContent)
        requires
            is_time_delta(finished_ago_secs, finished_ago_nanos),
        ensures
            r.title@ == notification_title(*build),
            r.message@ == "Finished "@ + humanized_past(finished_ago_secs, finished_ago_nanos),
    {
        let finished = humanize_past(finished_ago_secs, finished_ago_nanos);
        NotificationContent::with_finished_text(build, finished.as_str())
    }
}

/// What to print once the build has finished.
pub enum CompletionOutput {
    /// Print nothing.
    Nothing,
    /// Print the build's state, title-cased and coloured, then its web URL.
    StateUrl { state: String, color: StateColor, web_url: String },
    /// Print the notification's title and message, each on a line.
    Lines { title: String, message: String },
}

impl OutputArgs {
    /// What to print for the finished `build`, whose notification is `content`.
    pub fn completion_output(&self, build: &Build, content: &NotificationContent) -> (r: CompletionOutput)
        ensures
            match self.output {
                OutputType::Nothing => r is Nothing,
                OutputType::StateUrl => r matches CompletionOutput::StateUrl { state, color, web_url }
                    && state@ == title_cased(build.state@) && color == color_of(group_of(build.state@))
                    && web_url@ == build.web_url@,
                OutputType::NotificationLines => r matches CompletionOutput::Lines { title, message }
                    && title@ == content.title@ && message@ == content.message@,
            },
    {
        match self.output {
            OutputType::Nothing => CompletionOutput::Nothing,
            OutputType::StateUrl => CompletionOutput::StateUrl {
                state: build.state_case(FormatBuildStateCase::Title),
                color: build.state_color(),
                web_url: build.web_url.clone(),
            },
            OutputType::NotificationLines => CompletionOutput::Lines {
                title: content.title.clone(),
                message: content.message.clone(),
            },
        }
    }
}

} // verus!
