//! Builds as the Buildkite REST API reports them, and what the waiter reads of
//! their state.

use vstd::prelude::*;
use crate::text::{
    lemma_split_chars_join, lemma_split_chars_nonempty, lemma_split_chars_single, ascii_lowercase, decimal, decimal_string, split_chars, split_from, str_eq, strings_view,
    title_case, title_cased, to_ascii_lowercase,
};

verus! {

/// Every build state that the Buildkite REST API reports.
pub open spec fn known_states() -> Seq<Seq<char>> {
    seq!["running"@, "scheduled"@, "passed"@, "failed"@, "blocked"@, "canceled"@, "canceling"@,
        "skipped"@, "not_run"@]
}

/// The states that the API's `finished` filter stands for.
pub open spec fn finished_states() -> Seq<Seq<char>> {
    seq!["passed"@, "failed"@, "blocked"@, "canceled"@]
}

/// The values that the `--state` filter accepts: every known state, and `finished`.
pub open spec fn allowed_states() -> Seq<Seq<char>> {
    known_states().push("finished"@)
}

/// The views of a sequence of string slices.
pub open spec fn strs_view(v: Seq<&str>) -> Seq<Seq<char>> {
    v.map_values(|s: &str| s@)
}

/// Every build state that the Buildkite REST API reports.
pub fn known_build_states() -> (r: Vec<&'static str>)
    ensures
        strs_view(r@) == known_states(),
{
    let r = vec!["running", "scheduled", "passed", "failed", "blocked", "canceled", "canceling",
        "skipped", "not_run"];
    assert(strs_view(r@) =~= known_states());
    r
}

/// The build states that count as finished.
pub fn finished_build_states() -> (r: Vec<&'static str>)
    ensures
        strs_view(r@) == finished_states(),
{
    let r = vec!["passed", "failed", "blocked", "canceled"];
    assert(strs_view(r@) =~= finished_states());
    r
}

/// The values that the `--state` filter of `latest` accepts.
pub fn allowed_build_states() -> (r: Vec<&'static str>)
    ensures
        strs_view(r@) == allowed_states(),
{
    let mut r = known_build_states();
    r.push("finished");
    assert(strs_view(r@) =~= allowed_states());
    r
}

/// Whether a build in `state` has finished.
pub open spec fn state_is_finished(state: Seq<char>) -> bool {
    state == "passed"@ || state == "failed"@ || state == "blocked"@ || state == "canceled"@
}

/// How a build state is presented.
#[derive(Debug, Clone, Copy, PartialEq, Eq, Structural)]
pub enum BuildStateGroup {
    Successful,
    Blocked,
    Unsuccessful,
    Unfinished,
}

/// The presentation group of a build state.
pub open spec fn group_of(state: Seq<char>) -> BuildStateGroup {
    if state == "passed"@ {
        BuildStateGroup::Successful
    } else if state == "blocked"@ {
        BuildStateGroup::Blocked
    } else if state == "failed"@ || state == "canceled"@ {
        BuildStateGroup::Unsuccessful
    } else {
        BuildStateGroup::Unfinished
    }
}

/// The process exit code for a build that ended in `state`: success for a
/// passed or blocked build, 2 for any other.
pub open spec fn exit_code_for(state: Seq<char>) -> i32 {
    if state == "passed"@ || state == "blocked"@ {
        0
    } else {
        2
    }
}

/// How the state of a build is written.
pub enum FormatBuildStateCase {
    Title,
    Lower,
}

/// The colour in which a build state is shown.
#[derive(Debug, Clone, Copy, PartialEq, Eq, Structural)]
pub enum StateColor {
    Green,
    Yellow,
    Red,
    Magenta,
}

/// The colour of each presentation group.
pub open spec fn color_of(group: BuildStateGroup) -> StateColor {
    match group {
        BuildStateGroup::Blocked => StateColor::Yellow,
        BuildStateGroup::Unfinished => StateColor::Magenta,
        BuildStateGroup::Successful => StateColor::Green,
        BuildStateGroup::Unsuccessful => StateColor::Red,
    }
}

/// The first line of a text, as `str::lines().next()` gives it: none for an
/// empty text; else the text up to the first line feed, without a carriage
/// return just before that line feed.
pub open spec fn first_line(s: Seq<char>) -> Option<Seq<char>> {
    if s.len() == 0 {
        None
    } else {
        let pieces = split_chars(s, '\n');
        if pieces.len() > 1 {
            let l = pieces[0];
            Some(if l.len() > 0 && l.last() == '\r' { l.drop_last() } else { l })
        } else {
            Some(s)
        }
    }
}

/// The first line of a text that holds a line feed is the text before its
/// first line feed, less one carriage return just before that line feed,
/// whatever follows the line feed; a non-empty text without a line feed is its
/// own first line, and an empty text has none.
pub proof fn lemma_first_line_is_text_before_first_line_feed(s: Seq<char>, k: int, rest: Seq<char>)
    ensures
        s.len() == 0 ==> first_line(s) is None,
        s.len() > 0 && !s.contains('\n') ==> first_line(s) == Some(s),
        0 <= k < s.len() && s[k] == '\n' && !s.take(k).contains('\n') ==> first_line(s) == Some(
            if k > 0 && s[k - 1] == '\r' { s.take(k - 1) } else { s.take(k) },
        ),
        0 <= k < s.len() && s[k] == '\n' && !s.take(k).contains('\n') ==> first_line(s) == first_line(
            s.take(k + 1) + rest,
        ),
{
    if s.len() > 0 && !s.contains('\n') {
        lemma_split_chars_single(s, '\n');
    }
    if 0 <= k < s.len() && s[k] == '\n' && !s.take(k).contains('\n') {
        lemma_first_line_split(s.take(k), s.skip(k + 1));
        assert(s =~= s.take(k) + seq!['\n'] + s.skip(k + 1));
        assert(s.take(k + 1) + rest =~= s.take(k) + seq!['\n'] + rest);
        lemma_first_line_split(s.take(k), rest);
        if k > 0 {
            assert(s.take(k).last() == s[k - 1]);
            assert(s.take(k).drop_last() =~= s.take(k - 1));
        }
    }
}

proof fn lemma_first_line_split(a: Seq<char>, b: Seq<char>)
    requires
        !a.contains('\n'),
    ensures
        first_line(a + seq!['\n'] + b) == Some(if a.len() > 0 && a.last() == '\r' { a.drop_last() } else { a }),
{
    let s = a + seq!['\n'] + b;
    lemma_split_chars_join(a, b, '\n');
    lemma_split_chars_single(a, '\n');
    lemma_split_chars_nonempty(b, '\n');
    let pieces = split_chars(s, '\n');
    assert(pieces == seq![a] + split_chars(b, '\n'));
    assert(pieces.len() > 1);
    assert(pieces[0] == a);
}

/// The first line of `s` (`str::lines().next()`).
pub fn first_line_of(s: &str) -> (r: Option<String>)
    ensures
        match r {
            Some(l) => first_line(s@) == Some(l@),
            None => first_line(s@) is None,
        },
{
    let n = s.unicode_len();
    if n == 0 {
        return None;
    }
    let pieces = split_from(s, 0, '\n');
    assert(s@.skip(0) =~= s@);
    if pieces.len() > 1 {
        let line = &pieces[0];
        assert(strings_view(pieces@)[0] == line@);
        let m = line.unicode_len();
        if m > 0 && line.as_str().get_char(m - 1) == '\r' {
            let trimmed = line.as_str().substring_char(0, m - 1);
            assert(trimmed@ =~= line@.drop_last());
            Some(trimmed.to_owned())
        } else {
            Some(line.clone())
        }
    } else {
        Some(s.to_owned())
    }
}

/// A state title-cased, then lowercased, so that `not_run` reads `not run`.
pub fn ascii_lowercase_title(state: &str) -> (r: String)
    ensures
        r@ == ascii_lowercase(title_cased(state@)),
{
    let title = title_case(state);
    to_ascii_lowercase(title.as_str())
}

/// The pipeline a build belongs to.
pub struct BuildPipeline {
    pub slug: String,
}

/// The user who created a build.
pub struct BuildCreator {
    pub name: Option<String>,
}

/// A build, as far as the waiter reads it.
pub struct Build {
    pub number: u64,
    /// The build's REST API URL.
    pub url: String,
    /// The build's page in the Buildkite web interface.
    pub web_url: String,
    pub state: String,
    pub pipeline: BuildPipeline,
    pub creator: Option<BuildCreator>,
    pub branch: String,
    pub message: Option<String>,
}

/// The pieces of the line that announces the build being waited for:
/// `Waiting for <label>[ by <creator>] on branch <branch>`, then the first line
/// of the message, if any, on a line of its own.
pub struct FoundBuildLine {
    pub label: String,
    pub creator: Option<String>,
    pub branch: String,
    pub first_line: Option<String>,
}

/// The name of a build's creator, when the creator and the name are known.
pub open spec fn creator_name(creator: Option<BuildCreator>) -> Option<Seq<char>> {
    match creator {
        Some(c) => match c.name {
            Some(n) => Some(n@),
            None => None,
        },
        None => None,
    }
}

/// `<pipeline slug>/<build number>`.
pub open spec fn build_label(slug: Seq<char>, number: u64) -> Seq<char> {
    slug + "/"@ + decimal(number as nat)
}

impl Build {
    /// Whether the build has finished: passed, failed, blocked or canceled.
    pub fn is_finished(&self) -> (r: bool)
        ensures
            r == state_is_finished(self.state@),
    {
        let s = self.state.as_str();
        str_eq(s, "passed") || str_eq(s, "failed") || str_eq(s, "blocked") || str_eq(s, "canceled")
    }

    /// The presentation group of the build's state.
    pub fn state_group(&self) -> (r: BuildStateGroup)
        ensures
            r == group_of(self.state@),
    {
        let s = self.state.as_str();
        if str_eq(s, "passed") {
            BuildStateGroup::Successful
        } else if str_eq(s, "blocked") {
            BuildStateGroup::Blocked
        } else if str_eq(s, "failed") || str_eq(s, "canceled") {
            BuildStateGroup::Unsuccessful
        } else {
            BuildStateGroup::Unfinished
        }
    }

    /// The process exit code once the build has ended: 0 when it passed or is
    /// blocked, 2 otherwise.
    pub fn exit_code(&self) -> (r: i32)
        ensures
            r == exit_code_for(self.state@),
    {
        let s = self.state.as_str();
        if str_eq(s, "passed") || str_eq(s, "blocked") {
            0
        } else {
            2
        }
    }

    /// The build's state in title case, or in lower case after title-casing
    /// (so that `not_run` reads `not run`).
    pub fn state_case(&self, case: FormatBuildStateCase) -> (r: String)
        ensures
            r@ == match case {
                FormatBuildStateCase::Title => title_cased(self.state@),
                FormatBuildStateCase::Lower => ascii_lowercase(title_cased(self.state@)),
            },
    {
        let title = title_case(self.state.as_str());
        match case {
            FormatBuildStateCase::Title => title,
            FormatBuildStateCase::Lower => to_ascii_lowercase(title.as_str()),
        }
    }

    /// The colour of the build's state: green when it passed, yellow when
    /// blocked, red when failed or canceled, magenta while unfinished.
    pub fn state_color(&self) -> (r: StateColor)
        ensures
            r == color_of(group_of(self.state@)),
    {
        match self.state_group() {
            BuildStateGroup::Blocked => StateColor::Yellow,
            BuildStateGroup::Unfinished => StateColor::Magenta,
            BuildStateGroup::Successful => StateColor::Green,
            BuildStateGroup::Unsuccessful => StateColor::Red,
        }
    }

    /// The first line of the build's message, if it has one.
    pub fn short_message(&self) -> (r: Option<String>)
        ensures
            match self.message {
                None => r is None,
                Some(m) => match r {
                    Some(l) => first_line(m@) == Some(l@),
                    None => first_line(m@) is None,
                },
            },
    {
        match &self.message {
            None => None,
            Some(m) => first_line_of(m.as_str()),
        }
    }

    /// The pieces of the line that announces this build: its label, its
    /// creator's name when known, its branch and the first line of its message.
    pub fn found_line(&self) -> (r: FoundBuildLine)
        ensures
            r.label@ == build_label(self.pipeline.slug@, self.number),
            match r.creator {
                Some(n) => creator_name(self.creator) == Some(n@),
                None => creator_name(self.creator) is None,
            },
            r.branch@ == self.branch@,
            match self.message {
                None => r.first_line is None,
                Some(m) => match r.first_line {
                    Some(l) => first_line(m@) == Some(l@),
                    None => first_line(m@) is None,
                },
            },
    {
        let creator = match &self.creator {
            Some(c) => match &c.name {
                Some(n) => Some(n.clone()),
                None => None,
            },
            None => None,
        };
        FoundBuildLine {
            label: self.label(),
            creator,
            branch: self.branch.clone(),
            first_line: self.short_message(),
        }
    }

    /// `<pipeline slug>/<build number>`, as the waiter names a build.
    pub fn label(&self) -> (r: String)
        ensures
            r@ == build_label(self.pipeline.slug@, self.number),
    {
        let mut s = self.pipeline.slug.clone();
        s.append("/");
        let n = decimal_string(self.number);
        s.append(n.as_str());
        s
    }
}

/// The state of a build, one of the states that the REST API reports.
#[derive(Debug, Clone, Copy, PartialEq, Eq, Structural)]
pub enum BuildState {
    /// The build was skipped.
    Skipped,
    /// The build has yet to start running jobs.
    Scheduled,
    /// The build is currently running jobs.
    Running,
    /// The build passed.
    Passed,
    /// The build failed.
    Failed,
    /// The build is currently being canceled.
    Canceling,
    /// The build was canceled.
    Canceled,
    /// The build is blocked.
    Blocked,
    /// The build wasn't run.
    NotRun,
}

/// The name under which the REST API reports a state (snake case).
pub open spec fn state_name(state: BuildState) -> Seq<char> {
    match state {
        BuildState::Skipped => "skipped"@,
        BuildState::Scheduled => "scheduled"@,
        BuildState::Running => "running"@,
        BuildState::Passed => "passed"@,
        BuildState::Failed => "failed"@,
        BuildState::Canceling => "canceling"@,
        BuildState::Canceled => "canceled"@,
        BuildState::Blocked => "blocked"@,
        BuildState::NotRun => "not_run"@,
    }
}

/// The state that the REST API reports under `name`, if any.
pub open spec fn state_named(name: Seq<char>) -> Option<BuildState> {
    if name == "skipped"@ {
        Some(BuildState::Skipped)
    } else if name == "scheduled"@ {
        Some(BuildState::Scheduled)
    } else if name == "running"@ {
        Some(BuildState::Running)
    } else if name == "passed"@ {
        Some(BuildState::Passed)
    } else if name == "failed"@ {
        Some(BuildState::Failed)
    } else if name == "canceling"@ {
        Some(BuildState::Canceling)
    } else if name == "canceled"@ {
        Some(BuildState::Canceled)
    } else if name == "blocked"@ {
        Some(BuildState::Blocked)
    } else if name == "not_run"@ {
        Some(BuildState::NotRun)
    } else {
        None
    }
}

impl BuildState {
    /// The name under which the REST API reports the state.
    pub fn name(&self) -> (r: &'static str)
        ensures
            r@ == state_name(*self),
    {
        match self {
            BuildState::Skipped => "skipped",
            BuildState::Scheduled => "scheduled",
            BuildState::Running => "running",
            BuildState::Passed => "passed",
            BuildState::Failed => "failed",
            BuildState::Canceling => "canceling",
            BuildState::Canceled => "canceled",
            BuildState::Blocked => "blocked",
            BuildState::NotRun => "not_run",
        }
    }

    /// The state that the REST API reports under `name`, if any.
    pub fn from_name(name: &str) -> (r: Option<BuildState>)
        ensures
            r == state_named(name@),
    {
        if str_eq(name, "skipped") {
            Some(BuildState::Skipped)
        } else if str_eq(name, "scheduled") {
            Some(BuildState::Scheduled)
        } else if str_eq(name, "running") {
            Some(BuildState::Running)
        } else if str_eq(name, "passed") {
            Some(BuildState::Passed)
        } else if str_eq(name, "failed") {
            Some(BuildState::Failed)
        } else if str_eq(name, "canceling") {
            Some(BuildState::Canceling)
        } else if str_eq(name, "canceled") {
            Some(BuildState::Canceled)
        } else if str_eq(name, "blocked") {
            Some(BuildState::Blocked)
        } else if str_eq(name, "not_run") {
            Some(BuildState::NotRun)
        } else {
            None
        }
    }

    /// Whether a build in this state has finished: passed, failed, blocked or
    /// canceled.
    pub fn is_finished(&self) -> (r: bool)
        ensures
            r == state_is_finished(state_name(*self)),
            r == (*self == BuildState::Passed || *self == BuildState::Failed || *self == BuildState::Blocked
                || *self == BuildState::Canceled),
    {
        proof {
            lemma_state_names_distinct();
        }
        match self {
            BuildState::Passed | BuildState::Failed | BuildState::Blocked | BuildState::Canceled => true,
            _ => false,
        }
    }
}

/// Distinct state names are told apart.
proof fn lemma_state_names_distinct()
    ensures
        "skipped"@ != "scheduled"@, "skipped"@ != "running"@, "skipped"@ != "passed"@,
        "skipped"@ != "failed"@, "skipped"@ != "canceling"@, "skipped"@ != "canceled"@,
        "skipped"@ != "blocked"@, "skipped"@ != "not_run"@,
        "scheduled"@ != "running"@, "scheduled"@ != "passed"@, "scheduled"@ != "failed"@,
        "scheduled"@ != "canceling"@, "scheduled"@ != "canceled"@, "scheduled"@ != "blocked"@,
        "scheduled"@ != "not_run"@,
        "running"@ != "passed"@, "running"@ != "failed"@, "running"@ != "canceling"@,
        "running"@ != "canceled"@, "running"@ != "blocked"@, "running"@ != "not_run"@,
        "passed"@ != "failed"@, "passed"@ != "canceling"@, "passed"@ != "canceled"@,
        "passed"@ != "blocked"@, "passed"@ != "not_run"@,
        "failed"@ != "canceling"@, "failed"@ != "canceled"@, "failed"@ != "blocked"@,
        "failed"@ != "not_run"@,
        "canceling"@ != "canceled"@, "canceling"@ != "blocked"@, "canceling"@ != "not_run"@,
        "canceled"@ != "blocked"@, "canceled"@ != "not_run"@,
        "blocked"@ != "not_run"@,
{
    reveal_strlit("skipped");
    reveal_strlit("scheduled");
    reveal_strlit("running");
    reveal_strlit("passed");
    reveal_strlit("failed");
    reveal_strlit("canceling");
    reveal_strlit("canceled");
    reveal_strlit("blocked");
    reveal_strlit("not_run");
    assert("skipped"@.len() != "scheduled"@.len());
    assert("skipped"@[0] != "running"@[0]);
    assert("skipped"@.len() != "passed"@.len());
    assert("skipped"@.len() != "failed"@.len());
    assert("skipped"@.len() != "canceling"@.len());
    assert("skipped"@.len() != "canceled"@.len());
    assert("skipped"@[0] != "blocked"@[0]);
    assert("skipped"@[0] != "not_run"@[0]);
    assert("scheduled"@.len() != "running"@.len());
    assert("scheduled"@.len() != "passed"@.len());
    assert("scheduled"@.len() != "failed"@.len());
    assert("scheduled"@[0] != "canceling"@[0]);
    assert("scheduled"@.len() != "canceled"@.len());
    assert("scheduled"@.len() != "blocked"@.len());
    assert("scheduled"@.len() != "not_run"@.len());
    assert("running"@.len() != "passed"@.len());
    assert("running"@.len() != "failed"@.len());
    assert("running"@.len() != "canceling"@.len());
    assert("running"@.len() != "canceled"@.len());
    assert("running"@[0] != "blocked"@[0]);
    assert("running"@[0] != "not_run"@[0]);
    assert("passed"@[0] != "failed"@[0]);
    assert("passed"@.len() != "canceling"@.len());
    assert("passed"@.len() != "canceled"@.len());
    assert("passed"@.len() != "blocked"@.len());
    assert("passed"@.len() != "not_run"@.len());
    assert("failed"@.len() != "canceling"@.len());
    assert("failed"@.len() != "canceled"@.len());
    assert("failed"@.len() != "blocked"@.len());
    assert("failed"@.len() != "not_run"@.len());
    assert("canceling"@.len() != "canceled"@.len());
    assert("canceling"@.len() != "blocked"@.len());
    assert("canceling"@.len() != "not_run"@.len());
    assert("canceled"@.len() != "blocked"@.len());
    assert("canceled"@.len() != "not_run"@.len());
    assert("blocked"@[0] != "not_run"@[0]);
}

/// Reading back a state's name gives the state, and each name read names its
/// state: the names and the states correspond one to one, over the known states.
pub proof fn lemma_state_name_round_trip(state: BuildState, name: Seq<char>)
    ensures
        state_named(state_name(state)) == Some(state),
        state_named(name) matches Some(s) ==> state_name(s) == name,
        known_states().contains(state_name(state)),
{
    lemma_state_names_distinct();
    match state {
        BuildState::Running => assert(known_states()[0] == state_name(state)),
        BuildState::Scheduled => assert(known_states()[1] == state_name(state)),
        BuildState::Passed => assert(known_states()[2] == state_name(state)),
        BuildState::Failed => assert(known_states()[3] == state_name(state)),
        BuildState::Blocked => assert(known_states()[4] == state_name(state)),
        BuildState::Canceled => assert(known_states()[5] == state_name(state)),
        BuildState::Canceling => assert(known_states()[6] == state_name(state)),
        BuildState::Skipped => assert(known_states()[7] == state_name(state)),
        BuildState::NotRun => assert(known_states()[8] == state_name(state)),
    }
}

/// Each state's name is the snake-case form of the state, as the REST API
/// writes it, and each of those names reads back as its state.
pub proof fn lemma_state_names_are_snake_case()
    ensures
        state_name(BuildState::Skipped) == "skipped"@ && state_named("skipped"@) == Some(BuildState::Skipped),
        state_name(BuildState::Scheduled) == "scheduled"@ && state_named("scheduled"@) == Some(BuildState::Scheduled),
        state_name(BuildState::Running) == "running"@ && state_named("running"@) == Some(BuildState::Running),
        state_name(BuildState::Passed) == "passed"@ && state_named("passed"@) == Some(BuildState::Passed),
        state_name(BuildState::Failed) == "failed"@ && state_named("failed"@) == Some(BuildState::Failed),
        state_name(BuildState::Canceling) == "canceling"@ && state_named("canceling"@) == Some(BuildState::Canceling),
        state_name(BuildState::Canceled) == "canceled"@ && state_named("canceled"@) == Some(BuildState::Canceled),
        state_name(BuildState::Blocked) == "blocked"@ && state_named("blocked"@) == Some(BuildState::Blocked),
        state_name(BuildState::NotRun) == "not_run"@ && state_named("not_run"@) == Some(BuildState::NotRun),
{
    lemma_state_names_distinct();
}

/// A build whose state string is the name of a `BuildState` is read by the
/// string-based rules as that state: finished exactly for passed, failed,
/// blocked and canceled; successful exactly when passed; blocked exactly when
/// blocked; unsuccessful exactly when failed or canceled; exit code 0 exactly
/// when passed or blocked.
pub proof fn lemma_state_names_agree_with_build_rules(state: BuildState)
    ensures
        state_is_finished(state_name(state)) <==> (state == BuildState::Passed || state == BuildState::Failed
            || state == BuildState::Blocked || state == BuildState::Canceled),
        (group_of(state_name(state)) == BuildStateGroup::Successful) <==> state == BuildState::Passed,
        (group_of(state_name(state)) == BuildStateGroup::Blocked) <==> state == BuildState::Blocked,
        (group_of(state_name(state)) == BuildStateGroup::Unsuccessful) <==> (state == BuildState::Failed
            || state == BuildState::Canceled),
        (exit_code_for(state_name(state)) == 0) <==> (state == BuildState::Passed || state == BuildState::Blocked),
{
    lemma_state_names_distinct();
}

/// The state of a job of a build, as the REST API reports it.
#[derive(Debug, Clone, Copy, PartialEq, Eq, Structural)]
pub enum BuildJobState {
    /// The job has just been created and doesn't have a state yet.
    Pending,
    /// The job is waiting on a wait step to finish.
    Waiting,
    /// The job was in a Waiting state when the build failed.
    WaitingFailed,
    /// The job is waiting on a Block step to finish.
    Blocked,
    /// The job was in a Blocked state when the build failed.
    BlockedFailed,
    /// This Block job has been manually unblocked.
    Unblocked,
    /// This Block job was in a Blocked state when the build failed.
    UnblockedFailed,
    /// The job is waiting on a concurrency group check before becoming either Limited or Scheduled.
    Limiting,
    /// The job is waiting for jobs with the same concurrency group to finish.
    Limited,
    /// The job is scheduled and waiting for an agent.
    Scheduled,
    /// The job has been assigned to an agent, and it's waiting for it to accept.
    Assigned,
    /// The job was accepted by the agent, and now it's waiting to start running.
    Accepted,
    /// The job is running.
    Running,
    /// The job has finished.
    Finished,
    /// The job is currently canceling.
    Canceling,
    /// The job was canceled.
    Canceled,
    /// The job is timing out for taking too long.
    TimingOut,
    /// The job timed out.
    TimedOut,
    /// The job was skipped.
    Skipped,
    /// The job's configuration means that it can't be run.
    Broken,
}

/// Whether a build state is one of the finished states.
pub proof fn lemma_finished_states_listed(state: Seq<char>)
    ensures
        state_is_finished(state) <==> finished_states().contains(state),
{
    if state_is_finished(state) {
        if state == "passed"@ {
            assert(finished_states()[0] == state);
        } else if state == "failed"@ {
            assert(finished_states()[1] == state);
        } else if state == "blocked"@ {
            assert(finished_states()[2] == state);
        } else {
            assert(finished_states()[3] == state);
        }
    }
}

/// Every finished state is a known state, and every known state is an allowed
/// filter value.
pub proof fn lemma_state_lists_nested(state: Seq<char>)
    ensures
        finished_states().contains(state) ==> known_states().contains(state),
        known_states().contains(state) ==> allowed_states().contains(state),
{
    if finished_states().contains(state) {
        let i = choose|i: int| 0 <= i < finished_states().len() && finished_states()[i] == state;
        if i == 0 {
            assert(known_states()[2] == state);
        } else if i == 1 {
            assert(known_states()[3] == state);
        } else if i == 2 {
            assert(known_states()[4] == state);
        } else {
            assert(known_states()[5] == state);
        }
    }
    if known_states().contains(state) {
        let i = choose|i: int| 0 <= i < known_states().len() && known_states()[i] == state;
        assert(allowed_states()[i] == state);
    }
}

/// A build is in the unfinished presentation group exactly when it has not
/// finished.
pub proof fn lemma_unfinished_group(state: Seq<char>)
    ensures
        (group_of(state) == BuildStateGroup::Unfinished) <==> !state_is_finished(state),
{
}

/// The waiter reports success only for a finished build: a passed or blocked
/// one, the successful and blocked presentation groups.
pub proof fn lemma_exit_code_success(state: Seq<char>)
    ensures
        exit_code_for(state) == 0 ==> state_is_finished(state),
        (exit_code_for(state) == 0) <==> (group_of(state) == BuildStateGroup::Successful
            || group_of(state) == BuildStateGroup::Blocked),
        exit_code_for(state) == 0 || exit_code_for(state) == 2,
{
}

/// The first build of a list, as the API returns them newest first.
pub fn first_build(builds: Vec<Build>) -> (r: Option<Build>)
    ensures
        builds@.len() == 0 ==> r is None,
        builds@.len() > 0 ==> r == Some(builds@[0]),
{
    let mut builds = builds;
    if builds.len() > 0 {
        Some(builds.remove(0))
    } else {
        None
    }
}

} // verus!
