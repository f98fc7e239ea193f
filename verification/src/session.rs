//! One run of the tool as a state machine. The machine decides; whoever
//! drives it reads the lines, looks at the file system and writes the file.
//! Each step takes what the driver found and returns what it is to do next.

use crate::messages::{
    banner, banner_text, directory_prompt, directory_prompt_text, offer, offer_text,
};
use crate::outcome::Outcome;
use crate::registry::{language_of, supported, Language};
use crate::save::{
    accepts_save, candidate_directory, confirms_save, current_directory, file_name, file_name_of,
    resolve_directory, resolved_directory,
};
use crate::text::{normalize, normalized, trimmed};
use vstd::prelude::*;
use vstd::string::*;

verus! {

/// Where a run stands: what the machine waits for. `S` is the type of the
/// texts held: `String` in running code, `Seq<char>` in contracts.
#[derive(PartialEq, Eq, Debug)]
pub enum Stage<S> {
    /// The language was asked for; its line is awaited.
    AwaitingLanguage,
    /// The template was shown; the answer to the offer to save is awaited.
    AwaitingConfirmation { language: Language },
    /// A directory was asked for; its line is awaited.
    AwaitingDirectory { language: Language },
    /// The directory's path is being looked up.
    AwaitingProbe { language: Language, directory: S },
    /// The file is being written.
    AwaitingWrite,
    /// The run is over.
    Finished,
}

/// What the driver hands to the machine.
#[derive(PartialEq, Eq, Debug)]
pub enum Event<S> {
    /// A line that the user typed, with or without its terminator.
    Line(S),
    /// Whether the path probed is an existing directory.
    Probed(bool),
    /// How the write went: the path of the file written, or what the platform
    /// said of the failure.
    Written(Result<S, S>),
}

/// What the machine asks of the driver.
#[derive(PartialEq, Eq, Debug)]
pub enum Action<S> {
    /// Show `text` followed by a line terminator, read a line, and hand it
    /// back as `Event::Line`.
    Ask { text: S },
    /// Find out whether `path` is an existing directory, and hand the answer
    /// back as `Event::Probed`. Nothing is to be created.
    Probe { path: S },
    /// Write `body`, and nothing more, to the file `file_name` in
    /// `directory`, replacing what is there, and hand the result back as
    /// `Event::Written`.
    Write { directory: S, file_name: S, body: S },
    /// Show the status line of `outcome` and end the run.
    Finish { outcome: Outcome<S> },
}

impl View for Stage<String> {
    type V = Stage<Seq<char>>;

    open spec fn view(&self) -> Stage<Seq<char>> {
        match self {
            Stage::AwaitingLanguage => Stage::AwaitingLanguage,
            Stage::AwaitingConfirmation { language } => Stage::AwaitingConfirmation {
                language: *language,
            },
            Stage::AwaitingDirectory { language } => Stage::AwaitingDirectory {
                language: *language,
            },
            Stage::AwaitingProbe { language, directory } => Stage::AwaitingProbe {
                language: *language,
                directory: directory@,
            },
            Stage::AwaitingWrite => Stage::AwaitingWrite,
            Stage::Finished => Stage::Finished,
        }
    }
}

impl View for Event<String> {
    type V = Event<Seq<char>>;

    open spec fn view(&self) -> Event<Seq<char>> {
        match self {
            Event::Line(raw) => Event::Line(raw@),
            Event::Probed(is_directory) => Event::Probed(*is_directory),
            Event::Written(Ok(path)) => Event::Written(Ok(path@)),
            Event::Written(Err(reason)) => Event::Written(Err(reason@)),
        }
    }
}

impl View for Action<String> {
    type V = Action<Seq<char>>;

    open spec fn view(&self) -> Action<Seq<char>> {
        match self {
            Action::Ask { text } => Action::Ask { text: text@ },
            Action::Probe { path } => Action::Probe { path: path@ },
            Action::Write { directory, file_name, body } => Action::Write {
                directory: directory@,
                file_name: file_name@,
                body: body@,
            },
            Action::Finish { outcome } => Action::Finish { outcome: outcome@ },
        }
    }
}

/// The stage in which every run begins.
pub open spec fn initial_stage() -> Stage<Seq<char>> {
    Stage::AwaitingLanguage
}

/// The action with which every run begins: the banner is shown and the
/// language asked for.
pub open spec fn initial_action() -> Action<Seq<char>> {
    Action::Ask { text: banner_text() }
}

/// The order to report `outcome` and end the run.
pub open spec fn report(outcome: Outcome<Seq<char>>) -> Action<Seq<char>> {
    Action::Finish { outcome }
}

/// The order to write the template of `language` into `directory`.
pub open spec fn write_action(language: Language, directory: Seq<char>) -> Action<Seq<char>> {
    Action::Write {
        directory,
        file_name: file_name_of(language.row().extension),
        body: language.row().body,
    }
}

/// What follows once the directory is known or refused.
pub open spec fn after_directory(language: Language, resolved: Option<Seq<char>>) -> (
    Stage<Seq<char>>,
    Action<Seq<char>>,
) {
    match resolved {
        Some(directory) => (Stage::AwaitingWrite, write_action(language, directory)),
        None => (Stage::Finished, Action::Finish { outcome: Outcome::InvalidDirectory }),
    }
}

/// The transition of the machine: the stage that follows `stage` on `event`
/// and the action to take, or `None` where the event does not answer what
/// the stage waits for.
pub open spec fn next(stage: Stage<Seq<char>>, event: Event<Seq<char>>) -> Option<
    (Stage<Seq<char>>, Action<Seq<char>>),
> {
    match (stage, event) {
        (Stage::AwaitingLanguage, Event::Line(raw)) => Some(
            match language_of(normalized(raw)) {
                Some(language) => (
                    Stage::AwaitingConfirmation { language },
                    Action::Ask { text: offer_text(language.row().body) },
                ),
                None => (
                    Stage::Finished,
                    Action::Finish { outcome: Outcome::UnsupportedLanguage },
                ),
            },
        ),
        (Stage::AwaitingConfirmation { language }, Event::Line(raw)) => Some(
            if accepts_save(raw) {
                (Stage::AwaitingDirectory { language }, Action::Ask { text: directory_prompt_text() })
            } else {
                (Stage::Finished, Action::Finish { outcome: Outcome::NotSaved })
            },
        ),
        (Stage::AwaitingDirectory { language }, Event::Line(raw)) => Some(
            if trimmed(raw).len() == 0 {
                after_directory(language, resolved_directory(trimmed(raw), false))
            } else {
                (
                    Stage::AwaitingProbe { language, directory: trimmed(raw) },
                    Action::Probe { path: trimmed(raw) },
                )
            },
        ),
        (Stage::AwaitingProbe { language, directory }, Event::Probed(is_directory)) => Some(
            after_directory(language, resolved_directory(directory, is_directory)),
        ),
        (Stage::AwaitingWrite, Event::Written(Ok(path))) => Some(
            (Stage::Finished, Action::Finish { outcome: Outcome::Saved { path } }),
        ),
        (Stage::AwaitingWrite, Event::Written(Err(reason))) => Some(
            (Stage::Finished, Action::Finish { outcome: Outcome::IoFailure { reason } }),
        ),
        _ => None,
    }
}

/// The event that `action` asks for, told by its kind: a line, a probe's
/// answer or the result of a write. A `Finish` asks for nothing.
pub open spec fn answers(action: Action<Seq<char>>, event: Event<Seq<char>>) -> bool {
    match action {
        Action::Ask { .. } => event is Line,
        Action::Probe { .. } => event is Probed,
        Action::Write { .. } => event is Written,
        Action::Finish { .. } => false,
    }
}

/// The actions that the machine takes, one after the other, when it starts
/// in `stage` and is handed `events` in turn. It stops at the first event
/// that does not answer.
pub open spec fn run(stage: Stage<Seq<char>>, events: Seq<Event<Seq<char>>>) -> Seq<
    Action<Seq<char>>,
>
    decreases events.len(),
{
    if events.len() == 0 {
        Seq::empty()
    } else {
        match next(stage, events.first()) {
            Some((following, action)) => seq![action] + run(following, events.drop_first()),
            None => Seq::empty(),
        }
    }
}

/// Begins a run: the stage to start from, and the first action.
pub fn start() -> (r: (Stage<String>, Action<String>))
    ensures
        r.0@ == initial_stage(),
        r.1@ == initial_action(),
{
    (Stage::AwaitingLanguage, Action::Ask { text: banner() })
}

/// The order to write the template of `language` into `directory`.
fn write_order(language: Language, directory: String) -> (r: Action<String>)
    ensures
        r@ == write_action(language, directory@),
{
    Action::Write { directory, file_name: file_name(language.extension()), body: language.body() }
}

/// What follows once `candidate` has been resolved.
fn proceed_to_write(language: Language, candidate: &str, is_directory: bool) -> (r: (
    Stage<String>,
    Action<String>,
))
    ensures
        (r.0@, r.1@) == after_directory(language, resolved_directory(candidate@, is_directory)),
{
    match resolve_directory(candidate, is_directory) {
        Ok(directory) => (Stage::AwaitingWrite, write_order(language, directory)),
        Err(_) => (Stage::Finished, Action::Finish { outcome: Outcome::InvalidDirectory }),
    }
}

/// One step of a run: given the stage and what the driver found, the stage
/// that follows and what the driver is to do next. `None` means that the
/// event does not answer what the stage waits for; nothing follows a
/// finished run.
pub fn step(stage: Stage<String>, event: Event<String>) -> (r: Option<
    (Stage<String>, Action<String>),
>)
    ensures
        match r {
            Some((following, action)) => next(stage@, event@) == Some((following@, action@)),
            None => next(stage@, event@) is None,
        },
{
    match (stage, event) {
        (Stage::AwaitingLanguage, Event::Line(raw)) => {
            let key = normalize(raw.as_str());
            match Language::from_key(key.as_str()) {
                Some(language) => Some(
                    (
                        Stage::AwaitingConfirmation { language },
                        Action::Ask { text: offer(language.body().as_str()) },
                    ),
                ),
                None => Some(
                    (Stage::Finished, Action::Finish { outcome: Outcome::UnsupportedLanguage }),
                ),
            }
        },
        (Stage::AwaitingConfirmation { language }, Event::Line(raw)) => {
            if confirms_save(raw.as_str()) {
                Some((Stage::AwaitingDirectory { language }, Action::Ask { text: directory_prompt() }))
            } else {
                Some((Stage::Finished, Action::Finish { outcome: Outcome::NotSaved }))
            }
        },
        (Stage::AwaitingDirectory { language }, Event::Line(raw)) => {
            let candidate = candidate_directory(raw.as_str());
            if candidate.as_str().is_empty() {
                Some(proceed_to_write(language, candidate.as_str(), false))
            } else {
                let path = candidate.clone();
                Some((Stage::AwaitingProbe { language, directory: candidate }, Action::Probe { path }))
            }
        },
        (Stage::AwaitingProbe { language, directory }, Event::Probed(is_directory)) => {
            Some(proceed_to_write(language, directory.as_str(), is_directory))
        },
        (Stage::AwaitingWrite, Event::Written(Ok(path))) => {
            Some((Stage::Finished, Action::Finish { outcome: Outcome::Saved { path } }))
        },
        (Stage::AwaitingWrite, Event::Written(Err(reason))) => {
            Some((Stage::Finished, Action::Finish { outcome: Outcome::IoFailure { reason } }))
        },
        _ => None,
    }
}

/// Each action asks for exactly the events that the stage reached with it
/// accepts: a question for a line, a probe for its answer, a write for its
/// result, and the end of the run for nothing more.
pub proof fn lemma_stage_awaits_answer(
    stage: Stage<Seq<char>>,
    event: Event<Seq<char>>,
    reply: Event<Seq<char>>,
)
    requires
        next(stage, event) is Some,
    ensures
        ({
            let (following, action) = next(stage, event)->0;
            &&& next(following, reply) is Some <==> answers(action, reply)
            &&& action is Finish <==> following is Finished
        }),
{
}

/// A line that names no language ends the run at once: the one action of
/// the run reports the unsupported language, whatever the driver hands over
/// afterwards. Nothing is asked, probed or written.
pub proof fn lemma_unsupported_language_ends_run(
    raw: Seq<char>,
    later: Seq<Event<Seq<char>>>,
)
    requires
        !supported(normalized(raw)),
    ensures
        run(initial_stage(), seq![Event::Line(raw)] + later) == seq![
            report(Outcome::UnsupportedLanguage),
        ],
{
    let events = seq![Event::Line(raw)] + later;
    assert(events.first() == Event::<Seq<char>>::Line(raw));
    lemma_finished_run_is_silent(events.drop_first());
    assert(run(initial_stage(), events) =~= seq![report(Outcome::UnsupportedLanguage)]);
}

/// Nothing follows a finished run.
pub proof fn lemma_finished_run_is_silent(events: Seq<Event<Seq<char>>>)
    ensures
        run(Stage::Finished, events) == Seq::<Action<Seq<char>>>::empty(),
{
}

/// A file is written only with consent. If the `i`-th action of a run from
/// the start is a write, then the first line named a language, the second
/// agreed to saving, and the third either was blank, in which case the write
/// goes to the current directory, or named a directory that the probe found
/// to exist, in which case the write goes there. What is written is the
/// template of the language named, to the file named after its extension.
pub proof fn lemma_write_needs_consent(events: Seq<Event<Seq<char>>>, i: int)
    requires
        0 <= i < run(initial_stage(), events).len(),
        run(initial_stage(), events)[i] is Write,
    ensures
        events.len() > i >= 2,
        events[0] is Line && events[1] is Line && events[2] is Line,
        language_of(normalized(events[0]->Line_0)) is Some,
        accepts_save(events[1]->Line_0),
        i == 2 <==> trimmed(events[2]->Line_0).len() == 0,
        i == 3 ==> events[3] == Event::<Seq<char>>::Probed(true),
        i == 2 || i == 3,
        run(initial_stage(), events)[i] == write_action(
            language_of(normalized(events[0]->Line_0))->0,
            if i == 2 {
                current_directory()
            } else {
                trimmed(events[2]->Line_0)
            },
        ),
{
    let s0 = initial_stage();
    let e0 = events.first();
    let (s1, a1) = next(s0, e0)->0;
    let rest1 = events.drop_first();
    assert(run(s0, events) == seq![a1] + run(s1, rest1));
    assert(events[0] == e0);
    if s1 is Finished {
        lemma_finished_run_is_silent(rest1);
    } else {
        let e1 = rest1.first();
        let (s2, a2) = next(s1, e1)->0;
        let rest2 = rest1.drop_first();
        assert(run(s1, rest1) == seq![a2] + run(s2, rest2));
        assert(events[1] == e1);
        if s2 is Finished {
            lemma_finished_run_is_silent(rest2);
        } else {
            let e2 = rest2.first();
            let (s3, a3) = next(s2, e2)->0;
            let rest3 = rest2.drop_first();
            assert(run(s2, rest2) == seq![a3] + run(s3, rest3));
            assert(events[2] == e2);
            if s3 is AwaitingWrite {
                lemma_write_ends_run(rest3);
            } else {
                let e3 = rest3.first();
                let (s4, a4) = next(s3, e3)->0;
                let rest4 = rest3.drop_first();
                assert(run(s3, rest3) == seq![a4] + run(s4, rest4));
                assert(events[3] == e3);
                if s4 is Finished {
                    lemma_finished_run_is_silent(rest4);
                } else {
                    lemma_write_ends_run(rest4);
                }
            }
        }
    }
}

/// Once the write is under way, all that follows is the report of how it
/// went.
pub proof fn lemma_write_ends_run(events: Seq<Event<Seq<char>>>)
    ensures
        run(Stage::AwaitingWrite, events).len() <= 1,
        forall|j: int|
            0 <= j < run(Stage::AwaitingWrite, events).len() ==> run(
                Stage::AwaitingWrite,
                events,
            )[j] is Finish,
{
    if events.len() > 0 && next(Stage::AwaitingWrite, events.first()) is Some {
        lemma_finished_run_is_silent(events.drop_first());
    }
}

} // verus!
