//! The pipeline: from a line to its outcome, and from a run's events to its
//! next state and action.
//!
//! The library reads nothing and stores nothing.  Its caller reads the
//! lines and owns the sink; [`Extractor::step`] tells it after each event
//! what to do next.

use vstd::prelude::*;
use crate::assemble::{build_page, failure_found, failure_view, page_of};
use crate::decode::DecodeFailure;
use crate::extract::{fields_of, Extractor};
use crate::prefilter::{looks_like_record, spec_looks_like_record};
use crate::record::{PageRecord, PageView};

verus! {

/// What became of one line.
#[derive(Clone, Debug, PartialEq, Eq)]
pub enum LineOutcome {
    /// The line does not look like a JSON object and was not looked into.
    Skipped,
    /// The line gave a record.  `failure` is set where the line held a
    /// links text that could not be decoded; the record then has no links.
    Page { record: PageRecord, failure: Option<DecodeFailure> },
}

/// A [`LineOutcome`] as plain values.
pub enum OutcomeView {
    Skipped,
    Page { record: PageView, failure: Option<Seq<char>> },
}

impl View for LineOutcome {
    type V = OutcomeView;

    open spec fn view(&self) -> OutcomeView {
        match *self {
            LineOutcome::Skipped => OutcomeView::Skipped,
            LineOutcome::Page { record, failure } => OutcomeView::Page {
                record: record@,
                failure: failure_view(failure),
            },
        }
    }
}

/// The outcome of a line, as a function of its text.
pub open spec fn outcome_of(line: Seq<char>) -> OutcomeView {
    if spec_looks_like_record(line) {
        OutcomeView::Page {
            record: page_of(fields_of(line)),
            failure: failure_found(fields_of(line).raw_links),
        }
    } else {
        OutcomeView::Skipped
    }
}

/// The records that a sequence of lines gives, in the order of the lines:
/// one for each line that is not skipped.
pub open spec fn pages_of(lines: Seq<Seq<char>>) -> Seq<PageView>
    decreases lines.len(),
{
    if lines.len() == 0 {
        Seq::empty()
    } else {
        match outcome_of(lines.last()) {
            OutcomeView::Skipped => pages_of(lines.drop_last()),
            OutcomeView::Page { record, .. } => pages_of(lines.drop_last()).push(record),
        }
    }
}

/// The decode failures that a sequence of lines gives, in the order of the
/// lines: for each line whose links text does not decode the message of its
/// failure, which is the parser's own for a text that is not JSON, and
/// [`crate::decode::TOO_MANY_DIGITS`] for a text that the parser is not
/// given.
pub open spec fn failures_of(lines: Seq<Seq<char>>) -> Seq<Seq<char>>
    decreases lines.len(),
{
    if lines.len() == 0 {
        Seq::empty()
    } else {
        match outcome_of(lines.last()) {
            OutcomeView::Page { failure: Some(message), .. } => failures_of(
                lines.drop_last(),
            ).push(message),
            _ => failures_of(lines.drop_last()),
        }
    }
}

/// The views of a sequence of lines.
pub open spec fn line_views(lines: Seq<String>) -> Seq<Seq<char>> {
    Seq::new(lines.len(), |i: int| lines[i]@)
}

/// The views of a sequence of records.
pub open spec fn page_views(pages: Seq<PageRecord>) -> Seq<PageView> {
    Seq::new(pages.len(), |i: int| pages[i]@)
}

/// The messages of a sequence of failures.
pub open spec fn failure_views(failures: Seq<DecodeFailure>) -> Seq<Seq<char>> {
    Seq::new(failures.len(), |i: int| failures[i].message@)
}

/// What a run over lines in memory gives.
#[derive(Clone, Debug, PartialEq, Eq)]
pub struct Collected {
    /// The records, one for each line that was not skipped.
    pub pages: Vec<PageRecord>,
    /// The decode failures, one for each links text that did not decode:
    /// that was not JSON, or that the parser could not be given.
    pub failures: Vec<DecodeFailure>,
}

/// Where a run stands between two events.
#[derive(Clone, Copy, Debug, PartialEq, Eq)]
pub enum RunState {
    /// The next line is awaited.
    Reading,
    /// The input ended; the run is over and was clean.
    Drained,
    /// The run was given up.
    Failed,
}

/// What a failure of the sink means for the run.
#[derive(Clone, Copy, Debug, PartialEq, Eq)]
pub enum SinkPolicy {
    /// The run is given up.
    Fatal,
    /// The record is lost and the run goes on.
    BestEffort,
}

/// What the caller reports to the pipeline.
#[derive(Clone, Debug, PartialEq, Eq)]
pub enum Event {
    /// The source gave this line.
    Line(String),
    /// The source has no more lines.
    EndOfInput,
    /// The source could not be read.
    ReadFailed,
    /// The sink could not store the record it was last given.
    SinkFailed,
}

/// An [`Event`] as plain values.
pub enum EventView {
    Line(Seq<char>),
    EndOfInput,
    ReadFailed,
    SinkFailed,
}

impl View for Event {
    type V = EventView;

    open spec fn view(&self) -> EventView {
        match *self {
            Event::Line(line) => EventView::Line(line@),
            Event::EndOfInput => EventView::EndOfInput,
            Event::ReadFailed => EventView::ReadFailed,
            Event::SinkFailed => EventView::SinkFailed,
        }
    }
}

/// What the pipeline asks of the caller.
#[derive(Clone, Debug, PartialEq, Eq)]
pub enum Action {
    /// Read the next line and report it.
    ReadNext,
    /// Hand `record` to the sink, then read the next line; report only a
    /// failure of the sink.  `failure` is a warning to pass on.
    Store { record: PageRecord, failure: Option<DecodeFailure> },
    /// Stop: the run is over.
    Stop,
}

/// An [`Action`] as plain values.
pub enum ActionView {
    ReadNext,
    Store { record: PageView, failure: Option<Seq<char>> },
    Stop,
}

impl View for Action {
    type V = ActionView;

    open spec fn view(&self) -> ActionView {
        match *self {
            Action::ReadNext => ActionView::ReadNext,
            Action::Store { record, failure } => ActionView::Store {
                record: record@,
                failure: failure_view(failure),
            },
            Action::Stop => ActionView::Stop,
        }
    }
}

/// The state after `event`.  A run that is over stays as it is.  A line
/// never ends the run, whatever it holds; the end of the input ends it
/// cleanly; a failed read gives it up, and a failed store does so under
/// [`SinkPolicy::Fatal`] only.
pub open spec fn next_state(state: RunState, policy: SinkPolicy, event: EventView) -> RunState {
    match state {
        RunState::Reading => match event {
            EventView::Line(_) => RunState::Reading,
            EventView::EndOfInput => RunState::Drained,
            EventView::ReadFailed => RunState::Failed,
            EventView::SinkFailed => match policy {
                SinkPolicy::Fatal => RunState::Failed,
                SinkPolicy::BestEffort => RunState::Reading,
            },
        },
        RunState::Drained => RunState::Drained,
        RunState::Failed => RunState::Failed,
    }
}

/// The action after `event`: to store the record of a line that gave one,
/// to read on while the run goes on, to stop when it is over.
pub open spec fn action_for(state: RunState, policy: SinkPolicy, event: EventView) -> ActionView {
    match state {
        RunState::Reading => match event {
            EventView::Line(line) => match outcome_of(line) {
                OutcomeView::Skipped => ActionView::ReadNext,
                OutcomeView::Page { record, failure } => ActionView::Store { record, failure },
            },
            EventView::EndOfInput => ActionView::Stop,
            EventView::ReadFailed => ActionView::Stop,
            EventView::SinkFailed => match policy {
                SinkPolicy::Fatal => ActionView::Stop,
                SinkPolicy::BestEffort => ActionView::ReadNext,
            },
        },
        RunState::Drained => ActionView::Stop,
        RunState::Failed => ActionView::Stop,
    }
}

impl Extractor {
    /// Takes one line through the pipeline.  A line that does not begin
    /// with `{` is skipped; every other line gives a record.
    pub fn process_line(&self, line: &str) -> (outcome: LineOutcome)
        ensures
            outcome@ == outcome_of(line@),
            outcome is Skipped <==> !spec_looks_like_record(line@),
    {
        if looks_like_record(line) {
            let fields = self.extract(line);
            let (record, failure) = build_page(fields);
            LineOutcome::Page { record, failure }
        } else {
            LineOutcome::Skipped
        }
    }

    /// Takes every line through the pipeline and keeps what it gives, as a
    /// sink that only collects would see it: the records and, apart from
    /// them, the decode failures.
    pub fn collect_pages(&self, lines: &Vec<String>) -> (collected: Collected)
        ensures
            page_views(collected.pages@) == pages_of(line_views(lines@)),
            failure_views(collected.failures@) == failures_of(line_views(lines@)),
    {
        let mut pages: Vec<PageRecord> = Vec::new();
        let mut failures: Vec<DecodeFailure> = Vec::new();
        let mut index: usize = 0;
        assert(line_views(lines@).take(0) =~= Seq::<Seq<char>>::empty());
        while index < lines.len()
            invariant
                index <= lines.len(),
                page_views(pages@) =~= pages_of(line_views(lines@).take(index as int)),
                failure_views(failures@) =~= failures_of(line_views(lines@).take(index as int)),
            decreases lines.len() - index,
        {
            let ghost pages_before = page_views(pages@);
            let ghost failures_before = failure_views(failures@);
            let ghost taken = line_views(lines@).take(index as int + 1);
            assert(taken.drop_last() =~= line_views(lines@).take(index as int));
            assert(taken.last() == lines@[index as int]@);
            match self.process_line(lines[index].as_str()) {
                LineOutcome::Skipped => {},
                LineOutcome::Page { record, failure } => {
                    pages.push(record);
                    assert(page_views(pages@) =~= pages_before.push(record@));
                    match failure {
                        Some(f) => {
                            failures.push(f);
                            assert(failure_views(failures@) =~= failures_before.push(f.message@));
                        },
                        None => {},
                    }
                },
            }
            index = index + 1;
        }
        assert(line_views(lines@).take(index as int) =~= line_views(lines@));
        Collected { pages, failures }
    }

    /// Decides what follows `event` in a run that stands at `state`.
    pub fn step(&self, state: RunState, policy: SinkPolicy, event: Event) -> (next: (
        RunState,
        Action,
    ))
        ensures
            next.0 == next_state(state, policy, event@),
            next.1@ == action_for(state, policy, event@),
    {
        match state {
            RunState::Reading => match event {
                Event::Line(line) => match self.process_line(line.as_str()) {
                    LineOutcome::Skipped => (RunState::Reading, Action::ReadNext),
                    LineOutcome::Page { record, failure } => (
                        RunState::Reading,
                        Action::Store { record, failure },
                    ),
                },
                Event::EndOfInput => (RunState::Drained, Action::Stop),
                Event::ReadFailed => (RunState::Failed, Action::Stop),
                Event::SinkFailed => match policy {
                    SinkPolicy::Fatal => (RunState::Failed, Action::Stop),
                    SinkPolicy::BestEffort => (RunState::Reading, Action::ReadNext),
                },
            },
            RunState::Drained => (RunState::Drained, Action::Stop),
            RunState::Failed => (RunState::Failed, Action::Stop),
        }
    }
}

} // verus!
