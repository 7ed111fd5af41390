//! What holds of the pipeline for every input, stated over the same spec
//! functions as the contracts of the functions themselves.

use vstd::prelude::*;
use crate::decode::{
    attribute, link_of, links_of, or_empty, PATH_KEY, TEXT_KEY, TOO_MANY_DIGITS, URL_KEY,
};
use crate::fraction::fractions_bounded;
use crate::document::parsed_members;
use crate::extract::{field_found, LINKS_PATTERN, RECORD_ID_PATTERN, TARGET_URL_PATTERN};
use crate::pipeline::{
    action_for, failures_of, next_state, outcome_of, pages_of, EventView, OutcomeView, RunState,
    SinkPolicy,
};
use crate::prefilter::spec_looks_like_record;
use crate::record::PageView;

verus! {

/// A line that does not begin with `{` gives no record: its outcome is
/// `Skipped`, no state of a run answers it with a request to store, and
/// the records of a run are the same with the line as without it.
pub proof fn skipped_line_stores_nothing(
    line: Seq<char>,
    before: Seq<Seq<char>>,
    state: RunState,
    policy: SinkPolicy,
)
    requires
        !spec_looks_like_record(line),
    ensures
        outcome_of(line) is Skipped,
        !(action_for(state, policy, EventView::Line(line)) is Store),
        pages_of(before.push(line)) == pages_of(before),
        failures_of(before.push(line)) == failures_of(before),
{
    assert(before.push(line).drop_last() =~= before);
}

/// Only a request to store hands out a record, and it is given for a line
/// that begins with `{`, in a run that is reading, and for nothing else.
pub proof fn store_follows_a_record_line(state: RunState, policy: SinkPolicy, event: EventView)
    ensures
        action_for(state, policy, event) is Store <==> state is Reading && (event matches
            EventView::Line(line) && spec_looks_like_record(line)),
{
}

/// A line that begins with `{`, in which all three fields are found and
/// whose links text is JSON that the parser can be given, gives a record
/// with exactly the identifier and the URL that were found, one link for
/// each member of the links array, and no failure.  Each attribute of a
/// link is the member's string under its key, and is empty only where the
/// member holds no string there.  The parser can be given every text but
/// one in which a number outside of any string has the integer part `0` and
/// a fraction that begins with more zeros than a 16-bit exponent counts.
pub proof fn complete_line_gives_its_values(
    line: Seq<char>,
    id: Seq<char>,
    url: Seq<char>,
    raw: Seq<char>,
    members: Seq<Map<Seq<char>, Seq<char>>>,
)
    requires
        spec_looks_like_record(line),
        field_found(RECORD_ID_PATTERN@, line) == Some(id),
        field_found(TARGET_URL_PATTERN@, line) == Some(url),
        field_found(LINKS_PATTERN@, line) == Some(raw),
        fractions_bounded(raw),
        parsed_members(raw) == Ok::<Seq<Map<Seq<char>, Seq<char>>>, Seq<char>>(members),
    ensures
        outcome_of(line) == (OutcomeView::Page {
            record: PageView { id, url, links: links_of(members) },
            failure: None,
        }),
        links_of(members).len() == members.len(),
        forall|i: int|
            #![trigger links_of(members)[i]]
            0 <= i < members.len() ==> {
                &&& links_of(members)[i].url == or_empty(attribute(members[i], URL_KEY@))
                &&& links_of(members)[i].anchor_text == or_empty(attribute(members[i], TEXT_KEY@))
                &&& links_of(members)[i].path == or_empty(attribute(members[i], PATH_KEY@))
            },
{
}

/// A member without a string under `text` gives a link with an empty anchor
/// text; its address and its path are the strings that the member holds
/// under `url` and `path`, as they are.
pub proof fn missing_text_gives_empty_anchor(fields: Map<Seq<char>, Seq<char>>)
    requires
        !fields.contains_key(TEXT_KEY@),
    ensures
        link_of(fields).anchor_text == Seq::<char>::empty(),
        fields.contains_key(URL_KEY@) ==> link_of(fields).url == fields[URL_KEY@],
        fields.contains_key(PATH_KEY@) ==> link_of(fields).path == fields[PATH_KEY@],
{
}

/// An attribute of a link is empty only where the member holds no string
/// under its key, or holds the empty one.
pub proof fn attribute_is_defaulted_only_when_absent(fields: Map<Seq<char>, Seq<char>>)
    ensures
        fields.contains_key(URL_KEY@) ==> link_of(fields).url == fields[URL_KEY@],
        fields.contains_key(TEXT_KEY@) ==> link_of(fields).anchor_text == fields[TEXT_KEY@],
        fields.contains_key(PATH_KEY@) ==> link_of(fields).path == fields[PATH_KEY@],
        !fields.contains_key(URL_KEY@) ==> link_of(fields).url == Seq::<char>::empty(),
        !fields.contains_key(TEXT_KEY@) ==> link_of(fields).anchor_text == Seq::<char>::empty(),
        !fields.contains_key(PATH_KEY@) ==> link_of(fields).path == Seq::<char>::empty(),
{
}

/// A line whose links text is not JSON still gives a record: with the
/// identifier and the URL as they were found, without links, and with a
/// failure.  The failure holds the parser's message, or
/// [`TOO_MANY_DIGITS`] where the text was not given to the parser.
pub proof fn undecodable_links_give_no_links(line: Seq<char>, raw: Seq<char>, message: Seq<char>)
    requires
        spec_looks_like_record(line),
        field_found(LINKS_PATTERN@, line) == Some(raw),
        parsed_members(raw) == Err::<Seq<Map<Seq<char>, Seq<char>>>, Seq<char>>(message),
    ensures
        outcome_of(line) == (OutcomeView::Page {
            record: PageView {
                id: or_empty(field_found(RECORD_ID_PATTERN@, line)),
                url: or_empty(field_found(TARGET_URL_PATTERN@, line)),
                links: Seq::empty(),
            },
            failure: Some(
                if fractions_bounded(raw) {
                    message
                } else {
                    TOO_MANY_DIGITS@
                },
            ),
        }),
{
}

/// A line whose links text holds a fraction that the parser cannot count
/// gives a record without links, and the failure [`TOO_MANY_DIGITS`],
/// whatever else the text holds.
pub proof fn overlong_fraction_gives_no_links(line: Seq<char>, raw: Seq<char>)
    requires
        spec_looks_like_record(line),
        field_found(LINKS_PATTERN@, line) == Some(raw),
        !fractions_bounded(raw),
    ensures
        outcome_of(line) == (OutcomeView::Page {
            record: PageView {
                id: or_empty(field_found(RECORD_ID_PATTERN@, line)),
                url: or_empty(field_found(TARGET_URL_PATTERN@, line)),
                links: Seq::empty(),
            },
            failure: Some(TOO_MANY_DIGITS@),
        }),
{
}

/// A line in which no links text is found gives a record without links and
/// without a failure: nothing was there to decode.
pub proof fn absent_links_give_no_links(line: Seq<char>)
    requires
        spec_looks_like_record(line),
        field_found(LINKS_PATTERN@, line) is None,
    ensures
        outcome_of(line) == (OutcomeView::Page {
            record: PageView {
                id: or_empty(field_found(RECORD_ID_PATTERN@, line)),
                url: or_empty(field_found(TARGET_URL_PATTERN@, line)),
                links: Seq::empty(),
            },
            failure: None,
        }),
{
}

/// The links come in the order of the members: there are as many, and the
/// link at each position is the link of the member at that position.
pub proof fn links_keep_their_order(members: Seq<Map<Seq<char>, Seq<char>>>, i: int, j: int)
    requires
        0 <= i < j < members.len(),
    ensures
        links_of(members).len() == members.len(),
        links_of(members)[i] == link_of(members[i]),
        links_of(members)[j] == link_of(members[j]),
{
}

/// Two runs over the same lines give the same records and the same
/// failures: what a run gives depends on the lines alone.
pub proof fn runs_agree(
    lines: Seq<Seq<char>>,
    first: (Seq<PageView>, Seq<Seq<char>>),
    second: (Seq<PageView>, Seq<Seq<char>>),
)
    requires
        first.0 == pages_of(lines),
        first.1 == failures_of(lines),
        second.0 == pages_of(lines),
        second.1 == failures_of(lines),
    ensures
        first == second,
{
}

/// Each line is on its own: the records of a run are the records of the
/// lines before, followed by what the last line gives.
pub proof fn lines_are_independent(before: Seq<Seq<char>>, line: Seq<char>)
    ensures
        pages_of(before.push(line)) == match outcome_of(line) {
            OutcomeView::Skipped => pages_of(before),
            OutcomeView::Page { record, .. } => pages_of(before).push(record),
        },
        failures_of(before.push(line)) == match outcome_of(line) {
            OutcomeView::Page { failure: Some(message), .. } => failures_of(before).push(message),
            _ => failures_of(before),
        },
{
    assert(before.push(line).drop_last() =~= before);
}

/// A run is given up only through a failed read, or through a failed store
/// under the policy that makes it fatal.  No line does it, whatever it
/// holds.
pub proof fn only_faults_fail_a_run(state: RunState, policy: SinkPolicy, event: EventView)
    requires
        state is Reading,
    ensures
        next_state(state, policy, event) is Failed <==> event is ReadFailed || (event is SinkFailed
            && policy is Fatal),
        next_state(state, policy, event) is Drained <==> event is EndOfInput,
{
}

/// A run that is over stays as it is and asks for nothing more.
pub proof fn finished_run_stays(state: RunState, policy: SinkPolicy, event: EventView)
    requires
        !(state is Reading),
    ensures
        next_state(state, policy, event) == state,
        action_for(state, policy, event) is Stop,
{
}

/// The run stops exactly when it is over.
pub proof fn stop_means_over(state: RunState, policy: SinkPolicy, event: EventView)
    ensures
        action_for(state, policy, event) is Stop <==> !(next_state(state, policy, event)
            is Reading),
{
}

} // verus!
