use wat_parser::assemble::{assemble, build_page};
use wat_parser::decode::{DecodeFailure, TOO_MANY_DIGITS};
use wat_parser::extract::Extractor;
use wat_parser::pipeline::{Action, Collected, Event, LineOutcome, RunState, SinkPolicy};
use wat_parser::record::{ExtractedFields, LinkEntry, PageRecord};

const EXAMPLE: &str = "{\"WARC-Record-ID\":\"<urn:uuid:1234>\",\"WARC-Target-URI\":\"http://e.com\",\"Links\":[{\"url\":\"http://x.com\",\"text\":\"X\",\"path\":\"A\"}]}";

fn pipeline() -> Extractor {
    match Extractor::new() {
        Ok(e) => e,
        Err(fault) => panic!("pattern refused: {:?}", fault),
    }
}

fn hop(url: &str, text: &str, path: &str) -> LinkEntry {
    LinkEntry { url: url.to_string(), anchor_text: text.to_string(), path: path.to_string() }
}

fn page(id: &str, url: &str, links: Vec<LinkEntry>) -> PageRecord {
    PageRecord { id: id.to_string(), url: url.to_string(), links }
}

fn example_page() -> PageRecord {
    page("1234", "http://e.com", vec![hop("http://x.com", "X", "A")])
}

#[test]
fn assemble_defaults_what_is_absent() {
    assert_eq!(assemble(None, None, None), page("", "", vec![]));
    assert_eq!(
        assemble(Some("i".to_string()), None, Some(vec![hop("a", "b", "c")])),
        page("i", "", vec![hop("a", "b", "c")])
    );
    assert_eq!(assemble(None, Some("u".to_string()), Some(vec![])), page("", "u", vec![]));
}

#[test]
fn assemble_keeps_the_order_of_links() {
    let links = vec![hop("a", "", ""), hop("b", "", ""), hop("c", "", "")];
    assert_eq!(
        assemble(Some("i".to_string()), Some("u".to_string()), Some(links.clone())).links,
        links
    );
}

#[test]
fn build_page_decodes_the_links_text() {
    let fields = ExtractedFields {
        record_id: Some("i".to_string()),
        target_url: Some("u".to_string()),
        raw_links: Some("[{\"url\":\"a\"},{\"url\":\"b\",\"text\":\"t\"}]".to_string()),
    };
    assert_eq!(
        build_page(fields),
        (page("i", "u", vec![hop("a", "", ""), hop("b", "t", "")]), None)
    );
}

#[test]
fn build_page_reports_text_that_is_no_json() {
    let fields = ExtractedFields {
        record_id: Some("i".to_string()),
        target_url: None,
        raw_links: Some("[{\"url\":}]".to_string()),
    };
    let (record, failure) = build_page(fields);
    assert_eq!(record, page("i", "", vec![]));
    assert_eq!(
        failure,
        Some(DecodeFailure { message: "Unexpected character: } at (1:9)".to_string() })
    );
}

#[test]
fn build_page_without_links_text_has_no_failure() {
    let fields = ExtractedFields { record_id: None, target_url: Some("u".to_string()), raw_links: None };
    assert_eq!(build_page(fields), (page("", "u", vec![]), None));
}

#[test]
fn lines_that_are_no_objects_are_skipped() {
    let p = pipeline();
    assert_eq!(p.process_line(""), LineOutcome::Skipped);
    assert_eq!(p.process_line("WARC/1.0"), LineOutcome::Skipped);
    assert_eq!(p.process_line("WARC-Type: metadata"), LineOutcome::Skipped);
    assert_eq!(p.process_line(&format!(" {}", EXAMPLE)), LineOutcome::Skipped);
    assert_eq!(p.process_line("[{\"url\":\"a\"}]"), LineOutcome::Skipped);
}

#[test]
fn example_line_gives_its_record() {
    assert_eq!(
        pipeline().process_line(EXAMPLE),
        LineOutcome::Page { record: example_page(), failure: None }
    );
}

#[test]
fn line_without_links_key_gives_record_without_links() {
    let line = "{\"WARC-Record-ID\":\"<urn:uuid:1234>\",\"WARC-Target-URI\":\"http://e.com\"}";
    assert_eq!(
        pipeline().process_line(line),
        LineOutcome::Page { record: page("1234", "http://e.com", vec![]), failure: None }
    );
}

#[test]
fn line_with_broken_links_text_gives_record_and_failure() {
    let line = "{\"WARC-Record-ID\":\"<urn:uuid:1234>\",\"WARC-Target-URI\":\"http://e.com\",\"Links\":[{\"url\":\"a\" \"text\":\"b\"}]}";
    match pipeline().process_line(line) {
        LineOutcome::Page { record, failure } => {
            assert_eq!(record, page("1234", "http://e.com", vec![]));
            assert_eq!(
                failure,
                Some(DecodeFailure { message: "Unexpected character: \" at (1:13)".to_string() })
            );
        }
        LineOutcome::Skipped => panic!("the line begins with a brace"),
    }
}

#[test]
fn line_with_nothing_to_find_gives_an_empty_record() {
    assert_eq!(
        pipeline().process_line("{}"),
        LineOutcome::Page { record: page("", "", vec![]), failure: None }
    );
    assert_eq!(
        pipeline().process_line("{ no json"),
        LineOutcome::Page { record: page("", "", vec![]), failure: None }
    );
}

#[test]
fn link_without_text_keeps_its_other_attributes() {
    let line = "{\"WARC-Record-ID\":\"<urn:uuid:5>\",\"Links\":[{\"path\":\"IMG@/src\",\"url\":\"/i.png\"}]}";
    assert_eq!(
        pipeline().process_line(line),
        LineOutcome::Page { record: page("5", "", vec![hop("/i.png", "", "IMG@/src")]), failure: None }
    );
}

#[test]
fn links_of_a_line_keep_their_order() {
    let line = "{\"Links\":[{\"url\":\"a\"},{\"url\":\"b\"}]}";
    assert_eq!(
        pipeline().process_line(line),
        LineOutcome::Page {
            record: page("", "", vec![hop("a", "", ""), hop("b", "", "")]),
            failure: None
        }
    );
}

fn sample_lines() -> Vec<String> {
    vec![
        "WARC/1.0".to_string(),
        EXAMPLE.to_string(),
        "".to_string(),
        "{\"WARC-Target-URI\":\"http://two.org\",\"Links\":[{\"url\":\"a\"},{\"url\":\"b\"}]}".to_string(),
        "{\"WARC-Record-ID\":\"<urn:uuid:3>\",\"Links\":[{\"url\":}]}".to_string(),
        "Content-Type: application/json".to_string(),
        "{\"WARC-Record-ID\":\"<urn:uuid:4>\"}".to_string(),
    ]
}

#[test]
fn collect_pages_gives_one_record_for_each_object_line() {
    let collected = pipeline().collect_pages(&sample_lines());
    assert_eq!(
        collected.pages,
        vec![
            example_page(),
            page("", "http://two.org", vec![hop("a", "", ""), hop("b", "", "")]),
            page("3", "", vec![]),
            page("4", "", vec![]),
        ]
    );
    assert_eq!(
        collected.failures,
        vec![DecodeFailure { message: "Unexpected character: } at (1:9)".to_string() }]
    );
}

#[test]
fn collect_pages_of_nothing_is_nothing() {
    let nothing = Collected { pages: vec![], failures: vec![] };
    assert_eq!(pipeline().collect_pages(&vec![]), nothing);
    assert_eq!(pipeline().collect_pages(&vec!["x".to_string(), "".to_string()]), nothing);
}

#[test]
fn two_runs_give_the_same_records() {
    let p = pipeline();
    let lines = sample_lines();
    let first = p.collect_pages(&lines);
    let second = p.collect_pages(&lines);
    assert_eq!(first, second);
    let other = pipeline().collect_pages(&lines);
    assert_eq!(first, other);
}

#[test]
fn a_bad_line_does_not_touch_its_neighbours() {
    let p = pipeline();
    let alone = p.collect_pages(&vec![EXAMPLE.to_string()]);
    let among = p.collect_pages(&vec![
        "{\"Links\":[{\"url\":}]}".to_string(),
        EXAMPLE.to_string(),
        "garbage".to_string(),
    ]);
    assert_eq!(alone.pages, vec![example_page()]);
    assert_eq!(among.pages, vec![page("", "", vec![]), example_page()]);
    assert_eq!(alone.failures, vec![]);
    assert_eq!(among.failures.len(), 1);
}

#[test]
fn step_skips_a_line_that_is_no_object() {
    let next = pipeline().step(
        RunState::Reading,
        SinkPolicy::Fatal,
        Event::Line("WARC/1.0".to_string()),
    );
    assert_eq!(next, (RunState::Reading, Action::ReadNext));
}

#[test]
fn step_hands_out_the_record_of_a_line() {
    let next =
        pipeline().step(RunState::Reading, SinkPolicy::Fatal, Event::Line(EXAMPLE.to_string()));
    assert_eq!(
        next,
        (RunState::Reading, Action::Store { record: example_page(), failure: None })
    );
}

#[test]
fn step_passes_the_decode_failure_on_and_reads_on() {
    let (state, action) = pipeline().step(
        RunState::Reading,
        SinkPolicy::Fatal,
        Event::Line("{\"WARC-Record-ID\":\"<urn:uuid:3>\",\"Links\":[{\"url\":}]}".to_string()),
    );
    assert_eq!(state, RunState::Reading);
    assert_eq!(
        action,
        Action::Store {
            record: page("3", "", vec![]),
            failure: Some(DecodeFailure { message: "Unexpected character: } at (1:9)".to_string() }),
        }
    );
}

#[test]
fn step_ends_cleanly_at_the_end_of_input() {
    let p = pipeline();
    assert_eq!(
        p.step(RunState::Reading, SinkPolicy::Fatal, Event::EndOfInput),
        (RunState::Drained, Action::Stop)
    );
    assert_eq!(
        p.step(RunState::Reading, SinkPolicy::BestEffort, Event::EndOfInput),
        (RunState::Drained, Action::Stop)
    );
}

#[test]
fn step_gives_up_on_a_failed_read() {
    let p = pipeline();
    assert_eq!(
        p.step(RunState::Reading, SinkPolicy::Fatal, Event::ReadFailed),
        (RunState::Failed, Action::Stop)
    );
    assert_eq!(
        p.step(RunState::Reading, SinkPolicy::BestEffort, Event::ReadFailed),
        (RunState::Failed, Action::Stop)
    );
}

#[test]
fn step_follows_the_policy_on_a_failed_store() {
    let p = pipeline();
    assert_eq!(
        p.step(RunState::Reading, SinkPolicy::Fatal, Event::SinkFailed),
        (RunState::Failed, Action::Stop)
    );
    assert_eq!(
        p.step(RunState::Reading, SinkPolicy::BestEffort, Event::SinkFailed),
        (RunState::Reading, Action::ReadNext)
    );
}

#[test]
fn step_leaves_a_finished_run_alone() {
    let p = pipeline();
    for state in [RunState::Drained, RunState::Failed] {
        for policy in [SinkPolicy::Fatal, SinkPolicy::BestEffort] {
            for event in [
                Event::Line(EXAMPLE.to_string()),
                Event::EndOfInput,
                Event::ReadFailed,
                Event::SinkFailed,
            ] {
                assert_eq!(p.step(state, policy, event), (state, Action::Stop));
            }
        }
    }
}

#[test]
fn a_driven_run_stores_each_record_in_order() {
    let p = pipeline();
    let mut stored: Vec<PageRecord> = Vec::new();
    let mut warnings = 0;
    let mut state = RunState::Reading;
    let mut lines = sample_lines().into_iter();
    loop {
        let event = match lines.next() {
            Some(line) => Event::Line(line),
            None => Event::EndOfInput,
        };
        let (next, action) = p.step(state, SinkPolicy::Fatal, event);
        state = next;
        match action {
            Action::ReadNext => {}
            Action::Store { record, failure } => {
                if failure.is_some() {
                    warnings += 1;
                }
                stored.push(record);
            }
            Action::Stop => break,
        }
    }
    assert_eq!(state, RunState::Drained);
    assert_eq!(warnings, 1);
    assert_eq!(stored, p.collect_pages(&sample_lines()).pages);
}

#[test]
fn line_with_an_overlong_fraction_gives_record_and_failure() {
    let line = format!(
        "{{\"WARC-Record-ID\":\"<urn:uuid:8>\",\"WARC-Target-URI\":\"http://e.com\",\"Links\":[{{\"url\":\"a\",\"n\":0.{}}}]}}",
        "0".repeat(40000)
    );
    let expected = LineOutcome::Page {
        record: page("8", "http://e.com", vec![]),
        failure: Some(DecodeFailure { message: TOO_MANY_DIGITS.to_string() }),
    };
    let p = pipeline();
    assert_eq!(p.process_line(&line), expected);
    let collected = p.collect_pages(&vec![line.clone(), EXAMPLE.to_string()]);
    assert_eq!(collected.pages, vec![page("8", "http://e.com", vec![]), example_page()]);
    assert_eq!(collected.failures, vec![DecodeFailure { message: TOO_MANY_DIGITS.to_string() }]);
    let (state, action) = p.step(RunState::Reading, SinkPolicy::Fatal, Event::Line(line));
    assert_eq!(state, RunState::Reading);
    assert_eq!(
        action,
        Action::Store {
            record: page("8", "http://e.com", vec![]),
            failure: Some(DecodeFailure { message: TOO_MANY_DIGITS.to_string() }),
        }
    );
}
