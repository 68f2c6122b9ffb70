use templater::archive::{ArchiveEntry, WalkedPath};
use templater::cli::{Command, Task};
use templater::definition::{merge, CreateConfig, DefinitionInput, TemplateDefinition};
use templater::error::Error;
use templater::protocol::{Outcome, Reply, Request};
use templater::runner::Platform;
use templater::template::{Template, Timestamp};
use templater::templater::create::make_record;
use templater::templater::Templater;

fn strings(items: &[&str]) -> Vec<String> {
    items.iter().map(|s| s.to_string()).collect()
}

fn text(s: &str) -> Option<String> {
    Some(s.to_string())
}

fn definition() -> TemplateDefinition {
    TemplateDefinition {
        name: text("bar"),
        description: text("from the document"),
        commands: strings(&["make"]),
        ignore: strings(&["*.o"]),
    }
}

fn create(
    name: Option<&str>,
    ignore: &[&str],
    definition_file: Option<&str>,
    force: bool,
) -> Templater {
    let task = Task::Create {
        path: "work/site".to_string(),
        name: name.map(|s| s.to_string()),
        description: None,
        commands: strings(&["npm install"]),
        ignore: strings(ignore),
        definition_file: definition_file.map(|s| s.to_string()),
        force,
    };
    Templater::run_command(Command { task, verbose: false }, Platform::Posix)
}

fn converse(engine: &mut Templater, replies: Vec<Reply>) -> Vec<Request> {
    replies.into_iter().map(|reply| engine.run(reply)).collect()
}

fn source(base_name: Option<&str>) -> Reply {
    Reply::Source { is_directory: true, base_name: base_name.map(|s| s.to_string()) }
}

fn walk() -> Vec<WalkedPath> {
    vec![
        WalkedPath { path: "work/site".to_string(), relative: "".to_string(), is_file: false },
        WalkedPath {
            path: "work/site/index.html".to_string(),
            relative: "index.html".to_string(),
            is_file: true,
        },
        WalkedPath {
            path: "work/site/debug.log".to_string(),
            relative: "debug.log".to_string(),
            is_file: true,
        },
    ]
}

#[test]
fn an_explicit_name_wins_over_the_document() {
    let config = merge(
        &text("foo"),
        &None,
        &vec![],
        &vec![],
        &DefinitionInput::Loaded(definition()),
        &text("site"),
    );
    assert_eq!(
        config,
        Some(CreateConfig {
            name: "foo".to_string(),
            description: text("from the document"),
            commands: strings(&["make"]),
            ignore: strings(&["*.o"]),
        })
    );
}

#[test]
fn explicit_fields_win_and_empty_lists_fall_back() {
    let config = merge(
        &None,
        &text("mine"),
        &strings(&["cargo build"]),
        &vec![],
        &DefinitionInput::Loaded(definition()),
        &text("site"),
    );
    assert_eq!(
        config,
        Some(CreateConfig {
            name: "bar".to_string(),
            description: text("mine"),
            commands: strings(&["cargo build"]),
            ignore: strings(&["*.o"]),
        })
    );
}

#[test]
fn without_a_document_the_directory_names_the_template() {
    for input in [DefinitionInput::Absent, DefinitionInput::Invalid] {
        let config = merge(&None, &None, &vec![], &strings(&["*.log"]), &input, &text("site"));
        assert_eq!(
            config,
            Some(CreateConfig {
                name: "site".to_string(),
                description: None,
                commands: vec![],
                ignore: strings(&["*.log"]),
            })
        );
    }
}

#[test]
fn a_document_without_a_name_falls_back_to_the_directory() {
    let mut d = definition();
    d.name = None;
    let config = merge(&None, &None, &vec![], &vec![], &DefinitionInput::Loaded(d), &text("site"));
    assert_eq!(config.map(|c| c.name), text("site"));
}

#[test]
fn no_name_at_all_gives_no_fields() {
    assert_eq!(merge(&None, &None, &vec![], &vec![], &DefinitionInput::Absent, &None), None);
}

#[test]
fn a_new_record_was_never_used() {
    let config = CreateConfig {
        name: "foo".to_string(),
        description: text("d"),
        commands: strings(&["a", "b"]),
        ignore: strings(&["*.log"]),
    };
    let record = make_record(config, 4096, Timestamp::new(1_700_000_000, 5));
    assert_eq!(
        record,
        Template {
            name: "foo".to_string(),
            description: text("d"),
            commands: strings(&["a", "b"]),
            compressed_size: 4096,
            ignore: strings(&["*.log"]),
            created: Timestamp { secs: 1_700_000_000, nanos: 5 },
            used: None,
        }
    );
}

#[test]
fn create_probes_checks_walks_archives_and_then_stores() {
    let mut engine = create(Some("foo"), &["*.log"], None, false);
    let requests = converse(
        &mut engine,
        vec![
            Reply::Begin,
            source(Some("site")),
            Reply::Flag(false),
            Reply::Paths(walk()),
            Reply::Size(321),
            Reply::Time(Timestamp::new(1_700_000_000, 0)),
            Reply::Done,
        ],
    );
    assert_eq!(
        requests,
        vec![
            Request::ProbeSource { path: "work/site".to_string() },
            Request::HasRecord { name: "foo".to_string() },
            Request::WalkSource { path: "work/site".to_string() },
            Request::WriteArchive {
                name: "foo".to_string(),
                entries: vec![
                    ArchiveEntry {
                        source: "work/site".to_string(),
                        name: "./".to_string(),
                        is_file: false,
                    },
                    ArchiveEntry {
                        source: "work/site/index.html".to_string(),
                        name: "./index.html".to_string(),
                        is_file: true,
                    },
                ],
            },
            Request::ReadClock,
            Request::PutRecord {
                key: "foo".to_string(),
                record: Template {
                    name: "foo".to_string(),
                    description: None,
                    commands: strings(&["npm install"]),
                    compressed_size: 321,
                    ignore: strings(&["*.log"]),
                    created: Timestamp { secs: 1_700_000_000, nanos: 0 },
                    used: None,
                },
            },
            Request::Finish(Outcome::Completed),
        ]
    );
    assert!(engine.is_finished());
}

#[test]
fn create_with_a_document_named_foo_stores_foo() {
    let mut engine = create(Some("foo"), &[], Some("site.json"), false);
    let requests = converse(
        &mut engine,
        vec![
            Reply::Begin,
            source(Some("site")),
            Reply::Definition(DefinitionInput::Loaded(definition())),
            Reply::Flag(false),
            Reply::Paths(vec![]),
            Reply::Size(20),
            Reply::Time(Timestamp::new(7, 0)),
            Reply::Done,
        ],
    );
    assert_eq!(requests[1], Request::LoadDefinition { path: "site.json".to_string() });
    assert_eq!(requests[2], Request::HasRecord { name: "foo".to_string() });
    match &requests[6] {
        Request::PutRecord { key, record } => {
            assert_eq!(key, "foo");
            assert_eq!(record.name, "foo");
            assert_eq!(record.description, text("from the document"));
            assert_eq!(record.commands, strings(&["npm install"]));
            assert_eq!(record.ignore, strings(&["*.o"]));
            assert_eq!(record.used, None);
        },
        other => panic!("{:?}", other),
    }
    assert_eq!(requests[7], Request::Finish(Outcome::Completed));
}

#[test]
fn an_unreadable_document_counts_as_none() {
    let mut engine = create(None, &[], Some("broken.json"), false);
    let requests = converse(
        &mut engine,
        vec![Reply::Begin, source(Some("site")), Reply::Definition(DefinitionInput::Invalid)],
    );
    assert_eq!(requests[2], Request::HasRecord { name: "site".to_string() });
}

#[test]
fn a_taken_name_is_refused_without_force() {
    let mut engine = create(Some("foo"), &[], None, false);
    let requests = converse(&mut engine, vec![Reply::Begin, source(None), Reply::Flag(true)]);
    assert_eq!(
        requests[2],
        Request::Finish(Outcome::Refused(Error::TemplateExists("foo".to_string())))
    );
    assert!(engine.is_finished());
}

#[test]
fn a_taken_name_is_replaced_with_force() {
    let mut engine = create(Some("foo"), &[], None, true);
    let requests = converse(
        &mut engine,
        vec![
            Reply::Begin,
            source(None),
            Reply::Flag(true),
            Reply::Paths(vec![]),
            Reply::Size(1),
            Reply::Time(Timestamp::new(1, 1)),
            Reply::Done,
        ],
    );
    assert_eq!(requests[2], Request::WalkSource { path: "work/site".to_string() });
    assert_eq!(requests[3], Request::WriteArchive { name: "foo".to_string(), entries: vec![] });
    assert!(matches!(&requests[5], Request::PutRecord { key, .. } if key == "foo"));
    assert_eq!(requests[6], Request::Finish(Outcome::Completed));
}

#[test]
fn a_source_that_is_no_directory_is_refused() {
    let mut engine = create(Some("foo"), &[], Some("site.json"), false);
    let requests = converse(
        &mut engine,
        vec![Reply::Begin, Reply::Source { is_directory: false, base_name: text("site") }],
    );
    assert_eq!(
        requests[1],
        Request::Finish(Outcome::Refused(Error::InvalidTemplateDir("work/site".to_string())))
    );
}

#[test]
fn a_source_that_gives_no_name_is_refused() {
    let mut engine = create(None, &[], None, false);
    let requests = converse(&mut engine, vec![Reply::Begin, source(None)]);
    assert_eq!(
        requests[1],
        Request::Finish(Outcome::Refused(Error::NoFileName("work/site".to_string())))
    );
}

#[test]
fn an_invalid_pattern_ends_create_before_anything_is_written() {
    let mut engine = create(Some("foo"), &["*.log", "[oops"], None, false);
    let requests = converse(&mut engine, vec![Reply::Begin, source(None), Reply::Flag(false)]);
    assert_eq!(
        requests,
        vec![
            Request::ProbeSource { path: "work/site".to_string() },
            Request::HasRecord { name: "foo".to_string() },
            Request::Finish(Outcome::Refused(Error::InvalidPattern("[oops".to_string()))),
        ]
    );
}

#[test]
fn a_host_that_fails_breaks_the_operation_and_no_record_is_stored() {
    let mut engine = create(Some("foo"), &[], None, false);
    let requests = converse(
        &mut engine,
        vec![Reply::Begin, source(None), Reply::Flag(false), Reply::Paths(vec![]), Reply::Failed],
    );
    assert_eq!(requests[4], Request::Finish(Outcome::Broken));
    assert!(!requests.iter().any(|r| matches!(r, Request::PutRecord { .. })));
    assert_eq!(engine.run(Reply::Done), Request::Finish(Outcome::Broken));
}

#[test]
fn a_reply_out_of_turn_breaks_the_operation() {
    let mut engine = create(Some("foo"), &[], None, false);
    assert_eq!(engine.run(Reply::Done), Request::Finish(Outcome::Broken));
    assert!(engine.is_finished());
}
