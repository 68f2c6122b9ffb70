use templater::cli::{Command, Task};
use templater::error::Error;
use templater::listing::{list_commands, list_templates, Cell, Report};
use templater::protocol::{Outcome, Reply, Request};
use templater::runner::Platform;
use templater::template::{Template, Timestamp};
use templater::templater::Templater;
use templater::tree::ArchiveItem;

fn strings(items: &[&str]) -> Vec<String> {
    items.iter().map(|s| s.to_string()).collect()
}

fn record(name: &str, description: Option<&str>, used: Option<Timestamp>) -> Template {
    Template {
        name: name.to_string(),
        description: description.map(|s| s.to_string()),
        commands: strings(&["git init", "npm install"]),
        compressed_size: 2048,
        ignore: vec![],
        created: Timestamp::new(1_700_000_000, 0),
        used,
    }
}

fn titles() -> Vec<String> {
    strings(&["Name", "Description", "Compressed Size", "Created At", "Last Used"])
}

fn list(name: Option<&str>, commands: bool, file_tree: bool) -> Templater {
    let task = Task::List { name: name.map(|s| s.to_string()), commands, file_tree };
    Templater::run_command(Command { task, verbose: false }, Platform::Posix)
}

fn converse(engine: &mut Templater, replies: Vec<Reply>) -> Vec<Request> {
    replies.into_iter().map(|reply| engine.run(reply)).collect()
}

#[test]
fn an_empty_store_lists_as_empty() {
    assert_eq!(list_templates(&vec![], &None), Report::Notice("No templates found".to_string()));
    assert_eq!(
        list_templates(&vec![], &Some("web".to_string())),
        Report::Notice("No templates found".to_string())
    );
}

#[test]
fn without_a_filter_every_record_has_its_row() {
    let records = vec![
        record("web", Some("a site"), None),
        record("cli", None, Some(Timestamp::new(1_700_000_500, 0))),
    ];
    assert_eq!(
        list_templates(&records, &None),
        Report::Table {
            titles: titles(),
            rows: vec![
                vec![
                    Cell::Text("web".to_string()),
                    Cell::Text("a site".to_string()),
                    Cell::Size(2048),
                    Cell::Moment(Timestamp::new(1_700_000_000, 0)),
                    Cell::Text("Never".to_string()),
                ],
                vec![
                    Cell::Text("cli".to_string()),
                    Cell::Text("No description".to_string()),
                    Cell::Size(2048),
                    Cell::Moment(Timestamp::new(1_700_000_000, 0)),
                    Cell::Moment(Timestamp::new(1_700_000_500, 0)),
                ],
            ],
        }
    );
}

#[test]
fn a_filter_keeps_the_records_whose_name_holds_it() {
    let records = vec![
        record("web-app", None, None),
        record("cli", None, None),
        record("my-web", None, None),
        record("WEB", None, None),
    ];
    let names = |report: Report| -> Vec<String> {
        match report {
            Report::Table { rows, .. } => rows
                .into_iter()
                .map(|row| match &row[0] {
                    Cell::Text(name) => name.clone(),
                    other => panic!("{:?}", other),
                })
                .collect(),
            other => panic!("{:?}", other),
        }
    };
    assert_eq!(
        names(list_templates(&records, &Some("web".to_string()))),
        strings(&["web-app", "my-web"])
    );
    assert_eq!(names(list_templates(&records, &Some("".to_string()))).len(), 4);
    assert_eq!(
        list_templates(&records, &Some("nothing".to_string())),
        Report::Notice("No templates found".to_string())
    );
}

#[test]
fn commands_are_listed_in_their_order() {
    assert_eq!(
        list_commands(&record("web", None, None)),
        Report::Notice("Commands:\ngit init\nnpm install".to_string())
    );
    let mut bare = record("web", None, None);
    bare.commands = vec![];
    assert_eq!(list_commands(&bare), Report::Notice("Commands:".to_string()));
}

#[test]
fn commands_without_a_name_are_refused() {
    let mut engine = list(None, true, false);
    assert_eq!(
        engine.run(Reply::Begin),
        Request::Finish(Outcome::Refused(Error::InvalidArgument(
            "You can only list commands for a specific template, please provide --name"
                .to_string()
        )))
    );
    let mut engine = list(None, true, true);
    assert!(matches!(
        engine.run(Reply::Begin),
        Request::Finish(Outcome::Refused(Error::InvalidArgument(_)))
    ));
}

#[test]
fn a_file_tree_without_a_name_is_refused() {
    let mut engine = list(None, false, true);
    assert_eq!(
        engine.run(Reply::Begin),
        Request::Finish(Outcome::Refused(Error::InvalidArgument(
            "You can only display file tree for a specific template, please provide --name"
                .to_string()
        )))
    );
    assert!(engine.is_finished());
}

#[test]
fn a_plain_listing_reads_and_shows() {
    let mut engine = list(None, false, false);
    let requests = converse(&mut engine, vec![Reply::Begin, Reply::Records(vec![]), Reply::Done]);
    assert_eq!(
        requests,
        vec![
            Request::ScanRecords,
            Request::Show(Report::Notice("No templates found".to_string())),
            Request::Finish(Outcome::Completed),
        ]
    );
}

#[test]
fn a_listing_with_details_shows_table_commands_and_tree() {
    let mut engine = list(Some("web"), true, true);
    let requests = converse(
        &mut engine,
        vec![
            Reply::Begin,
            Reply::Records(vec![record("web", None, None), record("cli", None, None)]),
            Reply::Done,
            Reply::Record(Some(record("web", None, None))),
            Reply::Done,
            Reply::Entries(vec![
                ArchiveItem { path: ".".to_string(), is_dir: true },
                ArchiveItem { path: "index.html".to_string(), is_dir: false },
            ]),
            Reply::Done,
        ],
    );
    assert_eq!(requests[0], Request::ScanRecords);
    assert!(matches!(&requests[1], Request::Show(Report::Table { rows, .. }) if rows.len() == 1));
    assert_eq!(requests[2], Request::GetRecord { name: "web".to_string() });
    assert_eq!(
        requests[3],
        Request::Show(Report::Notice("Commands:\ngit init\nnpm install".to_string()))
    );
    assert_eq!(requests[4], Request::ReadArchive { name: "web".to_string() });
    assert_eq!(
        requests[5],
        Request::Show(Report::Tree {
            heading: "File Tree".to_string(),
            lines: strings(&[".", "└── index.html"]),
        })
    );
    assert_eq!(requests[6], Request::Finish(Outcome::Completed));
}

#[test]
fn a_listing_with_the_tree_alone_looks_the_record_up_first() {
    let mut engine = list(Some("web"), false, true);
    let requests = converse(
        &mut engine,
        vec![
            Reply::Begin,
            Reply::Records(vec![]),
            Reply::Done,
            Reply::Record(Some(record("web", None, None))),
            Reply::Entries(vec![ArchiveItem { path: "a".to_string(), is_dir: false }]),
            Reply::Done,
        ],
    );
    assert_eq!(requests[2], Request::GetRecord { name: "web".to_string() });
    assert_eq!(requests[3], Request::ReadArchive { name: "web".to_string() });
    assert_eq!(
        requests[4],
        Request::Show(Report::Tree { heading: "File Tree".to_string(), lines: strings(&["a"]) })
    );
    assert_eq!(requests[5], Request::Finish(Outcome::Completed));
}

#[test]
fn the_file_tree_of_an_unknown_template_is_refused() {
    let mut engine = list(Some("web"), false, true);
    let requests = converse(
        &mut engine,
        vec![Reply::Begin, Reply::Records(vec![]), Reply::Done, Reply::Record(None)],
    );
    assert_eq!(
        requests,
        vec![
            Request::ScanRecords,
            Request::Show(Report::Notice("No templates found".to_string())),
            Request::GetRecord { name: "web".to_string() },
            Request::Finish(Outcome::Refused(Error::TemplateNotFound("web".to_string()))),
        ]
    );
}

#[test]
fn commands_of_an_unknown_template_are_refused() {
    let mut engine = list(Some("web"), true, false);
    let requests = converse(
        &mut engine,
        vec![Reply::Begin, Reply::Records(vec![]), Reply::Done, Reply::Record(None)],
    );
    assert_eq!(
        requests[3],
        Request::Finish(Outcome::Refused(Error::TemplateNotFound("web".to_string())))
    );
}
