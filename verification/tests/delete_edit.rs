use templater::cli::{Command, Task};
use templater::edit::{overlay, project, EditDocument};
use templater::error::Error;
use templater::listing::Report;
use templater::protocol::{Outcome, Reply, Request};
use templater::runner::Platform;
use templater::template::{Template, Timestamp};
use templater::templater::Templater;

fn strings(items: &[&str]) -> Vec<String> {
    items.iter().map(|s| s.to_string()).collect()
}

fn record() -> Template {
    Template {
        name: "web".to_string(),
        description: Some("a site".to_string()),
        commands: strings(&["npm install"]),
        compressed_size: 77,
        ignore: strings(&["*.log"]),
        created: Timestamp::new(100, 1),
        used: Some(Timestamp::new(200, 2)),
    }
}

fn engine(task: Task) -> Templater {
    Templater::run_command(Command { task, verbose: false }, Platform::Posix)
}

fn converse(engine: &mut Templater, replies: Vec<Reply>) -> Vec<Request> {
    replies.into_iter().map(|reply| engine.run(reply)).collect()
}

#[test]
fn delete_removes_the_record_and_then_the_archive() {
    let mut e = engine(Task::Delete { name: "web".to_string() });
    let requests = converse(&mut e, vec![Reply::Begin, Reply::Flag(true), Reply::Flag(true)]);
    assert_eq!(
        requests,
        vec![
            Request::RemoveRecord { name: "web".to_string() },
            Request::RemoveArchive { name: "web".to_string() },
            Request::Finish(Outcome::Completed),
        ]
    );
}

#[test]
fn delete_of_an_unknown_template_is_refused_and_touches_no_archive() {
    let mut e = engine(Task::Delete { name: "web".to_string() });
    let requests = converse(&mut e, vec![Reply::Begin, Reply::Flag(false)]);
    assert_eq!(
        requests,
        vec![
            Request::RemoveRecord { name: "web".to_string() },
            Request::Finish(Outcome::Refused(Error::TemplateNotFound("web".to_string()))),
        ]
    );
}

#[test]
fn a_missing_archive_is_worth_a_warning_only() {
    let mut e = engine(Task::Delete { name: "web".to_string() });
    let requests = converse(
        &mut e,
        vec![Reply::Begin, Reply::Flag(true), Reply::Flag(false), Reply::Done],
    );
    assert_eq!(
        requests[2],
        Request::Show(Report::Warning("Archive of template web not found".to_string()))
    );
    assert_eq!(requests[3], Request::Finish(Outcome::Completed));
}

#[test]
fn the_editable_part_is_name_description_and_commands() {
    assert_eq!(
        project(&record()),
        EditDocument {
            name: "web".to_string(),
            description: Some("a site".to_string()),
            commands: strings(&["npm install"]),
        }
    );
}

#[test]
fn an_edit_keeps_size_patterns_and_timestamps() {
    let edited = EditDocument {
        name: "shop".to_string(),
        description: None,
        commands: strings(&["yarn", "yarn build"]),
    };
    assert_eq!(
        overlay(&record(), &edited),
        Template {
            name: "shop".to_string(),
            description: None,
            commands: strings(&["yarn", "yarn build"]),
            compressed_size: 77,
            ignore: strings(&["*.log"]),
            created: Timestamp::new(100, 1),
            used: Some(Timestamp::new(200, 2)),
        }
    );
    assert_eq!(overlay(&record(), &project(&record())), record());
}

#[test]
fn edit_stores_under_the_old_key_and_then_renames() {
    let mut e = engine(Task::Edit { name: "web".to_string() });
    let edited = EditDocument {
        name: "shop".to_string(),
        description: Some("a shop".to_string()),
        commands: vec![],
    };
    let requests = converse(
        &mut e,
        vec![
            Reply::Begin,
            Reply::Record(Some(record())),
            Reply::Edited(Some(edited)),
            Reply::Done,
            Reply::Done,
        ],
    );
    let mut updated = record();
    updated.name = "shop".to_string();
    updated.description = Some("a shop".to_string());
    updated.commands = vec![];
    assert_eq!(
        requests,
        vec![
            Request::GetRecord { name: "web".to_string() },
            Request::Edit(project(&record())),
            Request::PutRecord { key: "web".to_string(), record: updated },
            Request::RenameArchive { from: "web".to_string(), to: "shop".to_string() },
            Request::Finish(Outcome::Completed),
        ]
    );
}

#[test]
fn edit_without_a_new_name_renames_nothing() {
    let mut e = engine(Task::Edit { name: "web".to_string() });
    let mut edited = project(&record());
    edited.description = None;
    let requests = converse(
        &mut e,
        vec![
            Reply::Begin,
            Reply::Record(Some(record())),
            Reply::Edited(Some(edited)),
            Reply::Done,
        ],
    );
    assert!(matches!(&requests[2], Request::PutRecord { key, record } if key == "web" && record.description.is_none()));
    assert_eq!(requests[3], Request::Finish(Outcome::Completed));
}

#[test]
fn a_failed_editor_is_refused_and_nothing_is_stored() {
    let mut e = engine(Task::Edit { name: "web".to_string() });
    let requests = converse(
        &mut e,
        vec![Reply::Begin, Reply::Record(Some(record())), Reply::Edited(None)],
    );
    assert_eq!(
        requests[2],
        Request::Finish(Outcome::Refused(Error::EditTemplate("Failed to open editor".to_string())))
    );
}

#[test]
fn edit_of_an_unknown_template_is_refused() {
    let mut e = engine(Task::Edit { name: "web".to_string() });
    let requests = converse(&mut e, vec![Reply::Begin, Reply::Record(None)]);
    assert_eq!(
        requests[1],
        Request::Finish(Outcome::Refused(Error::TemplateNotFound("web".to_string())))
    );
}

#[test]
fn a_failed_rename_is_surfaced() {
    let mut e = engine(Task::Edit { name: "web".to_string() });
    let mut edited = project(&record());
    edited.name = "shop".to_string();
    let requests = converse(
        &mut e,
        vec![
            Reply::Begin,
            Reply::Record(Some(record())),
            Reply::Edited(Some(edited)),
            Reply::Done,
            Reply::Failed,
        ],
    );
    assert_eq!(requests[4], Request::Finish(Outcome::Broken));
}
