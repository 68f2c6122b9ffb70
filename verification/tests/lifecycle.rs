use std::collections::{BTreeMap, BTreeSet};

use templater::archive::{ArchiveEntry, WalkedPath};
use templater::cli::{Command, Task};
use templater::definition::DefinitionInput;
use templater::edit::EditDocument;
use templater::error::Error;
use templater::listing::{Cell, Report};
use templater::protocol::{Outcome, Reply, Request};
use templater::runner::Platform;
use templater::template::{Template, Timestamp};
use templater::templater::Templater;
use templater::tree::ArchiveItem;

/// A host that keeps everything in memory.
struct Host {
    records: BTreeMap<String, Template>,
    archives: BTreeMap<String, Vec<ArchiveEntry>>,
    directories: BTreeSet<String>,
    source: Vec<WalkedPath>,
    clock: u64,
    inside: Option<String>,
    spawned: Vec<String>,
    shown: Vec<Report>,
    edit: Option<EditDocument>,
}

impl Host {
    fn new() -> Host {
        Host {
            records: BTreeMap::new(),
            archives: BTreeMap::new(),
            directories: BTreeSet::new(),
            source: vec![
                WalkedPath { path: "site".to_string(), relative: "".to_string(), is_file: false },
                WalkedPath {
                    path: "site/index.html".to_string(),
                    relative: "index.html".to_string(),
                    is_file: true,
                },
                WalkedPath {
                    path: "site/app.log".to_string(),
                    relative: "app.log".to_string(),
                    is_file: true,
                },
            ],
            clock: 1000,
            inside: None,
            spawned: vec![],
            shown: vec![],
            edit: None,
        }
    }

    fn perform(&mut self, request: Request) -> Reply {
        match request {
            Request::ProbeSource { path } => Reply::Source {
                is_directory: path == "site",
                base_name: Some(path),
            },
            Request::LoadDefinition { .. } => Reply::Definition(DefinitionInput::Invalid),
            Request::HasRecord { name } => Reply::Flag(self.records.contains_key(&name)),
            Request::WalkSource { .. } => Reply::Paths(std::mem::take(&mut self.source)),
            Request::WriteArchive { name, entries } => {
                let size = 100 * entries.len() as u64;
                self.archives.insert(name, entries);
                Reply::Size(size)
            },
            Request::ReadClock => {
                self.clock += 10;
                Reply::Time(Timestamp::new(self.clock, 0))
            },
            Request::PutRecord { key, record } => {
                self.records.insert(key, record);
                Reply::Done
            },
            Request::GetRecord { name } => Reply::Record(self.records.get(&name).cloned()),
            Request::LocateTarget { parent, directory } => {
                let path = format!("{}/{}", parent, directory);
                let exists = self.directories.contains(&path);
                Reply::Target { path, exists }
            },
            Request::Unpack { name, destination } => {
                if !self.archives.contains_key(&name) {
                    return Reply::Failed;
                }
                self.directories.insert(destination);
                Reply::Done
            },
            Request::EnterDirectory { path } => {
                assert!(self.inside.is_none());
                self.inside = Some(path);
                Reply::Done
            },
            Request::Spawn(invocation) => {
                assert!(self.inside.is_some());
                let line = invocation.args[1].clone();
                self.spawned.push(line.clone());
                Reply::Exit(!line.starts_with("false"))
            },
            Request::LeaveDirectory => {
                assert!(self.inside.is_some());
                self.inside = None;
                Reply::Done
            },
            Request::ScanRecords => Reply::Records(self.records.values().cloned().collect()),
            Request::ReadArchive { name } => match self.archives.get(&name) {
                Some(entries) => Reply::Entries(
                    entries
                        .iter()
                        .map(|e| ArchiveItem {
                            path: e.name.trim_start_matches("./").to_string(),
                            is_dir: !e.is_file,
                        })
                        .map(|item| {
                            if item.path.is_empty() {
                                ArchiveItem { path: ".".to_string(), is_dir: true }
                            } else {
                                item
                            }
                        })
                        .collect(),
                ),
                None => Reply::Failed,
            },
            Request::Show(report) => {
                self.shown.push(report);
                Reply::Done
            },
            Request::RemoveRecord { name } => Reply::Flag(self.records.remove(&name).is_some()),
            Request::RemoveArchive { name } => Reply::Flag(self.archives.remove(&name).is_some()),
            Request::Edit(_) => Reply::Edited(self.edit.take()),
            Request::RenameArchive { from, to } => match self.archives.remove(&from) {
                Some(entries) => {
                    self.archives.insert(to, entries);
                    Reply::Done
                },
                None => Reply::Failed,
            },
            Request::Finish(_) => Reply::Done,
        }
    }

    fn serve(&mut self, task: Task) -> Outcome {
        let mut engine = Templater::run_command(Command { task, verbose: false }, Platform::Posix);
        let mut reply = Reply::Begin;
        loop {
            match engine.run(reply) {
                Request::Finish(outcome) => {
                    assert!(engine.is_finished());
                    assert!(self.inside.is_none());
                    return outcome;
                },
                request => reply = self.perform(request),
            }
        }
    }
}

fn strings(items: &[&str]) -> Vec<String> {
    items.iter().map(|s| s.to_string()).collect()
}

fn create(name: &str, commands: &[&str], force: bool) -> Task {
    Task::Create {
        path: "site".to_string(),
        name: Some(name.to_string()),
        description: None,
        commands: strings(commands),
        ignore: strings(&["*.log"]),
        definition_file: None,
        force,
    }
}

fn expand(name: &str, create_as: Option<&str>, no_exec: bool) -> Task {
    Task::Expand {
        name: name.to_string(),
        path: None,
        envs: vec![],
        create_as: create_as.map(|s| s.to_string()),
        no_exec,
    }
}

#[test]
fn a_template_lives_from_create_to_delete() {
    let mut host = Host::new();

    assert_eq!(host.serve(create("web", &["true", "echo done"], false)), Outcome::Completed);
    assert_eq!(host.records["web"].name, "web");
    assert_eq!(host.records["web"].used, None);
    assert_eq!(host.records["web"].created, Timestamp::new(1010, 0));
    assert_eq!(host.records["web"].compressed_size, 200);
    let stored: Vec<&str> = host.archives["web"].iter().map(|e| e.name.as_str()).collect();
    assert_eq!(stored, vec!["./", "./index.html"]);

    assert_eq!(
        host.serve(create("web", &[], false)),
        Outcome::Refused(Error::TemplateExists("web".to_string()))
    );
    assert_eq!(host.records["web"].commands, strings(&["true", "echo done"]));

    assert_eq!(host.serve(expand("web", None, false)), Outcome::Completed);
    assert_eq!(host.records["web"].used, Some(Timestamp::new(1020, 0)));
    assert_eq!(host.spawned, strings(&["true ", "echo done"]));
    assert!(host.directories.contains("./web"));

    assert_eq!(
        host.serve(expand("web", None, true)),
        Outcome::Refused(Error::InvalidTemplateDir("./web".to_string()))
    );
    assert_eq!(host.records["web"].used, Some(Timestamp::new(1030, 0)));

    assert_eq!(host.serve(expand("web", Some("again"), true)), Outcome::Completed);
    assert_eq!(host.records["web"].used, Some(Timestamp::new(1040, 0)));
    assert_eq!(host.records["web"].created, Timestamp::new(1010, 0));
    assert_eq!(host.spawned.len(), 2);

    assert_eq!(host.serve(Task::Delete { name: "web".to_string() }), Outcome::Completed);
    assert!(host.records.is_empty());
    assert!(host.archives.is_empty());
    assert_eq!(
        host.serve(Task::Delete { name: "web".to_string() }),
        Outcome::Refused(Error::TemplateNotFound("web".to_string()))
    );
    assert_eq!(
        host.serve(expand("web", Some("third"), true)),
        Outcome::Refused(Error::TemplateNotFound("web".to_string()))
    );
}

#[test]
fn force_replaces_record_and_artifact() {
    let mut host = Host::new();
    assert_eq!(host.serve(create("web", &["old"], false)), Outcome::Completed);
    assert_eq!(host.serve(expand("web", None, true)), Outcome::Completed);
    assert!(host.records["web"].used.is_some());
    host.source = vec![WalkedPath {
        path: "site".to_string(),
        relative: "".to_string(),
        is_file: false,
    }];
    assert_eq!(host.serve(create("web", &["new"], true)), Outcome::Completed);
    assert_eq!(host.records.len(), 1);
    assert_eq!(host.records["web"].commands, strings(&["new"]));
    assert_eq!(host.records["web"].used, None);
    assert_eq!(host.archives["web"].len(), 1);
}

#[test]
fn a_failing_command_stops_the_run_and_the_use_is_marked() {
    let mut host = Host::new();
    assert_eq!(host.serve(create("web", &["true", "false", "true"], false)), Outcome::Completed);
    assert_eq!(
        host.serve(expand("web", None, false)),
        Outcome::Refused(Error::CreateTemplate("false".to_string()))
    );
    assert_eq!(host.spawned, strings(&["true ", "false "]));
    assert_eq!(host.records["web"].used, Some(Timestamp::new(1020, 0)));
    assert_eq!(host.inside, None);
}

#[test]
fn listings_show_what_is_stored() {
    let mut host = Host::new();
    let list = |name: Option<&str>, commands: bool, file_tree: bool| Task::List {
        name: name.map(|s| s.to_string()),
        commands,
        file_tree,
    };
    assert_eq!(host.serve(list(None, false, false)), Outcome::Completed);
    assert_eq!(host.shown, vec![Report::Notice("No templates found".to_string())]);

    assert_eq!(host.serve(create("web-app", &["make"], false)), Outcome::Completed);
    host.source = vec![];
    assert_eq!(host.serve(create("cli", &[], false)), Outcome::Completed);
    host.shown.clear();

    assert_eq!(
        host.serve(list(Some("web"), true, true)),
        Outcome::Refused(Error::TemplateNotFound("web".to_string()))
    );
    assert_eq!(host.shown.len(), 1);
    match &host.shown[0] {
        Report::Table { rows, .. } => {
            assert_eq!(rows.len(), 1);
            assert_eq!(rows[0][0], Cell::Text("web-app".to_string()));
            assert_eq!(rows[0][4], Cell::Text("Never".to_string()));
        },
        other => panic!("{:?}", other),
    }
    host.shown.clear();

    assert_eq!(host.serve(list(Some("cli"), true, false)), Outcome::Completed);
    assert_eq!(host.shown[1], Report::Notice("Commands:".to_string()));
    host.shown.clear();

    assert_eq!(host.serve(list(Some("web-app"), true, true)), Outcome::Completed);
    assert_eq!(host.shown[1], Report::Notice("Commands:\nmake".to_string()));
    assert_eq!(
        host.shown[2],
        Report::Tree { heading: "File Tree".to_string(), lines: strings(&[".", "└── index.html"]) }
    );

    assert_eq!(
        host.serve(list(Some("web"), false, true)),
        Outcome::Refused(Error::TemplateNotFound("web".to_string()))
    );
    assert_eq!(
        host.serve(list(None, false, true)),
        Outcome::Refused(Error::InvalidArgument(
            "You can only display file tree for a specific template, please provide --name"
                .to_string()
        ))
    );
}

#[test]
fn an_edit_changes_the_record_and_moves_the_artifact() {
    let mut host = Host::new();
    assert_eq!(host.serve(create("web", &["make"], false)), Outcome::Completed);
    host.edit = Some(EditDocument {
        name: "shop".to_string(),
        description: Some("a shop".to_string()),
        commands: strings(&["yarn"]),
    });
    assert_eq!(host.serve(Task::Edit { name: "web".to_string() }), Outcome::Completed);
    assert_eq!(host.records["web"].name, "shop");
    assert_eq!(host.records["web"].description, Some("a shop".to_string()));
    assert_eq!(host.records["web"].commands, strings(&["yarn"]));
    assert_eq!(host.records["web"].ignore, strings(&["*.log"]));
    assert_eq!(host.records["web"].created, Timestamp::new(1010, 0));
    assert!(host.archives.contains_key("shop"));
    assert!(!host.archives.contains_key("web"));

    assert_eq!(
        host.serve(Task::Edit { name: "web".to_string() }),
        Outcome::Refused(Error::EditTemplate("Failed to open editor".to_string()))
    );
    assert_eq!(host.records["web"].name, "shop");
}
