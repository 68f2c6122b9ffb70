use templater::cli::{error_chain, operation_context, Command, Matches, Task};
use templater::error::Error;
use templater::runner::Platform;
use templater::templater::Templater;

fn strings(items: &[&str]) -> Vec<String> {
    items.iter().map(|s| s.to_string()).collect()
}

fn matches(subcommand: &str, target: Option<&str>) -> Matches {
    Matches {
        subcommand: subcommand.to_string(),
        verbose: false,
        target: target.map(|s| s.to_string()),
        name: None,
        description: None,
        commands: vec![],
        ignore: vec![],
        definition_file: None,
        force: false,
        path: None,
        envs: vec![],
        create_as: None,
        no_exec: false,
        list_commands: false,
        file_tree: false,
    }
}

#[test]
fn create_takes_its_fields_from_the_matches() {
    let mut m = matches("create", Some("work/site"));
    m.verbose = true;
    m.name = Some("foo".to_string());
    m.description = Some("d".to_string());
    m.commands = strings(&["a", "b"]);
    m.ignore = strings(&["*.log"]);
    m.definition_file = Some("def.json".to_string());
    m.force = true;
    m.path = Some("not for create".to_string());
    assert_eq!(
        Command::clap_parse(m),
        Ok(Command {
            task: Task::Create {
                path: "work/site".to_string(),
                name: Some("foo".to_string()),
                description: Some("d".to_string()),
                commands: strings(&["a", "b"]),
                ignore: strings(&["*.log"]),
                definition_file: Some("def.json".to_string()),
                force: true,
            },
            verbose: true,
        })
    );
}

#[test]
fn expand_takes_its_fields_from_the_matches() {
    let mut m = matches("expand", Some("web"));
    m.path = Some("/srv".to_string());
    m.envs = strings(&["A=b"]);
    m.create_as = Some("shop".to_string());
    m.no_exec = true;
    assert_eq!(
        Command::clap_parse(m),
        Ok(Command {
            task: Task::Expand {
                name: "web".to_string(),
                path: Some("/srv".to_string()),
                envs: strings(&["A=b"]),
                create_as: Some("shop".to_string()),
                no_exec: true,
            },
            verbose: false,
        })
    );
}

#[test]
fn list_needs_no_argument() {
    let mut m = matches("list", None);
    m.name = Some("we".to_string());
    m.list_commands = true;
    m.file_tree = true;
    assert_eq!(
        Command::clap_parse(m),
        Ok(Command {
            task: Task::List { name: Some("we".to_string()), commands: true, file_tree: true },
            verbose: false,
        })
    );
}

#[test]
fn delete_and_edit_name_a_template() {
    assert_eq!(
        Command::clap_parse(matches("delete", Some("web"))),
        Ok(Command { task: Task::Delete { name: "web".to_string() }, verbose: false })
    );
    assert_eq!(
        Command::clap_parse(matches("edit", Some("web"))),
        Ok(Command { task: Task::Edit { name: "web".to_string() }, verbose: false })
    );
}

#[test]
fn a_missing_argument_is_refused() {
    for subcommand in ["create", "expand", "delete", "edit"] {
        assert_eq!(
            Command::clap_parse(matches(subcommand, None)),
            Err(Error::InvalidArgument(format!("{} needs an argument", subcommand)))
        );
    }
}

#[test]
fn an_unknown_subcommand_is_refused() {
    assert_eq!(
        Command::clap_parse(matches("destroy", Some("web"))),
        Err(Error::InvalidArgument("unknown subcommand: destroy".to_string()))
    );
    assert_eq!(
        Command::clap_parse(matches("", None)),
        Err(Error::InvalidArgument("unknown subcommand: ".to_string()))
    );
}

#[test]
fn the_engine_remembers_how_much_to_say() {
    let mut m = matches("delete", Some("web"));
    m.verbose = true;
    let command = match Command::clap_parse(m) {
        Ok(c) => c,
        Err(e) => panic!("{}", e.message()),
    };
    let engine = Templater::run_command(command, Platform::Windows);
    assert!(engine.verbose());
    assert!(!engine.is_finished());
}

#[test]
fn every_operation_has_its_context() {
    let name = || "web".to_string();
    let tasks = vec![
        (matches("create", Some("site")), "Failed to create template"),
        (matches("expand", Some("web")), "Failed to expand template"),
        (matches("list", None), "Failed to list templates"),
        (matches("delete", Some("web")), "Failed to delete template"),
        (matches("edit", Some("web")), "Failed to edit template"),
    ];
    for (m, expected) in tasks {
        let command = Command::clap_parse(m).unwrap();
        assert_eq!(operation_context(&command.task), expected);
        let engine = Templater::run_command(command, Platform::Posix);
        assert_eq!(engine.context(), expected);
    }
    assert_eq!(
        error_chain(&Task::Delete { name: name() }, &Error::TemplateNotFound(name())),
        strings(&["Failed to delete template", "Template not found: web"])
    );
    assert_eq!(
        error_chain(
            &Task::List { name: None, commands: true, file_tree: false },
            &Error::InvalidArgument("x".to_string())
        ),
        strings(&["Failed to list templates", "Invalid argument: x"])
    );
}
