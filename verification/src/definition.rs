//! The optional definition document of a capture, and how its fields are
//! merged with the fields given on the request.

use vstd::prelude::*;
use crate::template::{clone_strings, clone_text};

verus! {

/// What a [`TemplateDefinition`] denotes.
pub struct TemplateDefinitionView {
    pub name: Option<Seq<char>>,
    pub description: Option<Seq<char>>,
    pub commands: Seq<Seq<char>>,
    pub ignore: Seq<Seq<char>>,
}

/// A declarative document that supplies the fields of a capture.
#[derive(Debug, PartialEq, Eq)]
pub struct TemplateDefinition {
    pub name: Option<String>,
    pub description: Option<String>,
    pub commands: Vec<String>,
    pub ignore: Vec<String>,
}

impl DeepView for TemplateDefinition {
    type V = TemplateDefinitionView;

    open spec fn deep_view(&self) -> TemplateDefinitionView {
        self@
    }
}

impl View for TemplateDefinition {
    type V = TemplateDefinitionView;

    open spec fn view(&self) -> TemplateDefinitionView {
        TemplateDefinitionView {
            name: self.name.deep_view(),
            description: self.description.deep_view(),
            commands: self.commands.deep_view(),
            ignore: self.ignore.deep_view(),
        }
    }
}

/// What a [`DefinitionInput`] denotes.
pub enum DefinitionInputView {
    Absent,
    Invalid,
    Loaded(TemplateDefinitionView),
}

/// What became of the definition document of a capture.
#[derive(Debug, PartialEq, Eq)]
pub enum DefinitionInput {
    /// The request names no document.
    Absent,
    /// A document is named, but it could not be opened or understood.
    Invalid,
    /// The document was read.
    Loaded(TemplateDefinition),
}

impl DeepView for DefinitionInput {
    type V = DefinitionInputView;

    open spec fn deep_view(&self) -> DefinitionInputView {
        self@
    }
}

impl View for DefinitionInput {
    type V = DefinitionInputView;

    open spec fn view(&self) -> DefinitionInputView {
        match self {
            DefinitionInput::Absent => DefinitionInputView::Absent,
            DefinitionInput::Invalid => DefinitionInputView::Invalid,
            DefinitionInput::Loaded(d) => DefinitionInputView::Loaded(d@),
        }
    }
}

impl DefinitionInputView {
    /// The fields that the document supplies: those of a document that was
    /// read, none otherwise.
    pub open spec fn fields(self) -> TemplateDefinitionView {
        match self {
            DefinitionInputView::Loaded(d) => d,
            _ => TemplateDefinitionView {
                name: None,
                description: None,
                commands: Seq::empty(),
                ignore: Seq::empty(),
            },
        }
    }
}

/// What a [`CreateConfig`] denotes.
pub struct CreateConfigView {
    pub name: Seq<char>,
    pub description: Option<Seq<char>>,
    pub commands: Seq<Seq<char>>,
    pub ignore: Seq<Seq<char>>,
}

/// The fields of a capture after merging.
#[derive(Debug, PartialEq, Eq)]
pub struct CreateConfig {
    pub name: String,
    pub description: Option<String>,
    pub commands: Vec<String>,
    pub ignore: Vec<String>,
}

impl DeepView for CreateConfig {
    type V = CreateConfigView;

    open spec fn deep_view(&self) -> CreateConfigView {
        self@
    }
}

impl View for CreateConfig {
    type V = CreateConfigView;

    open spec fn view(&self) -> CreateConfigView {
        CreateConfigView {
            name: self.name@,
            description: self.description.deep_view(),
            commands: self.commands.deep_view(),
            ignore: self.ignore.deep_view(),
        }
    }
}

impl Clone for CreateConfig {
    fn clone(&self) -> (r: CreateConfig)
        ensures
            r@ == self@,
    {
        CreateConfig {
            name: self.name.clone(),
            description: clone_text(&self.description),
            commands: clone_strings(&self.commands),
            ignore: clone_strings(&self.ignore),
        }
    }
}

/// The first of two optional values that is there.
pub open spec fn first_of(a: Option<Seq<char>>, b: Option<Seq<char>>) -> Option<Seq<char>> {
    if a is Some {
        a
    } else {
        b
    }
}

/// The explicit list unless it is empty, else the fallback.
pub open spec fn list_or(explicit: Seq<Seq<char>>, fallback: Seq<Seq<char>>) -> Seq<Seq<char>> {
    if explicit.len() > 0 {
        explicit
    } else {
        fallback
    }
}

/// The merge policy. An explicit value wins; where there is none the
/// document's value is taken; the name falls back to the base name of the
/// source directory. There is no result where no name can be had.
pub open spec fn merged(
    name: Option<Seq<char>>,
    description: Option<Seq<char>>,
    commands: Seq<Seq<char>>,
    ignore: Seq<Seq<char>>,
    definition: DefinitionInputView,
    base_name: Option<Seq<char>>,
) -> Option<CreateConfigView> {
    let d = definition.fields();
    match first_of(name, first_of(d.name, base_name)) {
        Some(n) => Some(
            CreateConfigView {
                name: n,
                description: first_of(description, d.description),
                commands: list_or(commands, d.commands),
                ignore: list_or(ignore, d.ignore),
            },
        ),
        None => None,
    }
}

/// A name given on the request is the name of the template, whatever the
/// definition document and the source directory are called.
pub proof fn explicit_name_wins(
    name: Seq<char>,
    description: Option<Seq<char>>,
    commands: Seq<Seq<char>>,
    ignore: Seq<Seq<char>>,
    definition: DefinitionInputView,
    base_name: Option<Seq<char>>,
)
    ensures
        merged(Some(name), description, commands, ignore, definition, base_name) is Some,
        merged(Some(name), description, commands, ignore, definition, base_name)->0.name == name,
{
}

/// A document that could not be read counts as no document at all.
pub proof fn unreadable_document_counts_as_none(
    name: Option<Seq<char>>,
    description: Option<Seq<char>>,
    commands: Seq<Seq<char>>,
    ignore: Seq<Seq<char>>,
    base_name: Option<Seq<char>>,
)
    ensures
        merged(name, description, commands, ignore, DefinitionInputView::Invalid, base_name)
            == merged(name, description, commands, ignore, DefinitionInputView::Absent, base_name),
{
}

/// Picks the first of two optional strings that is there.
fn pick_text(a: &Option<String>, b: &Option<String>) -> (r: Option<String>)
    ensures
        r.deep_view() == first_of(a.deep_view(), b.deep_view()),
{
    match a {
        Some(s) => Some(s.clone()),
        None => clone_text(b),
    }
}

/// Picks the explicit list unless it is empty.
fn pick_list(explicit: &Vec<String>, fallback: &Vec<String>) -> (r: Vec<String>)
    ensures
        r.deep_view() == list_or(explicit.deep_view(), fallback.deep_view()),
{
    if explicit.len() > 0 {
        clone_strings(explicit)
    } else {
        clone_strings(fallback)
    }
}

/// Merges the explicit fields of a capture with its definition document.
pub fn merge(
    name: &Option<String>,
    description: &Option<String>,
    commands: &Vec<String>,
    ignore: &Vec<String>,
    definition: &DefinitionInput,
    base_name: &Option<String>,
) -> (r: Option<CreateConfig>)
    ensures
        r.deep_view() == merged(
            name.deep_view(),
            description.deep_view(),
            commands.deep_view(),
            ignore.deep_view(),
            definition@,
            base_name.deep_view(),
        ),
{
    let none: Option<String> = None;
    let empty: Vec<String> = Vec::new();
    assert(empty.deep_view() =~= Seq::<Seq<char>>::empty());
    let (d_name, d_description, d_commands, d_ignore) = match definition {
        DefinitionInput::Loaded(d) => (&d.name, &d.description, &d.commands, &d.ignore),
        _ => (&none, &none, &empty, &empty),
    };
    let fallback = pick_text(d_name, base_name);
    match pick_text(name, &fallback) {
        Some(n) => Some(
            CreateConfig {
                name: n,
                description: pick_text(description, d_description),
                commands: pick_list(commands, d_commands),
                ignore: pick_list(ignore, d_ignore),
            },
        ),
        None => None,
    }
}

} // verus!
