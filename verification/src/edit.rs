//! Editing a record in place: the document shown to the person, and how the
//! edited document is laid over the stored record.

use vstd::prelude::*;
use crate::template::{clone_strings, clone_text, Template, TemplateView};

verus! {

/// What an [`EditDocument`] denotes.
pub struct EditDocumentView {
    pub name: Seq<char>,
    pub description: Option<Seq<char>>,
    pub commands: Seq<Seq<char>>,
}

/// The fields of a record that a person may edit.
#[derive(Debug, PartialEq, Eq)]
pub struct EditDocument {
    pub name: String,
    pub description: Option<String>,
    pub commands: Vec<String>,
}

impl DeepView for EditDocument {
    type V = EditDocumentView;

    open spec fn deep_view(&self) -> EditDocumentView {
        self@
    }
}

impl View for EditDocument {
    type V = EditDocumentView;

    open spec fn view(&self) -> EditDocumentView {
        EditDocumentView {
            name: self.name@,
            description: self.description.deep_view(),
            commands: self.commands.deep_view(),
        }
    }
}

/// The editable part of a record.
pub open spec fn projected(record: TemplateView) -> EditDocumentView {
    EditDocumentView {
        name: record.name,
        description: record.description,
        commands: record.commands,
    }
}

/// The record after an edit: name, description and commands as edited,
/// everything else as stored.
pub open spec fn overlaid(record: TemplateView, edited: EditDocumentView) -> TemplateView {
    TemplateView {
        name: edited.name,
        description: edited.description,
        commands: edited.commands,
        compressed_size: record.compressed_size,
        ignore: record.ignore,
        created: record.created,
        used: record.used,
    }
}

/// Takes the editable part out of a record.
pub fn project(record: &Template) -> (document: EditDocument)
    ensures
        document@ == projected(record@),
{
    EditDocument {
        name: record.name.clone(),
        description: clone_text(&record.description),
        commands: clone_strings(&record.commands),
    }
}

/// Lays an edited document over the stored record.
pub fn overlay(record: &Template, edited: &EditDocument) -> (updated: Template)
    ensures
        updated@ == overlaid(record@, edited@),
{
    Template {
        name: edited.name.clone(),
        description: clone_text(&edited.description),
        commands: clone_strings(&edited.commands),
        compressed_size: record.compressed_size,
        ignore: clone_strings(&record.ignore),
        created: record.created,
        used: record.used,
    }
}

/// An edit that changes nothing leaves the record as it was.
pub proof fn unchanged_edit_keeps_the_record(record: TemplateView)
    ensures
        overlaid(record, projected(record)) == record,
{
}

/// An edit never touches the size, the ignore patterns or the two timestamps.
pub proof fn edit_keeps_what_is_not_shown(record: TemplateView, edited: EditDocumentView)
    ensures
        overlaid(record, edited).compressed_size == record.compressed_size,
        overlaid(record, edited).ignore == record.ignore,
        overlaid(record, edited).created == record.created,
        overlaid(record, edited).used == record.used,
        projected(overlaid(record, edited)) == edited,
{
}

} // verus!
