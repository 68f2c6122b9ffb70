//! The template record: the unit that the metadata store keeps per name.

use vstd::prelude::*;

verus! {

/// A point in time, counted from the Unix epoch.
#[derive(Debug, Clone, Copy, PartialEq, Eq, Structural)]
pub struct Timestamp {
    /// Whole seconds since 1970-01-01T00:00:00Z.
    pub secs: u64,
    /// Nanoseconds within the second.
    pub nanos: u32,
}

impl Timestamp {
    /// `self` is no later than `other`.
    pub open spec fn at_or_before(self, other: Timestamp) -> bool {
        self.secs < other.secs || (self.secs == other.secs && self.nanos <= other.nanos)
    }

    /// Builds a timestamp from its two parts.
    pub fn new(secs: u64, nanos: u32) -> (t: Timestamp)
        ensures
            t == (Timestamp { secs, nanos }),
    {
        Timestamp { secs, nanos }
    }

    /// Decides whether `self` is no later than `other`.
    pub fn not_after(&self, other: &Timestamp) -> (b: bool)
        ensures
            b == self.at_or_before(*other),
    {
        self.secs < other.secs || (self.secs == other.secs && self.nanos <= other.nanos)
    }
}

/// Copies a list of strings.
pub fn clone_strings(v: &Vec<String>) -> (r: Vec<String>)
    ensures
        r.deep_view() == v.deep_view(),
{
    let mut r: Vec<String> = Vec::new();
    let mut i: usize = 0;
    while i < v.len()
        invariant
            i <= v.len(),
            r.len() == i,
            forall|j: int| 0 <= j < i ==> r[j]@ == v[j]@,
        decreases v.len() - i,
    {
        r.push(v[i].clone());
        i += 1;
    }
    assert(r.deep_view() =~= v.deep_view());
    r
}

/// Copies an optional string.
pub fn clone_text(o: &Option<String>) -> (r: Option<String>)
    ensures
        r.deep_view() == o.deep_view(),
{
    match o {
        Some(s) => Some(s.clone()),
        None => None,
    }
}

/// What a [`Template`] denotes.
pub struct TemplateView {
    pub name: Seq<char>,
    pub description: Option<Seq<char>>,
    pub commands: Seq<Seq<char>>,
    pub compressed_size: u64,
    pub ignore: Seq<Seq<char>>,
    pub created: Timestamp,
    pub used: Option<Timestamp>,
}

/// The persisted description of one template.
#[derive(Debug, PartialEq, Eq)]
pub struct Template {
    /// Unique identifier; also the base name of the archive artifact.
    pub name: String,
    /// Free text for people.
    pub description: Option<String>,
    /// Shell command lines run after expansion, in this order.
    pub commands: Vec<String>,
    /// Byte length of the archive artifact when it was written.
    pub compressed_size: u64,
    /// Glob patterns that were excluded at capture time.
    pub ignore: Vec<String>,
    /// When the template was captured; never changes afterwards.
    pub created: Timestamp,
    /// When the template was last expanded; `None` if it never was.
    pub used: Option<Timestamp>,
}

impl DeepView for Template {
    type V = TemplateView;

    open spec fn deep_view(&self) -> TemplateView {
        self@
    }
}

impl View for Template {
    type V = TemplateView;

    open spec fn view(&self) -> TemplateView {
        TemplateView {
            name: self.name@,
            description: self.description.deep_view(),
            commands: self.commands.deep_view(),
            compressed_size: self.compressed_size,
            ignore: self.ignore.deep_view(),
            created: self.created,
            used: self.used,
        }
    }
}

impl Clone for Template {
    fn clone(&self) -> (r: Template)
        ensures
            r@ == self@,
    {
        Template {
            name: self.name.clone(),
            description: clone_text(&self.description),
            commands: clone_strings(&self.commands),
            compressed_size: self.compressed_size,
            ignore: clone_strings(&self.ignore),
            created: self.created,
            used: self.used,
        }
    }
}

} // verus!
