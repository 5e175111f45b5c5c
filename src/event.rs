//! Raw directory-change events and the classifier that decides which of them
//! name a file worth parsing.

use vstd::prelude::*;

verus! {

/// What happened to an entry of the watched directory.
#[derive(Debug, Clone, Copy, PartialEq, Eq, Structural)]
pub enum ChangeKind {
    Created,
    Modified,
    Deleted,
    Other,
}

/// One change reported for an entry of the watched directory.
///
/// `path` is the entry's name inside the watched directory.
#[derive(Debug, Clone)]
pub struct RawEvent {
    pub path: String,
    pub kind: ChangeKind,
    pub is_dir: bool,
}

/// The change kind that an event with these flags stands for: creation wins
/// over deletion, deletion over modification.
pub open spec fn kind_of_flags(created: bool, deleted: bool, modified: bool) -> ChangeKind {
    if created {
        ChangeKind::Created
    } else if deleted {
        ChangeKind::Deleted
    } else if modified {
        ChangeKind::Modified
    } else {
        ChangeKind::Other
    }
}

/// The name ends in `.md` and has a non-empty stem before it.
pub open spec fn is_markdown_name(s: Seq<char>) -> bool {
    &&& s.len() > 3
    &&& s[s.len() - 3] == '.'
    &&& s[s.len() - 2] == 'm'
    &&& s[s.len() - 1] == 'd'
}

/// The name ends in `.md`.
pub open spec fn ends_with_md(s: Seq<char>) -> bool {
    &&& s.len() >= 3
    &&& s[s.len() - 3] == '.'
    &&& s[s.len() - 2] == 'm'
    &&& s[s.len() - 1] == 'd'
}

/// The name under its `.md` extension.
pub open spec fn stem_of(s: Seq<char>) -> Seq<char> {
    s.subrange(0, s.len() - 3)
}

/// The events that lead to parsing: a file, not a directory, with a markdown
/// name, that was created or modified.
pub open spec fn is_ingest_event(path: Seq<char>, kind: ChangeKind, is_dir: bool) -> bool {
    &&& !is_dir
    &&& is_markdown_name(path)
    &&& (kind == ChangeKind::Created || kind == ChangeKind::Modified)
}

impl RawEvent {
    /// Builds an event from the flags that the operating system reported.
    /// An event that names no entry is of no use and gives `None`.
    pub fn from_flags(
        name: Option<String>,
        created: bool,
        deleted: bool,
        modified: bool,
        is_dir: bool,
    ) -> (r: Option<RawEvent>)
        ensures
            name is None ==> r is None,
            name is Some ==> r is Some && r->0.path@ == name->0@ && r->0.kind == kind_of_flags(
                created,
                deleted,
                modified,
            ) && r->0.is_dir == is_dir,
    {
        match name {
            None => None,
            Some(path) => {
                let kind = if created {
                    ChangeKind::Created
                } else if deleted {
                    ChangeKind::Deleted
                } else if modified {
                    ChangeKind::Modified
                } else {
                    ChangeKind::Other
                };
                Some(RawEvent { path, kind, is_dir })
            },
        }
    }
}

/// A file name judged worth parsing: it ends in `.md` after a non-empty stem.
#[derive(Debug)]
pub struct IngestCandidate {
    name: String,
}

impl IngestCandidate {
    #[verifier::type_invariant]
    spec fn well_formed(self) -> bool {
        is_markdown_name(self.name@)
    }

    /// The candidate's file name.
    pub closed spec fn spec_name(&self) -> Seq<char> {
        self.name@
    }

    pub fn name(&self) -> (r: &str)
        ensures
            r@ == self.spec_name(),
            is_markdown_name(r@),
    {
        proof {
            use_type_invariant(self);
        }
        self.name.as_str()
    }

    /// Checks that `name` is a markdown file name.
    pub fn new(name: String) -> (r: Option<IngestCandidate>)
        ensures
            r is Some <==> is_markdown_name(name@),
            r is Some ==> r->0.spec_name() == name@,
    {
        if has_markdown_name(name.as_str()) {
            Some(IngestCandidate { name })
        } else {
            None
        }
    }

    /// The candidate's name without its `.md` extension.
    pub fn stem(&self) -> (r: &str)
        ensures
            r@ == stem_of(self.spec_name()),
    {
        proof {
            use_type_invariant(self);
        }
        let n = self.name.as_str().unicode_len();
        self.name.as_str().substring_char(0, n - 3)
    }
}

fn has_markdown_name(s: &str) -> (r: bool)
    ensures
        r == is_markdown_name(s@),
{
    let n = s.unicode_len();
    if n <= 3 {
        return false;
    }
    s.get_char(n - 3) == '.' && s.get_char(n - 2) == 'm' && s.get_char(n - 1) == 'd'
}

/// Decides whether a raw event names a file to parse.
///
/// Directory events, names that are not markdown files, deletions and any
/// other kind of change are discarded; a created or modified markdown file
/// becomes a candidate with the event's own name.
pub fn event_to_path(event: &RawEvent) -> (r: Option<IngestCandidate>)
    ensures
        r is Some <==> is_ingest_event(event.path@, event.kind, event.is_dir),
        r is Some ==> r->0.spec_name() == event.path@,
        event.is_dir ==> r is None,
        !ends_with_md(event.path@) ==> r is None,
        event.kind == ChangeKind::Deleted ==> r is None,
        event.kind == ChangeKind::Other ==> r is None,
        !event.is_dir && is_markdown_name(event.path@) && (event.kind == ChangeKind::Created
            || event.kind == ChangeKind::Modified) ==> r is Some && r->0.spec_name()
            == event.path@,
{
    if event.is_dir {
        return None;
    }
    match event.kind {
        ChangeKind::Created | ChangeKind::Modified => IngestCandidate::new(event.path.clone()),
        ChangeKind::Deleted | ChangeKind::Other => None,
    }
}

} // verus!
