//! Reading a document file: the frame of front matter and body, the
//! identity taken from the file name, and the metadata schema.

use vstd::prelude::*;
use vstd::utf8::encode_utf8;

use crate::document::{genre_label, kind_label, Doc, DocGenre, DocKind, Front};
use crate::event::{stem_of, IngestCandidate};

verus! {

/// Three dashes start at `i`.
pub open spec fn marker_at(s: Seq<char>, i: int) -> bool {
    &&& 0 <= i
    &&& i + 3 <= s.len()
    &&& s[i] == '-'
    &&& s[i + 1] == '-'
    &&& s[i + 2] == '-'
}

/// The first place at or after `from` where three dashes start.
pub open spec fn next_marker(s: Seq<char>, from: int) -> Option<int>
    decreases s.len() - from,
{
    if from < 0 || from + 3 > s.len() {
        None
    } else if marker_at(s, from) {
        Some(from)
    } else {
        next_marker(s, from + 1)
    }
}

/// The starts of the first two delimiters of a document, the second taken
/// after the end of the first; `None` where there are fewer than two.
pub open spec fn delimiters(s: Seq<char>) -> Option<(int, int)> {
    match next_marker(s, 0) {
        None => None,
        Some(i) => match next_marker(s, i + 3) {
            None => None,
            Some(j) => Some((i, j)),
        },
    }
}

/// What lies between the first two delimiters.
pub open spec fn front_text(s: Seq<char>) -> Seq<char> {
    match delimiters(s) {
        Some((i, j)) => s.subrange(i + 3, j),
        None => Seq::empty(),
    }
}

/// What follows the second delimiter, verbatim.
pub open spec fn body_text(s: Seq<char>) -> Seq<char> {
    match delimiters(s) {
        Some((i, j)) => s.subrange(j + 3, s.len() as int),
        None => Seq::empty(),
    }
}

fn chars_of(s: &str) -> (r: Vec<char>)
    ensures
        r@ == s@,
{
    let mut v: Vec<char> = Vec::new();
    for c in it: s.chars()
        invariant
            v@ == it.seq().take(it.index() as int),
    {
        v.push(c);
    }
    v
}

fn find_marker(s: &Vec<char>, from: usize) -> (r: Option<usize>)
    requires
        from <= s.len(),
    ensures
        match r {
            None => next_marker(s@, from as int) is None,
            Some(i) => next_marker(s@, from as int) == Some(i as int) && from <= i && i + 3 <= s.len(),
        },
{
    let mut i = from;
    while i < s.len() && s.len() - i >= 3
        invariant
            from <= i <= s.len(),
            next_marker(s@, from as int) == next_marker(s@, i as int),
        decreases s.len() - i,
    {
        if s[i] == '-' && s[i + 1] == '-' && s[i + 2] == '-' {
            return Some(i);
        }
        i = i + 1;
    }
    None
}

/// What a file stem reads as when taken for a UUID, as a 128-bit number.
pub uninterp spec fn uuid_of(s: Seq<char>) -> Option<u128>;

/// The byte lengths of the text forms of a UUID: simple, hyphenated, braced
/// and URN.
pub open spec fn is_uuid_text_length(n: nat) -> bool {
    n == 32 || n == 36 || n == 38 || n == 45
}

/// Relies on `uuid::Uuid::parse_str`, which accepts the simple, hyphenated,
/// braced and URN forms of a UUID and nothing else, and refuses at once an
/// input whose byte length is none of theirs; and on `uuid::Uuid::as_u128`,
/// which gives the UUID's bytes as one big-endian number.
#[verifier::external_body]
fn parse_uuid(s: &str) -> (r: Option<u128>)
    ensures
        r == uuid_of(s@),
        !is_uuid_text_length(encode_utf8(s@).len()) ==> r is None,
{
    uuid::Uuid::parse_str(s).ok().map(|u| u.as_u128())
}

/// Relies on `chrono`'s conversion of `std::time::SystemTime::now()` into a
/// `DateTime<Utc>`, and on `DateTime::timestamp_millis`: the time of the
/// call, in milliseconds since the Unix epoch, negative for a clock set
/// before 1970. Nothing is promised of the value.
#[verifier::external_body]
fn now_millis() -> (r: i64) {
    chrono::DateTime::<chrono::Utc>::from(std::time::SystemTime::now()).timestamp_millis()
}

/// Why a candidate file gave no document.
#[derive(Debug, Clone, PartialEq, Eq)]
pub enum ParseFailure {
    /// The file could not be read; the text says why.
    IoError(String),
    /// The content has fewer than two `---` delimiters; the number is its
    /// length in characters.
    MalformedContent(usize),
    /// The front matter does not fit the metadata schema; the text says why.
    SchemaError(String),
    /// The file stem, held here, is not a UUID.
    IdentityError(String),
}

/// A document file cut at its delimiters, with the identity its name gives.
#[derive(Debug, Clone)]
pub struct Frame {
    pub id: u128,
    pub front_matter: String,
    pub body: String,
}

/// Cuts a candidate's content into front matter and body, given what its
/// file stem reads as when taken for a UUID.
///
/// Empty content gives `Ok(None)`: editors that truncate a file before they
/// write it again make such events. Content with fewer than two `---`
/// delimiters is malformed; a stem that is not a UUID fails the identity.
/// Only the first two delimiters count: the body may hold more.
pub fn frame_with_id(candidate: &IngestCandidate, content: &str, id: Option<u128>) -> (r: Result<
    Option<Frame>,
    ParseFailure,
>)
    ensures
        content@.len() == 0 ==> r matches Ok(None),
        content@.len() > 0 && delimiters(content@) is None ==> r == Err::<Option<Frame>, ParseFailure>(
            ParseFailure::MalformedContent(content@.len() as usize),
        ),
        content@.len() > 0 && delimiters(content@) is Some && id is None ==> (r matches Err(
            ParseFailure::IdentityError(stem),
        ) && stem@ == stem_of(candidate.spec_name())),
        content@.len() > 0 && delimiters(content@) is Some && id is Some ==> (r matches Ok(
            Some(frame),
        ) && frame.id == id->0 && frame.front_matter@ == front_text(content@) && frame.body@
            == body_text(content@)),
{
    let chars = chars_of(content);
    let n = chars.len();
    if n == 0 {
        return Ok(None);
    }
    let i = match find_marker(&chars, 0) {
        None => return Err(ParseFailure::MalformedContent(n)),
        Some(i) => i,
    };
    let j = match find_marker(&chars, i + 3) {
        None => return Err(ParseFailure::MalformedContent(n)),
        Some(j) => j,
    };
    let id = match id {
        None => return Err(ParseFailure::IdentityError(candidate.stem().to_owned())),
        Some(id) => id,
    };
    let front_matter = content.substring_char(i + 3, j).to_owned();
    let body = content.substring_char(j + 3, n).to_owned();
    Ok(Some(Frame { id, front_matter, body }))
}

/// Cuts a candidate's content into front matter and body and reads its
/// identity from the file stem, as `frame_with_id` does with the stem read
/// as a UUID.
pub fn frame_document(candidate: &IngestCandidate, content: &str) -> (r: Result<
    Option<Frame>,
    ParseFailure,
>)
    ensures
        content@.len() == 0 ==> r matches Ok(None),
        content@.len() > 0 && delimiters(content@) is None ==> r == Err::<Option<Frame>, ParseFailure>(
            ParseFailure::MalformedContent(content@.len() as usize),
        ),
        content@.len() > 0 && delimiters(content@) is Some && uuid_of(stem_of(candidate.spec_name()))
            is None ==> (r matches Err(ParseFailure::IdentityError(stem)) && stem@ == stem_of(
            candidate.spec_name(),
        )),
        content@.len() > 0 && delimiters(content@) is Some && !is_uuid_text_length(
            encode_utf8(stem_of(candidate.spec_name())).len(),
        ) ==> (r matches Err(ParseFailure::IdentityError(stem)) && stem@ == stem_of(
            candidate.spec_name(),
        )),
        content@.len() > 0 && delimiters(content@) is Some && uuid_of(stem_of(candidate.spec_name()))
            is Some ==> (r matches Ok(Some(frame)) && frame.id == uuid_of(
            stem_of(candidate.spec_name()),
        )->0 && frame.front_matter@ == front_text(content@) && frame.body@ == body_text(
            content@,
        )),
{
    let id = parse_uuid(candidate.stem());
    frame_with_id(candidate, content, id)
}

/// The metadata of a front-matter block as it was written, before the
/// schema's rules apply: `outline` is the block's `abstract`, and `kind` and
/// `genre` are their labels where the block gives them.
#[derive(Debug, Clone)]
pub struct FrontFields {
    pub title: String,
    pub outline: String,
    pub author: String,
    pub tags: Vec<String>,
    pub image: String,
    pub kind: Option<String>,
    pub genre: Option<String>,
}

/// The kind that a label names.
pub open spec fn kind_named(label: Seq<char>) -> Option<DocKind> {
    if label == kind_label(DocKind::Doc) {
        Some(DocKind::Doc)
    } else if label == kind_label(DocKind::Post) {
        Some(DocKind::Post)
    } else {
        None
    }
}

/// The genre that a label names.
pub open spec fn genre_named(label: Seq<char>) -> Option<DocGenre> {
    if label == genre_label(DocGenre::Tutorial) {
        Some(DocGenre::Tutorial)
    } else if label == genre_label(DocGenre::Howto) {
        Some(DocGenre::Howto)
    } else if label == genre_label(DocGenre::Background) {
        Some(DocGenre::Background)
    } else if label == genre_label(DocGenre::Reference) {
        Some(DocGenre::Reference)
    } else {
        None
    }
}

/// The kind of a block: the default where none is given.
pub open spec fn kind_choice(label: Option<String>) -> Option<DocKind> {
    match label {
        None => Some(DocKind::Doc),
        Some(l) => kind_named(l@),
    }
}

/// The genre of a block: the default where none is given.
pub open spec fn genre_choice(label: Option<String>) -> Option<DocGenre> {
    match label {
        None => Some(DocGenre::Tutorial),
        Some(l) => genre_named(l@),
    }
}

/// The metadata that a block gives, or `None` where a label names no kind
/// or no genre.
pub open spec fn front_of(fields: FrontFields) -> Option<Front> {
    match (kind_choice(fields.kind), genre_choice(fields.genre)) {
        (Some(kind), Some(genre)) => Some(
            Front {
                title: fields.title,
                outline: fields.outline,
                author: fields.author,
                tags: fields.tags,
                image: fields.image,
                kind,
                genre,
            },
        ),
        _ => None,
    }
}

/// The document that a frame and its metadata make at a given time.
pub open spec fn doc_of(frame: Frame, front: Front, updated_at: i64) -> Doc {
    Doc { front, id: frame.id, updated_at, content: frame.body }
}

fn kind_from_label(label: &String) -> (r: Option<DocKind>)
    ensures
        r == kind_named(label@),
{
    proof {
        reveal_strlit("doc");
        reveal_strlit("post");
        assert("doc"@ =~= kind_label(DocKind::Doc));
        assert("post"@ =~= kind_label(DocKind::Post));
    }
    if *label == String::from_str("doc") {
        Some(DocKind::Doc)
    } else if *label == String::from_str("post") {
        Some(DocKind::Post)
    } else {
        None
    }
}

fn genre_from_label(label: &String) -> (r: Option<DocGenre>)
    ensures
        r == genre_named(label@),
{
    proof {
        reveal_strlit("tutorial");
        reveal_strlit("howto");
        reveal_strlit("background");
        reveal_strlit("reference");
        assert("tutorial"@ =~= genre_label(DocGenre::Tutorial));
        assert("howto"@ =~= genre_label(DocGenre::Howto));
        assert("background"@ =~= genre_label(DocGenre::Background));
        assert("reference"@ =~= genre_label(DocGenre::Reference));
    }
    if *label == String::from_str("tutorial") {
        Some(DocGenre::Tutorial)
    } else if *label == String::from_str("howto") {
        Some(DocGenre::Howto)
    } else if *label == String::from_str("background") {
        Some(DocGenre::Background)
    } else if *label == String::from_str("reference") {
        Some(DocGenre::Reference)
    } else {
        None
    }
}

/// Applies the metadata schema: an absent kind is a doc, an absent genre a
/// tutorial, and a label that names neither fails the schema.
pub fn front_from_fields(fields: FrontFields) -> (r: Result<Front, ParseFailure>)
    ensures
        match r {
            Ok(front) => front_of(fields) == Some(front),
            Err(e) => front_of(fields) is None && e is SchemaError,
        },
{
    let FrontFields { title, outline, author, tags, image, kind, genre } = fields;
    let kind = match kind {
        None => DocKind::Doc,
        Some(label) => match kind_from_label(&label) {
            Some(k) => k,
            None => {
                return Err(
                    ParseFailure::SchemaError(String::from_str("unknown kind: ").concat(label.as_str())),
                );
            },
        },
    };
    let genre = match genre {
        None => DocGenre::Tutorial,
        Some(label) => match genre_from_label(&label) {
            Some(g) => g,
            None => {
                return Err(
                    ParseFailure::SchemaError(String::from_str("unknown genre: ").concat(label.as_str())),
                );
            },
        },
    };
    Ok(Front { title, outline, author, tags, image, kind, genre })
}

/// Makes the document of a frame from the decoded front matter and the time
/// of reading. Front matter that could not be decoded, whose message is
/// `fields`' error, fails the schema.
pub fn build_document(frame: Frame, fields: Result<FrontFields, String>, updated_at: i64) -> (r:
    Result<Doc, ParseFailure>)
    ensures
        fields is Err ==> (r matches Err(ParseFailure::SchemaError(m)) && m == fields->Err_0),
        fields is Ok && front_of(fields->Ok_0) is None ==> r matches Err(ParseFailure::SchemaError(_)),
        fields is Ok && front_of(fields->Ok_0) is Some ==> r == Ok::<Doc, ParseFailure>(
            doc_of(frame, front_of(fields->Ok_0)->0, updated_at),
        ),
{
    match fields {
        Err(message) => Err(ParseFailure::SchemaError(message)),
        Ok(fields) => {
            let front = front_from_fields(fields)?;
            let Frame { id, body, .. } = frame;
            Ok(Doc { front, id, updated_at, content: body })
        },
    }
}

/// As `build_document`, stamped with the time of the call.
pub fn assemble_document(frame: Frame, fields: Result<FrontFields, String>) -> (r: Result<
    Doc,
    ParseFailure,
>)
    ensures
        fields is Err ==> (r matches Err(ParseFailure::SchemaError(m)) && m == fields->Err_0),
        fields is Ok && front_of(fields->Ok_0) is None ==> r matches Err(ParseFailure::SchemaError(_)),
        fields is Ok && front_of(fields->Ok_0) is Some ==> (r matches Ok(doc) && doc == doc_of(
            frame,
            front_of(fields->Ok_0)->0,
            doc.updated_at,
        )),
{
    let now = now_millis();
    build_document(frame, fields, now)
}

} // verus!
