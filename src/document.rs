//! The document: its metadata, its body and its identity.

use vstd::prelude::*;

verus! {

/// Whether a document is a standing piece of documentation or a dated post.
#[derive(Debug, Clone, Copy, PartialEq, Eq, Structural)]
pub enum DocKind {
    Doc,
    Post,
}

/// What a document sets out to do for its reader.
#[derive(Debug, Clone, Copy, PartialEq, Eq, Structural)]
pub enum DocGenre {
    Tutorial,
    Howto,
    Background,
    Reference,
}

/// The kind that a document has when its front matter names none.
pub fn default_kind() -> (r: DocKind)
    ensures
        r == DocKind::Doc,
{
    DocKind::Doc
}

/// The genre that a document has when its front matter names none.
pub fn default_genre() -> (r: DocGenre)
    ensures
        r == DocGenre::Tutorial,
{
    DocGenre::Tutorial
}

/// The lower-case label under which a kind is written in front matter and
/// in the store.
pub open spec fn kind_label(kind: DocKind) -> Seq<char> {
    match kind {
        DocKind::Doc => seq!['d', 'o', 'c'],
        DocKind::Post => seq!['p', 'o', 's', 't'],
    }
}

/// The lower-case label under which a genre is written in front matter and
/// in the store.
pub open spec fn genre_label(genre: DocGenre) -> Seq<char> {
    match genre {
        DocGenre::Tutorial => seq!['t', 'u', 't', 'o', 'r', 'i', 'a', 'l'],
        DocGenre::Howto => seq!['h', 'o', 'w', 't', 'o'],
        DocGenre::Background => seq!['b', 'a', 'c', 'k', 'g', 'r', 'o', 'u', 'n', 'd'],
        DocGenre::Reference => seq!['r', 'e', 'f', 'e', 'r', 'e', 'n', 'c', 'e'],
    }
}

pub fn kind_name(kind: DocKind) -> (r: String)
    ensures
        r@ == kind_label(kind),
{
    match kind {
        DocKind::Doc => {
            proof {
                reveal_strlit("doc");
            }
            String::from_str("doc")
        },
        DocKind::Post => {
            proof {
                reveal_strlit("post");
            }
            String::from_str("post")
        },
    }
}

pub fn genre_name(genre: DocGenre) -> (r: String)
    ensures
        r@ == genre_label(genre),
{
    match genre {
        DocGenre::Tutorial => {
            proof {
                reveal_strlit("tutorial");
            }
            String::from_str("tutorial")
        },
        DocGenre::Howto => {
            proof {
                reveal_strlit("howto");
            }
            String::from_str("howto")
        },
        DocGenre::Background => {
            proof {
                reveal_strlit("background");
            }
            String::from_str("background")
        },
        DocGenre::Reference => {
            proof {
                reveal_strlit("reference");
            }
            String::from_str("reference")
        },
    }
}

/// The metadata block at the head of a document file.
#[derive(Debug, Clone)]
pub struct Front {
    pub title: String,
    pub outline: String,
    pub author: String,
    pub tags: Vec<String>,
    pub image: String,
    pub kind: DocKind,
    pub genre: DocGenre,
}

/// A document as read from its file: identity, metadata, body, and the time
/// at which it was read.
///
/// `id` is the value of the file stem read as a UUID; `updated_at` counts
/// milliseconds since the Unix epoch.
#[derive(Debug, Clone)]
pub struct Doc {
    pub front: Front,
    pub id: u128,
    pub updated_at: i64,
    pub content: String,
}

/// A person credited with a document or an image, as the store keeps them.
#[derive(Debug, Clone)]
pub struct AuthorEntity {
    pub id: Option<u128>,
    pub fullname: String,
    pub resource: String,
}

/// An image, as the store keeps it.
#[derive(Debug, Clone)]
pub struct ImageEntity {
    pub id: Option<u128>,
    pub title: String,
    pub author: AuthorEntity,
    pub resource: String,
}

/// A person credited with a document or an image, as clients see them.
#[derive(Debug, Clone)]
pub struct Author {
    pub fullname: String,
    pub resource: String,
}

/// An image, as clients see it.
#[derive(Debug, Clone)]
pub struct Image {
    pub title: String,
    pub resource: String,
    pub author: Author,
}

pub open spec fn author_of(entity: AuthorEntity) -> Author {
    Author { fullname: entity.fullname, resource: entity.resource }
}

pub open spec fn image_of(entity: ImageEntity) -> Image {
    Image { title: entity.title, resource: entity.resource, author: author_of(entity.author) }
}

impl From<AuthorEntity> for Author {
    /// Drops the store's own key.
    fn from(entity: AuthorEntity) -> (r: Author) {
        let AuthorEntity { fullname, resource, .. } = entity;
        Author { fullname, resource }
    }
}

impl vstd::std_specs::convert::FromSpecImpl<AuthorEntity> for Author {
    open spec fn obeys_from_spec() -> bool {
        true
    }

    open spec fn from_spec(entity: AuthorEntity) -> Author {
        author_of(entity)
    }
}

impl From<ImageEntity> for Image {
    /// Drops the store's own keys, of the image and of its author.
    fn from(entity: ImageEntity) -> (r: Image) {
        let ImageEntity { title, author, resource, .. } = entity;
        Image { title, author: Author::from(author), resource }
    }
}

impl vstd::std_specs::convert::FromSpecImpl<ImageEntity> for Image {
    open spec fn obeys_from_spec() -> bool {
        true
    }

    open spec fn from_spec(entity: ImageEntity) -> Image {
        image_of(entity)
    }
}

} // verus!
