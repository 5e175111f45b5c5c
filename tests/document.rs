use journal::document::{
    default_genre, default_kind, genre_name, kind_name, Author, AuthorEntity, DocGenre, DocKind,
    Image, ImageEntity,
};

#[test]
fn defaults_are_doc_and_tutorial() {
    assert_eq!(default_kind(), DocKind::Doc);
    assert_eq!(default_genre(), DocGenre::Tutorial);
}

#[test]
fn labels_are_lower_case() {
    assert_eq!(kind_name(DocKind::Doc), "doc");
    assert_eq!(kind_name(DocKind::Post), "post");
    assert_eq!(genre_name(DocGenre::Tutorial), "tutorial");
    assert_eq!(genre_name(DocGenre::Howto), "howto");
    assert_eq!(genre_name(DocGenre::Background), "background");
    assert_eq!(genre_name(DocGenre::Reference), "reference");
}

#[test]
fn entities_become_records_without_their_keys() {
    let author = AuthorEntity { id: Some(3), fullname: "Ada".to_string(), resource: "a.png".to_string() };
    let a = Author::from(author.clone());
    assert_eq!(a.fullname, "Ada");
    assert_eq!(a.resource, "a.png");
    let image = ImageEntity {
        id: None,
        title: "Sky".to_string(),
        author,
        resource: "sky.jpg".to_string(),
    };
    let i = Image::from(image);
    assert_eq!(i.title, "Sky");
    assert_eq!(i.resource, "sky.jpg");
    assert_eq!(i.author.fullname, "Ada");
    assert_eq!(i.author.resource, "a.png");
}
