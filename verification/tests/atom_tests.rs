use sublercli::Atom;
use sublercli::Atoms;
use sublercli::MediaKind;

#[test]
fn atom_new_stores_tag_and_value() {
    let a = Atom::new("Genre", "Foo,Bar");
    assert_eq!(a.tag, "Genre");
    assert_eq!(a.value, "Foo,Bar");
}

#[test]
fn atom_arg_is_bracketed_pair() {
    let a = Atom::new("Genre", "Foo");
    assert_eq!(a.arg(), "{Genre:Foo}");
}

#[test]
fn atom_arg_empty_tag_and_value() {
    let a = Atom::new("", "");
    assert_eq!(a.arg(), "{:}");
}

#[test]
fn empty_atoms_serialize_to_no_tokens() {
    let atoms = Atoms::new().build();
    assert_eq!(atoms.args(), Vec::<String>::new());
}

#[test]
fn nonempty_atoms_serialize_to_flag_and_one_blob() {
    let mut b = Atoms::new();
    b.add("Artist", "Foo Artist");
    b.add("Name", "Foo Bar Title");
    let atoms = b.build();
    let args = atoms.args();
    assert_eq!(args.len(), 2);
    assert_eq!(args[0], "-metadata");
    assert_eq!(args[1], "{Artist:Foo Artist}{Name:Foo Bar Title}");
}

#[test]
fn atoms_keep_insertion_order_and_duplicates() {
    let mut b = Atoms::new();
    b.add("Genre", "A");
    b.add_atom(Atom::new("Genre", "B"));
    b.add("Genre", "A");
    let atoms = b.build();
    let args = atoms.args();
    assert_eq!(args[1], "{Genre:A}{Genre:B}{Genre:A}");
    assert_eq!(atoms.atoms().len(), 3);
}

#[test]
fn add_after_build_extends_collection() {
    let mut atoms = Atoms::new().build();
    assert_eq!(atoms.len(), 0);
    atoms.add("Cast", "John Doe");
    atoms.add_atom(Atom::new("Director", "Jane Doe"));
    assert_eq!(atoms.len(), 2);
    let args = atoms.args();
    assert_eq!(args[0], "-metadata");
    assert_eq!(args[1], "{Cast:John Doe}{Director:Jane Doe}");
}

#[test]
fn media_kind_display_strings() {
    assert_eq!(MediaKind::Movie.as_str(), "Movie");
    assert_eq!(MediaKind::Music.as_str(), "Music");
    assert_eq!(MediaKind::Audiobook.as_str(), "Audiobook");
    assert_eq!(MediaKind::MusicVideo.as_str(), "Music Video");
    assert_eq!(MediaKind::TVShow.as_str(), "TV Show");
    assert_eq!(MediaKind::Booklet.as_str(), "Booklet");
    assert_eq!(MediaKind::Rightone.as_str(), "Rightone");
}

#[test]
fn media_kind_as_atom_uses_fixed_tag() {
    let a = MediaKind::TVShow.as_atom();
    assert_eq!(a.tag, "Media Kind");
    assert_eq!(a.value, "TV Show");
    assert_eq!(a.arg(), "{Media Kind:TV Show}");
}

#[test]
fn metadata_tags_table() {
    let tags = Atoms::metadata_tags();
    assert_eq!(tags.len(), 74);
    assert_eq!(tags[0], "Artist");
    assert_eq!(tags[73], "Media Kind");
    assert!(tags.contains(&"TV Season"));
    assert!(tags.contains(&"Track Sub-Title"));
    let names = tags.iter().filter(|t| **t == "Name").count();
    assert_eq!(names, 2);
}
