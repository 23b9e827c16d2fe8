//! The closed enumeration of media kinds and their display strings.

use vstd::prelude::*;

use crate::atoms::Atom;
use crate::atoms::AtomView;

verus! {

/// The type of media stored in an input file.
#[derive(Debug, Clone)]
pub enum MediaKind {
    Movie,
    Music,
    Audiobook,
    MusicVideo,
    TVShow,
    Booklet,
    Rightone,
}

impl MediaKind {
    /// The fixed display string of this media kind.
    pub open spec fn label(&self) -> Seq<char> {
        match self {
            MediaKind::Movie => "Movie"@,
            MediaKind::Music => "Music"@,
            MediaKind::Audiobook => "Audiobook"@,
            MediaKind::MusicVideo => "Music Video"@,
            MediaKind::TVShow => "TV Show"@,
            MediaKind::Booklet => "Booklet"@,
            MediaKind::Rightone => "Rightone"@,
        }
    }

    /// The atom a media kind converts to: tag "Media Kind", value the
    /// kind's display string.
    pub open spec fn atom(&self) -> AtomView {
        AtomView { tag: "Media Kind"@, value: self.label() }
    }

    /// Returns the display string of this media kind.
    pub fn as_str(&self) -> (r: &str)
        ensures
            r@ == self.label(),
    {
        match self {
            MediaKind::Movie => "Movie",
            MediaKind::Music => "Music",
            MediaKind::Audiobook => "Audiobook",
            MediaKind::MusicVideo => "Music Video",
            MediaKind::TVShow => "TV Show",
            MediaKind::Booklet => "Booklet",
            MediaKind::Rightone => "Rightone",
        }
    }

    /// Converts this media kind into its atom.
    pub fn as_atom(&self) -> (a: Atom)
        ensures
            a@ == self.atom(),
    {
        Atom::new("Media Kind", self.as_str())
    }
}

} // verus!
