//! The fixed vocabulary of metadata atom tag names, exposed for discovery
//! and validation by callers.

use vstd::prelude::*;

use crate::atoms::Atoms;

verus! {

/// Every valid metadata atom tag name, in the library's canonical order.
/// `"Name"` appears twice because both the name and the title of a file
/// are stored under it.
pub open spec fn metadata_tag_table() -> Seq<Seq<char>> {
    seq![
        "Artist"@,
        "Album Artist"@,
        "Album"@,
        "Grouping"@,
        "Composer"@,
        "Comments"@,
        "Genre"@,
        "Release Date"@,
        "Track #"@,
        "Disk #"@,
        "Tempo"@,
        "TV Show"@,
        "TV Episode #"@,
        "TV Network"@,
        "TV Episode ID"@,
        "TV Season"@,
        "Description"@,
        "Long Description"@,
        "Series Description"@,
        "HD Video"@,
        "Rating Annotation"@,
        "Studio"@,
        "Cast"@,
        "Director"@,
        "Gapless"@,
        "Codirector"@,
        "Producers"@,
        "Screenwriters"@,
        "Lyrics"@,
        "Copyright"@,
        "Encoding Tool"@,
        "Encoded By"@,
        "Keywords"@,
        "Category"@,
        "contentID"@,
        "artistID"@,
        "playlistID"@,
        "genreID"@,
        "composerID"@,
        "XID"@,
        "iTunes Account"@,
        "iTunes Account Type"@,
        "iTunes Country"@,
        "Track Sub-Title"@,
        "Song Description"@,
        "Art Director"@,
        "Arranger"@,
        "Lyricist"@,
        "Acknowledgement"@,
        "Conductor"@,
        "Linear Notes"@,
        "Record Company"@,
        "Original Artist"@,
        "Phonogram Rights"@,
        "Producer"@,
        "Performer"@,
        "Publisher"@,
        "Sound Engineer"@,
        "Soloist"@,
        "Credits"@,
        "Thanks"@,
        "Online Extras"@,
        "Executive Producer"@,
        "Sort Name"@,
        "Sort Artist"@,
        "Sort Album Artist"@,
        "Sort Album"@,
        "Sort Composer"@,
        "Sort TV Show"@,
        "Artwork"@,
        "Name"@,
        "Name"@,
        "Rating"@,
        "Media Kind"@,
    ]
}

impl Atoms {
    /// All valid metadata atom tag names, in canonical order.
    #[verifier::rlimit(50)]
    pub fn metadata_tags() -> (r: Vec<&'static str>)
        ensures
            r.deep_view() == metadata_tag_table(),
    {
        let mut params: Vec<&'static str> = Vec::new();
        params.push("Artist");
        params.push("Album Artist");
        params.push("Album");
        params.push("Grouping");
        params.push("Composer");
        params.push("Comments");
        params.push("Genre");
        params.push("Release Date");
        params.push("Track #");
        params.push("Disk #");
        params.push("Tempo");
        params.push("TV Show");
        params.push("TV Episode #");
        params.push("TV Network");
        params.push("TV Episode ID");
        params.push("TV Season");
        params.push("Description");
        params.push("Long Description");
        params.push("Series Description");
        params.push("HD Video");
        params.push("Rating Annotation");
        params.push("Studio");
        params.push("Cast");
        params.push("Director");
        params.push("Gapless");
        params.push("Codirector");
        params.push("Producers");
        params.push("Screenwriters");
        params.push("Lyrics");
        params.push("Copyright");
        params.push("Encoding Tool");
        params.push("Encoded By");
        params.push("Keywords");
        params.push("Category");
        params.push("contentID");
        params.push("artistID");
        params.push("playlistID");
        params.push("genreID");
        params.push("composerID");
        params.push("XID");
        params.push("iTunes Account");
        params.push("iTunes Account Type");
        params.push("iTunes Country");
        params.push("Track Sub-Title");
        params.push("Song Description");
        params.push("Art Director");
        params.push("Arranger");
        params.push("Lyricist");
        params.push("Acknowledgement");
        params.push("Conductor");
        params.push("Linear Notes");
        params.push("Record Company");
        params.push("Original Artist");
        params.push("Phonogram Rights");
        params.push("Producer");
        params.push("Performer");
        params.push("Publisher");
        params.push("Sound Engineer");
        params.push("Soloist");
        params.push("Credits");
        params.push("Thanks");
        params.push("Online Extras");
        params.push("Executive Producer");
        params.push("Sort Name");
        params.push("Sort Artist");
        params.push("Sort Album Artist");
        params.push("Sort Album");
        params.push("Sort Composer");
        params.push("Sort TV Show");
        params.push("Artwork");
        params.push("Name");
        params.push("Name");
        params.push("Rating");
        params.push("Media Kind");
        proof {
            assert(params.deep_view() =~= metadata_tag_table());
        }
        params
    }
}

} // verus!
