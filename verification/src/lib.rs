//! Builds command-line invocations for an external metadata-tagging
//! executable: named metadata fields ("atoms") become flag arguments, and a
//! non-colliding output path is chosen when the caller supplies none.

mod atoms;
mod fs;
mod media_kind;
mod paths;
mod subler;
mod tags;

pub use atoms::Atom;
pub use atoms::AtomView;
pub use atoms::Atoms;
pub use atoms::Builder;
pub use atoms::atom_arg;
pub use atoms::atoms_args;
pub use atoms::atoms_blob;
pub use atoms::lemma_metadata_args_shape;
pub use fs::FsSnapshot;
pub use media_kind::MediaKind;
pub use paths::PathParts;
pub use paths::PathPartsView;
pub use paths::candidate_view;
pub use paths::dec_digit;
pub use paths::dec_seq;
pub use paths::file_name_of;
pub use paths::find_last;
pub use paths::split_path_spec;
pub use subler::MAX_PROBES;
pub use subler::Subler;
pub use subler::SublerError;
pub use subler::SublerView;
pub use subler::determine_dest_spec;
pub use subler::first_free;
pub use subler::invocation_args;
pub use subler::lemma_first_free_least;
pub use subler::lemma_resolution_picks_first_free;
pub use subler::media_atoms;
pub use subler::resolve_from;
pub use tags::metadata_tag_table;
