//! The invocation builder: holds source, optional destination, optimize
//! flag, media kind and atoms; resolves a non-colliding destination against
//! a filesystem snapshot and assembles the external tool's argument vector.

use vstd::prelude::*;

use crate::atoms::Atoms;
use crate::atoms::AtomView;
use crate::atoms::atoms_args;
use crate::fs::FsSnapshot;
use crate::media_kind::MediaKind;
use crate::paths::PathParts;
use crate::paths::PathPartsView;
use crate::paths::candidate_view;
use crate::paths::split_path_spec;

verus! {

/// Upper bound on the suffix indices the destination search probes; a
/// search that finds every candidate up to this bound occupied reports
/// failure instead of probing without end.
pub const MAX_PROBES: u64 = 10000;

/// Why building an invocation failed.
#[derive(Debug, Clone, PartialEq, Eq)]
pub enum SublerError {
    /// The source path does not exist.
    SourceNotFound,
    /// No destination path could be resolved.
    DestNotFound,
}

/// Mathematical image of a [`Subler`].
pub ghost struct SublerView {
    pub source: Seq<char>,
    pub dest: Option<Seq<char>>,
    pub optimize: bool,
    pub atoms: Seq<AtomView>,
    pub media_kind: Option<MediaKind>,
}

/// The first index at or after `i`, below [`MAX_PROBES`], whose candidate
/// path does not exist in the snapshot; `None` when every probed candidate
/// exists.
pub open spec fn first_free(parts: PathPartsView, fs: Seq<Seq<char>>, i: nat) -> Option<nat>
    decreases MAX_PROBES - i
        when i <= MAX_PROBES
{
    if i >= MAX_PROBES {
        None
    } else if !fs.contains(candidate_view(parts, i)) {
        Some(i)
    } else {
        first_free(parts, fs, (i + 1) as nat)
    }
}

/// What the suffix search yields for a base path: the first free candidate
/// `dir/stem.j.ext` with `j` at or after `i`, or `None` when the path does
/// not split or no candidate is free.
pub open spec fn resolve_from(p: Seq<char>, fs: Seq<Seq<char>>, i: nat) -> Option<Seq<char>> {
    match split_path_spec(p) {
        Some(parts) => match first_free(parts, fs, i) {
            Some(j) => Some(candidate_view(parts, j)),
            None => None,
        },
        None => None,
    }
}

/// The destination an invocation resolves to: a caller-supplied destination
/// that does not yet exist is used verbatim; one that exists is suffixed;
/// with no destination given, the source path is suffixed.
pub open spec fn determine_dest_spec(
    source: Seq<char>,
    dest: Option<Seq<char>>,
    fs: Seq<Seq<char>>,
) -> Option<Seq<char>> {
    match dest {
        Some(d) => if fs.contains(d) {
            resolve_from(d, fs, 0)
        } else {
            Some(d)
        },
        None => resolve_from(source, fs, 0),
    }
}

/// The atoms a media-kind setting contributes: exactly one for a set kind,
/// none otherwise.
pub open spec fn media_atoms(mk: Option<MediaKind>) -> Seq<AtomView> {
    match mk {
        Some(k) => seq![k.atom()],
        None => Seq::empty(),
    }
}

/// The full argument vector handed to the external executable: source flag
/// and source path, destination flag and resolved destination, the atoms'
/// metadata tokens if any, and the optimize flag if enabled.
pub open spec fn invocation_args(
    source: Seq<char>,
    dest: Seq<char>,
    atoms: Seq<AtomView>,
    optimize: bool,
) -> Seq<Seq<char>> {
    seq!["-source"@, source, "-dest"@, dest] + atoms_args(atoms) + (if optimize {
        seq!["-optimize"@]
    } else {
        Seq::empty()
    })
}

/// Everything the suffix search promises: a found index is free, every
/// index before it (at or after the search start) is occupied, and a failed
/// search means every index up to the probe bound is occupied.
pub proof fn lemma_first_free_least(parts: PathPartsView, fs: Seq<Seq<char>>, i: nat)
    requires
        i <= MAX_PROBES,
    ensures
        match first_free(parts, fs, i) {
            Some(j) => {
                &&& i <= j < MAX_PROBES
                &&& !fs.contains(candidate_view(parts, j))
                &&& forall|k: nat| i <= k < j ==> fs.contains(#[trigger] candidate_view(parts, k))
            },
            None => forall|k: nat|
                i <= k < MAX_PROBES ==> fs.contains(#[trigger] candidate_view(parts, k)),
        },
    decreases MAX_PROBES - i,
{
    if i < MAX_PROBES && fs.contains(candidate_view(parts, i)) {
        lemma_first_free_least(parts, fs, (i + 1) as nat);
    }
}

/// Suffix resolution skips all occupied indices in order and picks the
/// first free one: when a base path resolves, the returned candidate does
/// not exist in the snapshot while the candidates of all smaller indices
/// do, and when it fails to resolve, every candidate up to the probe bound
/// exists.
pub proof fn lemma_resolution_picks_first_free(p: Seq<char>, fs: Seq<Seq<char>>)
    requires
        split_path_spec(p) is Some,
    ensures
        ({
            let parts = split_path_spec(p)->0;
            match first_free(parts, fs, 0) {
                Some(j) => {
                    &&& resolve_from(p, fs, 0) == Some(candidate_view(parts, j))
                    &&& !fs.contains(candidate_view(parts, j))
                    &&& forall|k: nat| k < j ==> fs.contains(#[trigger] candidate_view(parts, k))
                },
                None => {
                    &&& resolve_from(p, fs, 0) is None
                    &&& forall|k: nat|
                        k < MAX_PROBES ==> fs.contains(#[trigger] candidate_view(parts, k))
                },
            }
        }),
{
    lemma_first_free_least(split_path_spec(p)->0, fs, 0);
}

/// Builds one invocation of the external tagging tool.
#[derive(Debug)]
pub struct Subler {
    /// The path to the source file.
    pub source: String,
    /// The path to the destination file, if the caller supplied one.
    pub dest: Option<String>,
    /// Whether the external tool's optimization pass is requested.
    pub optimize: bool,
    /// The atoms that should be written to the file.
    pub atoms: Atoms,
    /// The media kind of the file, if one should be written.
    pub media_kind: Option<MediaKind>,
}

impl View for Subler {
    type V = SublerView;

    open spec fn view(&self) -> SublerView {
        SublerView {
            source: self.source@,
            dest: match self.dest {
                Some(d) => Some(d@),
                None => None,
            },
            optimize: self.optimize,
            atoms: self.atoms@,
            media_kind: self.media_kind,
        }
    }
}

impl Subler {
    /// Creates a builder that will write `atoms` to the file at `source`.
    /// The media kind starts as `Movie` and optimization starts enabled.
    pub fn new(source: &str, atoms: Atoms) -> (s: Subler)
        ensures
            s@ == (SublerView {
                source: source@,
                dest: None,
                optimize: true,
                atoms: atoms@,
                media_kind: Some(MediaKind::Movie),
            }),
    {
        Subler {
            source: source.to_owned(),
            dest: None,
            optimize: true,
            atoms,
            media_kind: Some(MediaKind::Movie),
        }
    }

    /// Sets the optimization flag.
    pub fn optimize(&mut self, val: bool)
        ensures
            final(self)@ == (SublerView { optimize: val, ..old(self)@ }),
    {
        self.optimize = val;
    }

    /// Sets or clears the media kind.
    pub fn media_kind(&mut self, kind: Option<MediaKind>)
        ensures
            final(self)@ == (SublerView { media_kind: kind, ..old(self)@ }),
    {
        self.media_kind = kind;
    }

    /// Sets the destination of the output file.
    pub fn dest(&mut self, dest: &str)
        ensures
            final(self)@ == (SublerView { dest: Some(dest@), ..old(self)@ }),
    {
        self.dest = Some(dest.to_owned());
    }

    /// Searches for the first available suffixed variant of `p` at or after
    /// index `i`, against the snapshot's existing paths.
    pub fn next_available_path(&self, p: &str, i: u64, fs: &FsSnapshot) -> (r: Option<String>)
        requires
            i <= MAX_PROBES,
        ensures
            match r {
                Some(s) => resolve_from(p@, fs@, i as nat) == Some(s@),
                None => resolve_from(p@, fs@, i as nat) is None,
            },
    {
        let parts = match PathParts::split(p) {
            Some(parts) => parts,
            None => {
                return None;
            },
        };
        let mut j: u64 = i;
        while j < MAX_PROBES
            invariant
                i <= j <= MAX_PROBES,
                split_path_spec(p@) == Some(parts@),
                first_free(parts@, fs@, i as nat) == first_free(parts@, fs@, j as nat),
            decreases MAX_PROBES - j,
        {
            let cand = parts.candidate(j);
            if !fs.contains(&cand) {
                proof {
                    assert(first_free(parts@, fs@, j as nat) == Some(j as nat));
                }
                return Some(cand);
            }
            proof {
                assert(first_free(parts@, fs@, j as nat) == first_free(
                    parts@,
                    fs@,
                    (j + 1) as nat,
                ));
            }
            j = j + 1;
        }
        proof {
            assert(first_free(parts@, fs@, j as nat) is None);
        }
        None
    }

    /// Resolves the destination path against the snapshot: a supplied
    /// destination that does not exist is returned unchanged; a supplied
    /// destination that exists, or the source path when none was supplied,
    /// is suffixed with the first free index starting from 0.
    pub fn determine_dest(&self, fs: &FsSnapshot) -> (r: Option<String>)
        ensures
            match r {
                Some(d) => determine_dest_spec(self@.source, self@.dest, fs@) == Some(d@),
                None => determine_dest_spec(self@.source, self@.dest, fs@) is None,
            },
    {
        match &self.dest {
            Some(s) => {
                if fs.contains(s) {
                    self.next_available_path(s.as_str(), 0, fs)
                } else {
                    Some(s.clone())
                }
            },
            None => self.next_available_path(self.source.as_str(), 0, fs),
        }
    }

    /// Assembles the external tool's argument vector against the snapshot.
    /// Fails when the source path does not exist, leaving the builder
    /// unchanged, and when no destination can be resolved. A set media kind
    /// appends its atom, after all caller-added atoms, before
    /// serialization.
    pub fn build_args(&mut self, fs: &FsSnapshot) -> (r: Result<Vec<String>, SublerError>)
        ensures
            !fs@.contains(old(self)@.source) ==> r == Err::<Vec<String>, SublerError>(
                SublerError::SourceNotFound,
            ) && final(self)@ == old(self)@,
            fs@.contains(old(self)@.source) ==> {
                &&& final(self)@ == (SublerView {
                    atoms: old(self)@.atoms + media_atoms(old(self)@.media_kind),
                    ..old(self)@
                })
                &&& match determine_dest_spec(old(self)@.source, old(self)@.dest, fs@) {
                    Some(d) => r is Ok && r->Ok_0.deep_view() == invocation_args(
                        old(self)@.source,
                        d,
                        final(self)@.atoms,
                        old(self)@.optimize,
                    ),
                    None => r == Err::<Vec<String>, SublerError>(SublerError::DestNotFound),
                }
            },
    {
        if !fs.contains(&self.source) {
            return Err(SublerError::SourceNotFound);
        }
        let media_atom = match &self.media_kind {
            Some(k) => Some(k.as_atom()),
            None => None,
        };
        match media_atom {
            Some(a) => self.atoms.add_atom(a),
            None => {},
        }
        proof {
            assert(self@.atoms =~= old(self)@.atoms + media_atoms(old(self)@.media_kind));
        }
        let dest = match self.determine_dest(fs) {
            Some(d) => d,
            None => {
                return Err(SublerError::DestNotFound);
            },
        };
        let mut args: Vec<String> = Vec::new();
        args.push("-source".to_owned());
        args.push(self.source.clone());
        args.push("-dest".to_owned());
        args.push(dest);
        let mut meta = self.atoms.args();
        args.append(&mut meta);
        if self.optimize {
            args.push("-optimize".to_owned());
        }
        proof {
            reveal_strlit("-source");
            reveal_strlit("-dest");
            reveal_strlit("-optimize");
            assert(args.deep_view() =~= invocation_args(
                old(self)@.source,
                determine_dest_spec(old(self)@.source, old(self)@.dest, fs@)->0,
                self@.atoms,
                old(self)@.optimize,
            ));
        }
        Ok(args)
    }
}

} // verus!
