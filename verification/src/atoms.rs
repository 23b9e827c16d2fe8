//! Metadata atoms: named (tag, value) pairs and their serialized form.

use vstd::prelude::*;

verus! {

/// Mathematical image of an [`Atom`]: both strings as character sequences.
pub ghost struct AtomView {
    pub tag: Seq<char>,
    pub value: Seq<char>,
}

/// A single metadata atom: a tag name and the value stored under it.
#[derive(Debug)]
pub struct Atom {
    /// The name of the metadata atom.
    pub tag: String,
    /// The value this atom contains.
    pub value: String,
}

impl Clone for Atom {
    fn clone(&self) -> (r: Self)
        ensures
            r == *self,
    {
        Atom { tag: self.tag.clone(), value: self.value.clone() }
    }
}

impl View for Atom {
    type V = AtomView;

    open spec fn view(&self) -> AtomView {
        AtomView { tag: self.tag@, value: self.value@ }
    }
}

/// The serialized form of one atom: `{tag:value}`, with no escaping of
/// braces or colons that occur inside the tag or the value.
pub open spec fn atom_arg(a: AtomView) -> Seq<char> {
    seq!['{'] + a.tag + seq![':'] + a.value + seq!['}']
}

/// The single concatenated token for a whole atom list: the `{tag:value}`
/// tokens of the atoms, in order, with no delimiter between them.
pub open spec fn atoms_blob(s: Seq<AtomView>) -> Seq<char>
    decreases s.len(),
{
    if s.len() == 0 {
        Seq::empty()
    } else {
        atoms_blob(s.drop_last()) + atom_arg(s.last())
    }
}

/// The argument tokens that a collection of atoms contributes to an
/// invocation: nothing when the collection is empty, otherwise the metadata
/// flag followed by the concatenated atom tokens.
pub open spec fn atoms_args(s: Seq<AtomView>) -> Seq<Seq<char>> {
    if s.len() == 0 {
        Seq::empty()
    } else {
        seq!["-metadata"@, atoms_blob(s)]
    }
}

impl Atom {
    /// Creates an atom from a tag name and a value.
    pub fn new(tag: &str, val: &str) -> (a: Atom)
        ensures
            a@.tag == tag@,
            a@.value == val@,
    {
        Atom { tag: tag.to_owned(), value: val.to_owned() }
    }

    /// Serializes this atom as its bracketed `{tag:value}` token.
    pub fn arg(&self) -> (r: String)
        ensures
            r@ == atom_arg(self@),
    {
        let mut r = String::new();
        proof {
            reveal_strlit("{");
            reveal_strlit(":");
            reveal_strlit("}");
        }
        r.append("{");
        r.append(self.tag.as_str());
        r.append(":");
        r.append(self.value.as_str());
        r.append("}");
        proof {
            assert(r@ =~= atom_arg(self@));
        }
        r
    }
}

/// A non-empty collection serializes to the metadata flag followed by one
/// concatenated token, and that token is the atoms' bracketed forms in
/// insertion order: each atom contributes exactly its own `{tag:value}`
/// text, appended after the text of the atoms inserted before it.
pub proof fn lemma_metadata_args_shape(s: Seq<AtomView>)
    requires
        s.len() > 0,
    ensures
        atoms_args(s) == seq!["-metadata"@, atoms_blob(s)],
        atoms_blob(s) == atoms_blob(s.drop_last()) + atom_arg(s.last()),
{
}

/// An ordered collection of atoms. Insertion order is preserved and
/// determines serialization order; duplicate tags are permitted.
#[derive(Debug, Clone)]
pub struct Atoms {
    inner: Vec<Atom>,
}

impl View for Atoms {
    type V = Seq<AtomView>;

    closed spec fn view(&self) -> Seq<AtomView> {
        self.inner@.map_values(|a: Atom| a@)
    }
}

impl Atoms {
    /// Starts a builder for a new collection.
    pub fn new() -> (b: Builder)
        ensures
            b@ == Seq::<AtomView>::empty(),
    {
        Builder { atoms: Vec::new() }
    }

    /// Appends an already constructed atom.
    pub fn add_atom(&mut self, atom: Atom)
        ensures
            final(self)@ == old(self)@.push(atom@),
    {
        self.inner.push(atom);
        proof {
            assert(final(self)@ =~= old(self)@.push(atom@));
        }
    }

    /// Appends an atom built from a tag name and a value.
    pub fn add(&mut self, tag: &str, val: &str)
        ensures
            final(self)@ == old(self)@.push(AtomView { tag: tag@, value: val@ }),
    {
        let atom = Atom::new(tag, val);
        self.add_atom(atom);
    }

    /// The atoms stored so far, in insertion order.
    pub fn atoms(&self) -> (r: &Vec<Atom>)
        ensures
            r@.map_values(|a: Atom| a@) == self@,
    {
        &self.inner
    }

    /// Number of atoms stored so far.
    pub fn len(&self) -> (n: usize)
        ensures
            n == self@.len(),
    {
        self.inner.len()
    }

    /// The argument tokens for setting the external tool's metadata flag:
    /// empty for an empty collection, otherwise the metadata flag and one
    /// concatenated token holding every atom's `{tag:value}` form in
    /// insertion order.
    pub fn args(&self) -> (r: Vec<String>)
        ensures
            r.deep_view() == atoms_args(self@),
    {
        let ghost s = self@;
        let mut r: Vec<String> = Vec::new();
        if self.inner.len() > 0 {
            let mut blob = String::new();
            let mut i: usize = 0;
            while i < self.inner.len()
                invariant
                    i <= self.inner.len(),
                    s == self@,
                    s.len() == self.inner@.len(),
                    blob@ == atoms_blob(s.take(i as int)),
                decreases self.inner.len() - i,
            {
                let tok = self.inner[i].arg();
                blob.append(tok.as_str());
                proof {
                    assert(s.take(i + 1 as int).drop_last() =~= s.take(i as int));
                    assert(s.take(i + 1 as int).last() == s[i as int]);
                }
                i = i + 1;
            }
            proof {
                assert(s.take(s.len() as int) =~= s);
                reveal_strlit("-metadata");
            }
            r.push("-metadata".to_owned());
            r.push(blob);
            proof {
                assert(r.deep_view() =~= atoms_args(s));
            }
        } else {
            proof {
                assert(r.deep_view() =~= atoms_args(s));
            }
        }
        r
    }
}

/// Accumulates atoms and produces an [`Atoms`] collection.
#[derive(Debug)]
pub struct Builder {
    /// The atoms collected so far, in insertion order.
    pub atoms: Vec<Atom>,
}

impl View for Builder {
    type V = Seq<AtomView>;

    open spec fn view(&self) -> Seq<AtomView> {
        self.atoms@.map_values(|a: Atom| a@)
    }
}

impl Builder {
    /// Appends an already constructed atom.
    pub fn add_atom(&mut self, atom: Atom)
        ensures
            final(self)@ == old(self)@.push(atom@),
    {
        self.atoms.push(atom);
        proof {
            assert(final(self)@ =~= old(self)@.push(atom@));
        }
    }

    /// Appends an atom built from a tag name and a value.
    pub fn add(&mut self, tag: &str, val: &str)
        ensures
            final(self)@ == old(self)@.push(AtomView { tag: tag@, value: val@ }),
    {
        let atom = Atom::new(tag, val);
        self.add_atom(atom);
    }

    /// Finishes the builder, yielding the collected atoms.
    pub fn build(&self) -> (r: Atoms)
        ensures
            r@ == self@,
    {
        let inner = self.atoms.clone();
        proof {
            assert forall|i: int| 0 <= i < self.atoms@.len() implies inner@[i] == self.atoms@[i] by {
                assert(vstd::pervasive::cloned::<Atom>(self.atoms[i], inner[i]));
            }
            assert(inner@ =~= self.atoms@);
        }
        Atoms { inner }
    }
}

impl Default for Builder {
    fn default() -> (b: Builder)
        ensures
            b@ == Seq::<AtomView>::empty(),
    {
        Builder { atoms: Vec::new() }
    }
}

} // verus!
