//! Splitting a path into directory, stem and extension, and forming the
//! suffixed candidate paths `dir/stem.i.ext` used for collision-free output.

use vstd::prelude::*;

verus! {

/// Mathematical image of [`PathParts`].
pub ghost struct PathPartsView {
    /// The directory part, without its trailing separator; `None` when the
    /// path contains no separator at all.
    pub dir: Option<Seq<char>>,
    /// The file name up to (not including) its last dot.
    pub stem: Seq<char>,
    /// The file name after its last dot.
    pub ext: Seq<char>,
}

/// The three components of a path `dir/stem.ext`, as needed by the
/// suffixing scheme.
pub struct PathParts {
    /// The directory part, `None` when the path names a bare file.
    pub dir: Option<String>,
    /// The file name up to its last dot.
    pub stem: String,
    /// The file name after its last dot.
    pub ext: String,
}

impl View for PathParts {
    type V = PathPartsView;

    open spec fn view(&self) -> PathPartsView {
        PathPartsView {
            dir: match self.dir {
                Some(d) => Some(d@),
                None => None,
            },
            stem: self.stem@,
            ext: self.ext@,
        }
    }
}

/// The file-name portion of a path: everything after the last separator,
/// or the whole path when it has none.
pub open spec fn file_name_of(p: Seq<char>) -> Seq<char> {
    match p.index_of_last('/') {
        Some(k) => p.subrange(k + 1, p.len() as int),
        None => p,
    }
}

/// How a path splits for the suffixing scheme, or `None` when it lacks a
/// stem or an extension: the file name must be non-empty and must contain a
/// dot that neither leads it (a leading dot starts a hidden file's stem)
/// nor ends it.
pub open spec fn split_path_spec(p: Seq<char>) -> Option<PathPartsView> {
    let name = file_name_of(p);
    match name.index_of_last('.') {
        Some(d) => if 0 < d && d + 1 < name.len() {
            Some(
                PathPartsView {
                    dir: match p.index_of_last('/') {
                        Some(k) => Some(p.subrange(0, k)),
                        None => None,
                    },
                    stem: name.subrange(0, d),
                    ext: name.subrange(d + 1, name.len() as int),
                },
            )
        } else {
            None
        },
        None => None,
    }
}

/// The decimal digit character for a value below ten.
pub open spec fn dec_digit(n: nat) -> char {
    if n == 0 {
        '0'
    } else if n == 1 {
        '1'
    } else if n == 2 {
        '2'
    } else if n == 3 {
        '3'
    } else if n == 4 {
        '4'
    } else if n == 5 {
        '5'
    } else if n == 6 {
        '6'
    } else if n == 7 {
        '7'
    } else if n == 8 {
        '8'
    } else {
        '9'
    }
}

/// The decimal rendering of a natural number, most significant digit
/// first, with no leading zeros (a single `'0'` for zero).
pub open spec fn dec_seq(n: nat) -> Seq<char>
    decreases n,
{
    if n < 10 {
        seq![dec_digit(n)]
    } else {
        dec_seq(n / 10).push(dec_digit(n % 10))
    }
}

/// The `i`-th candidate output path for split parts: `dir/stem.i.ext`,
/// without the leading `dir/` when the original path had no directory.
pub open spec fn candidate_view(parts: PathPartsView, i: nat) -> Seq<char> {
    (match parts.dir {
        Some(d) => d + seq!['/'],
        None => Seq::empty(),
    }) + parts.stem + seq!['.'] + dec_seq(i) + seq!['.'] + parts.ext
}

/// Returns the index of the last occurrence of `c` in `s`, if any.
pub fn find_last(s: &str, c: char) -> (r: Option<usize>)
    ensures
        match r {
            Some(i) => s@.index_of_last(c) == Some(i as int),
            None => s@.index_of_last(c) is None,
        },
{
    let len = s.unicode_len();
    let mut i = len;
    while i > 0
        invariant
            i <= len,
            len == s@.len(),
            forall|j: int| i <= j < len ==> s@[j] != c,
        decreases i,
    {
        i = i - 1;
        if s.get_char(i) == c {
            proof {
                s@.index_of_last_ensures(c);
            }
            return Some(i);
        }
    }
    proof {
        s@.index_of_last_ensures(c);
    }
    None
}

impl PathParts {
    /// Splits a path into directory, stem and extension. Returns `None`
    /// when the path has no usable stem or extension, as
    /// [`split_path_spec`] describes.
    pub fn split(p: &str) -> (r: Option<PathParts>)
        ensures
            match r {
                Some(parts) => split_path_spec(p@) == Some(parts@),
                None => split_path_spec(p@) is None,
            },
    {
        let len = p.unicode_len();
        let slash = find_last(p, '/');
        proof {
            p@.index_of_last_ensures('/');
        }
        let name_start: usize = match slash {
            Some(k) => k + 1,
            None => 0,
        };
        let name = p.substring_char(name_start, len);
        proof {
            assert(name@ =~= file_name_of(p@));
        }
        let name_len = name.unicode_len();
        proof {
            name@.index_of_last_ensures('.');
        }
        let dot = match find_last(name, '.') {
            Some(d) => d,
            None => {
                return None;
            },
        };
        if dot == 0 || dot + 1 >= name_len {
            return None;
        }
        let dir = match slash {
            Some(k) => Some(p.substring_char(0, k).to_owned()),
            None => None,
        };
        let stem = name.substring_char(0, dot).to_owned();
        let ext = name.substring_char(dot + 1, name_len).to_owned();
        Some(PathParts { dir, stem, ext })
    }

    /// Forms the `i`-th candidate output path `dir/stem.i.ext`.
    pub fn candidate(&self, i: u64) -> (r: String)
        ensures
            r@ == candidate_view(self@, i as nat),
    {
        let mut r = String::new();
        match &self.dir {
            Some(d) => {
                proof {
                    reveal_strlit("/");
                }
                r.append(d.as_str());
                r.append("/");
            },
            None => {},
        }
        proof {
            reveal_strlit(".");
        }
        r.append(self.stem.as_str());
        r.append(".");
        push_dec(&mut r, i);
        r.append(".");
        r.append(self.ext.as_str());
        proof {
            assert(r@ =~= candidate_view(self@, i as nat));
        }
        r
    }
}

/// Returns the one-character string for a decimal digit value.
fn dec_digit_str(d: u64) -> (r: &'static str)
    requires
        d < 10,
    ensures
        r@ == seq![dec_digit(d as nat)],
{
    proof {
        reveal_strlit("0");
        reveal_strlit("1");
        reveal_strlit("2");
        reveal_strlit("3");
        reveal_strlit("4");
        reveal_strlit("5");
        reveal_strlit("6");
        reveal_strlit("7");
        reveal_strlit("8");
        reveal_strlit("9");
    }
    if d == 0 {
        "0"
    } else if d == 1 {
        "1"
    } else if d == 2 {
        "2"
    } else if d == 3 {
        "3"
    } else if d == 4 {
        "4"
    } else if d == 5 {
        "5"
    } else if d == 6 {
        "6"
    } else if d == 7 {
        "7"
    } else if d == 8 {
        "8"
    } else {
        "9"
    }
}

/// Appends the decimal rendering of `n` to `s`.
fn push_dec(s: &mut String, n: u64)
    ensures
        final(s)@ == old(s)@ + dec_seq(n as nat),
    decreases n,
{
    if n >= 10 {
        push_dec(s, n / 10);
    }
    let digit = dec_digit_str(n % 10);
    s.append(digit);
    proof {
        assert(final(s)@ =~= old(s)@ + dec_seq(n as nat));
    }
}

} // verus!
