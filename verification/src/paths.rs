//! Filesystem paths as text, and how a relative sub-path is adjoined to a
//! directory.
//!
//! A path has no identity beyond its characters, so the crate keeps paths as
//! strings and models them as sequences of characters.

use vstd::prelude::*;

verus! {

/// The conventions of a family of operating systems for writing paths.
#[derive(Clone, Copy, Debug, PartialEq, Eq, Structural)]
pub enum PathStyle {
    /// Components are separated by `/`.
    Unix,
    /// Components are separated by `\`; `/` is understood as well.
    Windows,
}

impl PathStyle {
    /// The character that is written between two components.
    pub open spec fn separator(self) -> char {
        match self {
            PathStyle::Unix => '/',
            PathStyle::Windows => '\\',
        }
    }

    /// Whether `c` ends a component in this style.
    pub open spec fn is_separator(self, c: char) -> bool {
        c == '/' || (self == PathStyle::Windows && c == '\\')
    }

    /// Whether `c` ends a component in this style.
    pub fn separates(self, c: char) -> (r: bool)
        ensures
            r == self.is_separator(c),
    {
        match self {
            PathStyle::Unix => c == '/',
            PathStyle::Windows => c == '/' || c == '\\',
        }
    }
}

/// Whether a separator has to be written after `base` before a sub-path
/// can follow: `base` is not empty and does not end in a separator.
pub open spec fn needs_separator(style: PathStyle, base: Seq<char>) -> bool {
    base.len() > 0 && !style.is_separator(base.last())
}

/// The path `rel` below the directory `base`.
///
/// `rel` is taken to be relative. It follows `base` directly where `base` is
/// empty or already ends in a separator, and after one separator otherwise.
pub open spec fn join_spec(style: PathStyle, base: Seq<char>, rel: Seq<char>) -> Seq<char> {
    if needs_separator(style, base) {
        base.push(style.separator()) + rel
    } else {
        base + rel
    }
}

/// `rel` adjoined to `base` for each `rel` of `subs`, in the order of `subs`.
pub open spec fn join_each(
    style: PathStyle,
    base: Seq<char>,
    subs: Seq<Seq<char>>,
) -> Seq<Seq<char>> {
    Seq::new(subs.len(), |i: int| join_spec(style, base, subs[i]))
}

/// Adjoins the relative path `rel` to the directory `base`.
pub fn join(style: PathStyle, base: &str, rel: &str) -> (path: String)
    ensures
        path@ == join_spec(style, base@, rel@),
{
    let mut path = String::from_str(base);
    let len = base.unicode_len();
    if len > 0 {
        let last = base.get_char(len - 1);
        if !style.separates(last) {
            match style {
                PathStyle::Unix => {
                    proof {
                        reveal_strlit("/");
                    }
                    path.append("/");
                    assert(path@ == base@.push('/'));
                },
                PathStyle::Windows => {
                    proof {
                        reveal_strlit("\\");
                    }
                    path.append("\\");
                    assert(path@ == base@.push('\\'));
                },
            }
        }
    }
    path.append(rel);
    path
}

/// Appends to `out` the path of each sub-path of `subs` below `base`,
/// keeping the order of `subs`.
pub fn push_joined(out: &mut Vec<String>, style: PathStyle, base: &str, subs: &Vec<&str>)
    ensures
        final(out).deep_view() == old(out).deep_view() + join_each(
            style,
            base@,
            subs.deep_view(),
        ),
{
    let ghost before = out.deep_view();
    let mut i: usize = 0;
    while i < subs.len()
        invariant
            i <= subs.len(),
            out.deep_view() == before + join_each(style, base@, subs.deep_view()).take(i as int),
        decreases subs.len() - i,
    {
        let ghost prev = out.deep_view();
        let path = join(style, base, subs[i]);
        out.push(path);
        proof {
            let all = join_each(style, base@, subs.deep_view());
            assert(out.deep_view() == prev.push(all[i as int]));
            assert(all.take(i + 1) == all.take(i as int).push(all[i as int]));
        }
        i += 1;
    }
    proof {
        let all = join_each(style, base@, subs.deep_view());
        assert(all.take(subs.len() as int) == all);
    }
}

} // verus!
