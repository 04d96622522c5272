//! Slash-delimited paths and the lexical cleaning the launch pipeline
//! applies before any lookup.

use vstd::prelude::*;
use vstd::string::*;

use crate::strutil::{join_slash, push_char, spec_join_slash, spec_split, split_char};

verus! {

/// One cleaning step: blank and `.` segments vanish, `..` removes the
/// segment gathered before it (and is a no-op at the root), anything else is
/// kept.
pub open spec fn clean_step(acc: Seq<Seq<char>>, seg: Seq<char>) -> Seq<Seq<char>> {
    if seg == Seq::<char>::empty() || seg == seq!['.'] {
        acc
    } else if seg == seq!['.', '.'] {
        if acc.len() > 0 {
            acc.drop_last()
        } else {
            acc
        }
    } else {
        acc.push(seg)
    }
}

/// The segments that survive cleaning, processed left to right.
pub open spec fn spec_clean_segs(segs: Seq<Seq<char>>) -> Seq<Seq<char>>
    decreases segs.len(),
{
    if segs.len() == 0 {
        Seq::<Seq<char>>::empty()
    } else {
        clean_step(spec_clean_segs(segs.drop_last()), segs.last())
    }
}

/// Lexical path cleaning: split on `/`, fold the segments, and write a `/`
/// before each survivor.
pub open spec fn spec_clean(s: Seq<char>) -> Seq<char> {
    spec_join_slash(spec_clean_segs(spec_split(s, '/')))
}

/// The text after the final `/` of a path.
pub open spec fn spec_file_name(s: Seq<char>) -> Seq<char> {
    spec_split(s, '/').last()
}

/// The text after the final `.` of the file name.
pub open spec fn spec_file_extension(s: Seq<char>) -> Seq<char> {
    spec_split(spec_file_name(s), '.').last()
}

/// A borrowed view over path text, exposing component iteration and
/// file-name and extension extraction.
pub struct PathStr<'a> {
    text: &'a str,
}

impl<'a> View for PathStr<'a> {
    type V = Seq<char>;

    closed spec fn view(&self) -> Seq<char> {
        self.text@
    }
}

impl<'a> PathStr<'a> {
    pub fn new(s: &'a str) -> (r: PathStr<'a>)
        ensures
            r@ == s@,
    {
        PathStr { text: s }
    }

    pub fn as_str(&self) -> (r: &str)
        ensures
            r@ == self@,
    {
        self.text
    }

    /// The slash-separated components, in order.
    pub fn components(&self) -> (r: Vec<String>)
        ensures
            r.deep_view() == spec_split(self@, '/'),
            r.len() >= 1,
    {
        split_char(self.text, '/')
    }

    /// The component after the final `/`; present for any text.
    pub fn file_name(&self) -> (r: Option<String>)
        ensures
            r is Some,
            r->0@ == spec_file_name(self@),
    {
        let comps = self.components();
        let last = &comps[comps.len() - 1];
        proof {
            assert(comps.deep_view().last() == comps.deep_view()[comps.len() - 1]);
        }
        Some(last.clone())
    }

    /// The text after the final `.` of the file name; present for any text.
    pub fn file_extension(&self) -> (r: Option<String>)
        ensures
            r is Some,
            r->0@ == spec_file_extension(self@),
    {
        let comps = self.components();
        let last = &comps[comps.len() - 1];
        proof {
            assert(comps.deep_view().last() == comps.deep_view()[comps.len() - 1]);
        }
        let pieces = split_char(last.as_str(), '.');
        let piece = &pieces[pieces.len() - 1];
        proof {
            assert(pieces.deep_view().last() == pieces.deep_view()[pieces.len() - 1]);
        }
        Some(piece.clone())
    }
}

/// An owned, slash-delimited path.
pub struct Path {
    text: String,
}

impl View for Path {
    type V = Seq<char>;

    closed spec fn view(&self) -> Seq<char> {
        self.text@
    }
}

impl Clone for Path {
    fn clone(&self) -> (r: Self)
        ensures
            r@ == self@,
    {
        Path { text: self.text.clone() }
    }
}

/// Anything that can be written onto the end of a path.
pub trait AppendsPath {
    spec fn text_view(&self) -> Seq<char>;

    fn to_str(&self) -> (r: &str)
        ensures
            r@ == self.text_view(),
    ;
}

impl AppendsPath for Path {
    open spec fn text_view(&self) -> Seq<char> {
        self@
    }

    fn to_str(&self) -> (r: &str) {
        self.as_str()
    }
}

impl AppendsPath for String {
    open spec fn text_view(&self) -> Seq<char> {
        self@
    }

    fn to_str(&self) -> (r: &str) {
        self.as_str()
    }
}

impl Path {
    /// The empty path.
    pub fn new() -> (r: Self)
        ensures
            r@ == Seq::<char>::empty(),
    {
        Path { text: String::new() }
    }

    /// A path holding the given text.
    pub fn from(s: &str) -> (r: Self)
        ensures
            r@ == s@,
    {
        Path { text: String::from_str(s) }
    }

    pub fn as_str(&self) -> (r: &str)
        ensures
            r@ == self@,
    {
        self.text.as_str()
    }

    pub fn as_path_str(&self) -> (r: PathStr<'_>)
        ensures
            r@ == self@,
    {
        PathStr::new(self.text.as_str())
    }

    /// A path written as `/` before each of the given segments.
    pub fn from_segments(items: &Vec<String>) -> (r: Self)
        ensures
            r@ == spec_join_slash(items.deep_view()),
    {
        Path { text: join_slash(items) }
    }

    /// Writes `/` and then the other path's text onto the end.
    pub fn append<A: AppendsPath>(self, path: &A) -> (r: Self)
        ensures
            r@ == self@ + seq!['/'] + path.text_view(),
    {
        let ghost orig = self@;
        let mut text = self.text;
        push_char(&mut text, '/');
        text.append(path.to_str());
        proof {
            assert(text@ =~= orig + seq!['/'] + path.text_view());
        }
        Path { text }
    }

    /// Writes `.` and the extension onto the end.
    pub fn add_extension(self, extension: &str) -> (r: Self)
        ensures
            r@ == self@ + seq!['.'] + extension@,
    {
        let ghost orig = self@;
        let mut text = self.text;
        push_char(&mut text, '.');
        text.append(extension);
        proof {
            assert(text@ =~= orig + seq!['.'] + extension@);
        }
        Path { text }
    }

    /// Collapses `.` segments, removes the prior segment on `..`, and
    /// silently ignores a `..` at the root.
    pub fn clean(self) -> (r: Self)
        ensures
            r@ == spec_clean(self@),
    {
        let comps = split_char(self.text.as_str(), '/');
        let mut kept: Vec<String> = Vec::new();
        let mut i: usize = 0;
        proof {
            assert(kept.deep_view() =~= spec_clean_segs(comps.deep_view().take(0)));
        }
        while i < comps.len()
            invariant
                i <= comps.len(),
                comps.deep_view() == spec_split(self@, '/'),
                kept.deep_view() == spec_clean_segs(comps.deep_view().take(i as int)),
            decreases comps.len() - i,
        {
            let seg = &comps[i];
            if seg_is_blank(seg) || seg_is_dot(seg) {
                // dropped
            } else if seg_is_dot_dot(seg) {
                if kept.len() > 0 {
                    kept.pop();
                    proof {
                        assert(kept.deep_view() =~= spec_clean_segs(
                            comps.deep_view().take(i as int),
                        ).drop_last());
                    }
                }
            } else {
                kept.push(seg.clone());
                proof {
                    assert(kept.deep_view() =~= spec_clean_segs(
                        comps.deep_view().take(i as int),
                    ).push(seg@));
                }
            }
            proof {
                let dv = comps.deep_view();
                assert(dv.take(i + 1).drop_last() =~= dv.take(i as int));
                assert(dv.take(i + 1).last() == dv[i as int]);
            }
            i += 1;
        }
        proof {
            assert(comps.deep_view().take(comps.len() as int) =~= comps.deep_view());
        }
        Path { text: join_slash(&kept) }
    }

    /// The cleaned path without its final segment; present for any path.
    pub fn parent(&self) -> (r: Option<Self>)
        ensures
            r is Some,
            r->0@ == spec_join_slash(spec_split(spec_clean(self@), '/').drop_last()),
    {
        let clean = self.clone().clean();
        let mut segments = clean.as_path_str().components();
        segments.pop();
        proof {
            assert(segments.deep_view() =~= spec_split(spec_clean(self@), '/').drop_last());
        }
        Some(Self::from_segments(&segments))
    }

    /// Replaces the path by its parent and hands back the final segment of
    /// the cleaned path; present for any path.
    pub fn pop(&mut self) -> (r: Option<Path>)
        ensures
            r is Some,
            r->0@ == spec_split(spec_clean(old(self)@), '/').last(),
            final(self)@ == spec_join_slash(spec_split(spec_clean(old(self)@), '/').drop_last()),
    {
        let clean = self.clone().clean();
        let mut segments = clean.as_path_str().components();
        let last = segments.pop().unwrap();
        proof {
            assert(segments.deep_view() =~= spec_split(spec_clean(old(self)@), '/').drop_last());
            assert(spec_split(spec_clean(old(self)@), '/').last() == spec_split(
                spec_clean(old(self)@),
                '/',
            )[spec_split(spec_clean(old(self)@), '/').len() - 1]);
        }
        *self = Self::from_segments(&segments);
        Some(Self::from(last.as_str()))
    }
}

/// True when the segment is empty.
fn seg_is_blank(s: &String) -> (r: bool)
    ensures
        r == (s@ == Seq::<char>::empty()),
{
    let r = s.as_str().unicode_len() == 0;
    proof {
        if s@.len() == 0 {
            assert(s@ =~= Seq::<char>::empty());
        }
    }
    r
}

/// True when the segment is exactly `.`.
fn seg_is_dot(s: &String) -> (r: bool)
    ensures
        r == (s@ == seq!['.']),
{
    let t = s.as_str();
    let r = t.unicode_len() == 1 && t.get_char(0) == '.';
    proof {
        if r {
            assert(s@ =~= seq!['.']);
        }
    }
    r
}

/// True when the segment is exactly `..`.
fn seg_is_dot_dot(s: &String) -> (r: bool)
    ensures
        r == (s@ == seq!['.', '.']),
{
    let t = s.as_str();
    let r = t.unicode_len() == 2 && t.get_char(0) == '.' && t.get_char(1) == '.';
    proof {
        if r {
            assert(s@ =~= seq!['.', '.']);
        }
    }
    r
}

} // verus!
