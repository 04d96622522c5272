//! Character-level string helpers shared by the tokenizer and the path code.

use vstd::prelude::*;
use vstd::string::*;

verus! {

/// The map described by an association list whose later entries overwrite
/// earlier ones.
pub open spec fn spec_assoc<V>(entries: Seq<(Seq<char>, V)>) -> Map<Seq<char>, V>
    decreases entries.len(),
{
    if entries.len() == 0 {
        Map::<Seq<char>, V>::empty()
    } else {
        spec_assoc(entries.drop_last()).insert(entries.last().0, entries.last().1)
    }
}

/// An entry that no later entry shadows decides the map at its key.
pub proof fn lemma_assoc_found<V>(entries: Seq<(Seq<char>, V)>, i: int)
    requires
        0 <= i < entries.len(),
        forall|j: int| i < j < entries.len() ==> entries[j].0 != entries[i].0,
    ensures
        spec_assoc(entries).contains_key(entries[i].0),
        spec_assoc(entries)[entries[i].0] == entries[i].1,
    decreases entries.len(),
{
    if i + 1 < entries.len() {
        assert(entries.drop_last()[i] == entries[i]);
        lemma_assoc_found(entries.drop_last(), i);
    }
}

/// A key no entry carries is absent from the map.
pub proof fn lemma_assoc_absent<V>(entries: Seq<(Seq<char>, V)>, k: Seq<char>)
    requires
        forall|j: int| 0 <= j < entries.len() ==> entries[j].0 != k,
    ensures
        !spec_assoc(entries).contains_key(k),
    decreases entries.len(),
{
    if entries.len() > 0 {
        lemma_assoc_absent(entries.drop_last(), k);
    }
}

/// Relies on `String::from_utf8`: exactly the byte sequences that form
/// valid UTF-8 decode, and they decode to the text they encode.
#[verifier::external_body]
pub fn bytes_to_string(v: Vec<u8>) -> (r: Option<String>)
    ensures
        r is Some <==> vstd::utf8::valid_utf8(v@),
        r is Some ==> r->0@ == vstd::utf8::decode_utf8(v@),
{
    match String::from_utf8(v) {
        Ok(s) => Some(s),
        Err(_) => None,
    }
}

/// Relies on `String::push`: appends exactly one character to the string.
#[verifier::external_body]
pub fn push_char(s: &mut String, c: char)
    ensures
        final(s)@ == old(s)@.push(c),
{
    s.push(c);
}

/// Compares two string slices character by character.
pub fn str_eq(a: &str, b: &str) -> (r: bool)
    ensures
        r == (a@ == b@),
{
    let na = a.unicode_len();
    let nb = b.unicode_len();
    if na != nb {
        return false;
    }
    let mut i: usize = 0;
    while i < na
        invariant
            i <= na,
            na == a@.len(),
            nb == b@.len(),
            na == nb,
            forall|j: int| 0 <= j < i ==> a@[j] == b@[j],
        decreases na - i,
    {
        if a.get_char(i) != b.get_char(i) {
            return false;
        }
        i += 1;
    }
    proof {
        assert(a@ =~= b@);
    }
    true
}

/// Splitting a sequence of characters on a separator, in the manner of
/// `str::split`: the result always holds at least one segment, and an empty
/// input yields one empty segment.
pub open spec fn spec_split(s: Seq<char>, sep: char) -> Seq<Seq<char>>
    decreases s.len(),
{
    if s.len() == 0 {
        seq![Seq::<char>::empty()]
    } else if s[0] == sep {
        seq![Seq::<char>::empty()] + spec_split(s.drop_first(), sep)
    } else {
        let rest = spec_split(s.drop_first(), sep);
        seq![seq![s[0]] + rest[0]] + rest.drop_first()
    }
}

pub proof fn lemma_spec_split_len(s: Seq<char>, sep: char)
    ensures
        spec_split(s, sep).len() >= 1,
    decreases s.len(),
{
    if s.len() != 0 {
        lemma_spec_split_len(s.drop_first(), sep);
    }
}

/// Splits `s` on the separator character, one owned segment per piece.
pub fn split_char(s: &str, sep: char) -> (r: Vec<String>)
    ensures
        r.deep_view() == spec_split(s@, sep),
        r.len() >= 1,
    decreases s@.len(),
{
    let n = s.unicode_len();
    if n == 0 {
        let mut r: Vec<String> = Vec::new();
        r.push(String::new());
        proof {
            assert(r.deep_view() =~= spec_split(s@, sep));
        }
        r
    } else {
        let c = s.get_char(0);
        let rest = s.substring_char(1, n);
        proof {
            assert(rest@ =~= s@.drop_first());
        }
        let mut tail = split_char(rest, sep);
        if c == sep {
            tail.insert(0, String::new());
            proof {
                assert(tail.deep_view() =~= spec_split(s@, sep));
            }
            tail
        } else {
            proof {
                lemma_spec_split_len(rest@, sep);
            }
            let head = tail.remove(0);
            let mut ns = String::new();
            push_char(&mut ns, c);
            ns.append(head.as_str());
            tail.insert(0, ns);
            proof {
                assert(ns@ =~= seq![s@[0]] + spec_split(s@.drop_first(), sep)[0]);
                assert(tail.deep_view() =~= spec_split(s@, sep));
            }
            tail
        }
    }
}

/// Joining segments with a `/` before each one, in the manner the path type
/// builds its text: no segments yield the empty string.
pub open spec fn spec_join_slash(segs: Seq<Seq<char>>) -> Seq<char>
    decreases segs.len(),
{
    if segs.len() == 0 {
        Seq::<char>::empty()
    } else {
        spec_join_slash(segs.drop_last()) + seq!['/'] + segs.last()
    }
}

/// Builds a string from segments, writing a `/` before each segment.
pub fn join_slash(segs: &Vec<String>) -> (r: String)
    ensures
        r@ == spec_join_slash(segs.deep_view()),
{
    let mut r = String::new();
    let mut i: usize = 0;
    proof {
        assert(segs.deep_view().take(0) =~= Seq::<Seq<char>>::empty());
    }
    while i < segs.len()
        invariant
            i <= segs.len(),
            r@ == spec_join_slash(segs.deep_view().take(i as int)),
        decreases segs.len() - i,
    {
        push_char(&mut r, '/');
        r.append(segs[i].as_str());
        proof {
            let dv = segs.deep_view();
            assert(dv.take(i + 1).drop_last() =~= dv.take(i as int));
            assert(dv.take(i + 1).last() == dv[i as int]);
            assert(r@ =~= spec_join_slash(dv.take(i as int)) + seq!['/'] + dv[i as int]);
        }
        i += 1;
    }
    proof {
        assert(segs.deep_view().take(segs.len() as int) =~= segs.deep_view());
    }
    r
}

} // verus!
