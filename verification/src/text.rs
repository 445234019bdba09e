//! Small string helpers shared by the modules.
use vstd::prelude::*;

verus! {

/// The text of each string.
pub open spec fn texts_of(strings: Seq<String>) -> Seq<Seq<char>> {
    strings.map_values(|s: String| s@)
}

/// The text of an optional string.
pub open spec fn opt_text(s: Option<String>) -> Option<Seq<char>> {
    match s {
        Some(t) => Some(t@),
        None => None,
    }
}

/// A copy of `s`.
pub(crate) fn copy_opt_string(s: &Option<String>) -> (out: Option<String>)
    ensures
        out == *s,
{
    match s {
        Some(t) => Some(t.clone()),
        None => None,
    }
}

/// A copy of `strings`.
pub(crate) fn copy_strings(strings: &Vec<String>) -> (out: Vec<String>)
    ensures
        out@ == strings@,
{
    let mut out: Vec<String> = Vec::new();
    let mut i: usize = 0;
    while i < strings.len()
        invariant
            i <= strings.len(),
            out@ == strings@.take(i as int),
        decreases strings.len() - i,
    {
        out.push(strings[i].clone());
        assert(out@ =~= strings@.take(i + 1));
        i = i + 1;
    }
    assert(strings@.take(i as int) =~= strings@);
    out
}

/// The characters of `s`, in order.
pub(crate) fn chars_of(s: &str) -> (out: Vec<char>)
    ensures
        out@ == s@,
{
    let mut out: Vec<char> = Vec::new();
    for c in it: s.chars()
        invariant
            out@ == it.seq().take(it.index() as int),
            it.seq() == s@,
    {
        out.push(c);
    }
    out
}

} // verus!
