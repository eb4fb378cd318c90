//! Text helpers: specifications of the std string operations the library
//! builds text with, the views of string sequences, and joining.
use vstd::prelude::*;

verus! {

/// `String::push` appends one `char` to the end of the string (std documents:
/// "Appends the given char to the end of this String").
pub assume_specification[ String::push ](s: &mut String, ch: char)
    ensures
        final(s)@ == old(s)@.push(ch),
;

/// `String::with_capacity` creates a new empty string; the capacity only
/// reserves memory and is not observable in the contents.
pub assume_specification[ String::with_capacity ](capacity: usize) -> (res: String)
    ensures
        res@ == Seq::<char>::empty(),
;

/// The character sequences of a sequence of strings.
pub open spec fn views(v: Seq<String>) -> Seq<Seq<char>> {
    v.map_values(|s: String| s@)
}

/// The character sequences of a sequence of string slices.
pub open spec fn str_views(v: Seq<&str>) -> Seq<Seq<char>> {
    v.map_values(|s: &str| s@)
}

/// `parts` joined with `sep` between consecutive parts, as `[T]::join` does.
pub open spec fn seq_join(parts: Seq<Seq<char>>, sep: Seq<char>) -> Seq<char>
    decreases parts.len(),
{
    if parts.len() == 0 {
        Seq::empty()
    } else if parts.len() == 1 {
        parts[0]
    } else {
        seq_join(parts.drop_last(), sep) + sep + parts.last()
    }
}

/// An owned copy of a string slice.
pub fn owned(s: &str) -> (r: String)
    ensures
        r@ == s@,
{
    s.to_owned()
}

/// An element-wise copy of a vector of strings.
pub fn copy_strings(v: &Vec<String>) -> (r: Vec<String>)
    ensures
        views(r@) == views(v@),
{
    let mut r: Vec<String> = Vec::new();
    let mut i: usize = 0;
    while i < v.len()
        invariant
            i <= v.len(),
            r@.len() == i,
            forall|j: int| 0 <= j < i ==> #[trigger] r@[j]@ == v@[j]@,
        decreases v.len() - i,
    {
        r.push(v[i].clone());
        i = i + 1;
    }
    assert(views(r@) =~= views(v@));
    r
}

/// Owned copies of a slice of string slices.
pub fn to_strings(v: &[&str]) -> (r: Vec<String>)
    ensures
        views(r@) == str_views(v@),
{
    let mut r: Vec<String> = Vec::new();
    let mut i: usize = 0;
    while i < v.len()
        invariant
            i <= v@.len(),
            r@.len() == i,
            forall|j: int| 0 <= j < i ==> #[trigger] r@[j]@ == v@[j]@,
        decreases v@.len() - i,
    {
        r.push(owned(v[i]));
        i = i + 1;
    }
    assert(views(r@) =~= str_views(v@));
    r
}

/// `parts` joined with `sep`, as `[&str]::join` does.
pub fn join(parts: &[&str], sep: &str) -> (r: String)
    ensures
        r@ == seq_join(str_views(parts@), sep@),
{
    let mut r = String::new();
    let mut i: usize = 0;
    while i < parts.len()
        invariant
            i <= parts@.len(),
            r@ == seq_join(str_views(parts@).take(i as int), sep@),
        decreases parts@.len() - i,
    {
        let ghost before = str_views(parts@).take(i as int);
        if i > 0 {
            r.append(sep);
        }
        r.append(parts[i]);
        assert(str_views(parts@).take(i + 1).drop_last() =~= before);
        i = i + 1;
    }
    assert(str_views(parts@).take(parts@.len() as int) =~= str_views(parts@));
    r
}

} // verus!
