//! Text helpers shared by the statement generators: the views of string
//! vectors and joining with a separator.

use vstd::prelude::*;

verus! {

/// The character sequences of a sequence of strings, in order.
pub open spec fn texts(parts: Seq<String>) -> Seq<Seq<char>> {
    Seq::new(parts.len(), |i: int| parts[i]@)
}

/// `parts` written one after another with `sep` between neighbours.
pub open spec fn join(parts: Seq<Seq<char>>, sep: Seq<char>) -> Seq<char>
    decreases parts.len(),
{
    if parts.len() == 0 {
        Seq::empty()
    } else if parts.len() == 1 {
        parts[0]
    } else {
        join(parts.drop_last(), sep) + sep + parts.last()
    }
}

/// Maps an ASCII upper-case letter to its lower-case form and leaves every
/// other character unchanged.
pub open spec fn lower_char(c: char) -> char {
    if 'A' <= c && c <= 'Z' {
        ((c as u8) + 32) as char
    } else {
        c
    }
}

/// `s` with every ASCII upper-case letter replaced by its lower-case form.
pub open spec fn lower(s: Seq<char>) -> Seq<char> {
    Seq::new(s.len(), |i: int| lower_char(s[i]))
}

/// Joining one more part appends the separator and the part, except after an
/// empty list.
pub proof fn lemma_join_push(parts: Seq<Seq<char>>, sep: Seq<char>, part: Seq<char>)
    ensures
        join(parts.push(part), sep) == if parts.len() == 0 {
            part
        } else {
            join(parts, sep) + sep + part
        },
{
    assert(parts.push(part).drop_last() =~= parts);
}

/// Concatenates `parts`, placing `sep` between neighbours.
pub fn join_strings(parts: &Vec<String>, sep: &str) -> (joined: String)
    ensures
        joined@ == join(texts(parts@), sep@),
{
    let mut joined = String::new();
    let mut i: usize = 0;
    while i < parts.len()
        invariant
            i <= parts.len(),
            joined@ == join(texts(parts@).take(i as int), sep@),
        decreases parts.len() - i,
    {
        proof {
            lemma_join_push(texts(parts@).take(i as int), sep@, parts[i as int]@);
            assert(texts(parts@).take(i as int).push(parts[i as int]@) =~= texts(parts@).take(
                i + 1,
            ));
        }
        if i > 0 {
            joined.append(sep);
        }
        joined.append(parts[i].as_str());
        i += 1;
    }
    proof {
        assert(texts(parts@).take(parts.len() as int) =~= texts(parts@));
    }
    joined
}

/// Whether two strings hold the same characters.
pub fn same_text(a: &str, b: &str) -> (same: bool)
    ensures
        same == (a@ == b@),
{
    let left = String::from_str(a);
    let right = String::from_str(b);
    left == right
}

/// Calls `str::to_ascii_lowercase`, which returns a copy of the string in
/// which each ASCII letter `A` to `Z` is mapped to `a` to `z` and every
/// other character is kept.
#[verifier::external_body]
pub(crate) fn ascii_lowercase(s: &str) -> (lowered: String)
    ensures
        lowered@ == lower(s@),
{
    s.to_ascii_lowercase()
}

} // verus!
