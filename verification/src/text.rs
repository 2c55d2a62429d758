//! Small operations on text that the emitters share.

use vstd::prelude::*;
use vstd::string::*;

verus! {

/// `prefix` is an initial segment of `s`.
pub open spec fn is_prefix(prefix: Seq<char>, s: Seq<char>) -> bool {
    prefix.len() <= s.len() && s.subrange(0, prefix.len() as int) == prefix
}

/// Whether `s` begins with `prefix`, character by character.
pub fn starts_with(s: &str, prefix: &str) -> (r: bool)
    ensures
        r == is_prefix(prefix@, s@),
{
    let n: usize = prefix.unicode_len();
    let m: usize = s.unicode_len();
    if n > m {
        return false;
    }
    let mut i: usize = 0;
    while i < n
        invariant
            i <= n,
            n == prefix@.len(),
            m == s@.len(),
            n <= m,
            forall|k: int| 0 <= k < i ==> s@[k] == prefix@[k],
        decreases n - i,
    {
        if s.get_char(i) != prefix.get_char(i) {
            proof {
                assert(s@.subrange(0, n as int)[i as int] == s@[i as int]);
            }
            return false;
        }
        i += 1;
    }
    proof {
        assert(s@.subrange(0, n as int) =~= prefix@);
    }
    true
}

/// Whether two texts hold the same characters.
pub fn str_eq(a: &str, b: &str) -> (r: bool)
    ensures
        r == (a@ == b@),
{
    let la: usize = a.unicode_len();
    let lb: usize = b.unicode_len();
    if la != lb {
        return false;
    }
    let r = starts_with(a, b);
    proof {
        assert(a@.subrange(0, a@.len() as int) =~= a@);
    }
    r
}

/// The texts of a list of strings.
pub open spec fn views(items: Seq<String>) -> Seq<Seq<char>> {
    items.map_values(|s: String| s@)
}

/// All the texts of a list, one after the other.
pub open spec fn joined(parts: Seq<Seq<char>>) -> Seq<char>
    decreases parts.len(),
{
    if parts.len() == 0 {
        Seq::empty()
    } else {
        joined(parts.drop_last()) + parts.last()
    }
}

/// Concatenates the strings of a list in order.
pub fn concat_all(parts: &Vec<String>) -> (r: String)
    ensures
        r@ == joined(views(parts@)),
{
    let mut out = String::new();
    let mut i: usize = 0;
    while i < parts.len()
        invariant
            i <= parts.len(),
            out@ == joined(views(parts@).take(i as int)),
        decreases parts.len() - i,
    {
        proof {
            let next = views(parts@).take(i + 1);
            assert(next.drop_last() =~= views(parts@).take(i as int));
            assert(next.last() == parts@[i as int]@);
        }
        out.append(parts[i].as_str());
        i += 1;
    }
    proof {
        assert(views(parts@).take(parts.len() as int) =~= views(parts@));
    }
    out
}

/// A copy of a list of strings that shares nothing with it.
pub fn clone_strings(items: &Vec<String>) -> (r: Vec<String>)
    ensures
        views(r@) == views(items@),
{
    let mut out: Vec<String> = Vec::new();
    let mut i: usize = 0;
    while i < items.len()
        invariant
            i <= items.len(),
            out@.len() == i,
            forall|k: int| 0 <= k < i ==> out@[k]@ == items@[k]@,
        decreases items.len() - i,
    {
        out.push(items[i].clone());
        i += 1;
    }
    proof {
        assert(views(out@) =~= views(items@));
    }
    out
}

/// The lower-case form of an ASCII capital; any other character unchanged.
pub open spec fn lower(c: char) -> char {
    if 'A' <= c && c <= 'Z' {
        ((c as u8) + 32) as char
    } else {
        c
    }
}

/// Whether the character is an ASCII capital.
pub open spec fn is_capital(c: char) -> bool {
    'A' <= c && c <= 'Z'
}

/// The snake-case spelling of the first `n` characters of a name: each
/// character in lower case, and an underscore before every capital but the
/// first character.
pub open spec fn snake_prefix(name: Seq<char>, n: int) -> Seq<char>
    decreases n,
{
    if n <= 0 {
        Seq::empty()
    } else if n < name.len() && is_capital(name[n]) {
        snake_prefix(name, n - 1).push(lower(name[n - 1])).push('_')
    } else {
        snake_prefix(name, n - 1).push(lower(name[n - 1]))
    }
}

/// The snake-case spelling of a whole name.
pub open spec fn snake_case(name: Seq<char>) -> Seq<char> {
    snake_prefix(name, name.len() as int)
}

/// Lower-cases a name and separates its words, which capitals start, by
/// underscores.
pub fn naive_snake_case(name: &str) -> (r: String)
    ensures
        r@ == snake_case(name@),
{
    let n: usize = name.unicode_len();
    let mut out = String::new();
    let mut i: usize = 0;
    while i < n
        invariant
            i <= n,
            n == name@.len(),
            out@ == snake_prefix(name@, i as int),
        decreases n - i,
    {
        let c = name.get_char(i);
        let l = if 'A' <= c && c <= 'Z' {
            ((c as u8) + 32) as char
        } else {
            c
        };
        out.push(l);
        if i + 1 < n {
            let y = name.get_char(i + 1);
            if 'A' <= y && y <= 'Z' {
                out.push('_');
            }
        }
        i += 1;
    }
    out
}

} // verus!
