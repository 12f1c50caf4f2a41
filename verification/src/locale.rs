//! The codeset heuristic on a locale string of the form
//! `language[_territory[.codeset]][@modifier]`.
//!
//! The codeset is what stands between the first `.` and the first `@`
//! behind it. The locale asks for UTF-8 where the codeset is `UTF-8` or
//! `utf8`, in any mix of upper and lower case. A value with a `/` in it is
//! the path of a locale file, as some platforms keep one there, and says
//! nothing of the encoding.

use core::str::Chars;
use vstd::prelude::*;
use vstd::std_specs::iter::IteratorSpec;

verus! {

/// The index of the first occurrence of `c` in `s`, or `s.len()` where `s`
/// does not contain `c`.
pub open spec fn first_index(s: Seq<char>, c: char) -> int
    decreases s.len(),
{
    if s.len() == 0 || s[0] == c {
        0
    } else {
        1 + first_index(s.drop_first(), c)
    }
}

/// The codeset of a locale string: what stands after its first `.`, up to
/// the first `@` that follows. `None` where the string has no `.`.
pub open spec fn codeset(locale: Seq<char>) -> Option<Seq<char>> {
    if locale.contains('.') {
        let rest = locale.skip(first_index(locale, '.') + 1);
        Some(rest.take(first_index(rest, '@')))
    } else {
        None
    }
}

/// The code of `c` with the upper-case ASCII letters mapped to lower case.
pub open spec fn ascii_lower(c: char) -> int {
    if 'A' <= c <= 'Z' {
        c as int + 32
    } else {
        c as int
    }
}

/// Equality of two strings up to the case of their ASCII letters.
pub open spec fn eq_ignore_ascii_case(a: Seq<char>, b: Seq<char>) -> bool {
    &&& a.len() == b.len()
    &&& forall|i: int| 0 <= i < a.len() ==> ascii_lower(#[trigger] a[i]) == ascii_lower(b[i])
}

/// The codeset name `UTF-8`.
pub open spec fn name_with_hyphen() -> Seq<char> {
    seq!['U', 'T', 'F', '-', '8']
}

/// The codeset name `utf8`.
pub open spec fn name_without_hyphen() -> Seq<char> {
    seq!['u', 't', 'f', '8']
}

/// Whether a codeset names UTF-8.
pub open spec fn names_utf8(codeset: Seq<char>) -> bool {
    eq_ignore_ascii_case(codeset, name_with_hyphen()) || eq_ignore_ascii_case(
        codeset,
        name_without_hyphen(),
    )
}

/// Whether a locale string asks for UTF-8: it is no path, and it has a
/// codeset that names UTF-8.
pub open spec fn locale_is_utf8(locale: Seq<char>) -> bool {
    &&& !locale.contains('/')
    &&& codeset(locale) matches Some(name)
    &&& names_utf8(name)
}

/// Whether `a` and `b` both have `n` characters or more and agree on the
/// first `n` up to the case of ASCII letters.
spec fn agree(a: Seq<char>, b: Seq<char>, n: int) -> bool {
    &&& n <= a.len()
    &&& n <= b.len()
    &&& forall|i: int| 0 <= i < n ==> ascii_lower(#[trigger] a[i]) == ascii_lower(b[i])
}

/// `first_index` is within bounds, nothing before it equals `c`, and it
/// points at a `c` exactly where `s` contains one.
pub proof fn lemma_first_index(s: Seq<char>, c: char)
    ensures
        0 <= first_index(s, c) <= s.len(),
        forall|j: int| 0 <= j < first_index(s, c) ==> s[j] != c,
        first_index(s, c) < s.len() ==> s[first_index(s, c)] == c,
        first_index(s, c) < s.len() <==> s.contains(c),
    decreases s.len(),
{
    if s.len() == 0 || s[0] == c {
    } else {
        let tail = s.drop_first();
        lemma_first_index(tail, c);
        assert forall|j: int| 0 <= j < first_index(s, c) implies s[j] != c by {
            if j > 0 {
                assert(s[j] == tail[j - 1]);
            }
        }
        if first_index(s, c) < s.len() {
            assert(s[first_index(s, c)] == tail[first_index(tail, c)]);
        }
        if s.contains(c) {
            let k = choose|k: int| 0 <= k < s.len() && s[k] == c;
            assert(tail[k - 1] == c);
        }
    }
}

/// An index with no `c` before it, which points at a `c` or at the end of
/// `s`, is `first_index`.
pub proof fn lemma_first_index_is(s: Seq<char>, c: char, i: int)
    requires
        0 <= i <= s.len(),
        forall|j: int| 0 <= j < i ==> s[j] != c,
        i < s.len() ==> s[i] == c,
    ensures
        first_index(s, c) == i,
{
    lemma_first_index(s, c);
}

/// A prefix of `all` equals `name` up to case exactly where it has the
/// length of `name` and the two agree that far.
proof fn lemma_prefix_equals_name(all: Seq<char>, name: Seq<char>, n: int)
    requires
        0 <= n <= all.len(),
    ensures
        eq_ignore_ascii_case(all.take(n), name) == (n == name.len() && agree(all, name, n)),
{
    let prefix = all.take(n);
    if n == name.len() {
        if eq_ignore_ascii_case(prefix, name) {
            assert forall|i: int| 0 <= i < n implies ascii_lower(#[trigger] all[i]) == ascii_lower(
                name[i],
            ) by {
                assert(prefix[i] == all[i]);
            }
        }
        if agree(all, name, n) {
            assert forall|i: int| 0 <= i < prefix.len() implies ascii_lower(#[trigger] prefix[i])
                == ascii_lower(name[i]) by {
                assert(prefix[i] == all[i]);
            }
        }
    }
}

/// The code of `c`, lower-cased where `c` is an upper-case ASCII letter.
fn lower_code(c: char) -> (code: u32)
    ensures
        code == ascii_lower(c),
{
    if 'A' <= c && c <= 'Z' {
        c as u32 + 32
    } else {
        c as u32
    }
}

/// Whether `a` and `b` are equal up to the case of ASCII letters.
fn same_letter(a: char, b: char) -> (same: bool)
    ensures
        same == (ascii_lower(a) == ascii_lower(b)),
{
    lower_code(a) == lower_code(b)
}

/// Whether `s` contains `c`.
fn contains_char(s: &str, c: char) -> (found: bool)
    ensures
        found == s@.contains(c),
{
    let mut it = s.chars();
    let ghost mut seen: int = 0;
    loop
        invariant
            0 <= seen <= s@.len(),
            it.remaining() == s@.skip(seen),
            forall|i: int| 0 <= i < seen ==> s@[i] != c,
        decreases s@.len() - seen,
    {
        match it.next() {
            None => {
                return false;
            },
            Some(x) => {
                if x == c {
                    return true;
                }
                proof {
                    seen = seen + 1;
                }
            },
        }
    }
}

/// Reads `from` up to and including the first `c` that it yields. Returns
/// whether there was one, and the iterator behind it.
fn skip_past<'a>(from: Chars<'a>, c: char) -> (r: (bool, Chars<'a>))
    requires
        from.decrease() is Some,
    ensures
        r.0 == from.remaining().contains(c),
        r.0 ==> r.1.remaining() == from.remaining().skip(first_index(from.remaining(), c) + 1),
        r.1.decrease() is Some,
{
    let ghost all = from.remaining();
    let ghost mut seen: int = 0;
    let mut it = from;
    loop
        invariant
            all == from.remaining(),
            0 <= seen <= all.len(),
            it.remaining() == all.skip(seen),
            forall|j: int| 0 <= j < seen ==> all[j] != c,
            it.decrease() is Some,
        decreases it.decrease()->0,
    {
        match it.next() {
            None => {
                return (false, it);
            },
            Some(x) => {
                if x == c {
                    proof {
                        lemma_first_index_is(all, c, seen);
                        assert(all.skip(seen).drop_first() == all.skip(seen + 1));
                    }
                    return (true, it);
                }
                proof {
                    seen = seen + 1;
                }
            },
        }
    }
}

/// Whether what `from` yields before its first `@` names UTF-8.
///
/// Reads on only as long as one of the two names may still come out.
fn codeset_names_utf8(from: Chars<'_>) -> (named: bool)
    requires
        from.decrease() is Some,
    ensures
        named == names_utf8(from.remaining().take(first_index(from.remaining(), '@'))),
{
    let with_hyphen = ['U', 'T', 'F', '-', '8'];
    let without_hyphen = ['u', 't', 'f', '8'];
    let ghost all = from.remaining();
    let mut it = from;
    let mut read: usize = 0;
    let mut hyphened = true;
    let mut plain = true;
    loop
        invariant_except_break
            it.remaining() == all.skip(read as int),
            forall|j: int| 0 <= j < read ==> all[j] != '@',
            it.decrease() is Some,
        invariant
            all == from.remaining(),
            with_hyphen@ == name_with_hyphen(),
            without_hyphen@ == name_without_hyphen(),
            read <= 5,
            read <= all.len(),
            hyphened == agree(all, name_with_hyphen(), read as int),
            plain == agree(all, name_without_hyphen(), read as int),
        ensures
            first_index(all, '@') == read,
        decreases it.decrease()->0,
    {
        match it.next() {
            None => {
                proof {
                    lemma_first_index_is(all, '@', read as int);
                }
                break ;
            },
            Some(c) => {
                if c == '@' {
                    proof {
                        lemma_first_index_is(all, '@', read as int);
                    }
                    break ;
                }
                hyphened = hyphened && read < 5 && same_letter(c, with_hyphen[read]);
                plain = plain && read < 4 && same_letter(c, without_hyphen[read]);
                if !hyphened && !plain {
                    proof {
                        let end = first_index(all, '@');
                        lemma_first_index(all, '@');
                        assert(end > read);
                        lemma_prefix_equals_name(all, name_with_hyphen(), end);
                        lemma_prefix_equals_name(all, name_without_hyphen(), end);
                    }
                    return false;
                }
                read = read + 1;
            },
        }
    }
    proof {
        lemma_prefix_equals_name(all, name_with_hyphen(), read as int);
        lemma_prefix_equals_name(all, name_without_hyphen(), read as int);
    }
    (hyphened && read == 5) || (plain && read == 4)
}

/// Whether the value of the locale variable asks for UTF-8. `None` stands
/// for a variable that is unset or cannot be read, which asks for nothing.
///
/// A value that contains `/` is a path and no locale, and a value without
/// `.` names no codeset: both give `false`.
pub fn locale_requests_utf8(lang: Option<&str>) -> (requested: bool)
    ensures
        requested == (lang matches Some(value) && locale_is_utf8(value@)),
        lang matches Some(value) && value@.contains('/') ==> !requested,
        lang matches Some(value) && !value@.contains('.') ==> !requested,
{
    match lang {
        None => false,
        Some(value) => {
            if contains_char(value, '/') {
                return false;
            }
            let (dotted, behind_dot) = skip_past(value.chars(), '.');
            if !dotted {
                return false;
            }
            codeset_names_utf8(behind_dot)
        },
    }
}

} // verus!
