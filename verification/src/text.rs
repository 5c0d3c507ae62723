//! Character-level helpers over `&str`, stated over `Seq<char>` views.

use vstd::prelude::*;

verus! {

/// Position of the first `'='` at or after `from`, or the length when none follows.
pub open spec fn separator_from(s: Seq<char>, from: int) -> int
    decreases s.len() - from,
{
    if from < 0 || from >= s.len() {
        s.len() as int
    } else if s[from] == '=' {
        from
    } else {
        separator_from(s, from + 1)
    }
}

/// The name part of a `name=value` option: everything before the first `'='`.
pub open spec fn option_key(s: Seq<char>) -> Seq<char> {
    s.subrange(0, separator_from(s, 0))
}

/// `s` begins with `prefix`.
pub open spec fn has_prefix(s: Seq<char>, prefix: Seq<char>) -> bool {
    prefix.len() <= s.len() && s.subrange(0, prefix.len() as int) == prefix
}

/// `s` is an option whose text begins with `name` followed by `'='`.
pub open spec fn names_option(s: Seq<char>, name: Seq<char>) -> bool {
    has_prefix(s, name.push('='))
}

/// Whether two strings hold the same characters.
pub fn str_equal(a: &str, b: &str) -> (same: bool)
    ensures
        same == (a@ == b@),
{
    let n: usize = a.unicode_len();
    if n != b.unicode_len() {
        return false;
    }
    let mut i: usize = 0;
    while i < n
        invariant
            n == a@.len(),
            n == b@.len(),
            i <= n,
            forall|j: int| 0 <= j < i ==> a@[j] == b@[j],
        decreases n - i,
    {
        if a.get_char(i) != b.get_char(i) {
            return false;
        }
        i += 1;
    }
    assert(a@ =~= b@);
    true
}

/// Whether `s` begins with `prefix`.
pub fn starts_with(s: &str, prefix: &str) -> (found: bool)
    ensures
        found == has_prefix(s@, prefix@),
{
    let n: usize = prefix.unicode_len();
    if n > s.unicode_len() {
        return false;
    }
    let mut i: usize = 0;
    while i < n
        invariant
            n == prefix@.len(),
            n <= s@.len(),
            i <= n,
            forall|j: int| 0 <= j < i ==> s@[j] == prefix@[j],
        decreases n - i,
    {
        if s.get_char(i) != prefix.get_char(i) {
            return false;
        }
        i += 1;
    }
    assert(s@.subrange(0, n as int) =~= prefix@);
    true
}

/// Whether `s` reads `name`, then `'='`, then anything.
pub fn option_is_named(s: &str, name: &str) -> (found: bool)
    ensures
        found == names_option(s@, name@),
{
    let n: usize = name.unicode_len();
    let total: usize = s.unicode_len();
    let ghost key = name@.push('=');
    if n >= total {
        return false;
    }
    if !starts_with(s, name) {
        proof {
            if has_prefix(s@, key) {
                assert(s@.subrange(0, n as int) =~= key.subrange(0, n as int));
                assert(key.subrange(0, n as int) =~= name@);
            }
        }
        return false;
    }
    let sep: char = s.get_char(n);
    proof {
        if sep == '=' {
            assert(s@.subrange(0, n + 1) =~= s@.subrange(0, n as int).push('='));
        } else {
            if has_prefix(s@, key) {
                assert(s@.subrange(0, n + 1)[n as int] == key[n as int]);
            }
        }
    }
    sep == '='
}

/// The name part of a `name=value` option, as an owned string.
pub fn option_name(s: &str) -> (name: String)
    ensures
        name@ == option_key(s@),
{
    let n: usize = s.unicode_len();
    let mut i: usize = 0;
    while i < n && s.get_char(i) != '='
        invariant
            n == s@.len(),
            i <= n,
            separator_from(s@, 0) == separator_from(s@, i as int),
        decreases n - i,
    {
        i += 1;
    }
    let head: &str = s.substring_char(0, i);
    head.to_owned()
}

} // verus!
