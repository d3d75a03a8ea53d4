//! Credential extraction: pulling a named token out of a raw cookie string.
//!
//! A cookie string is a list of `key=value` pairs separated by `;`, each pair
//! optionally preceded by spaces. A token is recognised only where its name is
//! a whole key, so a name that merely ends another key is never picked up.

use crate::text::characters;
use vstd::prelude::*;
use vstd::string::*;

verus! {

/// Position `i` is where a key may begin: the start of the string, just after
/// a `;`, or after any run of spaces that follows one of those.
pub open spec fn key_start(cookie: Seq<char>, i: int) -> bool
    decreases i,
{
    if i <= 0 {
        i == 0
    } else if i > cookie.len() {
        false
    } else {
        cookie[i - 1] == ';' || (cookie[i - 1] == ' ' && key_start(cookie, i - 1))
    }
}

/// The pair that begins at `i` has exactly `name` as its key.
pub open spec fn token_at(cookie: Seq<char>, name: Seq<char>, i: int) -> bool {
    &&& key_start(cookie, i)
    &&& i + name.len() < cookie.len()
    &&& cookie.subrange(i, i + name.len()) == name
    &&& cookie[i + name.len()] == '='
}

/// The first position at or after `from` where `name` is a key, if any.
pub open spec fn first_token(cookie: Seq<char>, name: Seq<char>, from: int) -> Option<int>
    decreases cookie.len() - from,
{
    if from < 0 || from >= cookie.len() {
        None
    } else if token_at(cookie, name, from) {
        Some(from)
    } else {
        first_token(cookie, name, from + 1)
    }
}

/// Where the value that begins at `from` stops: at the next `;`, or at the end
/// of the string when there is none.
pub open spec fn value_end(cookie: Seq<char>, from: int) -> int
    decreases cookie.len() - from,
{
    if from < 0 || from >= cookie.len() {
        cookie.len() as int
    } else if cookie[from] == ';' {
        from
    } else {
        value_end(cookie, from + 1)
    }
}

/// The value of the first pair whose key is `name`, or `None` when no pair has
/// that key.
pub open spec fn token_value(cookie: Seq<char>, name: Seq<char>) -> Option<Seq<char>> {
    match first_token(cookie, name, 0) {
        None => None,
        Some(i) => {
            let start = i + name.len() + 1;
            Some(cookie.subrange(start, value_end(cookie, start)))
        },
    }
}

/// A key of `name` at `i` with none between `from` and `i` is the first one
/// from `from` on.
pub proof fn lemma_first_token_found(cookie: Seq<char>, name: Seq<char>, from: int, i: int)
    requires
        0 <= from <= i,
        token_at(cookie, name, i),
        forall|j: int| from <= j < i ==> !token_at(cookie, name, j),
    ensures
        first_token(cookie, name, from) == Some(i),
    decreases i - from,
{
    if from < i {
        lemma_first_token_found(cookie, name, from + 1, i);
    }
}

/// Where `first_token` finds nothing, no position from `from` on is a key of
/// `name`; where it finds one, that is a key of `name` and the earliest.
pub proof fn lemma_first_token_meaning(cookie: Seq<char>, name: Seq<char>, from: int)
    requires
        0 <= from,
    ensures
        match first_token(cookie, name, from) {
            None => forall|j: int| from <= j ==> !token_at(cookie, name, j),
            Some(i) => from <= i && token_at(cookie, name, i) && forall|j: int|
                from <= j < i ==> !token_at(cookie, name, j),
        },
    decreases cookie.len() - from,
{
    if from < cookie.len() {
        if !token_at(cookie, name, from) {
            lemma_first_token_meaning(cookie, name, from + 1);
        }
    }
}

/// A stretch without `;` that ends at a `;` or at the end of the string is a
/// whole value.
pub proof fn lemma_value_end_found(cookie: Seq<char>, from: int, end: int)
    requires
        0 <= from <= end <= cookie.len(),
        forall|k: int| from <= k < end ==> cookie[k] != ';',
        end == cookie.len() || cookie[end] == ';',
    ensures
        value_end(cookie, from) == end,
    decreases end - from,
{
    if from < end {
        lemma_value_end_found(cookie, from + 1, end);
    }
}

/// The text holds no `;`.
pub open spec fn unbroken(value: Seq<char>) -> bool {
    forall|k: int| 0 <= k < value.len() ==> value[k] != ';'
}

/// A cookie in which the pair `name=value;` stands at a key position, with no
/// earlier pair of that name, yields exactly `value`, whatever follows.
pub proof fn law_terminated_value(
    before: Seq<char>,
    name: Seq<char>,
    value: Seq<char>,
    rest: Seq<char>,
)
    requires
        unbroken(value),
        key_start(before + name + seq!['='] + value + seq![';'] + rest, before.len() as int),
        forall|j: int|
            0 <= j < before.len() ==> !token_at(
                before + name + seq!['='] + value + seq![';'] + rest,
                name,
                j,
            ),
    ensures
        token_value(before + name + seq!['='] + value + seq![';'] + rest, name) == Some(value),
{
    let cookie = before + name + seq!['='] + value + seq![';'] + rest;
    let i = before.len() as int;
    let start = i + name.len() + 1;
    let end = start + value.len();
    assert(cookie.subrange(i, i + name.len()) =~= name);
    assert(cookie[i + name.len()] == '=');
    assert(token_at(cookie, name, i));
    lemma_first_token_found(cookie, name, 0, i);
    assert forall|k: int| start <= k < end implies cookie[k] != ';' by {
        assert(cookie[k] == value[k - start]);
    }
    assert(cookie[end] == ';');
    lemma_value_end_found(cookie, start, end);
    assert(cookie.subrange(start, end) =~= value);
}

/// A cookie that ends in the pair `name=value`, at a key position and with no
/// earlier pair of that name, yields `value`: all that is left of the string.
pub proof fn law_final_value(before: Seq<char>, name: Seq<char>, value: Seq<char>)
    requires
        unbroken(value),
        key_start(before + name + seq!['='] + value, before.len() as int),
        forall|j: int|
            0 <= j < before.len() ==> !token_at(before + name + seq!['='] + value, name, j),
    ensures
        token_value(before + name + seq!['='] + value, name) == Some(value),
{
    let cookie = before + name + seq!['='] + value;
    let i = before.len() as int;
    let start = i + name.len() + 1;
    let end = start + value.len();
    assert(cookie.subrange(i, i + name.len()) =~= name);
    assert(cookie[i + name.len()] == '=');
    assert(token_at(cookie, name, i));
    lemma_first_token_found(cookie, name, 0, i);
    assert forall|k: int| start <= k < end implies cookie[k] != ';' by {
        assert(cookie[k] == value[k - start]);
    }
    lemma_value_end_found(cookie, start, end);
    assert(cookie.subrange(start, end) =~= value);
}

/// A cookie yields no value for `name` exactly when no pair in it has `name`
/// as its key.
pub proof fn law_absent_token(cookie: Seq<char>, name: Seq<char>)
    ensures
        token_value(cookie, name) is None <==> forall|j: int| 0 <= j ==> !token_at(cookie, name, j),
{
    lemma_first_token_meaning(cookie, name, 0);
}

/// A value that is found holds no `;`, and is a stretch of the cookie.
pub proof fn law_value_is_unbroken(cookie: Seq<char>, name: Seq<char>)
    ensures
        token_value(cookie, name) matches Some(value) ==> unbroken(value),
{
    lemma_first_token_meaning(cookie, name, 0);
    if let Some(i) = first_token(cookie, name, 0) {
        let start = i + name.len() + 1;
        lemma_value_end_meaning(cookie, start);
        let value = cookie.subrange(start, value_end(cookie, start));
        assert forall|k: int| 0 <= k < value.len() implies value[k] != ';' by {
            assert(value[k] == cookie[start + k]);
        }
    }
}

/// `value_end` stops at the first `;` at or after `from`, or at the end.
pub proof fn lemma_value_end_meaning(cookie: Seq<char>, from: int)
    requires
        0 <= from <= cookie.len(),
    ensures
        from <= value_end(cookie, from) <= cookie.len(),
        forall|k: int| from <= k < value_end(cookie, from) ==> cookie[k] != ';',
        value_end(cookie, from) == cookie.len() || cookie[value_end(cookie, from)] == ';',
    decreases cookie.len() - from,
{
    if from < cookie.len() && cookie[from] != ';' {
        lemma_value_end_meaning(cookie, from + 1);
    }
}

/// Whether `name` followed by `=` stands in `cookie` at character `i`.
fn name_stands_at(cookie: &Vec<char>, name: &Vec<char>, i: usize) -> (r: bool)
    requires
        i < cookie@.len(),
    ensures
        r == (i + name@.len() < cookie@.len() && cookie@.subrange(i as int, i + name@.len())
            == name@ && cookie@[i + name@.len()] == '='),
{
    let n: usize = cookie.len();
    let m: usize = name.len();
    if m >= n - i {
        return false;
    }
    let mut k: usize = 0;
    while k < m
        invariant
            k <= m,
            i + m < n,
            n == cookie@.len(),
            m == name@.len(),
            forall|j: int| 0 <= j < k ==> cookie@[i + j] == name@[j],
        decreases m - k,
    {
        if cookie[i + k] != name[k] {
            proof {
                assert(cookie@.subrange(i as int, i + m)[k as int] == cookie@[i + k]);
            }
            return false;
        }
        k += 1;
    }
    proof {
        assert(cookie@.subrange(i as int, i + m) =~= name@);
    }
    cookie[i + m] == '='
}

/// Walks from `start` to the next `;` or to the end of the string.
fn scan_value_end(cookie: &Vec<char>, start: usize) -> (e: usize)
    requires
        start <= cookie@.len(),
    ensures
        e == value_end(cookie@, start as int),
        start <= e <= cookie@.len(),
{
    let mut e: usize = start;
    while e < cookie.len()
        invariant
            start <= e <= cookie@.len(),
            value_end(cookie@, start as int) == value_end(cookie@, e as int),
        decreases cookie@.len() - e,
    {
        if cookie[e] == ';' {
            return e;
        }
        e += 1;
    }
    e
}

/// Looks `name` up among the keys of `cookie` and returns the value of the
/// first pair that carries it. A missing token is an ordinary outcome, not an
/// error: the caller decides whether it can go on without it.
pub fn extract_token(cookie: &str, name: &str) -> (r: Option<String>)
    ensures
        match r {
            Some(v) => token_value(cookie@, name@) == Some(v@),
            None => token_value(cookie@, name@) is None,
        },
{
    let chars = characters(cookie);
    let wanted = characters(name);
    let mut i: usize = 0;
    let mut at_start: bool = true;
    while i < chars.len()
        invariant
            i <= chars@.len(),
            chars@ == cookie@,
            wanted@ == name@,
            at_start == key_start(cookie@, i as int),
            first_token(cookie@, name@, 0) == first_token(cookie@, name@, i as int),
        decreases chars@.len() - i,
    {
        if at_start && name_stands_at(&chars, &wanted, i) {
            let start: usize = i + wanted.len() + 1;
            let end: usize = scan_value_end(&chars, start);
            return Some(String::from_str(cookie.substring_char(start, end)));
        }
        let c = chars[i];
        at_start = c == ';' || (c == ' ' && at_start);
        i += 1;
    }
    None
}

} // verus!
