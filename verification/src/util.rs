use vstd::prelude::*;
use vstd::std_specs::iter::IteratorSpec;
use vstd::string::StrSliceExecFns;

verus! {

/// What `char::is_whitespace` answers for a character: whether Unicode
/// counts it as `White_Space`.
pub uninterp spec fn is_whitespace(c: char) -> bool;

/// A text without the whitespace at its start and at its end.
pub open spec fn trimmed(s: Seq<char>) -> Seq<char>
    decreases s.len(),
{
    if s.len() > 0 && is_whitespace(s.first()) {
        trimmed(s.drop_first())
    } else if s.len() > 0 && is_whitespace(s.last()) {
        trimmed(s.drop_last())
    } else {
        s
    }
}

/// Where the first `;` of a text stands: how many characters come before it.
/// For a text without one, its length.
pub open spec fn statement_len(s: Seq<char>) -> int
    decreases s.len(),
{
    if s.len() == 0 || s.first() == ';' {
        0
    } else {
        1 + statement_len(s.drop_first())
    }
}

/// The queries in a text that separates them by `;`: each part between two
/// separators, trimmed, in order, without the parts that hold nothing but
/// whitespace.
pub open spec fn queries_of(s: Seq<char>) -> Seq<Seq<char>>
    decreases s.len(),
{
    let len = statement_len(s);
    let query = trimmed(s.subrange(0, len));
    let first = if query.len() > 0 {
        seq![query]
    } else {
        seq![]
    };
    if 0 <= len < s.len() {
        first + queries_of(s.subrange(len + 1, s.len() as int))
    } else {
        first
    }
}

/// The texts that a list of string slices holds.
pub open spec fn texts(slices: Seq<&str>) -> Seq<Seq<char>> {
    Seq::new(slices.len(), |i: int| slices[i]@)
}

/// Calls `str::split_once` with a character as the delimiter: the text before
/// the first delimiter and the text after it, or nothing for a text without
/// the delimiter.
#[verifier::external_body]
fn split_once<'a>(s: &'a str, delimiter: char) -> (r: Option<(&'a str, &'a str)>)
    ensures
        match r {
            Some((before, after)) => s@ == before@ + seq![delimiter] + after@
                && !before@.contains(delimiter),
            None => !s@.contains(delimiter),
        },
{
    s.split_once(delimiter)
}

/// Calls `char::is_whitespace`.
#[verifier::external_body]
fn char_is_whitespace(c: char) -> (r: bool)
    ensures
        r == is_whitespace(c),
{
    c.is_whitespace()
}

/// What is left of a text that starts with `from` characters of whitespace
/// and whose last character that is none stands before `to`.
proof fn lemma_trimmed(s: Seq<char>, from: int, to: int)
    requires
        0 <= from < to <= s.len(),
        forall|k: int| 0 <= k < from ==> is_whitespace(#[trigger] s[k]),
        forall|k: int| to <= k < s.len() ==> is_whitespace(#[trigger] s[k]),
        !is_whitespace(s[from]),
        !is_whitespace(s[to - 1]),
    ensures
        trimmed(s) == s.subrange(from, to),
    decreases s.len(),
{
    if from > 0 {
        let rest = s.drop_first();
        assert(is_whitespace(s[0]));
        assert(forall|k: int| 0 <= k < from - 1 ==> rest[k] == s[k + 1]);
        assert(forall|k: int| to - 1 <= k < rest.len() ==> rest[k] == s[k + 1]);
        lemma_trimmed(rest, from - 1, to - 1);
        assert(rest.subrange(from - 1, to - 1) =~= s.subrange(from, to));
    } else if to < s.len() {
        let rest = s.drop_last();
        assert(!is_whitespace(s.first()));
        assert(is_whitespace(s[s.len() - 1]));
        assert(forall|k: int| to <= k < rest.len() ==> rest[k] == s[k]);
        lemma_trimmed(rest, from, to);
        assert(rest.subrange(from, to) =~= s.subrange(from, to));
    } else {
        assert(s.subrange(from, to) =~= s);
    }
}

/// Nothing is left of a text that holds only whitespace.
proof fn lemma_trimmed_blank(s: Seq<char>)
    requires
        forall|k: int| 0 <= k < s.len() ==> is_whitespace(#[trigger] s[k]),
    ensures
        trimmed(s) == Seq::<char>::empty(),
    decreases s.len(),
{
    if s.len() > 0 {
        assert(is_whitespace(s[0]));
        assert(forall|k: int| 0 <= k < s.len() - 1 ==> s.drop_first()[k] == s[k + 1]);
        lemma_trimmed_blank(s.drop_first());
    } else {
        assert(s =~= Seq::<char>::empty());
    }
}

/// The slice without the whitespace at its start and at its end.
fn trim<'a>(s: &'a str) -> (r: &'a str)
    ensures
        r@ == trimmed(s@),
{
    broadcast use vstd::string::group_string_axioms;

    let len: usize = s.unicode_len();
    let mut chars = s.chars();
    let mut at: usize = 0;
    // Characters before `from` are whitespace; it is `at` until another is seen.
    let mut from: usize = 0;
    // The last character seen that is no whitespace stands just before `to`.
    let mut to: usize = 0;
    loop
        invariant_except_break
            chars.remaining() == s@.subrange(at as int, len as int),
        invariant
            len == s@.len(),
            at <= len,
            from <= at,
            to <= at,
            to == 0 ==> from == at,
            to > 0 ==> from < to && !is_whitespace(s@[from as int]) && !is_whitespace(
                s@[to - 1],
            ),
            forall|k: int| 0 <= k < from ==> is_whitespace(#[trigger] s@[k]),
            forall|k: int| to <= k < at && from <= k ==> is_whitespace(#[trigger] s@[k]),
        ensures
            at == len,
        decreases len - at,
    {
        match chars.next() {
            Some(c) => {
                assert(c == s@[at as int]);
                assert(s@.subrange(at as int, len as int).drop_first() =~= s@.subrange(
                    at + 1,
                    len as int,
                ));
                if char_is_whitespace(c) {
                    if to == 0 {
                        from = at + 1;
                    }
                } else {
                    to = at + 1;
                }
                at = at + 1;
            },
            None => {
                break ;
            },
        }
    }
    proof {
        if to == 0 {
            lemma_trimmed_blank(s@);
            assert(s@.subrange(0, 0) =~= Seq::<char>::empty());
        } else {
            lemma_trimmed(s@, from as int, to as int);
        }
    }
    if to == 0 {
        s.substring_char(0, 0)
    } else {
        s.substring_char(from, to)
    }
}

/// The first `;` of a text ends its first statement.
proof fn lemma_statement_len(before: Seq<char>, after: Seq<char>)
    requires
        !before.contains(';'),
    ensures
        statement_len(before + seq![';'] + after) == before.len(),
        statement_len(before) == before.len(),
    decreases before.len(),
{
    let s = before + seq![';'] + after;
    if before.len() == 0 {
        assert(s.first() == ';');
    } else {
        assert(before.contains(before.first()));
        assert(s.first() == before.first());
        assert(s.drop_first() =~= before.drop_first() + seq![';'] + after);
        assert forall|c: char| before.drop_first().contains(c) implies before.contains(c) by {
            let i = choose|i: int| 0 <= i < before.drop_first().len() && before.drop_first()[i] == c;
            assert(before[i + 1] == c);
        }
        lemma_statement_len(before.drop_first(), after);
    }
}

/// Split a string containing many SQL queries separated by `;` into the
/// individual queries.
pub fn split_queries<'a>(s: &'a str) -> (queries: Vec<&'a str>)
    ensures
        texts(queries@) == queries_of(s@),
{
    let mut queries: Vec<&'a str> = Vec::new();
    let mut rest: &'a str = s;
    loop
        invariant_except_break
            texts(queries@) + queries_of(rest@) == queries_of(s@),
        ensures
            texts(queries@) == queries_of(s@),
        decreases rest@.len(),
    {
        let ghost done = texts(queries@);
        match split_once(rest, ';') {
            Some((before, after)) => {
                proof {
                    lemma_statement_len(before@, after@);
                    assert(rest@.subrange(0, before@.len() as int) =~= before@);
                    assert(rest@.subrange(before@.len() as int + 1, rest@.len() as int) =~= after@);
                }
                let query: &'a str = trim(before);
                if !query.is_empty() {
                    queries.push(query);
                    assert(texts(queries@) =~= done + seq![query@]);
                }
                assert(texts(queries@) + queries_of(after@) =~= done + queries_of(rest@));
                rest = after;
            },
            None => {
                proof {
                    lemma_statement_len(rest@, Seq::empty());
                    assert(rest@.subrange(0, rest@.len() as int) =~= rest@);
                }
                let query: &'a str = trim(rest);
                if !query.is_empty() {
                    queries.push(query);
                    assert(texts(queries@) =~= done + seq![query@]);
                }
                assert(texts(queries@) =~= done + queries_of(rest@));
                break ;
            },
        }
    }
    queries
}

} // verus!
