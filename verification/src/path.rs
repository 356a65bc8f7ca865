//! Resolving an input of the form `[scheme:]path` to the path it names.

use vstd::prelude::*;
use vstd::string::*;
use crate::error::FromFileError;

verus! {

/// How many `:` a sequence of characters holds.
pub open spec fn delimiter_count(s: Seq<char>) -> nat
    decreases s.len(),
{
    if s.len() == 0 {
        0
    } else {
        delimiter_count(s.drop_last()) + if s.last() == ':' {
            1nat
        } else {
            0nat
        }
    }
}

/// The path that an input names: the whole input where it holds no `:`, what
/// follows the `:` where it holds exactly one, and nothing where it holds more.
pub open spec fn resolved_path(input: Seq<char>) -> Option<Seq<char>> {
    if delimiter_count(input) == 0 {
        Some(input)
    } else if delimiter_count(input) == 1 {
        Some(input.skip(input.index_of(':') + 1))
    } else {
        None
    }
}

/// A sequence that holds a `:` somewhere counts at least one.
pub proof fn lemma_delimiter_counted(s: Seq<char>, i: int)
    requires
        0 <= i < s.len(),
        s[i] == ':',
    ensures
        delimiter_count(s) >= 1,
    decreases s.len(),
{
    if i < s.len() - 1 {
        lemma_delimiter_counted(s.drop_last(), i);
    }
}

/// A sequence that holds a `:` at two places counts at least two.
pub proof fn lemma_two_delimiters_counted(s: Seq<char>, i: int, j: int)
    requires
        0 <= i < j < s.len(),
        s[i] == ':',
        s[j] == ':',
    ensures
        delimiter_count(s) >= 2,
    decreases s.len(),
{
    if j < s.len() - 1 {
        lemma_two_delimiters_counted(s.drop_last(), i, j);
    } else {
        lemma_delimiter_counted(s.drop_last(), i);
    }
}

/// A sequence without any `:` counts none.
pub proof fn lemma_no_delimiter_counted(s: Seq<char>)
    requires
        forall|i: int| 0 <= i < s.len() ==> s[i] != ':',
    ensures
        delimiter_count(s) == 0,
    decreases s.len(),
{
    if s.len() > 0 {
        lemma_no_delimiter_counted(s.drop_last());
    }
}

/// The count of a concatenation is the sum of the counts of its parts.
pub proof fn lemma_delimiter_count_concat(a: Seq<char>, b: Seq<char>)
    ensures
        delimiter_count(a + b) == delimiter_count(a) + delimiter_count(b),
    decreases b.len(),
{
    if b.len() == 0 {
        assert(a + b =~= a);
    } else {
        assert((a + b).drop_last() =~= a + b.drop_last());
        lemma_delimiter_count_concat(a, b.drop_last());
    }
}

/// An input without any `:` names itself as the path.
pub proof fn lemma_path_without_scheme(input: Seq<char>)
    requires
        forall|i: int| 0 <= i < input.len() ==> input[i] != ':',
    ensures
        resolved_path(input) == Some(input),
{
    lemma_no_delimiter_counted(input);
}

/// An input made of a scheme, one `:` and a path, where neither the scheme
/// nor the path holds a `:`, names that path; the scheme plays no part.
pub proof fn lemma_path_after_scheme(scheme: Seq<char>, path: Seq<char>)
    requires
        forall|i: int| 0 <= i < scheme.len() ==> scheme[i] != ':',
        forall|i: int| 0 <= i < path.len() ==> path[i] != ':',
    ensures
        resolved_path(scheme + seq![':'] + path) == Some(path),
{
    let input = scheme + seq![':'] + path;
    lemma_no_delimiter_counted(scheme);
    lemma_no_delimiter_counted(path);
    lemma_delimiter_count_concat(scheme, seq![':']);
    lemma_delimiter_count_concat(scheme + seq![':'], path);
    let mark = seq![':'];
    assert(mark.len() == 1 && mark.last() == ':');
    assert(delimiter_count(mark.drop_last()) == 0);
    assert(delimiter_count(mark) == 1);
    let at = scheme.len() as int;
    assert(input[at] == ':');
    let k = input.index_of(':');
    assert(0 <= k < input.len() && input[k] == ':');
    if k < at {
        lemma_two_delimiters_counted(input, k, at);
    } else if at < k {
        lemma_two_delimiters_counted(input, at, k);
    }
    assert(input.skip(at + 1) =~= path);
}

/// An input that holds a `:` at two places or more names no path.
pub proof fn lemma_two_delimiters_refused(input: Seq<char>, i: int, j: int)
    requires
        0 <= i < j < input.len(),
        input[i] == ':',
        input[j] == ':',
    ensures
        resolved_path(input) is None,
{
    lemma_two_delimiters_counted(input, i, j);
}

/// Extracts the path from an input such as `conf/app.yaml` or
/// `file:conf/app.yaml`. Whatever stands before a single `:` is dropped
/// unread; an input with two or more `:` is refused.
pub fn resolve_path(input: &str) -> (r: Result<String, FromFileError>)
    ensures
        match r {
            Ok(path) => resolved_path(input@) == Some(path@),
            Err(e) => e is InvalidInput && resolved_path(input@) is None,
        },
{
    let n: usize = input.unicode_len();
    let mut count: usize = 0;
    let mut first: usize = 0;
    let mut i: usize = 0;
    while i < n
        invariant
            n == input@.len(),
            i <= n,
            count <= i,
            count == delimiter_count(input@.take(i as int)),
            count >= 1 ==> first < i && input@[first as int] == ':',
        decreases n - i,
    {
        let c = input.get_char(i);
        proof {
            assert(input@.take(i + 1).drop_last() =~= input@.take(i as int));
        }
        if c == ':' {
            if count == 0 {
                first = i;
            }
            count = count + 1;
        }
        i = i + 1;
    }
    proof {
        assert(input@.take(n as int) =~= input@);
    }
    if count == 0 {
        Ok(input.to_owned())
    } else if count == 1 {
        proof {
            let k = input@.index_of(':');
            assert(0 <= k < input@.len() && input@[k] == ':');
            if k < first {
                lemma_two_delimiters_counted(input@, k, first as int);
            } else if first < k {
                lemma_two_delimiters_counted(input@, first as int, k);
            }
        }
        Ok(input.substring_char(first + 1, n).to_owned())
    } else {
        Err(FromFileError::InvalidInput)
    }
}

} // verus!
