//! Telling a fatal metadata failure (authorization, transport) from one that
//! only leaves a facet partial.

use vstd::prelude::*;
use crate::text::{ascii_lower, ascii_lower_char, ascii_lower_chars, chars_of, occurs_at, seq_contains, vec_contains};

verus! {

/// The markers of an authorization or transport failure, in lower case.
pub open spec fn fatal_markers() -> Seq<Seq<char>> {
    seq![
        "permission denied"@,
        "access denied"@,
        "not authorized"@,
        "unauthorized"@,
        "forbidden"@,
        "authentication"@,
        "connection refused"@,
        "connection reset"@,
        "connection closed"@,
        "timed out"@,
        "timeout"@,
        "transport"@,
        "network error"@,
        "broken pipe"@,
    ]
}

/// An error is fatal when its ASCII lower-cased text contains a marker.
pub open spec fn is_fatal_failure(error: Seq<char>) -> bool {
    exists|i: int| 0 <= i < fatal_markers().len() && seq_contains(ascii_lower(error), #[trigger] fatal_markers()[i])
}

fn fatal_marker(i: usize) -> (r: &'static str)
    requires
        i < 14,
    ensures
        r@ == fatal_markers()[i as int],
{
    match i {
        0 => "permission denied",
        1 => "access denied",
        2 => "not authorized",
        3 => "unauthorized",
        4 => "forbidden",
        5 => "authentication",
        6 => "connection refused",
        7 => "connection reset",
        8 => "connection closed",
        9 => "timed out",
        10 => "timeout",
        11 => "transport",
        12 => "network error",
        _ => "broken pipe",
    }
}

/// Unsupported metadata surfaces may degrade one facet to `partial`, but an
/// authorization or transport failure must remain an error: treating it as
/// an empty schema would conceal an operational fault.
pub fn metadata_failure_is_fatal(error: &str) -> (r: bool)
    ensures
        r == is_fatal_failure(error@),
{
    let lowered = ascii_lower_chars(error);
    let mut i: usize = 0;
    while i < 14
        invariant
            lowered@ == ascii_lower(error@),
            i <= 14,
            fatal_markers().len() == 14,
            forall|j: int| 0 <= j < i ==> !seq_contains(ascii_lower(error@), #[trigger] fatal_markers()[j]),
        decreases 14 - i,
    {
        let marker = chars_of(fatal_marker(i));
        if vec_contains(&lowered, &marker) {
            return true;
        }
        i = i + 1;
    }
    false
}

} // verus!

verus! {

proof fn lemma_lower_char_idempotent(c: char)
    ensures
        ascii_lower_char(ascii_lower_char(c)) == ascii_lower_char(c),
{
    if 'A' <= c && c <= 'Z' {
        let l = ((c as u32) + 32) as char;
        assert(l as u32 == (c as u32) + 32);
        assert(!('A' <= l && l <= 'Z'));
    }
}

/// Law: whether a failure is fatal does not depend on ASCII letter case.
pub proof fn lemma_fatal_ignores_ascii_case(error: Seq<char>)
    ensures
        is_fatal_failure(error) == is_fatal_failure(ascii_lower(error)),
{
    assert forall|i: int| 0 <= i < error.len() implies
        #[trigger] ascii_lower(ascii_lower(error))[i] == ascii_lower(error)[i] by {
        lemma_lower_char_idempotent(error[i]);
    }
    assert(ascii_lower(ascii_lower(error)) =~= ascii_lower(error));
}

/// Law: a fatal failure stays fatal when more text surrounds it, so an
/// authorization or transport error wrapped in context is never downgraded.
pub proof fn lemma_fatal_in_context(before: Seq<char>, error: Seq<char>, after: Seq<char>)
    requires
        is_fatal_failure(error),
    ensures
        is_fatal_failure(before + error + after),
{
    let whole = before + error + after;
    assert(ascii_lower(whole) =~= ascii_lower(before) + ascii_lower(error) + ascii_lower(after));
    let i = choose|i: int| 0 <= i < fatal_markers().len() && seq_contains(ascii_lower(error), #[trigger] fatal_markers()[i]);
    let m = fatal_markers()[i];
    let k = choose|k: int| occurs_at(ascii_lower(error), m, k);
    let shift = before.len() + k;
    assert(ascii_lower(whole).subrange(shift, shift + m.len()) =~= ascii_lower(error).subrange(k, k + m.len()));
    assert(occurs_at(ascii_lower(whole), m, shift));
    assert(seq_contains(ascii_lower(whole), fatal_markers()[i]));
}

} // verus!

verus! {

proof fn lemma_listed_marker_fatal(m: Seq<char>, i: int, before: Seq<char>, after: Seq<char>)
    requires
        0 <= i < fatal_markers().len(),
        fatal_markers()[i] == m,
        ascii_lower(m) =~= m,
    ensures
        is_fatal_failure(before + m + after),
{
    assert(m.subrange(0, m.len() as int) =~= m);
    assert(occurs_at(ascii_lower(m), fatal_markers()[i], 0));
    lemma_fatal_in_context(before, m, after);
}

/// Law: every authorization and transport marker is fatal on its own, in
/// whatever text surrounds it: a failure mentioning a denied permission or
/// access, missing authorization, a forbidden request, failed
/// authentication, a refused, reset or closed connection, a timeout, a
/// transport or network error or a broken pipe stays an error.
pub proof fn lemma_authorization_and_transport_failures_fatal(before: Seq<char>, after: Seq<char>)
    ensures
        is_fatal_failure(before + "permission denied"@ + after),
        is_fatal_failure(before + "access denied"@ + after),
        is_fatal_failure(before + "not authorized"@ + after),
        is_fatal_failure(before + "unauthorized"@ + after),
        is_fatal_failure(before + "forbidden"@ + after),
        is_fatal_failure(before + "authentication"@ + after),
        is_fatal_failure(before + "connection refused"@ + after),
        is_fatal_failure(before + "connection reset"@ + after),
        is_fatal_failure(before + "connection closed"@ + after),
        is_fatal_failure(before + "timed out"@ + after),
        is_fatal_failure(before + "timeout"@ + after),
        is_fatal_failure(before + "transport"@ + after),
        is_fatal_failure(before + "network error"@ + after),
        is_fatal_failure(before + "broken pipe"@ + after),
{
    reveal_strlit("permission denied");
    lemma_listed_marker_fatal("permission denied"@, 0, before, after);
    reveal_strlit("access denied");
    lemma_listed_marker_fatal("access denied"@, 1, before, after);
    reveal_strlit("not authorized");
    lemma_listed_marker_fatal("not authorized"@, 2, before, after);
    reveal_strlit("unauthorized");
    lemma_listed_marker_fatal("unauthorized"@, 3, before, after);
    reveal_strlit("forbidden");
    lemma_listed_marker_fatal("forbidden"@, 4, before, after);
    reveal_strlit("authentication");
    lemma_listed_marker_fatal("authentication"@, 5, before, after);
    reveal_strlit("connection refused");
    lemma_listed_marker_fatal("connection refused"@, 6, before, after);
    reveal_strlit("connection reset");
    lemma_listed_marker_fatal("connection reset"@, 7, before, after);
    reveal_strlit("connection closed");
    lemma_listed_marker_fatal("connection closed"@, 8, before, after);
    reveal_strlit("timed out");
    lemma_listed_marker_fatal("timed out"@, 9, before, after);
    reveal_strlit("timeout");
    lemma_listed_marker_fatal("timeout"@, 10, before, after);
    reveal_strlit("transport");
    lemma_listed_marker_fatal("transport"@, 11, before, after);
    reveal_strlit("network error");
    lemma_listed_marker_fatal("network error"@, 12, before, after);
    reveal_strlit("broken pipe");
    lemma_listed_marker_fatal("broken pipe"@, 13, before, after);
}

} // verus!
