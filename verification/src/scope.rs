//! Scopes of a Schema Viewer (catalog, database, schema, object) and the
//! search and paging of a scope listing.

use vstd::prelude::*;
use crate::text::{chars_of, seq_contains, vec_contains};

verus! {

/// A position in a connection's metadata hierarchy; absent levels are `None`.
#[derive(Debug, Clone, PartialEq, Eq)]
pub struct SchemaViewScope {
    pub catalog: Option<String>,
    pub database: Option<String>,
    pub schema: Option<String>,
    pub object: Option<String>,
    pub object_kind: Option<String>,
}

/// One page of a scope listing, and the offset of the next page if any.
#[derive(Debug, Clone)]
pub struct SchemaScopePage {
    pub items: Vec<SchemaViewScope>,
    pub next_offset: Option<usize>,
}

impl Default for SchemaViewScope {
    fn default() -> (r: Self)
        ensures
            r.catalog is None,
            r.database is None,
            r.schema is None,
            r.object is None,
            r.object_kind is None,
    {
        SchemaViewScope { catalog: None, database: None, schema: None, object: None, object_kind: None }
    }
}

/// A copy of an optional string.
pub fn copy_opt(o: &Option<String>) -> (r: Option<String>)
    ensures
        r == *o,
{
    match o {
        Some(s) => Some(s.clone()),
        None => None,
    }
}

impl SchemaViewScope {
    /// A field-for-field copy of this scope.
    pub fn copy(&self) -> (r: SchemaViewScope)
        ensures
            r == *self,
    {
        SchemaViewScope {
            catalog: copy_opt(&self.catalog),
            database: copy_opt(&self.database),
            schema: copy_opt(&self.schema),
            object: copy_opt(&self.object),
            object_kind: copy_opt(&self.object_kind),
        }
    }
}

/// Whether `c` is Unicode white space (the `White_Space` property).
pub open spec fn is_white_space(c: char) -> bool {
    let u = c as u32;
    ||| 0x09 <= u <= 0x0d
    ||| u == 0x20
    ||| u == 0x85
    ||| u == 0xa0
    ||| u == 0x1680
    ||| 0x2000 <= u <= 0x200a
    ||| u == 0x2028
    ||| u == 0x2029
    ||| u == 0x202f
    ||| u == 0x205f
    ||| u == 0x3000
}

/// The number of white-space characters that start `s`.
pub open spec fn leading_space(s: Seq<char>) -> nat
    decreases s.len(),
{
    if s.len() > 0 && is_white_space(s[0]) {
        1 + leading_space(s.drop_first())
    } else {
        0
    }
}

/// The number of white-space characters that end `s`.
pub open spec fn trailing_space(s: Seq<char>) -> nat
    decreases s.len(),
{
    if s.len() > 0 && is_white_space(s.last()) {
        1 + trailing_space(s.drop_last())
    } else {
        0
    }
}

/// `s` without leading and trailing white space.
pub open spec fn trimmed(s: Seq<char>) -> Seq<char> {
    if leading_space(s) == s.len() {
        Seq::empty()
    } else {
        s.subrange(leading_space(s) as int, s.len() - trailing_space(s))
    }
}

proof fn lemma_leading_space(s: Seq<char>, i: int)
    requires
        0 <= i <= s.len(),
        forall|j: int| 0 <= j < i ==> is_white_space(#[trigger] s[j]),
        i == s.len() || !is_white_space(s[i]),
    ensures
        leading_space(s) == i,
    decreases i,
{
    if i > 0 {
        let t = s.drop_first();
        assert forall|j: int| 0 <= j < i - 1 implies is_white_space(#[trigger] t[j]) by {
            assert(t[j] == s[j + 1]);
        }
        if i < s.len() {
            assert(t[i - 1] == s[i]);
        }
        lemma_leading_space(t, i - 1);
    }
}

proof fn lemma_trailing_space(s: Seq<char>, i: int)
    requires
        0 <= i <= s.len(),
        forall|j: int| s.len() - i <= j < s.len() ==> is_white_space(#[trigger] s[j]),
        i == s.len() || !is_white_space(s[s.len() - i - 1]),
    ensures
        trailing_space(s) == i,
    decreases i,
{
    if i > 0 {
        let t = s.drop_last();
        assert forall|j: int| t.len() - (i - 1) <= j < t.len() implies is_white_space(#[trigger] t[j]) by {
            assert(t[j] == s[j]);
        }
        if i < s.len() {
            assert(t[t.len() - (i - 1) - 1] == s[s.len() - i - 1]);
        }
        lemma_trailing_space(t, i - 1);
    }
}

fn white_space(c: char) -> (r: bool)
    ensures
        r == is_white_space(c),
{
    let u = c as u32;
    (0x09 <= u && u <= 0x0d) || u == 0x20 || u == 0x85 || u == 0xa0 || u == 0x1680
        || (0x2000 <= u && u <= 0x200a) || u == 0x2028 || u == 0x2029 || u == 0x202f
        || u == 0x205f || u == 0x3000
}

/// `s` without leading and trailing Unicode white space.
pub fn trim(s: &str) -> (r: &str)
    ensures
        r@ == trimmed(s@),
{
    let v = chars_of(s);
    let n = v.len();
    let mut a: usize = 0;
    while a < n && white_space(v[a])
        invariant
            v@ == s@,
            n == v@.len(),
            a <= n,
            forall|j: int| 0 <= j < a ==> is_white_space(#[trigger] s@[j]),
        decreases n - a,
    {
        a = a + 1;
    }
    proof {
        lemma_leading_space(s@, a as int);
    }
    if a == n {
        let e = s.substring_char(0, 0);
        assert(e@ =~= Seq::<char>::empty());
        return e;
    }
    let mut b: usize = n;
    while b > a && white_space(v[b - 1])
        invariant
            v@ == s@,
            n == v@.len(),
            a < n,
            !is_white_space(s@[a as int]),
            a <= b <= n,
            forall|j: int| b <= j < n ==> is_white_space(#[trigger] s@[j]),
        decreases b,
    {
        b = b - 1;
    }
    proof {
        lemma_trailing_space(s@, n - b);
    }
    s.substring_char(a, b)
}

/// What `str::to_lowercase` returns for `s`: the Unicode lower-case mapping,
/// which depends on the characters of `s` alone.
pub uninterp spec fn unicode_lowercase(s: Seq<char>) -> Seq<char>;

/// Calls `str::to_lowercase`; the contract claims only that the result is the
/// Unicode lower-case mapping of the argument's characters.
#[verifier::external_body]
fn to_lowercase(s: &str) -> (r: String)
    ensures
        r@ == unicode_lowercase(s@),
{
    s.to_lowercase()
}

/// The text a search is matched against: the database if set, else the
/// schema, else the object.
pub open spec fn search_key(s: SchemaViewScope) -> Option<Seq<char>> {
    match s.database {
        Some(d) => Some(d@),
        None => match s.schema {
            Some(x) => Some(x@),
            None => match s.object {
                Some(o) => Some(o@),
                None => None,
            },
        },
    }
}

/// A scope matches a lower-cased search when its search key, lower-cased,
/// contains it.
pub open spec fn matches_search(s: SchemaViewScope, needle: Seq<char>) -> bool {
    match search_key(s) {
        Some(k) => seq_contains(unicode_lowercase(k), needle),
        None => false,
    }
}

/// The lower-cased search that filters a listing, if the search is given and
/// not blank.
pub open spec fn effective_search(search: Option<Seq<char>>) -> Option<Seq<char>> {
    match search {
        Some(s) => if trimmed(s).len() == 0 { None } else { Some(unicode_lowercase(trimmed(s))) },
        None => None,
    }
}

/// The items of a listing that a search keeps.
pub open spec fn searched(items: Seq<SchemaViewScope>, search: Option<Seq<char>>) -> Seq<SchemaViewScope> {
    match effective_search(search) {
        Some(needle) => items.filter(|s: SchemaViewScope| matches_search(s, needle)),
        None => items,
    }
}

/// The page size actually used: `limit` held between 1 and 500.
pub open spec fn clamp_limit(limit: usize) -> int {
    if limit < 1 {
        1
    } else if limit > 500 {
        500
    } else {
        limit as int
    }
}

/// `limit` held between 1 and 500.
pub fn clamp_page_limit(limit: usize) -> (r: usize)
    ensures
        r == clamp_limit(limit),
{
    if limit < 1 {
        1
    } else if limit > 500 {
        500
    } else {
        limit
    }
}

/// The window of `items` from `offset`, at most `size` long.
pub open spec fn window<T>(items: Seq<T>, offset: int, size: int) -> Seq<T> {
    if offset >= items.len() {
        Seq::empty()
    } else if offset + size >= items.len() {
        items.subrange(offset, items.len() as int)
    } else {
        items.subrange(offset, offset + size)
    }
}

/// The offset of the page after a page of `shown` items from `offset`, when
/// more items remain.
pub open spec fn next_page_offset(total: int, offset: int, shown: int) -> Option<usize> {
    if offset + shown < total {
        Some((offset + shown) as usize)
    } else {
        None
    }
}

fn search_matches(item: &SchemaViewScope, needle: &Vec<char>) -> (r: bool)
    ensures
        r == matches_search(*item, needle@),
{
    let key: Option<&String> = match &item.database {
        Some(d) => Some(d),
        None => match &item.schema {
            Some(x) => Some(x),
            None => match &item.object {
                Some(o) => Some(o),
                None => None,
            },
        },
    };
    match key {
        Some(k) => {
            let lowered = to_lowercase(k.as_str());
            let hay = chars_of(lowered.as_str());
            vec_contains(&hay, needle)
        },
        None => false,
    }
}

/// Filters a listing by a search and cuts the page that starts at `offset`
/// and holds at most `limit` (held between 1 and 500) items.
pub fn page_scopes(items: Vec<SchemaViewScope>, search: Option<&str>, limit: usize, offset: usize) -> (r: SchemaScopePage)
    ensures
        ({
            let kept = searched(items@, match search { Some(s) => Some(s@), None => None });
            &&& r.items@ == window(kept, offset as int, clamp_limit(limit))
            &&& r.next_offset == next_page_offset(kept.len() as int, offset as int, r.items@.len() as int)
        }),
{
    let ghost search_view = match search { Some(s) => Some(s@), None => None::<Seq<char>> };
    let needle: Option<Vec<char>> = match search {
        Some(s) => {
            let t = trim(s);
            let tc = chars_of(t);
            if tc.len() == 0 {
                None
            } else {
                let lowered = to_lowercase(t);
                Some(chars_of(lowered.as_str()))
            }
        },
        None => None,
    };
    assert(match needle { Some(n) => effective_search(search_view) == Some(n@), None => effective_search(search_view) is None });
    let kept: Vec<SchemaViewScope> = match needle {
        Some(n) => {
            let ghost pred = |s: SchemaViewScope| matches_search(s, n@);
            let mut out: Vec<SchemaViewScope> = Vec::new();
            let mut i: usize = 0;
            while i < items.len()
                invariant
                    i <= items@.len(),
                    out@ == items@.take(i as int).filter(pred),
                    pred == (|s: SchemaViewScope| matches_search(s, n@)),
                decreases items@.len() - i,
            {
                proof {
                    reveal_with_fuel(Seq::<_>::filter, 1);
                }
                if search_matches(&items[i], &n) {
                    out.push(items[i].copy());
                }
                assert(items@.take(i + 1).drop_last() =~= items@.take(i as int));
                i = i + 1;
            }
            assert(items@.take(items@.len() as int) =~= items@);
            out
        },
        None => items,
    };
    let size = clamp_page_limit(limit);
    let total = kept.len();
    let mut page: Vec<SchemaViewScope> = Vec::new();
    if offset < total {
        let end = if size >= total - offset { total } else { offset + size };
        let mut i = offset;
        while i < end
            invariant
                offset <= i <= end,
                end <= kept@.len(),
                page@ == kept@.subrange(offset as int, i as int),
            decreases end - i,
        {
            page.push(kept[i].copy());
            i = i + 1;
            assert(page@ =~= kept@.subrange(offset as int, i as int));
        }
    }
    let shown = page.len();
    let next_offset = if offset < total && shown < total - offset {
        Some(offset + shown)
    } else {
        None
    };
    SchemaScopePage { items: page, next_offset }
}

} // verus!

verus! {

/// Law: the page that starts where a page ended continues it: two
/// consecutive pages of `size` items hold the window of twice that size.
pub proof fn lemma_consecutive_pages<T>(items: Seq<T>, offset: int, size: int)
    requires
        0 <= offset,
        1 <= size,
    ensures
        window(items, offset, size) + window(items, offset + window(items, offset, size).len(), size)
            == window(items, offset, 2 * size),
{
    let first = window(items, offset, size);
    let next = offset + first.len();
    if offset >= items.len() {
        assert(first.len() == 0);
        assert(window(items, offset, size) + window(items, offset, size) =~= window(items, offset, 2 * size));
    } else if offset + size >= items.len() {
        assert(next == items.len());
        assert(first + window(items, next, size) =~= window(items, offset, 2 * size));
    } else {
        assert(next == offset + size);
        assert(first + window(items, next, size) =~= window(items, offset, 2 * size));
    }
}

/// Law: a page has a successor exactly when the listing goes on past the
/// page's full size.
pub proof fn lemma_last_page<T>(items: Seq<T>, offset: int, size: int)
    requires
        0 <= offset,
        1 <= size,
    ensures
        (next_page_offset(items.len() as int, offset, window(items, offset, size).len() as int) is None)
            <==> offset + size >= items.len(),
{
}

/// Law: a listing without a search, or with a blank one, keeps every item.
pub proof fn lemma_blank_search_keeps_all(items: Seq<SchemaViewScope>, search: Option<Seq<char>>)
    requires
        match search {
            Some(s) => trimmed(s).len() == 0,
            None => true,
        },
    ensures
        searched(items, search) == items,
{
}

/// Law: a search only removes items, and keeps exactly those whose search
/// key contains the lower-cased search.
pub proof fn lemma_search_keeps_matches(items: Seq<SchemaViewScope>, search: Option<Seq<char>>, needle: Seq<char>)
    requires
        effective_search(search) == Some(needle),
    ensures
        forall|i: int| 0 <= i < searched(items, search).len() ==>
            items.contains(#[trigger] searched(items, search)[i]) && matches_search(searched(items, search)[i], needle),
        forall|i: int| 0 <= i < items.len() && matches_search(#[trigger] items[i], needle) ==>
            searched(items, search).contains(items[i]),
{
    let pred = |s: SchemaViewScope| matches_search(s, needle);
    let kept = items.filter(pred);
    assert(searched(items, search) == kept);
    assert forall|i: int| 0 <= i < kept.len() implies items.contains(#[trigger] kept[i]) && matches_search(kept[i], needle) by {
        items.lemma_filter_pred(pred, i);
        assert(kept.contains(kept[i]));
        items.lemma_filter_contains_rev(pred, kept[i]);
    }
    assert forall|i: int| 0 <= i < items.len() && matches_search(#[trigger] items[i], needle) implies kept.contains(items[i]) by {
        items.lemma_filter_contains(pred, i);
    }
}

proof fn lemma_leading_bounds(s: Seq<char>)
    ensures
        leading_space(s) <= s.len(),
        forall|j: int| 0 <= j < leading_space(s) ==> is_white_space(#[trigger] s[j]),
        leading_space(s) < s.len() ==> !is_white_space(s[leading_space(s) as int]),
    decreases s.len(),
{
    if s.len() > 0 && is_white_space(s[0]) {
        let t = s.drop_first();
        lemma_leading_bounds(t);
        assert forall|j: int| 0 <= j < leading_space(s) implies is_white_space(#[trigger] s[j]) by {
            if j > 0 {
                assert(s[j] == t[j - 1]);
            }
        }
        if leading_space(s) < s.len() {
            assert(s[leading_space(s) as int] == t[leading_space(t) as int]);
        }
    }
}

proof fn lemma_trailing_bounds(s: Seq<char>)
    ensures
        trailing_space(s) <= s.len(),
        forall|j: int| s.len() - trailing_space(s) <= j < s.len() ==> is_white_space(#[trigger] s[j]),
        trailing_space(s) < s.len() ==> !is_white_space(s[s.len() - trailing_space(s) - 1]),
    decreases s.len(),
{
    if s.len() > 0 && is_white_space(s.last()) {
        let t = s.drop_last();
        lemma_trailing_bounds(t);
        assert forall|j: int| s.len() - trailing_space(s) <= j < s.len() implies is_white_space(#[trigger] s[j]) by {
            if j < s.len() - 1 {
                assert(s[j] == t[j]);
            }
        }
        if trailing_space(s) < s.len() {
            assert(s[s.len() - trailing_space(s) - 1] == t[t.len() - trailing_space(t) - 1]);
        }
    }
}

/// Law: trimming twice is trimming once.
pub proof fn lemma_trim_idempotent(s: Seq<char>)
    ensures
        trimmed(trimmed(s)) == trimmed(s),
{
    lemma_leading_bounds(s);
    lemma_trailing_bounds(s);
    let a = leading_space(s);
    let b = trailing_space(s);
    if a == s.len() {
        assert(trimmed(s).len() == 0);
    } else {
        if s.len() - b <= a {
            assert(is_white_space(s[a as int]));
        }
        let t = s.subrange(a as int, s.len() - b);
        assert(t == trimmed(s));
        assert(t[0] == s[a as int]);
        lemma_leading_space(t, 0);
        assert(t[t.len() - 1] == s[s.len() - b - 1]);
        lemma_trailing_space(t, 0);
        assert(t.subrange(0, t.len() as int) =~= t);
    }
}

/// Law: a search is read without its surrounding white space.
pub proof fn lemma_search_ignores_surrounding_space(s: Seq<char>)
    ensures
        effective_search(Some(s)) == effective_search(Some(trimmed(s))),
{
    lemma_trim_idempotent(s);
}

/// The items a reader collects by reading the page of `size` items at
/// `offset` and then, while there is a next page, the pages after it.
pub open spec fn pages_from<T>(items: Seq<T>, offset: int, size: int) -> Seq<T>
    decreases items.len() - offset,
    when 0 <= offset && 1 <= size
{
    if offset + size < items.len() {
        window(items, offset, size) + pages_from(items, offset + size, size)
    } else {
        window(items, offset, size)
    }
}

/// Law: following `next_offset` page after page from `offset` reads every
/// remaining item exactly once, in order, and stops: the next offset is the
/// current one plus the page size while items remain, and there is none
/// after the page that reaches the end.
pub proof fn lemma_pages_cover_listing<T>(items: Seq<T>, offset: int, size: int)
    requires
        items.len() <= usize::MAX,
        0 <= offset <= items.len(),
        1 <= size,
    ensures
        pages_from(items, offset, size) == items.subrange(offset, items.len() as int),
        match next_page_offset(items.len() as int, offset, window(items, offset, size).len() as int) {
            Some(n) => n == offset + size && offset + size < items.len()
                && pages_from(items, offset, size) == window(items, offset, size) + pages_from(items, n as int, size),
            None => offset + size >= items.len() && pages_from(items, offset, size) == window(items, offset, size),
        },
    decreases items.len() - offset,
{
    lemma_last_page(items, offset, size);
    if offset + size < items.len() {
        lemma_pages_cover_listing(items, offset + size, size);
        assert(window(items, offset, size) + items.subrange(offset + size, items.len() as int)
            =~= items.subrange(offset, items.len() as int));
    } else if offset < items.len() {
        assert(window(items, offset, size) =~= items.subrange(offset, items.len() as int));
    } else {
        assert(items.subrange(offset, items.len() as int) =~= Seq::<T>::empty());
    }
}

/// Law: a search that is already trimmed and whose lower-casing leaves it
/// unchanged filters like the search it was made from: when the lower-cased,
/// trimmed search is stable under trimming and lower-casing, it selects the
/// same items.
pub proof fn lemma_prepared_search_filters_alike(items: Seq<SchemaViewScope>, s: Seq<char>)
    requires
        trimmed(s).len() > 0,
        trimmed(unicode_lowercase(trimmed(s))) == unicode_lowercase(trimmed(s)),
        unicode_lowercase(unicode_lowercase(trimmed(s))) == unicode_lowercase(trimmed(s)),
        unicode_lowercase(trimmed(s)).len() > 0,
    ensures
        searched(items, Some(unicode_lowercase(trimmed(s)))) == searched(items, Some(s)),
{
}

} // verus!
