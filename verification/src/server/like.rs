use vstd::prelude::*;

verus! {

/// A character with ASCII letters folded to lower case, as SQL `LIKE` compares them.
pub open spec fn fold_case(c: char) -> u32 {
    let u = c as u32;
    if 65 <= u <= 90 {
        (u + 32) as u32
    } else {
        u
    }
}

/// Whether `text[j..]` matches `pattern[i..]` under SQL `LIKE`: `%` stands
/// for any run of characters, `_` for any one character, and other
/// characters match themselves with ASCII case ignored.
pub open spec fn like_from(pattern: Seq<char>, text: Seq<char>, i: int, j: int) -> bool
    decreases pattern.len() - i, text.len() - j,
{
    if i >= pattern.len() || i < 0 || j < 0 {
        j >= text.len()
    } else if pattern[i] == '%' {
        like_from(pattern, text, i + 1, j) || (j < text.len() && like_from(pattern, text, i, j + 1))
    } else if j >= text.len() {
        false
    } else if pattern[i] == '_' {
        like_from(pattern, text, i + 1, j + 1)
    } else {
        fold_case(pattern[i]) == fold_case(text[j]) && like_from(pattern, text, i + 1, j + 1)
    }
}

/// Whether the text matches the whole pattern under SQL `LIKE`.
pub open spec fn like(pattern: Seq<char>, text: Seq<char>) -> bool {
    like_from(pattern, text, 0, 0)
}

/// The pattern a name search uses: the query with `%` on both sides.
pub open spec fn search_pattern(query: Seq<char>) -> Seq<char> {
    seq!['%'] + query + seq!['%']
}

fn fold_char(c: char) -> (r: u32)
    ensures
        r == fold_case(c),
{
    let u = c as u32;
    if 65 <= u && u <= 90 {
        u + 32
    } else {
        u
    }
}

fn like_at(pattern: &Vec<char>, text: &Vec<char>, i: usize, j: usize) -> (r: bool)
    requires
        i <= pattern.len(),
        j <= text.len(),
    ensures
        r == like_from(pattern@, text@, i as int, j as int),
    decreases pattern.len() - i, text.len() - j,
{
    if i >= pattern.len() {
        j >= text.len()
    } else if pattern[i] == '%' {
        if like_at(pattern, text, i + 1, j) {
            true
        } else {
            j < text.len() && like_at(pattern, text, i, j + 1)
        }
    } else if j >= text.len() {
        false
    } else if pattern[i] == '_' {
        like_at(pattern, text, i + 1, j + 1)
    } else {
        fold_char(pattern[i]) == fold_char(text[j]) && like_at(pattern, text, i + 1, j + 1)
    }
}

/// Whether the text matches the pattern under SQL `LIKE`.
pub fn like_match(pattern: &Vec<char>, text: &Vec<char>) -> (r: bool)
    ensures
        r == like(pattern@, text@),
{
    like_at(pattern, text, 0, 0)
}

/// The `LIKE` pattern of a name search.
pub fn search_pattern_of(query: &str) -> (p: Vec<char>)
    ensures
        p@ == search_pattern(query@),
{
    let q = crate::server::text::chars_of(query);
    let mut p: Vec<char> = Vec::new();
    p.push('%');
    let mut i: usize = 0;
    while i < q.len()
        invariant
            i <= q.len(),
            p@ == seq!['%'] + q@.subrange(0, i as int),
        decreases q.len() - i,
    {
        p.push(q[i]);
        i = i + 1;
        assert(p@ =~= seq!['%'] + q@.subrange(0, i as int));
    }
    p.push('%');
    assert(q@.subrange(0, q@.len() as int) =~= q@);
    assert(p@ =~= search_pattern(query@));
    p
}

/// A `%` at position `i` of the pattern lets the match skip ahead over any
/// run of the text.
proof fn lemma_percent_skips(pattern: Seq<char>, text: Seq<char>, i: int, j: int, j2: int)
    requires
        0 <= i < pattern.len(),
        pattern[i] == '%',
        0 <= j <= j2 <= text.len(),
        like_from(pattern, text, i + 1, j2),
    ensures
        like_from(pattern, text, i, j),
    decreases j2 - j,
{
    if j < j2 {
        lemma_percent_skips(pattern, text, i, j + 1, j2);
    }
}

/// The rest of a search pattern, from the `k`-th character of the query
/// on, matches the text from the same character of the query's copy on.
proof fn lemma_query_matches_itself(query: Seq<char>, before: Seq<char>, after: Seq<char>, k: int)
    requires
        0 <= k <= query.len(),
    ensures
        like_from(search_pattern(query), before + query + after, 1 + k, before.len() + k),
    decreases query.len() - k,
{
    let p = search_pattern(query);
    let t = before + query + after;
    if k == query.len() {
        assert(p[1 + k] == '%');
        assert(like_from(p, t, p.len() as int, t.len() as int));
        lemma_percent_skips(p, t, 1 + k, before.len() + k, t.len() as int);
    } else {
        lemma_query_matches_itself(query, before, after, k + 1);
        assert(p[1 + k] == query[k]);
        assert(t[before.len() + k] == query[k]);
        if query[k] == '%' {
            lemma_percent_skips(p, t, 1 + k, before.len() + k, before.len() + k + 1);
        }
    }
}

/// A name search finds every name in which the query occurs: the query
/// with any text before and after it matches the search pattern (whatever
/// `%` or `_` the query itself holds).
pub proof fn law_search_finds_substring(query: Seq<char>, before: Seq<char>, after: Seq<char>)
    ensures
        like(search_pattern(query), before + query + after),
{
    let p = search_pattern(query);
    let t = before + query + after;
    lemma_query_matches_itself(query, before, after, 0);
    assert(p[0] == '%');
    lemma_percent_skips(p, t, 0, 0, before.len() as int);
}

} // verus!
