use crate::models::Food;
use vstd::prelude::*;

verus! {

/// The most foods that one search returns.
pub const SEARCH_LIMIT: usize = 50;

/// What `str::to_lowercase` makes of a string.
pub uninterp spec fn lower_of(s: Seq<char>) -> Seq<char>;


/// Relies on `str::to_lowercase`: the lowercase form of a string, which
/// depends on its characters alone.
#[verifier::external_body]
fn lowercase(s: &str) -> (r: String)
    ensures
        r@ == lower_of(s@),
{
    s.to_lowercase()
}

/// White space as Unicode's `White_Space` property defines it, the
/// characters that `char::is_whitespace` accepts.
pub open spec fn is_white_space(c: char) -> bool {
    let u = c as u32;
    (0x9 <= u <= 0xd) || u == 0x20 || u == 0x85 || u == 0xa0 || u == 0x1680 || (0x2000 <= u
        <= 0x200a) || u == 0x2028 || u == 0x2029 || u == 0x202f || u == 0x205f || u == 0x3000
}

/// `s` without its leading white space.
pub open spec fn trim_start(s: Seq<char>) -> Seq<char>
    decreases s.len(),
{
    if s.len() > 0 && is_white_space(s[0]) {
        trim_start(s.drop_first())
    } else {
        s
    }
}

/// `s` without its trailing white space.
pub open spec fn trim_end(s: Seq<char>) -> Seq<char>
    decreases s.len(),
{
    if s.len() > 0 && is_white_space(s.last()) {
        trim_end(s.drop_last())
    } else {
        s
    }
}

/// `s` without its leading and trailing white space.
pub open spec fn trim_white_space(s: Seq<char>) -> Seq<char> {
    trim_end(trim_start(s))
}

/// Whether `c` is white space.
pub fn is_white_space_char(c: char) -> (r: bool)
    ensures
        r == is_white_space(c),
{
    let u = c as u32;
    (0x9 <= u && u <= 0xd) || u == 0x20 || u == 0x85 || u == 0xa0 || u == 0x1680 || (0x2000 <= u
        && u <= 0x200a) || u == 0x2028 || u == 0x2029 || u == 0x202f || u == 0x205f || u == 0x3000
}

/// `v` without its leading and trailing white space.
pub fn trim_chars(v: &Vec<char>) -> (r: Vec<char>)
    ensures
        r@ == trim_white_space(v@),
{
    let n = v.len();
    let mut i: usize = 0;
    assert(v@.subrange(0, n as int) =~= v@);
    while i < n && is_white_space_char(v[i])
        invariant
            n == v@.len(),
            i <= n,
            trim_start(v@) == trim_start(v@.subrange(i as int, n as int)),
        decreases n - i,
    {
        assert(v@.subrange(i as int, n as int).drop_first() =~= v@.subrange(i + 1, n as int));
        i = i + 1;
    }
    assert(trim_start(v@) == v@.subrange(i as int, n as int));
    let mut j: usize = n;
    while j > i && is_white_space_char(v[j - 1])
        invariant
            n == v@.len(),
            i <= j <= n,
            trim_white_space(v@) == trim_end(v@.subrange(i as int, j as int)),
        decreases j,
    {
        assert(v@.subrange(i as int, j as int).drop_last() =~= v@.subrange(i as int, j - 1));
        j = j - 1;
    }
    let mut out: Vec<char> = Vec::new();
    let mut k: usize = i;
    while k < j
        invariant
            i <= k <= j,
            j <= v@.len(),
            out@ == v@.subrange(i as int, k as int),
        decreases j - k,
    {
        out.push(v[k]);
        k = k + 1;
        assert(out@ =~= v@.subrange(i as int, k as int));
    }
    out
}

proof fn lemma_trim_start_starts_solid(s: Seq<char>)
    ensures
        trim_start(s).len() == 0 || !is_white_space(trim_start(s)[0]),
    decreases s.len(),
{
    if s.len() > 0 && is_white_space(s[0]) {
        lemma_trim_start_starts_solid(s.drop_first());
    }
}

proof fn lemma_trim_end_ends_solid(s: Seq<char>)
    ensures
        trim_end(s).len() == 0 || !is_white_space(trim_end(s).last()),
    decreases s.len(),
{
    if s.len() > 0 && is_white_space(s.last()) {
        lemma_trim_end_ends_solid(s.drop_last());
    }
}

proof fn lemma_trim_end_keeps_solid_start(s: Seq<char>)
    requires
        s.len() > 0,
        !is_white_space(s[0]),
    ensures
        trim_end(s).len() > 0,
        trim_end(s)[0] == s[0],
    decreases s.len(),
{
    if is_white_space(s.last()) {
        assert(s.len() > 1);
        assert(s.drop_last()[0] == s[0]);
        lemma_trim_end_keeps_solid_start(s.drop_last());
    }
}

/// Trimming white space a second time changes nothing.
pub proof fn law_trim_idempotent(s: Seq<char>)
    ensures
        trim_white_space(trim_white_space(s)) == trim_white_space(s),
{
    let x = trim_white_space(s);
    let st = trim_start(s);
    lemma_trim_start_starts_solid(s);
    lemma_trim_end_ends_solid(st);
    if st.len() > 0 {
        lemma_trim_end_keeps_solid_start(st);
    }
    assert(trim_start(x) == x);
    assert(trim_end(x) == x);
}

/// The characters of `s`.
pub fn chars_of(s: &str) -> (r: Vec<char>)
    ensures
        r@ == s@,
{
    let n = s.unicode_len();
    let mut out: Vec<char> = Vec::new();
    let mut i: usize = 0;
    while i < n
        invariant
            n == s@.len(),
            i <= n,
            out@ == s@.subrange(0, i as int),
        decreases n - i,
    {
        out.push(s.get_char(i));
        i = i + 1;
        assert(out@ =~= s@.subrange(0, i as int));
    }
    assert(out@ =~= s@);
    out
}

/// SQL `LIKE` matching with the default escape: in `p`, `%` stands for any
/// run of characters, `_` for any one character, and a backslash makes the
/// character after it stand for itself. A backslash that ends the pattern
/// stands for itself (the database refuses such a pattern).
pub open spec fn like(s: Seq<char>, p: Seq<char>) -> bool
    decreases s.len() + p.len(),
{
    if p.len() == 0 {
        s.len() == 0
    } else if p[0] == '%' {
        like(s, p.drop_first()) || (s.len() > 0 && like(s.drop_first(), p))
    } else if p[0] == '\\' && p.len() >= 2 {
        s.len() > 0 && s[0] == p[1] && like(s.drop_first(), p.subrange(2, p.len() as int))
    } else {
        s.len() > 0 && (p[0] == '_' || p[0] == s[0]) && like(s.drop_first(), p.drop_first())
    }
}

fn like_from(s: &Vec<char>, i: usize, p: &Vec<char>, j: usize) -> (r: bool)
    requires
        i <= s@.len(),
        j <= p@.len(),
    ensures
        r == like(s@.subrange(i as int, s@.len() as int), p@.subrange(j as int, p@.len() as int)),
    decreases s@.len() - i + p@.len() - j,
{
    let ghost ss = s@.subrange(i as int, s@.len() as int);
    let ghost ps = p@.subrange(j as int, p@.len() as int);
    if j == p.len() {
        return i == s.len();
    }
    assert(ps.drop_first() =~= p@.subrange(j + 1, p@.len() as int));
    if i < s.len() {
        assert(ss.drop_first() =~= s@.subrange(i + 1, s@.len() as int));
    }
    if p[j] == '%' {
        if like_from(s, i, p, j + 1) {
            true
        } else {
            i < s.len() && like_from(s, i + 1, p, j)
        }
    } else if p[j] == '\\' && j + 1 < p.len() {
        assert(ps.subrange(2, ps.len() as int) =~= p@.subrange(j + 2, p@.len() as int));
        i < s.len() && s[i] == p[j + 1] && like_from(s, i + 1, p, j + 2)
    } else {
        i < s.len() && (p[j] == '_' || p[j] == s[i]) && like_from(s, i + 1, p, j + 1)
    }
}

/// Whether `s` matches the `LIKE` pattern `p`.
pub fn like_match(s: &Vec<char>, p: &Vec<char>) -> (r: bool)
    ensures
        r == like(s@, p@),
{
    assert(s@.subrange(0, s@.len() as int) =~= s@);
    assert(p@.subrange(0, p@.len() as int) =~= p@);
    like_from(s, 0, p, 0)
}

/// The three patterns of a search: the name starts with the query; the
/// words of the query begin the name in order; the name holds them anywhere.
#[derive(Clone, Debug)]
pub struct SearchPatterns {
    pub exact_prefix: Vec<char>,
    pub word_boundary: Vec<char>,
    pub anywhere: Vec<char>,
}

/// The query followed by `%`.
pub open spec fn prefix_pattern(q: Seq<char>) -> Seq<char> {
    q.push('%')
}

/// `p` with each space replaced by `%`.
pub open spec fn spaces_to_wildcards(p: Seq<char>) -> Seq<char> {
    p.map_values(|c: char| if c == ' ' { '%' } else { c })
}

/// The patterns built from the query `q`.
pub open spec fn patterns_for(q: Seq<char>) -> (Seq<char>, Seq<char>, Seq<char>) {
    let exact = prefix_pattern(q);
    let words = spaces_to_wildcards(exact);
    (exact, words, seq!['%'] + words)
}

pub open spec fn patterns_view(p: SearchPatterns) -> (Seq<char>, Seq<char>, Seq<char>) {
    (p.exact_prefix@, p.word_boundary@, p.anywhere@)
}

/// The search patterns of the query `q`, taken as it is.
pub fn build_patterns(q: &Vec<char>) -> (r: SearchPatterns)
    ensures
        patterns_view(r) == patterns_for(q@),
{
    let mut exact: Vec<char> = Vec::new();
    let mut words: Vec<char> = Vec::new();
    let mut anywhere: Vec<char> = Vec::new();
    anywhere.push('%');
    let mut i: usize = 0;
    while i < q.len()
        invariant
            i <= q@.len(),
            exact@ == q@.subrange(0, i as int),
            words@ == spaces_to_wildcards(q@.subrange(0, i as int)),
            anywhere@ == seq!['%'] + words@,
        decreases q@.len() - i,
    {
        let c = q[i];
        exact.push(c);
        let w = if c == ' ' {
            '%'
        } else {
            c
        };
        words.push(w);
        anywhere.push(w);
        i = i + 1;
        assert(exact@ =~= q@.subrange(0, i as int));
        assert(words@ =~= spaces_to_wildcards(q@.subrange(0, i as int)));
        assert(anywhere@ =~= seq!['%'] + words@);
    }
    assert(exact@ =~= q@);
    exact.push('%');
    words.push('%');
    anywhere.push('%');
    assert(words@ =~= spaces_to_wildcards(prefix_pattern(q@)));
    assert(anywhere@ =~= seq!['%'] + words@);
    SearchPatterns { exact_prefix: exact, word_boundary: words, anywhere }
}

/// The search patterns of a user's query: lowercased, so that they are
/// matched against lowercased names, and trimmed of white space.
pub fn search_patterns(query: &str) -> (r: SearchPatterns)
    ensures
        patterns_view(r) == patterns_for(trim_white_space(lower_of(query@))),
{
    let l = lowercase(query);
    let q = chars_of(l.as_str());
    let t = trim_chars(&q);
    build_patterns(&t)
}

/// Rank of a name under the patterns: 1 for a prefix match, 2 for a match
/// of the query's words at the start, 3 otherwise.
pub open spec fn rank_of(name: Seq<char>, pats: (Seq<char>, Seq<char>, Seq<char>)) -> int {
    if like(name, pats.0) {
        1
    } else if like(name, pats.1) {
        2
    } else {
        3
    }
}

/// Positions among the first `upto` names of those that match the
/// `anywhere` pattern with rank `k`, in order.
pub open spec fn positions_with_rank(
    names: Seq<Seq<char>>,
    pats: (Seq<char>, Seq<char>, Seq<char>),
    k: int,
    upto: int,
) -> Seq<int>
    decreases upto,
{
    if upto <= 0 {
        Seq::empty()
    } else {
        let earlier = positions_with_rank(names, pats, k, upto - 1);
        if like(names[upto - 1], pats.2) && rank_of(names[upto - 1], pats) == k {
            earlier.push(upto - 1)
        } else {
            earlier
        }
    }
}

/// The positions of the matching names: rank 1 first, then 2, then 3, each
/// in table order, at most `SEARCH_LIMIT` of them.
pub open spec fn search_order(names: Seq<Seq<char>>, pats: (Seq<char>, Seq<char>, Seq<char>)) -> Seq<int> {
    let n = names.len() as int;
    let all = positions_with_rank(names, pats, 1, n) + positions_with_rank(names, pats, 2, n)
        + positions_with_rank(names, pats, 3, n);
    if all.len() > SEARCH_LIMIT {
        all.take(SEARCH_LIMIT as int)
    } else {
        all
    }
}

pub open spec fn chars_seqs(v: Seq<Vec<char>>) -> Seq<Seq<char>> {
    v.map_values(|c: Vec<char>| c@)
}

proof fn lemma_positions_bounded(
    names: Seq<Seq<char>>,
    pats: (Seq<char>, Seq<char>, Seq<char>),
    k: int,
    upto: int,
)
    requires
        0 <= upto,
    ensures
        positions_with_rank(names, pats, k, upto).len() <= upto,
        forall|j: int|
            0 <= j < positions_with_rank(names, pats, k, upto).len() ==> 0 <= #[trigger] positions_with_rank(
                names,
                pats,
                k,
                upto,
            )[j] < upto,
    decreases upto,
{
    if upto > 0 {
        lemma_positions_bounded(names, pats, k, upto - 1);
    }
}

/// Positions of the names that match the patterns, best rank first, as
/// `search_order` gives them. Names and patterns are compared as they are:
/// callers lowercase both.
pub fn order_matches(names: &Vec<Vec<char>>, pats: &SearchPatterns) -> (r: Vec<usize>)
    ensures
        r@.map_values(|i: usize| i as int) == search_order(chars_seqs(names@), patterns_view(*pats)),
{
    let ghost ns = chars_seqs(names@);
    let ghost pv = patterns_view(*pats);
    let mut first: Vec<usize> = Vec::new();
    let mut second: Vec<usize> = Vec::new();
    let mut third: Vec<usize> = Vec::new();
    let mut i: usize = 0;
    while i < names.len()
        invariant
            i <= names@.len(),
            ns == chars_seqs(names@),
            ns.len() == names@.len(),
            pv == patterns_view(*pats),
            first@.map_values(|x: usize| x as int) == positions_with_rank(ns, pv, 1, i as int),
            second@.map_values(|x: usize| x as int) == positions_with_rank(ns, pv, 2, i as int),
            third@.map_values(|x: usize| x as int) == positions_with_rank(ns, pv, 3, i as int),
        decreases names@.len() - i,
    {
        let name = &names[i];
        assert(ns[i as int] == name@);
        if like_match(name, &pats.anywhere) {
            if like_match(name, &pats.exact_prefix) {
                let ghost before = first@;
                first.push(i);
                assert(first@.map_values(|x: usize| x as int) =~= before.map_values(
                    |x: usize| x as int,
                ).push(i as int));
            } else if like_match(name, &pats.word_boundary) {
                let ghost before = second@;
                second.push(i);
                assert(second@.map_values(|x: usize| x as int) =~= before.map_values(
                    |x: usize| x as int,
                ).push(i as int));
            } else {
                let ghost before = third@;
                third.push(i);
                assert(third@.map_values(|x: usize| x as int) =~= before.map_values(
                    |x: usize| x as int,
                ).push(i as int));
            }
        }
        i = i + 1;
    }
    let ghost all = positions_with_rank(ns, pv, 1, ns.len() as int) + positions_with_rank(
        ns,
        pv,
        2,
        ns.len() as int,
    ) + positions_with_rank(ns, pv, 3, ns.len() as int);
    let mut out: Vec<usize> = Vec::new();
    let mut k: usize = 0;
    while k < first.len() && out.len() < SEARCH_LIMIT
        invariant
            k <= first@.len(),
            out@.len() == k,
            k <= SEARCH_LIMIT,
            all == first@.map_values(|x: usize| x as int) + second@.map_values(|x: usize| x as int)
                + third@.map_values(|x: usize| x as int),
            out@.map_values(|x: usize| x as int) == all.take(k as int),
        decreases first@.len() - k,
    {
        out.push(first[k]);
        k = k + 1;
        assert(out@.map_values(|x: usize| x as int) =~= all.take(k as int));
    }
    let mut k: usize = 0;
    while k < second.len() && out.len() < SEARCH_LIMIT
        invariant
            k <= second@.len(),
            out@.len() <= SEARCH_LIMIT,
            out@.len() < SEARCH_LIMIT ==> out@.len() == first@.len() + k,
            out@.len() == SEARCH_LIMIT ==> out@.len() <= first@.len() + k,
            k > 0 ==> out@.len() == first@.len() + k,
            all == first@.map_values(|x: usize| x as int) + second@.map_values(|x: usize| x as int)
                + third@.map_values(|x: usize| x as int),
            out@.map_values(|x: usize| x as int) == all.take(out@.len() as int),
        decreases second@.len() - k,
    {
        out.push(second[k]);
        k = k + 1;
        assert(out@.map_values(|x: usize| x as int) =~= all.take(out@.len() as int));
    }
    let mut k: usize = 0;
    while k < third.len() && out.len() < SEARCH_LIMIT
        invariant
            k <= third@.len(),
            out@.len() <= SEARCH_LIMIT,
            out@.len() < SEARCH_LIMIT ==> out@.len() == first@.len() + second@.len() + k,
            out@.len() == SEARCH_LIMIT ==> out@.len() <= first@.len() + second@.len() + k,
            k > 0 ==> out@.len() == first@.len() + second@.len() + k,
            all == first@.map_values(|x: usize| x as int) + second@.map_values(|x: usize| x as int)
                + third@.map_values(|x: usize| x as int),
            out@.map_values(|x: usize| x as int) == all.take(out@.len() as int),
        decreases third@.len() - k,
    {
        out.push(third[k]);
        k = k + 1;
        assert(out@.map_values(|x: usize| x as int) =~= all.take(out@.len() as int));
    }
    proof {
        assert(out@.len() < SEARCH_LIMIT ==> out@.len() == all.len());
        if all.len() <= SEARCH_LIMIT {
            assert(all.take(all.len() as int) =~= all);
        }
    }
    out
}

/// The lowercased forms of the names of `foods`.
pub open spec fn lowered_names(foods: Seq<Food>) -> Seq<Seq<char>> {
    foods.map_values(|f: Food| lower_of(f.name@))
}

/// `a` is a copy of food `b`.
pub open spec fn same_food(a: Food, b: Food) -> bool {
    a.id == b.id && a.name@ == b.name@ && a.user_id == b.user_id
}

/// The foods whose names match `query` without regard to case, best rank
/// first and in table order within a rank, at most `SEARCH_LIMIT` of them.
pub fn rank_foods(foods: &Vec<Food>, query: &str) -> (r: Vec<Food>)
    ensures
        ({
            let order = search_order(lowered_names(foods@), patterns_for(trim_white_space(lower_of(query@))));
            &&& r@.len() == order.len()
            &&& forall|j: int|
                0 <= j < r@.len() ==> 0 <= order[j] < foods@.len() && same_food(
                    #[trigger] r@[j],
                    foods@[order[j]],
                )
        }),
{
    let pats = search_patterns(query);
    let mut names: Vec<Vec<char>> = Vec::new();
    let mut i: usize = 0;
    while i < foods.len()
        invariant
            i <= foods@.len(),
            names@.len() == i,
            forall|j: int| 0 <= j < i ==> (#[trigger] names@[j])@ == lower_of(foods@[j].name@),
        decreases foods@.len() - i,
    {
        let l = lowercase(foods[i].name.as_str());
        names.push(chars_of(l.as_str()));
        i = i + 1;
    }
    assert(chars_seqs(names@) =~= lowered_names(foods@));
    let order = order_matches(&names, &pats);
    let ghost ord = search_order(lowered_names(foods@), patterns_view(pats));
    proof {
        let n = foods@.len() as int;
        lemma_positions_bounded(lowered_names(foods@), patterns_view(pats), 1, n);
        lemma_positions_bounded(lowered_names(foods@), patterns_view(pats), 2, n);
        lemma_positions_bounded(lowered_names(foods@), patterns_view(pats), 3, n);
        let by_prefix = positions_with_rank(lowered_names(foods@), patterns_view(pats), 1, n);
        let by_words = positions_with_rank(lowered_names(foods@), patterns_view(pats), 2, n);
        let by_anywhere = positions_with_rank(lowered_names(foods@), patterns_view(pats), 3, n);
        let all = by_prefix + by_words + by_anywhere;
        assert forall|j: int| 0 <= j < all.len() implies 0 <= #[trigger] all[j] < n by {
            if j < by_prefix.len() {
                assert(all[j] == by_prefix[j]);
            } else if j < by_prefix.len() + by_words.len() {
                assert(all[j] == by_words[j - by_prefix.len()]);
            } else {
                assert(all[j] == by_anywhere[j - by_prefix.len() - by_words.len()]);
            }
        }
        assert(forall|j: int| 0 <= j < ord.len() ==> 0 <= #[trigger] ord[j] < n);
        assert(order@.len() == ord.len());
        assert(forall|j: int| 0 <= j < order@.len() ==> order@[j] as int == #[trigger] ord[j]);
    }
    let mut out: Vec<Food> = Vec::new();
    let mut k: usize = 0;
    while k < order.len()
        invariant
            k <= order@.len(),
            order@.len() == ord.len(),
            forall|j: int| 0 <= j < order@.len() ==> order@[j] as int == #[trigger] ord[j],
            forall|j: int| 0 <= j < ord.len() ==> 0 <= #[trigger] ord[j] < foods@.len(),
            out@.len() == k,
            forall|j: int| 0 <= j < k ==> same_food(#[trigger] out@[j], foods@[ord[j]]),
        decreases order@.len() - k,
    {
        assert(ord[k as int] == order@[k as int] as int);
        assert(0 <= ord[k as int] < foods@.len());
        let f = &foods[order[k]];
        out.push(Food { id: f.id, name: f.name.clone(), user_id: f.user_id });
        k = k + 1;
    }
    out
}

proof fn lemma_positions_have_rank(
    names: Seq<Seq<char>>,
    pats: (Seq<char>, Seq<char>, Seq<char>),
    k: int,
    upto: int,
)
    requires
        0 <= upto <= names.len(),
    ensures
        forall|j: int|
            0 <= j < positions_with_rank(names, pats, k, upto).len() ==> {
                let i = #[trigger] positions_with_rank(names, pats, k, upto)[j];
                &&& 0 <= i < upto
                &&& like(names[i], pats.2)
                &&& rank_of(names[i], pats) == k
            },
    decreases upto,
{
    if upto > 0 {
        lemma_positions_have_rank(names, pats, k, upto - 1);
        let cur = positions_with_rank(names, pats, k, upto);
        let earlier = positions_with_rank(names, pats, k, upto - 1);
        assert forall|j: int| 0 <= j < cur.len() implies {
            let i = #[trigger] cur[j];
            &&& 0 <= i < upto
            &&& like(names[i], pats.2)
            &&& rank_of(names[i], pats) == k
        } by {
            if j < earlier.len() {
                assert(cur[j] == earlier[j]);
            }
        }
    }
}

/// Every food that a search lists matches the `anywhere` pattern, and the
/// list never puts a food after one of a worse rank: prefix matches come
/// before matches of the query's words, which come before matches anywhere.
pub proof fn law_search_order_by_rank(names: Seq<Seq<char>>, pats: (Seq<char>, Seq<char>, Seq<char>))
    ensures
        forall|a: int|
            0 <= a < search_order(names, pats).len() ==> {
                let i = #[trigger] search_order(names, pats)[a];
                0 <= i < names.len() && like(names[i], pats.2)
            },
        forall|a: int, b: int|
            0 <= a < b < search_order(names, pats).len() ==> rank_of(
                names[#[trigger] search_order(names, pats)[a]],
                pats,
            ) <= rank_of(names[#[trigger] search_order(names, pats)[b]], pats),
{
    let n = names.len() as int;
    lemma_positions_have_rank(names, pats, 1, n);
    lemma_positions_have_rank(names, pats, 2, n);
    lemma_positions_have_rank(names, pats, 3, n);
    let by_prefix = positions_with_rank(names, pats, 1, n);
    let by_words = positions_with_rank(names, pats, 2, n);
    let by_anywhere = positions_with_rank(names, pats, 3, n);
    let all = by_prefix + by_words + by_anywhere;
    assert forall|a: int| 0 <= a < all.len() implies {
        let i = #[trigger] all[a];
        &&& 0 <= i < n
        &&& like(names[i], pats.2)
        &&& rank_of(names[i], pats) == if a < by_prefix.len() {
            1int
        } else if a < by_prefix.len() + by_words.len() {
            2int
        } else {
            3int
        }
    } by {
        if a < by_prefix.len() {
            assert(all[a] == by_prefix[a]);
        } else if a < by_prefix.len() + by_words.len() {
            assert(all[a] == by_words[a - by_prefix.len()]);
        } else {
            assert(all[a] == by_anywhere[a - by_prefix.len() - by_words.len()]);
        }
    }
    let ord = search_order(names, pats);
    assert(ord.len() <= all.len());
    assert(forall|a: int| 0 <= a < ord.len() ==> #[trigger] ord[a] == all[a]);
}

} // verus!
