//! The generic search engine: typed query keys, the query expression and
//! its serialization, and the outbound parameter list.

use vstd::prelude::*;

verus! {

use crate::text::{join_with, join_comma, split_on, texts_view, lemma_join_then_split};

/// Base location of the nomenclatural-index API.
pub const IPNI_URL: &'static str = "https://beta.ipni.org/api/1";

/// Base location of the plants-of-the-world API.
pub const POWO_URL: &'static str = "https://powo.science.kew.org/api/2";

/// A typed query key: a closed, enumerated symbol with exactly one fixed
/// wire-format token.
pub trait ToKey: Sized {
    /// The key's fixed wire-format token.
    spec fn spec_key(&self) -> Seq<char>;

    /// Returns the key's fixed wire-format token.
    fn to_key(&self) -> (r: &'static str)
        ensures
            r@ == self.spec_key(),
    ;
}

/// A result filter: a named toggle with exactly one fixed wire-format
/// token.
pub trait ToToken: Sized {
    /// The filter's fixed wire-format token.
    spec fn spec_token(&self) -> Seq<char>;

    /// Returns the filter's fixed wire-format token.
    fn token(&self) -> (r: &'static str)
        ensures
            r@ == self.spec_token(),
    ;
}

/// A query expression: either free text passed through verbatim, or an
/// ordered list of `(key, value)` clauses.  The two shapes are mutually
/// exclusive by construction.
pub enum SearchQuery<K: ToKey> {
    FreeText(String),
    Structured(Vec<(K, String)>),
}

/// A clause with its value read as a character sequence.
pub open spec fn clause_view<K>(c: (K, String)) -> (K, Seq<char>) {
    (c.0, c.1@)
}

/// A clause list with each value read as a character sequence.
pub open spec fn clauses_view<K>(v: Seq<(K, String)>) -> Seq<(K, Seq<char>)> {
    v.map_values(|c: (K, String)| clause_view(c))
}

/// One serialized clause: the key's token, a colon, the value.
pub open spec fn clause_seg<K: ToKey>(c: (K, Seq<char>)) -> Seq<char> {
    c.0.spec_key() + seq![':'] + c.1
}

/// The serialized segments of a clause list, one per clause.
pub open spec fn segs_of<K: ToKey>(cs: Seq<(K, Seq<char>)>) -> Seq<Seq<char>> {
    cs.map_values(|c: (K, Seq<char>)| clause_seg(c))
}

/// The serialized clause list: the clauses' segments joined by commas, in
/// insertion order.
pub open spec fn query_format<K: ToKey>(cs: Seq<(K, Seq<char>)>) -> Seq<char> {
    join_with(segs_of(cs), seq![','])
}

/// Serializes a clause list: `key:value` segments joined by commas.
fn format_clauses<K: ToKey>(v: &Vec<(K, String)>) -> (r: String)
    ensures
        r@ == query_format(clauses_view(v@)),
{
    let mut segs: Vec<String> = Vec::new();
    let mut i: usize = 0;
    while i < v.len()
        invariant
            0 <= i <= v@.len(),
            texts_view(segs@) =~= segs_of(clauses_view(v@.take(i as int))),
        decreases v@.len() - i,
    {
        let ghost segs_prev = segs@;
        let mut seg = v[i].0.to_key().to_owned();
        seg.append(":");
        seg.append(v[i].1.as_str());
        segs.push(seg);
        proof {
            reveal_strlit(":");
            assert(":"@ =~= seq![':']);
            let cprev = clauses_view(v@.take(i as int));
            let cnext = clauses_view(v@.take(i as int + 1));
            assert(cprev.len() == i as int);
            assert(cnext.len() == i as int + 1);
            assert(texts_view(segs_prev).len() == segs_prev.len());
            assert(segs_of(cprev).len() == cprev.len());
            assert(segs_prev.len() == i as int);
            assert(segs@ == segs_prev.push(seg));
            assert(cnext =~= cprev.push(clause_view(v@[i as int])));
            assert(seg@ == clause_seg(clause_view(v@[i as int])));
            assert forall|j: int| 0 <= j < segs@.len() implies texts_view(segs@)[j] == segs_of(
                cnext,
            )[j] by {
                assert(texts_view(segs@)[j] == segs@[j]@);
                assert(segs_of(cnext)[j] == clause_seg(cnext[j]));
                if j < i {
                    assert(segs@[j] == segs_prev[j]);
                    assert(texts_view(segs_prev)[j] == segs_prev[j]@);
                    assert(segs_of(cprev)[j] == clause_seg(cprev[j]));
                    assert(cnext[j] == cprev[j]);
                } else {
                    assert(segs@[j] == seg);
                    assert(cnext[j] == clause_view(v@[i as int]));
                }
            }
            assert(texts_view(segs@) =~= segs_of(cnext));
        }
        i += 1;
    }
    proof {
        assert(v@.take(v@.len() as int) =~= v@);
    }
    join_comma(&segs)
}

impl<K: ToKey> SearchQuery<K> {
    /// What the expression serializes to: free text verbatim, a clause
    /// list as its comma-joined `key:value` segments.
    pub open spec fn spec_format(&self) -> Seq<char> {
        match self {
            SearchQuery::FreeText(s) => s@,
            SearchQuery::Structured(v) => query_format(clauses_view(v@)),
        }
    }

    /// Serializes the expression.
    pub fn format(&self) -> (r: String)
        ensures
            r@ == self.spec_format(),
    {
        match self {
            SearchQuery::FreeText(s) => s.clone(),
            SearchQuery::Structured(v) => format_clauses(v),
        }
    }
}

/// Laying one more clause onto a clause list appends its view.
pub proof fn lemma_clauses_view_push<K>(v: Seq<(K, String)>, key: K, value: String)
    ensures
        clauses_view(v.push((key, value))) == clauses_view(v).push((key, value@)),
{
    assert(clauses_view(v.push((key, value))) =~= clauses_view(v).push((key, value@)));
}

/// A parameter list with names and values read as character sequences.
pub open spec fn params_view(s: Seq<(String, String)>) -> Seq<(Seq<char>, Seq<char>)> {
    s.map_values(|p: (String, String)| (p.0@, p.1@))
}

/// The outbound parameter list: the page size and the cursor always, the
/// serialized query under `q` when one is present, the serialized filter
/// list under `f` when one is present — in that fixed order.
pub open spec fn spec_build_params(
    q: Option<Seq<char>>,
    f: Option<Seq<char>>,
    cursor: Seq<char>,
) -> Seq<(Seq<char>, Seq<char>)> {
    let base = seq![("perPage"@, "500"@), ("cursor"@, cursor)];
    let with_q = match q {
        Some(qs) => base.push(("q"@, qs)),
        None => base,
    };
    match f {
        Some(fs) => with_q.push(("f"@, fs)),
        None => with_q,
    }
}

/// The serialized query an optional query expression contributes.
pub open spec fn query_param<K: ToKey>(q: &Option<SearchQuery<K>>) -> Option<Seq<char>> {
    match q {
        Some(x) => Some(x.spec_format()),
        None => None,
    }
}

/// The comma-joined value an optional filter-token list contributes.
pub open spec fn filters_param(f: &Option<Vec<String>>) -> Option<Seq<char>> {
    match f {
        Some(v) => Some(join_with(texts_view(v@), seq![','])),
        None => None,
    }
}

/// Assembles the outbound parameter list from an optional query
/// expression, an optional list of filter tokens, and the cursor.
pub fn build_params<K: ToKey>(
    query: &Option<SearchQuery<K>>,
    filters: &Option<Vec<String>>,
    cursor: &str,
) -> (r: Vec<(String, String)>)
    ensures
        params_view(r@) == spec_build_params(query_param(query), filters_param(filters), cursor@),
{
    let mut r: Vec<(String, String)> = Vec::new();
    r.push((String::from_str("perPage"), String::from_str("500")));
    r.push((String::from_str("cursor"), cursor.to_owned()));
    match query {
        Some(q) => r.push((String::from_str("q"), q.format())),
        None => {},
    }
    match filters {
        Some(fs) => r.push((String::from_str("f"), join_comma(fs))),
        None => {},
    }
    proof {
        assert(params_view(r@) =~= spec_build_params(
            query_param(query),
            filters_param(filters),
            cursor@,
        ));
    }
    r
}

/// Law: the page size is pinned: the first parameter is always
/// `perPage=500`, whatever the query, the filters and the cursor are.
pub proof fn lemma_per_page_fixed(q: Option<Seq<char>>, f: Option<Seq<char>>, cursor: Seq<char>)
    ensures
        spec_build_params(q, f, cursor).len() >= 2,
        spec_build_params(q, f, cursor)[0] == ("perPage"@, "500"@),
{
}

/// Law: the cursor parameter is always present: the second parameter is
/// always `cursor=<cursor>`, whatever the query and the filters are.
pub proof fn lemma_cursor_always_present(q: Option<Seq<char>>, f: Option<Seq<char>>, cursor: Seq<char>)
    ensures
        spec_build_params(q, f, cursor)[1] == ("cursor"@, cursor),
{
}

/// Law: when a filter list was given, its comma-joined tokens stand as
/// the last parameter, under `f`; when none was, no parameter is named
/// `f`.
pub proof fn lemma_filters_param(q: Option<Seq<char>>, f: Option<Seq<char>>, cursor: Seq<char>)
    ensures
        (f matches Some(fs) ==> spec_build_params(q, f, cursor).last() == ("f"@, fs)),
        f is None ==> forall|j: int|
            0 <= j < spec_build_params(q, f, cursor).len() ==> (#[trigger] spec_build_params(
                q,
                f,
                cursor,
            )[j]).0 != "f"@,
{
    reveal_strlit("perPage");
    reveal_strlit("cursor");
    reveal_strlit("q");
    reveal_strlit("f");
    assert("perPage"@.len() == 7);
    assert("cursor"@.len() == 6);
    assert("f"@.len() == 1);
    assert("q"@[0] == 'q');
    assert("f"@[0] == 'f');
    assert("q"@ != "f"@);
}

/// The filters' fixed wire-format tokens, in order.
pub open spec fn spec_filter_tokens<F: ToToken>(fs: Seq<F>) -> Seq<Seq<char>> {
    fs.map_values(|x: F| x.spec_token())
}

/// The parameter list a builder's accumulated state materializes to: its
/// clause list (if any) as the structured query, each filter as its
/// token, and a missing cursor as the first-page cursor `*`.
pub open spec fn spec_builder_params<K: ToKey, F: ToToken>(
    q: Option<Seq<(K, Seq<char>)>>,
    f: Option<Seq<F>>,
    c: Option<Seq<char>>,
) -> Seq<(Seq<char>, Seq<char>)> {
    spec_build_params(
        match q {
            Some(cs) => Some(query_format(cs)),
            None => None,
        },
        match f {
            Some(fs) => Some(join_with(spec_filter_tokens(fs), seq![','])),
            None => None,
        },
        match c {
            Some(cur) => cur,
            None => "*"@,
        },
    )
}

/// An optional clause list with each value read as a character sequence.
pub open spec fn opt_clauses_view<K>(q: Option<Vec<(K, String)>>) -> Option<Seq<(K, Seq<char>)>> {
    match q {
        Some(v) => Some(clauses_view(v@)),
        None => None,
    }
}

/// An optional filter list read as a sequence.
pub open spec fn opt_filters_view<F>(f: Option<Vec<F>>) -> Option<Seq<F>> {
    match f {
        Some(v) => Some(v@),
        None => None,
    }
}

/// An optional cursor read as a character sequence.
pub open spec fn opt_cursor_view(c: Option<String>) -> Option<Seq<char>> {
    match c {
        Some(s) => Some(s@),
        None => None,
    }
}

/// Materializes accumulated builder state into the outbound parameter
/// list.
pub fn builder_params<K: ToKey + Copy, F: ToToken>(
    query: &Option<Vec<(K, String)>>,
    filters: &Option<Vec<F>>,
    cursor: &Option<String>,
) -> (r: Vec<(String, String)>)
    ensures
        params_view(r@) == spec_builder_params(
            opt_clauses_view(*query),
            opt_filters_view(*filters),
            opt_cursor_view(*cursor),
        ),
{
    let query_expr: Option<SearchQuery<K>> = match query {
        Some(cs) => {
            let mut clauses: Vec<(K, String)> = Vec::new();
            let mut i: usize = 0;
            while i < cs.len()
                invariant
                    0 <= i <= cs@.len(),
                    clauses@ =~= cs@.take(i as int),
                decreases cs@.len() - i,
            {
                clauses.push((cs[i].0, cs[i].1.clone()));
                proof {
                    assert(clauses@ =~= cs@.take(i as int + 1));
                }
                i += 1;
            }
            proof {
                assert(cs@.take(cs@.len() as int) =~= cs@);
            }
            Some(SearchQuery::Structured(clauses))
        },
        None => None,
    };
    let filter_tokens: Option<Vec<String>> = match filters {
        Some(fs) => {
            let mut tokens: Vec<String> = Vec::new();
            let mut i: usize = 0;
            while i < fs.len()
                invariant
                    0 <= i <= fs@.len(),
                    texts_view(tokens@) =~= spec_filter_tokens(fs@.take(i as int)),
                decreases fs@.len() - i,
            {
                let ghost tokens_prev = tokens@;
                let tok = fs[i].token().to_owned();
                let ghost tokv = tok@;
                tokens.push(tok);
                proof {
                    let fprev = spec_filter_tokens(fs@.take(i as int));
                    let fnext = spec_filter_tokens(fs@.take(i as int + 1));
                    assert(texts_view(tokens_prev).len() == tokens_prev.len());
                    assert(fprev.len() == i as int);
                    assert(fnext.len() == i as int + 1);
                    assert(tokens_prev.len() == i as int);
                    assert(tokv == fs@[i as int].spec_token());
                    assert forall|j: int| 0 <= j < tokens@.len() implies texts_view(tokens@)[j]
                        == fnext[j] by {
                        assert(texts_view(tokens@)[j] == tokens@[j]@);
                        assert(fnext[j] == fs@.take(i as int + 1)[j].spec_token());
                        if j < i {
                            assert(tokens@[j] == tokens_prev[j]);
                            assert(texts_view(tokens_prev)[j] == tokens_prev[j]@);
                            assert(fprev[j] == fs@.take(i as int)[j].spec_token());
                        }
                    }
                    assert(texts_view(tokens@).len() == fnext.len());
                    assert(texts_view(tokens@) =~= fnext);
                }
                i += 1;
            }
            proof {
                assert(fs@.take(fs@.len() as int) =~= fs@);
            }
            Some(tokens)
        },
        None => None,
    };
    let cursor_text: String = match cursor {
        Some(c) => c.clone(),
        None => String::from_str("*"),
    };
    build_params(&query_expr, &filter_tokens, cursor_text.as_str())
}

/// The parameter list of a one-off free-text search: the text verbatim
/// under `q`, the first page, no filters.
pub fn free_text_params<K: ToKey>(query: String) -> (r: Vec<(String, String)>)
    ensures
        params_view(r@) == spec_build_params(Some(query@), None, "*"@),
{
    let q: Option<SearchQuery<K>> = Some(SearchQuery::FreeText(query));
    build_params(&q, &None::<Vec<String>>, "*")
}

/// Law: a builder that accumulated filters sends, as its last parameter,
/// `f` with the comma-join of their fixed tokens in insertion order; one
/// that accumulated none sends no parameter named `f`.
pub proof fn lemma_builder_filter_param<K: ToKey, F: ToToken>(
    q: Option<Seq<(K, Seq<char>)>>,
    f: Option<Seq<F>>,
    c: Option<Seq<char>>,
)
    ensures
        (f matches Some(fs) ==> spec_builder_params(q, f, c).last() == ("f"@, join_with(
            spec_filter_tokens(fs),
            seq![','],
        ))),
        f is None ==> forall|j: int|
            0 <= j < spec_builder_params(q, f, c).len() ==> (#[trigger] spec_builder_params(
                q,
                f,
                c,
            )[j]).0 != "f"@,
{
    let qp = match q {
        Some(cs) => Some(query_format(cs)),
        None => None,
    };
    let fp = match f {
        Some(fs) => Some(join_with(spec_filter_tokens(fs), seq![','])),
        None => None,
    };
    let cp = match c {
        Some(cur) => cur,
        None => "*"@,
    };
    lemma_filters_param(qp, fp, cp);
}

/// Law: a builder's parameter list always carries the cursor as its
/// second parameter — the cursor that was set, or the first-page cursor
/// `*` when none was.
pub proof fn lemma_builder_cursor_param<K: ToKey, F: ToToken>(
    q: Option<Seq<(K, Seq<char>)>>,
    f: Option<Seq<F>>,
    c: Option<Seq<char>>,
)
    ensures
        spec_builder_params(q, f, c)[1] == (
            "cursor"@,
            match c {
                Some(cur) => cur,
                None => "*"@,
            },
        ),
        spec_builder_params(q, f, c).len() >= 2,
{
}

/// Law: the serialization of a structured clause list splits on commas
/// into exactly one `key:value` segment per clause, in insertion order —
/// so it has no leading, trailing or doubled comma — as long as no key
/// token and no value contains a comma itself.
pub proof fn lemma_structured_format_splits<K: ToKey>(cs: Seq<(K, Seq<char>)>)
    requires
        cs.len() >= 1,
        forall|i: int| 0 <= i < cs.len() ==> !(#[trigger] clause_seg(cs[i])).contains(','),
    ensures
        split_on(query_format(cs), ',') == segs_of(cs),
{
    let segs = segs_of(cs);
    assert(forall|i: int| 0 <= i < segs.len() ==> !(#[trigger] segs[i]).contains(','));
    lemma_join_then_split(segs, ',');
}

} // verus!
