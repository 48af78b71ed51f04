//! Joining and splitting of character sequences.
//!
//! The query grammar joins segments with a separator; the lemmas here pin
//! down that the joined text can be split back into exactly the segments
//! it was built from, as long as no segment contains the separator.

use vstd::prelude::*;

verus! {

/// A text list with each text read as a character sequence.
pub open spec fn texts_view(v: Seq<String>) -> Seq<Seq<char>> {
    v.map_values(|s: String| s@)
}

/// The segments joined by `sep`: nothing for no segments, the lone
/// segment for one, and otherwise each segment with `sep` between two
/// neighbours.
pub open spec fn join_with(parts: Seq<Seq<char>>, sep: Seq<char>) -> Seq<char>
    decreases parts.len(),
{
    if parts.len() == 0 {
        Seq::empty()
    } else if parts.len() == 1 {
        parts[0]
    } else {
        parts[0] + sep + join_with(parts.skip(1), sep)
    }
}

/// Joining one more segment appends it after one more separator.
proof fn lemma_join_push(parts: Seq<Seq<char>>, sep: Seq<char>, p: Seq<char>)
    ensures
        parts.len() == 0 ==> join_with(parts.push(p), sep) == p,
        parts.len() >= 1 ==> join_with(parts.push(p), sep) == join_with(parts, sep) + sep + p,
    decreases parts.len(),
{
    if parts.len() == 0 {
        assert(join_with(parts.push(p), sep) == parts.push(p)[0]);
        assert(parts.push(p)[0] == p);
    } else if parts.len() == 1 {
        assert(parts.push(p).skip(1) =~= seq![p]);
        assert(parts.push(p)[0] == parts[0]);
        assert(seq![p][0] == p);
        assert(join_with(seq![p], sep) == p);
        assert(join_with(parts.push(p), sep) == parts[0] + sep + p);
    } else {
        lemma_join_push(parts.skip(1), sep, p);
        assert(parts.push(p).skip(1) =~= parts.skip(1).push(p));
        assert(join_with(parts.push(p), sep) == parts[0] + sep + (join_with(parts.skip(1), sep)
            + sep + p));
        assert(parts[0] + sep + (join_with(parts.skip(1), sep) + sep + p) =~= (parts[0] + sep
            + join_with(parts.skip(1), sep)) + sep + p);
    }
}

/// Joins the given texts with a comma between two neighbours.
pub fn join_comma(parts: &Vec<String>) -> (r: String)
    ensures
        r@ == join_with(texts_view(parts@), seq![',']),
{
    let mut r = String::new();
    let mut i: usize = 0;
    while i < parts.len()
        invariant
            0 <= i <= parts@.len(),
            r@ == join_with(texts_view(parts@.take(i as int)), seq![',']),
        decreases parts@.len() - i,
    {
        if i > 0 {
            r.append(",");
        }
        r.append(parts[i].as_str());
        proof {
            reveal_strlit(",");
            assert(","@ =~= seq![',']);
            let mapped = texts_view(parts@.take(i as int));
            lemma_join_push(mapped, seq![','], parts@[i as int]@);
            assert(texts_view(parts@.take(i as int + 1)) =~= mapped.push(parts@[i as int]@));
        }
        i += 1;
    }
    proof {
        assert(parts@.take(parts@.len() as int) =~= parts@);
    }
    r
}

/// The segments of `s` between occurrences of `sep`: one more segment
/// than there are separators, each free of `sep`, possibly empty.
pub open spec fn split_on(s: Seq<char>, sep: char) -> Seq<Seq<char>>
    decreases s.len(),
{
    if s.len() == 0 {
        seq![Seq::<char>::empty()]
    } else if s[0] == sep {
        seq![Seq::<char>::empty()] + split_on(s.skip(1), sep)
    } else {
        let rest = split_on(s.skip(1), sep);
        seq![seq![s[0]] + rest[0]] + rest.skip(1)
    }
}

/// A split yields at least one segment.
proof fn lemma_split_nonempty(s: Seq<char>, sep: char)
    ensures
        split_on(s, sep).len() >= 1,
    decreases s.len(),
{
    if s.len() > 0 {
        lemma_split_nonempty(s.skip(1), sep);
    }
}

/// Splitting a text free of the separator yields the text alone.
proof fn lemma_split_no_sep(s: Seq<char>, sep: char)
    requires
        !s.contains(sep),
    ensures
        split_on(s, sep) == seq![s],
    decreases s.len(),
{
    if s.len() == 0 {
        assert(s =~= Seq::<char>::empty());
        assert(split_on(s, sep) =~= seq![s]);
    } else {
        assert(s[0] != sep);
        assert(!s.skip(1).contains(sep)) by {
            if s.skip(1).contains(sep) {
                let j = choose|j: int| 0 <= j < s.skip(1).len() && s.skip(1)[j] == sep;
                assert(s[j + 1] == sep);
            }
        }
        lemma_split_no_sep(s.skip(1), sep);
        lemma_split_nonempty(s.skip(1), sep);
        let rest = split_on(s.skip(1), sep);
        assert(rest[0] == s.skip(1));
        assert(seq![s[0]] + s.skip(1) =~= s);
        assert(rest.skip(1) =~= Seq::<Seq<char>>::empty());
        assert(split_on(s, sep) =~= seq![s]);
    }
}

/// Splitting `a`, a separator, then `t` yields `a` and then the split of
/// `t`, as long as `a` is free of the separator.
proof fn lemma_split_sep_concat(a: Seq<char>, sep: char, t: Seq<char>)
    requires
        !a.contains(sep),
    ensures
        split_on(a + seq![sep] + t, sep) == seq![a] + split_on(t, sep),
    decreases a.len(),
{
    let s = a + seq![sep] + t;
    if a.len() == 0 {
        assert(s =~= seq![sep] + t);
        assert(s[0] == sep);
        assert(s.skip(1) =~= t);
        assert(a =~= Seq::<char>::empty());
        assert(split_on(s, sep) =~= seq![a] + split_on(t, sep));
    } else {
        assert(s[0] == a[0]);
        assert(a.contains(sep) <== a[0] == sep);
        assert(!a.skip(1).contains(sep)) by {
            if a.skip(1).contains(sep) {
                let j = choose|j: int| 0 <= j < a.skip(1).len() && a.skip(1)[j] == sep;
                assert(a[j + 1] == sep);
            }
        }
        assert(s.skip(1) =~= a.skip(1) + seq![sep] + t);
        lemma_split_sep_concat(a.skip(1), sep, t);
        lemma_split_nonempty(t, sep);
        let rest = split_on(s.skip(1), sep);
        assert(rest == seq![a.skip(1)] + split_on(t, sep));
        assert(rest[0] == a.skip(1));
        assert(seq![s[0]] + a.skip(1) =~= a);
        assert(rest.skip(1) =~= split_on(t, sep));
        assert(split_on(s, sep) =~= seq![a] + split_on(t, sep));
    }
}

/// Law: splitting a joined text on the separator recovers exactly the
/// segments it was joined from, in order, as long as each segment is free
/// of the separator.
pub proof fn lemma_join_then_split(parts: Seq<Seq<char>>, sep: char)
    requires
        parts.len() >= 1,
        forall|i: int| 0 <= i < parts.len() ==> !(#[trigger] parts[i]).contains(sep),
    ensures
        split_on(join_with(parts, seq![sep]), sep) == parts,
    decreases parts.len(),
{
    if parts.len() == 1 {
        lemma_split_no_sep(parts[0], sep);
        assert(seq![parts[0]] =~= parts);
    } else {
        assert(forall|i: int|
            0 <= i < parts.skip(1).len() ==> !(#[trigger] parts.skip(1)[i]).contains(sep));
        lemma_join_then_split(parts.skip(1), sep);
        lemma_split_sep_concat(parts[0], sep, join_with(parts.skip(1), seq![sep]));
        assert(join_with(parts, seq![sep]) == parts[0] + seq![sep] + join_with(
            parts.skip(1),
            seq![sep],
        ));
        assert(seq![parts[0]] + parts.skip(1) =~= parts);
    }
}

} // verus!
