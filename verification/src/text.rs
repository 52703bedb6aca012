//! Character-level string operations used to take `PATH`-like lists apart and
//! put them back together, with their mathematical models.
use vstd::prelude::*;

verus! {

/// The pieces of `s` between occurrences of `sep`, as `str::split` with a
/// `char` pattern yields them: an empty `s` gives one empty piece, and two
/// adjacent separators give an empty piece between them.
pub open spec fn split(s: Seq<char>, sep: char) -> Seq<Seq<char>>
    decreases s.len(),
{
    if s.len() == 0 {
        seq![Seq::<char>::empty()]
    } else {
        let pieces = split(s.drop_last(), sep);
        if s.last() == sep {
            pieces.push(Seq::<char>::empty())
        } else {
            pieces.update(pieces.len() - 1, pieces.last().push(s.last()))
        }
    }
}

/// The pieces of `parts` with `sep` between each two neighbours, as
/// `[..].join(sep)` builds it.
pub open spec fn join(parts: Seq<Seq<char>>, sep: Seq<char>) -> Seq<char>
    decreases parts.len(),
{
    if parts.len() == 0 {
        Seq::<char>::empty()
    } else if parts.len() == 1 {
        parts[0]
    } else {
        join(parts.drop_last(), sep) + sep + parts.last()
    }
}

/// The entries of `xs` that do not occur in `drop`, in their order.
pub open spec fn without(xs: Seq<Seq<char>>, drop: Seq<Seq<char>>) -> Seq<Seq<char>>
    decreases xs.len(),
{
    if xs.len() == 0 {
        Seq::<Seq<char>>::empty()
    } else if drop.contains(xs.last()) {
        without(xs.drop_last(), drop)
    } else {
        without(xs.drop_last(), drop).push(xs.last())
    }
}

/// Splitting always yields at least one piece.
pub proof fn lemma_split_nonempty(s: Seq<char>, sep: char)
    ensures
        split(s, sep).len() >= 1,
    decreases s.len(),
{
    if s.len() > 0 {
        lemma_split_nonempty(s.drop_last(), sep);
    }
}

/// No piece of a split holds the separator.
pub proof fn lemma_split_pieces(s: Seq<char>, sep: char)
    ensures
        forall|i: int| 0 <= i < split(s, sep).len() ==> !(#[trigger] split(s, sep)[i]).contains(sep),
    decreases s.len(),
{
    if s.len() > 0 {
        lemma_split_pieces(s.drop_last(), sep);
        lemma_split_nonempty(s.drop_last(), sep);
        let pieces = split(s.drop_last(), sep);
        if s.last() != sep {
            let n = pieces.len() - 1;
            assert forall|i: int| 0 <= i < split(s, sep).len() implies !(#[trigger] split(
                s,
                sep,
            )[i]).contains(sep) by {
                if i == n {
                    let p = pieces.last().push(s.last());
                    assert(!pieces[n].contains(sep));
                    if p.contains(sep) {
                        let j = choose|j: int| 0 <= j < p.len() && p[j] == sep;
                        if j < p.len() - 1 {
                            assert(pieces[n][j] == sep);
                        }
                    }
                }
            }
        } else {
            assert forall|i: int| 0 <= i < split(s, sep).len() implies !(#[trigger] split(
                s,
                sep,
            )[i]).contains(sep) by {
                if i < pieces.len() {
                    assert(split(s, sep)[i] == pieces[i]);
                }
            }
        }
    }
}

/// A text without the separator splits into itself alone.
pub proof fn lemma_split_single(s: Seq<char>, sep: char)
    requires
        !s.contains(sep),
    ensures
        split(s, sep) == seq![s],
    decreases s.len(),
{
    if s.len() > 0 {
        assert(!s.drop_last().contains(sep)) by {
            if s.drop_last().contains(sep) {
                let j = choose|j: int| 0 <= j < s.drop_last().len() && s.drop_last()[j] == sep;
                assert(s[j] == sep);
            }
        }
        lemma_split_single(s.drop_last(), sep);
        assert(s.last() != sep) by {
            assert(s[s.len() - 1] == s.last());
        }
        assert(s.drop_last().push(s.last()) =~= s);
        assert(split(s, sep) =~= seq![s]);
    } else {
        assert(s =~= Seq::<char>::empty());
    }
}

/// Splitting at a separator splits the two sides apart.
pub proof fn lemma_split_concat(a: Seq<char>, b: Seq<char>, sep: char)
    ensures
        split(a + seq![sep] + b, sep) == split(a, sep) + split(b, sep),
    decreases b.len(),
{
    let s = a + seq![sep] + b;
    if b.len() == 0 {
        assert(s.drop_last() =~= a);
        assert(split(a, sep) + split(b, sep) =~= split(a, sep).push(Seq::<char>::empty()));
    } else {
        lemma_split_concat(a, b.drop_last(), sep);
        assert(s.drop_last() =~= a + seq![sep] + b.drop_last());
        assert(s.last() == b.last());
        lemma_split_nonempty(b.drop_last(), sep);
        lemma_split_nonempty(a, sep);
        let pa = split(a, sep);
        let pb = split(b.drop_last(), sep);
        if b.last() == sep {
            assert(split(s, sep) =~= pa + pb.push(Seq::<char>::empty()));
        } else {
            assert((pa + pb).update((pa + pb).len() - 1, (pa + pb).last().push(s.last())) =~= pa
                + pb.update(pb.len() - 1, pb.last().push(b.last())));
        }
    }
}

/// Joining after a split gives the text back.
pub proof fn lemma_join_split(s: Seq<char>, sep: char)
    ensures
        join(split(s, sep), seq![sep]) == s,
    decreases s.len(),
{
    if s.len() > 0 {
        lemma_join_split(s.drop_last(), sep);
        lemma_split_nonempty(s.drop_last(), sep);
        let pieces = split(s.drop_last(), sep);
        if s.last() == sep {
            assert(pieces.push(Seq::<char>::empty()).drop_last() =~= pieces);
            assert(join(pieces.push(Seq::<char>::empty()), seq![sep]) =~= join(pieces, seq![sep])
                + seq![sep]);
            assert(s.drop_last().push(sep) =~= s);
        } else {
            lemma_join_push_last(pieces, seq![sep], s.last());
            assert(s.drop_last().push(s.last()) =~= s);
        }
    }
}

/// Appending a character to the last part appends it to the joined text.
pub proof fn lemma_join_push_last(parts: Seq<Seq<char>>, sep: Seq<char>, c: char)
    requires
        parts.len() >= 1,
    ensures
        join(parts.update(parts.len() - 1, parts.last().push(c)), sep) == join(parts, sep).push(c),
{
    let upd = parts.update(parts.len() - 1, parts.last().push(c));
    if parts.len() == 1 {
        assert(upd[0] == parts[0].push(c));
    } else {
        assert(upd.drop_last() =~= parts.drop_last());
        assert(upd.last() == parts.last().push(c));
        assert(join(upd, sep) == join(parts.drop_last(), sep) + sep + parts.last().push(c));
        assert(join(parts.drop_last(), sep) + sep + parts.last().push(c) =~= (join(
            parts.drop_last(),
            sep,
        ) + sep + parts.last()).push(c));
    }
}

/// Splitting a joined list gives the list back when no part holds the separator.
pub proof fn lemma_split_join(parts: Seq<Seq<char>>, sep: char)
    requires
        parts.len() >= 1,
        forall|i: int| 0 <= i < parts.len() ==> !(#[trigger] parts[i]).contains(sep),
    ensures
        split(join(parts, seq![sep]), sep) == parts,
    decreases parts.len(),
{
    if parts.len() == 1 {
        lemma_split_single(parts[0], sep);
        assert(seq![parts[0]] =~= parts);
    } else {
        let init = parts.drop_last();
        assert forall|i: int| 0 <= i < init.len() implies !(#[trigger] init[i]).contains(sep) by {
            assert(init[i] == parts[i]);
        }
        lemma_split_join(init, sep);
        lemma_split_concat(join(init, seq![sep]), parts.last(), sep);
        assert(!parts[parts.len() - 1].contains(sep));
        lemma_split_single(parts.last(), sep);
        assert(init + seq![parts.last()] =~= parts);
    }
}

/// The first part starts the joined text, so the text is at least as long.
pub proof fn lemma_join_first(parts: Seq<Seq<char>>, sep: Seq<char>)
    requires
        parts.len() >= 1,
    ensures
        parts[0].is_prefix_of(join(parts, sep)),
    decreases parts.len(),
{
    if parts.len() > 1 {
        lemma_join_first(parts.drop_last(), sep);
        let j = join(parts.drop_last(), sep);
        assert(parts.drop_last()[0] == parts[0]);
        assert forall|i: int| 0 <= i < parts[0].len() implies parts[0][i] == join(parts, sep)[i] by {
            assert(j[i] == parts[0][i]);
            assert((j + sep + parts.last())[i] == j[i]);
        }
        assert(parts[0] =~= join(parts, sep).subrange(0, parts[0].len() as int));
    } else {
        assert(parts[0] =~= join(parts, sep).subrange(0, parts[0].len() as int));
    }
}

/// Removing entries distributes over concatenation.
pub proof fn lemma_without_concat(xs: Seq<Seq<char>>, ys: Seq<Seq<char>>, drop: Seq<Seq<char>>)
    ensures
        without(xs + ys, drop) == without(xs, drop) + without(ys, drop),
    decreases ys.len(),
{
    if ys.len() == 0 {
        assert(xs + ys =~= xs);
        assert(without(xs, drop) + without(ys, drop) =~= without(xs, drop));
    } else {
        lemma_without_concat(xs, ys.drop_last(), drop);
        assert((xs + ys).drop_last() =~= xs + ys.drop_last());
        assert((xs + ys).last() == ys.last());
        if !drop.contains(ys.last()) {
            assert(without(xs, drop) + without(ys.drop_last(), drop).push(ys.last()) =~= (without(
                xs,
                drop,
            ) + without(ys.drop_last(), drop)).push(ys.last()));
        }
    }
}

/// Removing entries that do not occur changes nothing.
pub proof fn lemma_without_none(xs: Seq<Seq<char>>, drop: Seq<Seq<char>>)
    requires
        forall|i: int| 0 <= i < xs.len() ==> !drop.contains(#[trigger] xs[i]),
    ensures
        without(xs, drop) == xs,
    decreases xs.len(),
{
    if xs.len() > 0 {
        let init = xs.drop_last();
        assert forall|i: int| 0 <= i < init.len() implies !drop.contains(#[trigger] init[i]) by {
            assert(init[i] == xs[i]);
        }
        lemma_without_none(init, drop);
        assert(!drop.contains(xs[xs.len() - 1]));
        assert(init.push(xs.last()) =~= xs);
    }
}

/// Every entry of `xs` that is not in `drop` is left after removal.
pub proof fn lemma_without_keeps(xs: Seq<Seq<char>>, drop: Seq<Seq<char>>)
    ensures
        forall|i: int|
            0 <= i < xs.len() && !drop.contains(#[trigger] xs[i]) ==> without(xs, drop).contains(
                xs[i],
            ),
    decreases xs.len(),
{
    if xs.len() > 0 {
        let init = xs.drop_last();
        lemma_without_keeps(init, drop);
        let w = without(xs, drop);
        assert forall|i: int| 0 <= i < xs.len() && !drop.contains(#[trigger] xs[i]) implies w.contains(
            xs[i],
        ) by {
            if i < xs.len() - 1 {
                assert(init[i] == xs[i]);
                let wi = without(init, drop);
                let j = choose|j: int| 0 <= j < wi.len() && wi[j] == init[i];
                assert(w[j] == wi[j]);
            } else {
                assert(xs[i] == xs.last());
                assert(w[w.len() - 1] == xs.last());
            }
        }
    }
}

/// Every entry left after removal is one of `xs` and none of `drop`.
pub proof fn lemma_without_entries(xs: Seq<Seq<char>>, drop: Seq<Seq<char>>)
    ensures
        forall|i: int|
            0 <= i < without(xs, drop).len() ==> !drop.contains(#[trigger] without(xs, drop)[i])
                && xs.contains(without(xs, drop)[i]),
    decreases xs.len(),
{
    if xs.len() > 0 {
        let init = xs.drop_last();
        lemma_without_entries(init, drop);
        let w = without(xs, drop);
        assert forall|i: int| 0 <= i < w.len() implies !drop.contains(#[trigger] w[i])
            && xs.contains(w[i]) by {
            let wi = without(init, drop);
            if i < wi.len() {
                assert(w[i] == wi[i]);
                let j = choose|j: int| 0 <= j < init.len() && init[j] == wi[i];
                assert(xs[j] == init[j]);
            } else {
                assert(w[i] == xs.last());
                assert(xs[xs.len() - 1] == xs.last());
            }
        }
    }
}

/// `String::push`: appends one character.
#[verifier::external_body]
pub(crate) fn push_char(s: &mut String, c: char)
    ensures
        final(s)@ == old(s)@.push(c),
{
    s.push(c)
}

/// The characters of `s`, in order.
pub fn chars_of(s: &str) -> (v: Vec<char>)
    ensures
        v@ == s@,
{
    let mut v: Vec<char> = Vec::new();
    for ch in it: s.chars()
        invariant
            v@ == it.seq().take(it.index() as int),
            it.seq() == s@,
    {
        v.push(ch);
    }
    v
}

/// Whether `prefix` is a prefix of `s`, as `str::starts_with`.
pub fn starts_with(s: &str, prefix: &str) -> (b: bool)
    ensures
        b == prefix@.is_prefix_of(s@),
{
    let sv = chars_of(s);
    let pv = chars_of(prefix);
    if pv.len() > sv.len() {
        return false;
    }
    let mut i: usize = 0;
    while i < pv.len()
        invariant
            pv.len() <= sv.len(),
            i <= pv.len(),
            sv@ == s@,
            pv@ == prefix@,
            forall|j: int| 0 <= j < i ==> pv@[j] == sv@[j],
        decreases pv.len() - i,
    {
        if pv[i] != sv[i] {
            assert(!(prefix@ =~= s@.subrange(0, prefix@.len() as int))) by {
                assert(s@.subrange(0, prefix@.len() as int)[i as int] == sv@[i as int]);
            }
            return false;
        }
        i = i + 1;
    }
    assert(prefix@ =~= s@.subrange(0, prefix@.len() as int));
    true
}

/// Whether `a` and `b` are the same text.
pub fn str_eq(a: &str, b: &str) -> (r: bool)
    ensures
        r == (a@ == b@),
{
    let av = chars_of(a);
    let bv = chars_of(b);
    if av.len() != bv.len() {
        return false;
    }
    let mut i: usize = 0;
    while i < av.len()
        invariant
            av.len() == bv.len(),
            i <= av.len(),
            av@ == a@,
            bv@ == b@,
            forall|j: int| 0 <= j < i ==> av@[j] == bv@[j],
        decreases av.len() - i,
    {
        if av[i] != bv[i] {
            return false;
        }
        i = i + 1;
    }
    assert(a@ =~= b@);
    true
}

/// `s` cut at each `sep`, as `s.split(sep)` collects.
pub fn split_str(s: &str, sep: char) -> (pieces: Vec<String>)
    ensures
        pieces.deep_view() == split(s@, sep),
{
    let mut pieces: Vec<String> = Vec::new();
    let mut cur = String::new();
    for ch in it: s.chars()
        invariant
            it.seq() == s@,
            pieces.deep_view().push(cur@) == split(it.seq().take(it.index() as int), sep),
    {
        let ghost before = it.seq().take(it.index() as int);
        let ghost after = it.seq().take(it.index() + 1);
        proof {
            assert(after.drop_last() =~= before);
            assert(after.last() == ch);
            lemma_split_nonempty(before, sep);
        }
        if ch == sep {
            pieces.push(cur);
            cur = String::new();
            assert(pieces.deep_view().push(cur@) =~= split(after, sep));
        } else {
            let ghost old_pieces = pieces.deep_view();
            let ghost old_cur = cur@;
            push_char(&mut cur, ch);
            assert(pieces.deep_view() == old_pieces);
            assert(pieces.deep_view().push(cur@) =~= old_pieces.push(old_cur).update(
                old_pieces.len() as int,
                old_cur.push(ch),
            ));
        }
    }
    assert(s@.take(s@.len() as int) =~= s@);
    pieces.push(cur);
    pieces
}

/// The parts joined by `sep`, as `parts.join(sep)` builds it.
pub fn join_strs(parts: &Vec<String>, sep: &str) -> (r: String)
    ensures
        r@ == join(parts.deep_view(), sep@),
{
    let mut r = String::new();
    let ghost dv = parts.deep_view();
    let mut i: usize = 0;
    while i < parts.len()
        invariant
            i <= parts.len(),
            dv == parts.deep_view(),
            r@ == join(dv.take(i as int), sep@),
        decreases parts.len() - i,
    {
        if i > 0 {
            r.append(sep);
        }
        r.append(parts[i].as_str());
        proof {
            let t = dv.take(i + 1);
            assert(t.drop_last() =~= dv.take(i as int));
            assert(t.last() == parts@[i as int]@);
            if i == 0 {
                assert(t.len() == 1);
            }
        }
        i = i + 1;
    }
    assert(dv.take(parts.len() as int) =~= dv);
    r
}

/// Whether some entry of `list` equals `s`.
pub fn contains_string(list: &Vec<String>, s: &String) -> (b: bool)
    ensures
        b == list.deep_view().contains(s@),
{
    let mut i: usize = 0;
    while i < list.len()
        invariant
            i <= list.len(),
            forall|j: int| 0 <= j < i ==> list.deep_view()[j] != s@,
        decreases list.len() - i,
    {
        if list[i] == *s {
            assert(list.deep_view()[i as int] == s@);
            return true;
        }
        i = i + 1;
    }
    false
}

/// The entries of `xs` that do not occur in `drop`, in order.
pub fn without_strs(xs: &Vec<String>, drop: &Vec<String>) -> (r: Vec<String>)
    ensures
        r.deep_view() == without(xs.deep_view(), drop.deep_view()),
{
    let mut r: Vec<String> = Vec::new();
    let ghost dv = xs.deep_view();
    let mut i: usize = 0;
    while i < xs.len()
        invariant
            i <= xs.len(),
            dv == xs.deep_view(),
            r.deep_view() == without(dv.take(i as int), drop.deep_view()),
        decreases xs.len() - i,
    {
        proof {
            let t = dv.take(i + 1);
            assert(t.drop_last() =~= dv.take(i as int));
            assert(t.last() == xs@[i as int]@);
        }
        if !contains_string(drop, &xs[i]) {
            let ghost before = r.deep_view();
            r.push(xs[i].clone());
            assert(r.deep_view() =~= before.push(xs@[i as int]@));
        }
        i = i + 1;
    }
    assert(dv.take(xs.len() as int) =~= dv);
    r
}

} // verus!
