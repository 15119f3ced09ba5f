//! Splitting and joining text on a single separator character.
use vstd::prelude::*;

verus! {

/// The views of a sequence of strings.
pub open spec fn views(v: Seq<String>) -> Seq<Seq<char>> {
    v.map_values(|s: String| s@)
}

/// Scans `s` from the left, returning the pieces already closed by a
/// separator and the piece still open after the last separator.
pub open spec fn scan(s: Seq<char>, sep: char) -> (Seq<Seq<char>>, Seq<char>)
    decreases s.len(),
{
    if s.len() == 0 {
        (Seq::empty(), Seq::empty())
    } else {
        let (done, open) = scan(s.drop_last(), sep);
        if s.last() == sep {
            (done.push(open), Seq::empty())
        } else {
            (done, open.push(s.last()))
        }
    }
}

/// The pieces of `s` between occurrences of `sep`: one more than the
/// number of separators, possibly empty.
pub open spec fn pieces(s: Seq<char>, sep: char) -> Seq<Seq<char>> {
    scan(s, sep).0.push(scan(s, sep).1)
}

/// `parts` written one after another with `sep` between neighbours.
pub open spec fn joined(parts: Seq<Seq<char>>, sep: char) -> Seq<char>
    decreases parts.len(),
{
    if parts.len() == 0 {
        Seq::empty()
    } else if parts.len() == 1 {
        parts[0]
    } else {
        joined(parts.drop_last(), sep).push(sep) + parts.last()
    }
}

pub proof fn lemma_views_push(v: Seq<String>, s: String)
    ensures
        views(v.push(s)) == views(v).push(s@),
{
    assert(views(v.push(s)) =~= views(v).push(s@));
}

pub proof fn lemma_views_drop_last(v: Seq<String>)
    requires
        v.len() > 0,
    ensures
        views(v.drop_last()) == views(v).drop_last(),
{
    assert(views(v.drop_last()) =~= views(v).drop_last());
}

pub proof fn lemma_views_step(v: Seq<String>, i: int)
    requires
        0 <= i < v.len(),
    ensures
        views(v.subrange(0, i + 1)) == views(v.subrange(0, i)).push(v[i]@),
        views(v.subrange(i, i + 1)) == seq![v[i]@],
{
    assert(views(v.subrange(0, i + 1)) =~= views(v.subrange(0, i)).push(v[i]@));
    assert(views(v.subrange(i, i + 1)) =~= seq![v[i]@]);
}

pub proof fn lemma_views_empty(v: Seq<String>)
    requires
        v.len() == 0,
    ensures
        views(v) == Seq::<Seq<char>>::empty(),
{
    assert(views(v) =~= Seq::<Seq<char>>::empty());
}

/// Whether two strings hold the same characters.
pub fn same_text(a: &str, b: &str) -> (r: bool)
    ensures
        r == (a@ == b@),
{
    let x = String::from_str(a);
    let y = String::from_str(b);
    x == y
}

/// Splits `s` at every occurrence of `sep`.
pub fn split_on(s: &str, sep: char) -> (r: Vec<String>)
    ensures
        views(r@) == pieces(s@, sep),
{
    let n = s.unicode_len();
    let mut done: Vec<String> = Vec::new();
    let mut start: usize = 0;
    let mut i: usize = 0;
    while i < n
        invariant
            n == s@.len(),
            start <= i <= n,
            scan(s@.subrange(0, i as int), sep) == (views(done@), s@.subrange(start as int, i as int)),
        decreases n - i,
    {
        let c = s.get_char(i);
        let ghost prefix = s@.subrange(0, i as int + 1);
        assert(prefix.drop_last() =~= s@.subrange(0, i as int));
        if c == sep {
            let piece = String::from_str(s.substring_char(start, i));
            proof {
                assert(views(done@.push(piece)) =~= views(done@).push(piece@));
            }
            done.push(piece);
            start = i + 1;
        } else {
            assert(s@.subrange(start as int, i as int).push(c) =~= s@.subrange(
                start as int,
                i as int + 1,
            ));
        }
        i = i + 1;
    }
    assert(s@.subrange(0, n as int) =~= s@);
    let last = String::from_str(s.substring_char(start, n));
    proof {
        assert(views(done@.push(last)) =~= views(done@).push(last@));
    }
    done.push(last);
    done
}

/// Writes `parts` one after another with the one-character `sep` between them.
pub fn join_with(parts: &Vec<String>, sep: &str) -> (r: String)
    requires
        sep@.len() == 1,
    ensures
        r@ == joined(views(parts@), sep@[0]),
{
    let mut out = String::new();
    let mut i: usize = 0;
    while i < parts.len()
        invariant
            sep@.len() == 1,
            i <= parts@.len(),
            out@ == joined(views(parts@.subrange(0, i as int)), sep@[0]),
        decreases parts@.len() - i,
    {
        let ghost before = views(parts@.subrange(0, i as int));
        let ghost after = views(parts@.subrange(0, i as int + 1));
        assert(after.drop_last() =~= before);
        assert(after.last() == parts@[i as int]@);
        if i > 0 {
            out.append(sep);
            assert(sep@ =~= seq![sep@[0]]);
        } else {
            assert(after.len() == 1);
        }
        out.append(parts[i].as_str());
        i = i + 1;
    }
    assert(parts@.subrange(0, parts@.len() as int) =~= parts@);
    out
}

/// `s` does not hold `sep`.
pub open spec fn free_of(s: Seq<char>, sep: char) -> bool {
    forall|i: int| 0 <= i < s.len() ==> s[i] != sep
}

proof fn lemma_scan_free(t: Seq<char>, sep: char)
    requires
        free_of(t, sep),
    ensures
        scan(t, sep) == (Seq::<Seq<char>>::empty(), t),
    decreases t.len(),
{
    if t.len() > 0 {
        lemma_scan_free(t.drop_last(), sep);
        assert(t.drop_last().push(t.last()) =~= t);
    }
}

proof fn lemma_scan_after_sep(s: Seq<char>, t: Seq<char>, sep: char)
    requires
        free_of(t, sep),
    ensures
        scan(s.push(sep) + t, sep) == (pieces(s, sep), t),
    decreases t.len(),
{
    let u = s.push(sep) + t;
    if t.len() == 0 {
        assert(u =~= s.push(sep));
        assert(s.push(sep).drop_last() =~= s);
    } else {
        assert(u.drop_last() =~= s.push(sep) + t.drop_last());
        assert(u.last() == t.last());
        lemma_scan_after_sep(s, t.drop_last(), sep);
        assert(t.drop_last().push(t.last()) =~= t);
    }
}

/// Splitting what `joined` wrote gives back the parts, when none holds
/// the separator.
pub proof fn lemma_pieces_joined(prefix: Seq<char>, parts: Seq<Seq<char>>, sep: char)
    requires
        parts.len() > 0,
        forall|i: int| 0 <= i < parts.len() ==> free_of(#[trigger] parts[i], sep),
    ensures
        pieces(prefix.push(sep) + joined(parts, sep), sep) == pieces(prefix, sep) + parts,
        pieces(joined(parts, sep), sep) == parts,
    decreases parts.len(),
{
    if parts.len() == 1 {
        assert(free_of(parts[0], sep));
        lemma_scan_after_sep(prefix, parts[0], sep);
        lemma_scan_free(parts[0], sep);
        assert(pieces(prefix, sep).push(parts[0]) =~= pieces(prefix, sep) + parts);
        assert(Seq::<Seq<char>>::empty().push(parts[0]) =~= parts);
    } else {
        let init = parts.drop_last();
        assert forall|i: int| 0 <= i < init.len() implies free_of(#[trigger] init[i], sep) by {
            assert(init[i] == parts[i]);
        }
        assert(free_of(parts[parts.len() - 1], sep));
        lemma_pieces_joined(prefix, init, sep);
        let x = prefix.push(sep) + joined(init, sep);
        assert(prefix.push(sep) + joined(parts, sep) =~= x.push(sep) + parts.last());
        lemma_scan_after_sep(x, parts.last(), sep);
        assert((pieces(prefix, sep) + init).push(parts.last()) =~= pieces(prefix, sep) + parts);
        lemma_scan_after_sep(joined(init, sep), parts.last(), sep);
        assert(init.push(parts.last()) =~= parts);
    }
}

/// `joined` starts with the first part.
pub proof fn lemma_joined_starts_with_first(parts: Seq<Seq<char>>, sep: char)
    requires
        parts.len() > 0,
    ensures
        joined(parts, sep).len() >= parts[0].len(),
        forall|k: int| 0 <= k < parts[0].len() ==> joined(parts, sep)[k] == parts[0][k],
    decreases parts.len(),
{
    if parts.len() > 1 {
        lemma_joined_starts_with_first(parts.drop_last(), sep);
    }
}

/// No piece holds the separator.
pub proof fn lemma_pieces_free(s: Seq<char>, sep: char)
    ensures
        forall|i: int| 0 <= i < pieces(s, sep).len() ==> free_of(#[trigger] pieces(s, sep)[i], sep),
    decreases s.len(),
{
    if s.len() > 0 {
        lemma_pieces_free(s.drop_last(), sep);
        let (done, open) = scan(s.drop_last(), sep);
        assert(pieces(s.drop_last(), sep) == done.push(open));
        assert forall|i: int| 0 <= i < done.len() implies free_of(#[trigger] done[i], sep) by {
            assert(done.push(open)[i] == done[i]);
        }
        assert(free_of(done.push(open)[done.len() as int], sep));
        if s.last() != sep {
            assert(free_of(open.push(s.last()), sep)) by {
                assert forall|k: int| 0 <= k < open.push(s.last()).len() implies open.push(s.last())[k] != sep by {
                    if k < open.len() {
                        assert(open.push(s.last())[k] == open[k]);
                    }
                }
            }
        }
        let ps = pieces(s, sep);
        assert forall|i: int| 0 <= i < ps.len() implies free_of(#[trigger] ps[i], sep) by {
            if s.last() == sep {
                if i < done.len() {
                    assert(ps[i] == done[i]);
                } else if i == done.len() {
                    assert(ps[i] == open);
                } else {
                    assert(ps[i] == Seq::<char>::empty());
                }
            } else {
                if i < done.len() {
                    assert(ps[i] == done[i]);
                } else {
                    assert(ps[i] == open.push(s.last()));
                }
            }
        }
    } else {
        let ps = pieces(s, sep);
        assert(ps =~= seq![Seq::<char>::empty()]);
    }
}

} // verus!
