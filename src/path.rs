//! A model of Unix paths by their components, and the operations that
//! path mapping and category derivation need: parent, prefix stripping,
//! joining, file names, stems and extensions.
//!
//! Two paths with the same components are the same path: `a//b/./c/` and
//! `a/b/c` both have the components `a`, `b`, `c`.
use vstd::prelude::*;
use crate::text::{
    join_with, joined, lemma_views_drop_last, lemma_views_empty, lemma_views_push, lemma_views_step,
    pieces, split_on, views, free_of, lemma_pieces_joined, lemma_joined_starts_with_first,
    lemma_pieces_free,
};

verus! {

/// The components of a path: an optional root (`/`), an optional leading
/// current-directory marker (`.`, only when there is no root) and the
/// names that follow, `..` included.
pub struct PathParts {
    pub rooted: bool,
    pub dotted: bool,
    pub names: Seq<Seq<char>>,
}

/// A piece between separators that names a component: not empty, not `.`.
pub open spec fn is_name(piece: Seq<char>) -> bool {
    piece.len() > 0 && piece != seq!['.']
}

/// The pieces that are names, in order.
pub open spec fn keep_names(ps: Seq<Seq<char>>) -> Seq<Seq<char>>
    decreases ps.len(),
{
    if ps.len() == 0 {
        Seq::empty()
    } else if is_name(ps.last()) {
        keep_names(ps.drop_last()).push(ps.last())
    } else {
        keep_names(ps.drop_last())
    }
}

pub open spec fn starts_rooted(s: Seq<char>) -> bool {
    s.len() > 0 && s[0] == '/'
}

pub open spec fn starts_dotted(s: Seq<char>) -> bool {
    !starts_rooted(s) && s.len() > 0 && s[0] == '.' && (s.len() == 1 || s[1] == '/')
}

/// The components of the path written `s`.
pub open spec fn parse(s: Seq<char>) -> PathParts {
    PathParts {
        rooted: starts_rooted(s),
        dotted: starts_dotted(s),
        names: keep_names(pieces(s, '/')),
    }
}

/// A path without any component, written as the empty string.
pub open spec fn is_empty_path(p: PathParts) -> bool {
    !p.rooted && !p.dotted && p.names.len() == 0
}

/// The canonical text of a path: `/` for the root, `.` for a leading
/// current-directory marker, and the names joined by `/`.
pub open spec fn render(p: PathParts) -> Seq<char> {
    if p.rooted {
        seq!['/'] + joined(p.names, '/')
    } else if p.dotted {
        if p.names.len() == 0 {
            seq!['.']
        } else {
            seq!['.', '/'] + joined(p.names, '/')
        }
    } else {
        joined(p.names, '/')
    }
}

/// The name `..`.
pub open spec fn is_up(name: Seq<char>) -> bool {
    name == seq!['.', '.']
}

/// The directory that holds `p`: `p` without its last component, when
/// that component is a name or the current-directory marker.
pub open spec fn parent(p: PathParts) -> Option<PathParts> {
    if p.names.len() > 0 {
        Some(PathParts { names: p.names.drop_last(), ..p })
    } else if p.dotted {
        Some(PathParts { rooted: false, dotted: false, names: Seq::empty() })
    } else {
        None
    }
}

/// What is left of `p` after the components of `base`, when they are
/// the first components of `p`.
pub open spec fn strip_prefix(p: PathParts, base: PathParts) -> Option<PathParts> {
    let rest = PathParts { rooted: false, dotted: false, names: p.names.skip(base.names.len() as int) };
    let names_lead = base.names.is_prefix_of(p.names);
    if base.rooted || base.dotted || base.names.len() > 0 {
        if p.rooted == base.rooted && p.dotted == base.dotted && names_lead {
            Some(rest)
        } else {
            None
        }
    } else {
        Some(p)
    }
}

/// `base` followed by `p`; an absolute `p` replaces `base`, and a leading
/// current-directory marker of `p` disappears inside the result.
pub open spec fn join(base: PathParts, p: PathParts) -> PathParts {
    if p.rooted || is_empty_path(base) {
        p
    } else {
        PathParts { names: base.names + p.names, ..base }
    }
}

/// The last component of `p`, when it is a name other than `..`.
pub open spec fn file_name(p: PathParts) -> Option<Seq<char>> {
    if p.names.len() > 0 && !is_up(p.names.last()) {
        Some(p.names.last())
    } else {
        None
    }
}

/// The position of the last `.` in `name`, or -1.
pub open spec fn last_dot(name: Seq<char>) -> int
    decreases name.len(),
{
    if name.len() == 0 {
        -1
    } else if name.last() == '.' {
        name.len() - 1
    } else {
        last_dot(name.drop_last())
    }
}

/// A file name without its extension; a name whose only dot leads it has
/// no extension.
pub open spec fn stem_of(name: Seq<char>) -> Seq<char> {
    if last_dot(name) <= 0 {
        name
    } else {
        name.subrange(0, last_dot(name))
    }
}

/// The text after the last dot of a file name, unless that dot leads it.
pub open spec fn extension_of(name: Seq<char>) -> Option<Seq<char>> {
    if last_dot(name) <= 0 {
        None
    } else {
        Some(name.subrange(last_dot(name) + 1, name.len() as int))
    }
}

/// A path held as its components.
pub struct ParsedPath {
    pub rooted: bool,
    pub dotted: bool,
    pub names: Vec<String>,
}

impl View for ParsedPath {
    type V = PathParts;

    open spec fn view(&self) -> PathParts {
        PathParts { rooted: self.rooted, dotted: self.dotted, names: views(self.names@) }
    }
}

pub proof fn lemma_last_dot_range(name: Seq<char>)
    ensures
        -1 <= last_dot(name) < name.len(),
        last_dot(name) >= 0 ==> name[last_dot(name)] == '.',
    decreases name.len(),
{
    if name.len() > 0 && name.last() != '.' {
        lemma_last_dot_range(name.drop_last());
    }
}

/// Copies a vector of strings.
fn copy_strings(v: &Vec<String>) -> (r: Vec<String>)
    ensures
        views(r@) == views(v@),
{
    let mut out: Vec<String> = Vec::new();
    let mut i: usize = 0;
    while i < v.len()
        invariant
            i <= v@.len(),
            views(out@) == views(v@.subrange(0, i as int)),
        decreases v@.len() - i,
    {
        let s = v[i].clone();
        proof {
            lemma_views_push(out@, s);
            lemma_views_step(v@, i as int);
        }
        out.push(s);
        i = i + 1;
    }
    assert(v@.subrange(0, v@.len() as int) =~= v@);
    out
}

impl ParsedPath {
    /// The components of the path written `s`.
    pub fn parse(s: &str) -> (r: ParsedPath)
        ensures
            r@ == parse(s@),
    {
        let ps = split_on(s, '/');
        let mut names: Vec<String> = Vec::new();
        let mut i: usize = 0;
        while i < ps.len()
            invariant
                i <= ps@.len(),
                views(ps@) == pieces(s@, '/'),
                views(names@) == keep_names(views(ps@.subrange(0, i as int))),
            decreases ps@.len() - i,
        {
            let ghost seen = views(ps@.subrange(0, i as int + 1));
            assert(seen.drop_last() =~= views(ps@.subrange(0, i as int)));
            assert(seen.last() == ps@[i as int]@);
            let piece = &ps[i];
            let len = piece.as_str().unicode_len();
            let dot = len == 1 && piece.as_str().get_char(0) == '.';
            proof {
                if piece@ == seq!['.'] {
                    assert(piece@[0] == '.');
                }
                if len == 1 && piece@[0] == '.' {
                    assert(piece@ =~= seq!['.']);
                }
            }
            if len > 0 && !dot {
                let kept = piece.clone();
                proof {
                    assert(views(names@.push(kept)) =~= views(names@).push(kept@));
                }
                names.push(kept);
            }
            i = i + 1;
        }
        assert(ps@.subrange(0, ps@.len() as int) =~= ps@);
        let n = s.unicode_len();
        let rooted = n > 0 && s.get_char(0) == '/';
        let dotted = !rooted && n > 0 && s.get_char(0) == '.' && (n == 1 || s.get_char(1) == '/');
        ParsedPath { rooted, dotted, names }
    }

    /// The canonical text of this path.
    pub fn render(&self) -> (r: String)
        ensures
            r@ == render(self@),
    {
        proof {
            reveal_strlit("/");
            reveal_strlit("./");
            reveal_strlit(".");
            assert("/"@ =~= seq!['/']);
            assert("./"@ =~= seq!['.', '/']);
            assert("."@ =~= seq!['.']);
        }
        let body = join_with(&self.names, "/");
        if self.rooted {
            String::from_str("/").concat(body.as_str())
        } else if self.dotted {
            if self.names.len() == 0 {
                String::from_str(".")
            } else {
                String::from_str("./").concat(body.as_str())
            }
        } else {
            body
        }
    }

    /// Whether the two paths have the same components.
    pub fn same(&self, other: &ParsedPath) -> (r: bool)
        ensures
            r == (self@ == other@),
    {
        if self.rooted != other.rooted || self.dotted != other.dotted {
            return false;
        }
        let n = self.names.len();
        if n != other.names.len() {
            assert(views(self.names@).len() != views(other.names@).len());
            return false;
        }
        let mut i: usize = 0;
        while i < n
            invariant
                n == self.names@.len(),
                n == other.names@.len(),
                i <= n,
                forall|k: int| 0 <= k < i ==> self.names@[k]@ == other.names@[k]@,
            decreases n - i,
        {
            if self.names[i] != other.names[i] {
                assert(views(self.names@)[i as int] != views(other.names@)[i as int]);
                return false;
            }
            i = i + 1;
        }
        assert(views(self.names@) =~= views(other.names@));
        true
    }

    pub fn is_empty(&self) -> (r: bool)
        ensures
            r == is_empty_path(self@),
    {
        !self.rooted && !self.dotted && self.names.len() == 0
    }

    /// The directory that holds this path.
    pub fn parent(&self) -> (r: Option<ParsedPath>)
        ensures
            match parent(self@) {
                Some(d) => r is Some && r->Some_0@ == d,
                None => r is None,
            },
    {
        let n = self.names.len();
        if n > 0 {
            let mut names = copy_strings(&self.names);
            let _ = names.pop();
            proof {
                lemma_views_drop_last(self.names@);
                assert(views(names@) =~= views(self.names@).drop_last());
            }
            Some(ParsedPath { rooted: self.rooted, dotted: self.dotted, names })
        } else if self.dotted {
            let names: Vec<String> = Vec::new();
            proof {
                lemma_views_empty(names@);
            }
            Some(ParsedPath { rooted: false, dotted: false, names })
        } else {
            None
        }
    }

    /// What is left of this path after the components of `base`.
    pub fn strip_prefix(&self, base: &ParsedPath) -> (r: Option<ParsedPath>)
        ensures
            match strip_prefix(self@, base@) {
                Some(d) => r is Some && r->Some_0@ == d,
                None => r is None,
            },
    {
        if !base.rooted && !base.dotted && base.names.len() == 0 {
            return Some(ParsedPath {
                rooted: self.rooted,
                dotted: self.dotted,
                names: copy_strings(&self.names),
            });
        }
        if self.rooted != base.rooted || self.dotted != base.dotted {
            return None;
        }
        let bn = base.names.len();
        let pn = self.names.len();
        if bn > pn {
            assert(!views(base.names@).is_prefix_of(views(self.names@)));
            return None;
        }
        let mut i: usize = 0;
        while i < bn
            invariant
                bn == base.names@.len(),
                pn == self.names@.len(),
                bn <= pn,
                i <= bn,
                forall|k: int| 0 <= k < i ==> self.names@[k]@ == base.names@[k]@,
            decreases bn - i,
        {
            if self.names[i] != base.names[i] {
                proof {
                    assert(views(self.names@)[i as int] != views(base.names@)[i as int]);
                    assert(!views(base.names@).is_prefix_of(views(self.names@)));
                }
                return None;
            }
            i = i + 1;
        }
        assert(views(base.names@).is_prefix_of(views(self.names@))) by {
            assert(views(self.names@).subrange(0, bn as int) =~= views(base.names@));
        }
        let mut rest: Vec<String> = Vec::new();
        proof {
            lemma_views_empty(rest@);
            assert(views(self.names@).subrange(bn as int, bn as int) =~= Seq::<Seq<char>>::empty());
        }
        let mut j: usize = bn;
        while j < pn
            invariant
                bn <= j <= pn,
                pn == self.names@.len(),
                views(rest@) == views(self.names@).subrange(bn as int, j as int),
            decreases pn - j,
        {
            let s = self.names[j].clone();
            proof {
                lemma_views_push(rest@, s);
                assert(views(self.names@).subrange(bn as int, j as int + 1) =~= views(self.names@).subrange(bn as int, j as int).push(s@));
            }
            rest.push(s);
            j = j + 1;
        }
        assert(views(self.names@).subrange(bn as int, pn as int) =~= views(self.names@).skip(bn as int));
        Some(ParsedPath { rooted: false, dotted: false, names: rest })
    }

    /// This path followed by `p`.
    pub fn join(&self, p: &ParsedPath) -> (r: ParsedPath)
        ensures
            r@ == join(self@, p@),
    {
        if p.rooted || self.is_empty() {
            return ParsedPath { rooted: p.rooted, dotted: p.dotted, names: copy_strings(&p.names) };
        }
        let mut names = copy_strings(&self.names);
        let mut i: usize = 0;
        while i < p.names.len()
            invariant
                i <= p.names@.len(),
                views(names@) == views(self.names@) + views(p.names@.subrange(0, i as int)),
            decreases p.names@.len() - i,
        {
            let s = p.names[i].clone();
            proof {
                lemma_views_push(names@, s);
                lemma_views_step(p.names@, i as int);
                assert(views(self.names@) + views(p.names@.subrange(0, i as int)).push(s@) =~= (views(self.names@) + views(p.names@.subrange(0, i as int))).push(s@));
            }
            names.push(s);
            i = i + 1;
        }
        assert(p.names@.subrange(0, p.names@.len() as int) =~= p.names@);
        ParsedPath { rooted: self.rooted, dotted: self.dotted, names }
    }

    /// This path with one more name at its end.
    pub fn push_name(&mut self, name: String)
        ensures
            final(self)@ == (PathParts { names: old(self)@.names.push(name@), ..old(self)@ }),
    {
        proof {
            assert(views(self.names@.push(name)) =~= views(self.names@).push(name@));
        }
        self.names.push(name);
    }

    /// The last component of this path, when it is a name other than `..`.
    pub fn file_name(&self) -> (r: Option<&String>)
        ensures
            match file_name(self@) {
                Some(n) => r is Some && r->Some_0@ == n,
                None => r is None,
            },
    {
        let n = self.names.len();
        if n == 0 {
            return None;
        }
        let last = &self.names[n - 1];
        assert(views(self.names@).last() == last@);
        let up = String::from_str("..");
        proof {
            reveal_strlit("..");
            assert(".."@ =~= seq!['.', '.']);
        }
        if *last == up {
            None
        } else {
            Some(last)
        }
    }
}

/// The position of the last `.` in `name`, if any.
fn find_last_dot(name: &str) -> (r: Option<usize>)
    ensures
        match r {
            Some(d) => last_dot(name@) == d as int,
            None => last_dot(name@) == -1,
        },
{
    let mut j: usize = name.unicode_len();
    assert(name@.subrange(0, j as int) =~= name@);
    while j > 0
        invariant
            j <= name@.len(),
            last_dot(name@) == last_dot(name@.subrange(0, j as int)),
        decreases j,
    {
        let ghost pre = name@.subrange(0, j as int);
        assert(pre.drop_last() =~= name@.subrange(0, j as int - 1));
        if name.get_char(j - 1) == '.' {
            return Some(j - 1);
        }
        j = j - 1;
    }
    None
}

/// A file name without its extension.
pub fn file_stem(name: &str) -> (r: String)
    ensures
        r@ == stem_of(name@),
{
    proof {
        lemma_last_dot_range(name@);
    }
    match find_last_dot(name) {
        Some(d) if d > 0 => String::from_str(name.substring_char(0, d)),
        _ => String::from_str(name),
    }
}

/// The extension of a file name, if it has one.
pub fn file_extension(name: &str) -> (r: Option<String>)
    ensures
        match extension_of(name@) {
            Some(e) => r is Some && r->Some_0@ == e,
            None => r is None,
        },
{
    proof {
        lemma_last_dot_range(name@);
    }
    let n = name.unicode_len();
    match find_last_dot(name) {
        Some(d) if d > 0 => Some(String::from_str(name.substring_char(d + 1, n))),
        _ => None,
    }
}

/// The components that a parsed path can have: names are not empty,
/// not `.`, and hold no separator; a root excludes a leading `.`.
pub open spec fn well_formed(p: PathParts) -> bool {
    &&& !(p.rooted && p.dotted)
    &&& forall|i: int| 0 <= i < p.names.len() ==> is_name(#[trigger] p.names[i]) && free_of(p.names[i], '/')
}

proof fn lemma_keep_names_concat(a: Seq<Seq<char>>, b: Seq<Seq<char>>)
    ensures
        keep_names(a + b) == keep_names(a) + keep_names(b),
    decreases b.len(),
{
    if b.len() == 0 {
        assert(a + b =~= a);
        assert(keep_names(a) + keep_names(b) =~= keep_names(a));
    } else {
        assert((a + b).drop_last() =~= a + b.drop_last());
        assert((a + b).last() == b.last());
        lemma_keep_names_concat(a, b.drop_last());
        assert((keep_names(a) + keep_names(b.drop_last())).push(b.last()) =~= keep_names(a) + keep_names(
            b.drop_last(),
        ).push(b.last()));
    }
}

proof fn lemma_keep_all_names(ns: Seq<Seq<char>>)
    requires
        forall|i: int| 0 <= i < ns.len() ==> is_name(#[trigger] ns[i]),
    ensures
        keep_names(ns) == ns,
    decreases ns.len(),
{
    if ns.len() > 0 {
        assert(is_name(ns[ns.len() - 1]));
        lemma_keep_all_names(ns.drop_last());
        assert(ns.drop_last().push(ns.last()) =~= ns);
    }
}

proof fn lemma_keep_names_kept(ns: Seq<Seq<char>>)
    requires
        forall|i: int| 0 <= i < ns.len() ==> free_of(#[trigger] ns[i], '/'),
    ensures
        forall|j: int| 0 <= j < keep_names(ns).len() ==> is_name(#[trigger] keep_names(ns)[j]) && free_of(keep_names(ns)[j], '/'),
    decreases ns.len(),
{
    if ns.len() > 0 {
        let init = ns.drop_last();
        assert forall|i: int| 0 <= i < init.len() implies free_of(#[trigger] init[i], '/') by {
            assert(init[i] == ns[i]);
        }
        assert(free_of(ns[ns.len() - 1], '/'));
        lemma_keep_names_kept(init);
        let k = keep_names(ns);
        if is_name(ns.last()) {
            assert forall|j: int| 0 <= j < k.len() implies is_name(#[trigger] k[j]) && free_of(k[j], '/') by {
                if j < keep_names(init).len() {
                    assert(k[j] == keep_names(init)[j]);
                }
            }
        }
    }
}

/// The components of any path are well formed.
pub proof fn lemma_parse_well_formed(s: Seq<char>)
    ensures
        well_formed(parse(s)),
{
    lemma_pieces_free(s, '/');
    lemma_keep_names_kept(pieces(s, '/'));
}

/// Parsing the canonical text of well-formed components gives them back.
pub proof fn lemma_parse_render(p: PathParts)
    requires
        well_formed(p),
    ensures
        parse(render(p)) == p,
{
    let t = render(p);
    let e = Seq::<char>::empty();
    let ns = p.names;
    assert forall|i: int| 0 <= i < ns.len() implies free_of(#[trigger] ns[i], '/') by {
        assert(is_name(ns[i]) && free_of(ns[i], '/'));
    }
    assert forall|i: int| 0 <= i < ns.len() implies is_name(#[trigger] ns[i]) by {
        assert(is_name(ns[i]) && free_of(ns[i], '/'));
    }
    lemma_keep_all_names(ns);
    assert(keep_names(Seq::<Seq<char>>::empty()) == Seq::<Seq<char>>::empty());
    assert(keep_names(seq![e]) == Seq::<Seq<char>>::empty()) by {
        assert(seq![e].drop_last() =~= Seq::<Seq<char>>::empty());
        assert(seq![e].last() == e);
        assert(!is_name(e));
    }
    assert(keep_names(seq![seq!['.']]) == Seq::<Seq<char>>::empty()) by {
        assert(seq![seq!['.']].drop_last() =~= Seq::<Seq<char>>::empty());
        assert(seq![seq!['.']].last() == seq!['.']);
        assert(!is_name(seq!['.']));
    }
    assert(pieces(e, '/') == seq![e]) by {
        assert(Seq::<Seq<char>>::empty().push(e) =~= seq![e]);
    }
    assert(pieces(seq!['.'], '/') == seq![seq!['.']]) by {
        assert(seq!['.'].drop_last() =~= e);
        assert(e.push('.') =~= seq!['.']);
        assert(Seq::<Seq<char>>::empty().push(seq!['.']) =~= seq![seq!['.']]);
    }
    if p.rooted {
        if ns.len() == 0 {
            assert(t =~= seq!['/']);
            assert(seq!['/'].drop_last() =~= e);
            assert(pieces(t, '/') =~= seq![e, e]);
            assert(seq![e, e].drop_last() =~= seq![e]);
        } else {
            assert(t =~= e.push('/') + joined(ns, '/'));
            lemma_pieces_joined(e, ns, '/');
            lemma_keep_names_concat(seq![e], ns);
            assert(Seq::<Seq<char>>::empty() + ns =~= ns);
        }
    } else if p.dotted {
        if ns.len() == 0 {
            assert(t =~= seq!['.']);
        } else {
            assert(t =~= seq!['.'].push('/') + joined(ns, '/'));
            lemma_pieces_joined(seq!['.'], ns, '/');
            lemma_keep_names_concat(seq![seq!['.']], ns);
            assert(Seq::<Seq<char>>::empty() + ns =~= ns);
        }
    } else {
        if ns.len() == 0 {
            assert(t =~= e);
        } else {
            lemma_pieces_joined(e, ns, '/');
            lemma_joined_starts_with_first(ns, '/');
            assert(is_name(ns[0]) && free_of(ns[0], '/'));
            assert(t[0] == ns[0][0]);
            if ns[0].len() == 1 && ns[0][0] == '.' {
                assert(ns[0] =~= seq!['.']);
            }
            if ns[0].len() > 1 {
                assert(t[1] == ns[0][1]);
            }
        }
    }
    assert(parse(t) =~= p) by {
        assert(parse(t).names =~= p.names);
    }
}

} // verus!
