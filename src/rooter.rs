//! Confinement of requested paths to a user's root directory.
//!
//! A requested path is read the way a Unix path is read: a leading `/` is
//! the root directory, `..` is the parent, a `.` at the very start of a
//! relative path is the current directory, and empty and other `.` segments
//! are dropped. The components are then replayed below the user's root,
//! where `..` can never climb above the root itself.
use crate::error::StorageError;
use crate::storage::{Fileinfo, StorageBackend};
use crate::user::User;
use vstd::prelude::*;

verus! {

/// One component of a path, as a path reader sees it.
pub enum Comp {
    RootDir,
    CurDir,
    ParentDir,
    Normal(Seq<char>),
}

/// The pieces of `s` between its `/` separators (always at least one).
pub open spec fn pieces(s: Seq<char>) -> Seq<Seq<char>>
    decreases s.len(),
{
    if s.len() == 0 {
        seq![Seq::<char>::empty()]
    } else {
        let p = pieces(s.drop_last());
        if s.last() == '/' {
            p.push(Seq::<char>::empty())
        } else {
            p.update(p.len() - 1, p.last().push(s.last()))
        }
    }
}

pub open spec fn is_dot(piece: Seq<char>) -> bool {
    piece == seq!['.']
}

pub open spec fn is_dot_dot(piece: Seq<char>) -> bool {
    piece == seq!['.', '.']
}

/// The components that a run of pieces contributes: empty pieces and `.`
/// contribute nothing, `..` is the parent, anything else is a name.
pub open spec fn piece_comps(ps: Seq<Seq<char>>) -> Seq<Comp>
    decreases ps.len(),
{
    if ps.len() == 0 {
        Seq::empty()
    } else {
        let before = piece_comps(ps.drop_last());
        let last = ps.last();
        if last.len() == 0 || is_dot(last) {
            before
        } else if is_dot_dot(last) {
            before.push(Comp::ParentDir)
        } else {
            before.push(Comp::Normal(last))
        }
    }
}

/// Whether `s` is absolute.
pub open spec fn has_root(s: Seq<char>) -> bool {
    s.len() > 0 && s[0] == '/'
}

/// Whether `s` starts with a `.` component (`.` alone, or `./...`).
pub open spec fn leads_with_cur_dir(s: Seq<char>) -> bool {
    s.len() > 0 && s[0] == '.' && (s.len() == 1 || s[1] == '/')
}

/// The components of a path.
pub open spec fn components(s: Seq<char>) -> Seq<Comp> {
    if has_root(s) {
        seq![Comp::RootDir] + piece_comps(pieces(s))
    } else if leads_with_cur_dir(s) {
        seq![Comp::CurDir] + piece_comps(pieces(s))
    } else {
        piece_comps(pieces(s))
    }
}

/// One step of replaying components below a root: `..` drops the last name
/// unless none is left (the root itself is never dropped), a name is added,
/// and the other components change nothing.
pub open spec fn step(names: Seq<Seq<char>>, c: Comp) -> Seq<Seq<char>> {
    match c {
        Comp::ParentDir => if names.len() > 0 {
            names.drop_last()
        } else {
            names
        },
        Comp::Normal(n) => names.push(n),
        _ => names,
    }
}

/// The names left below the root after replaying `cs`, left to right, on
/// top of `names`.
pub open spec fn replay(names: Seq<Seq<char>>, cs: Seq<Comp>) -> Seq<Seq<char>>
    decreases cs.len(),
{
    if cs.len() == 0 {
        names
    } else {
        replay(step(names, cs[0]), cs.drop_first())
    }
}

/// `path` followed by the name `n`, with a separator between the two unless
/// `path` already ends in one (an empty `path` gets one, so an empty root
/// gives an absolute path).
pub open spec fn push_name(path: Seq<char>, n: Seq<char>) -> Seq<char> {
    if path.len() > 0 && path.last() == '/' {
        path + n
    } else {
        path.push('/') + n
    }
}

/// `root` followed by each of `names` in turn.
pub open spec fn joined(root: Seq<char>, names: Seq<Seq<char>>) -> Seq<char>
    decreases names.len(),
{
    if names.len() == 0 {
        root
    } else {
        push_name(joined(root, names.drop_last()), names.last())
    }
}

/// The names that a request leaves below the root.
pub open spec fn names_below_root(requested: Seq<char>) -> Seq<Seq<char>> {
    replay(Seq::empty(), components(requested))
}

/// The path that `requested` stands for below `root`, or `None` where the
/// request starts with a `.` component, which is not a valid request.
pub open spec fn rerooted(root: Seq<char>, requested: Seq<char>) -> Option<Seq<char>> {
    if leads_with_cur_dir(requested) {
        None
    } else {
        Some(joined(root, names_below_root(requested)))
    }
}

/// A name that can stand below a root: not empty, no separator, not `.` or `..`.
pub open spec fn is_plain_name(n: Seq<char>) -> bool {
    n.len() > 0 && !n.contains('/') && !is_dot(n) && !is_dot_dot(n)
}


/// A user that may be confined to a root directory.
pub trait UserWithRoot {
    /// The user's root, if the user is confined to one.
    spec fn root_of(&self) -> Option<Seq<char>>;

    /// The user's root, if the user is confined to one.
    fn user_root(&self) -> (r: Option<String>)
        ensures
            match r {
                Some(p) => self.root_of() == Some(p@),
                None => self.root_of() is None,
            },
    ;
}

/// The path that a user's request stands for: the request below the user's
/// root, or the request itself where there is no user or the user has no root.
pub open spec fn user_path<U: UserWithRoot>(user: Option<U>, requested: Seq<char>) -> Option<Seq<char>> {
    match user {
        Some(u) => match u.root_of() {
            Some(root) => rerooted(root, requested),
            None => Some(requested),
        },
        None => Some(requested),
    }
}

/// The path that `requested` stands for on behalf of `user`; see [`root_to`].
pub fn new_path<U: UserWithRoot>(user: &Option<U>, requested: &str) -> (r: Result<String, StorageError>)
    ensures
        match user_path(*user, requested@) {
            Some(p) => r matches Ok(out) && out@ == p,
            None => r == Err::<String, StorageError>(StorageError::InvalidPath),
        },
{
    match user {
        Some(u) => match u.user_root() {
            Some(root) => root_to(root.as_str(), requested),
            None => Ok(requested.to_owned()),
        },
        None => Ok(requested.to_owned()),
    }
}

/// Without a root, a request is left exactly as it is.
pub proof fn lemma_unrooted_is_identity<U: UserWithRoot>(user: Option<U>, requested: Seq<char>)
    requires
        user matches Some(u) ==> u.root_of() is None,
    ensures
        user_path(user, requested) == Some(requested),
{
}

/// The characters of each string.
pub open spec fn texts(v: Seq<String>) -> Seq<Seq<char>> {
    v.map_values(|x: String| x@)
}

proof fn lemma_pieces_nonempty(s: Seq<char>)
    ensures
        pieces(s).len() >= 1,
    decreases s.len(),
{
    if s.len() > 0 {
        lemma_pieces_nonempty(s.drop_last());
    }
}

proof fn lemma_replay_push(names: Seq<Seq<char>>, cs: Seq<Comp>, c: Comp)
    ensures
        replay(names, cs.push(c)) == step(replay(names, cs), c),
    decreases cs.len(),
{
    if cs.len() == 0 {
        assert(cs.push(c).drop_first() =~= Seq::<Comp>::empty());
        assert(cs.push(c)[0] == c);
        assert(replay(step(names, c), Seq::<Comp>::empty()) == step(names, c));
    } else {
        assert(cs.push(c)[0] == cs[0]);
        assert(cs.push(c).drop_first() =~= cs.drop_first().push(c));
        lemma_replay_push(step(names, cs[0]), cs.drop_first(), c);
    }
}

/// Replaying after a root or parent component at the front is the same as
/// replaying without it, when nothing is below the root yet.
proof fn lemma_replay_skips_front(c: Comp, cs: Seq<Comp>)
    requires
        c == Comp::RootDir || c == Comp::ParentDir,
    ensures
        replay(Seq::empty(), seq![c] + cs) == replay(Seq::empty(), cs),
{
    assert((seq![c] + cs).drop_first() =~= cs);
}

/// Splits `s` at each `/`.
fn split_pieces(s: &str) -> (r: Vec<String>)
    ensures
        texts(r@) == pieces(s@),
{
    let n = s.unicode_len();
    let mut done: Vec<String> = Vec::new();
    let mut start: usize = 0;
    let mut i: usize = 0;
    assert(s@.take(0) =~= Seq::<char>::empty());
    assert(texts(done@) =~= Seq::<Seq<char>>::empty());
    assert(s@.subrange(0, 0) =~= Seq::<char>::empty());
    while i < n
        invariant
            n == s@.len(),
            start <= i <= n,
            texts(done@).push(s@.subrange(start as int, i as int)) == pieces(s@.take(i as int)),
        decreases n - i,
    {
        let c = s.get_char(i);
        assert(s@.take(i + 1).drop_last() == s@.take(i as int));
        if c == '/' {
            let piece = s.substring_char(start, i).to_owned();
            done.push(piece);
            assert(texts(done@) == texts(done@).drop_last().push(piece@));
            assert(s@.subrange((i + 1) as int, (i + 1) as int) =~= Seq::<char>::empty());
            start = i + 1;
        } else {
            assert(s@.subrange(start as int, i + 1) =~= s@.subrange(start as int, i as int).push(c));
        }
        i = i + 1;
    }
    let piece = s.substring_char(start, n).to_owned();
    done.push(piece);
    assert(s@.take(n as int) =~= s@);
    assert(texts(done@) =~= texts(done@).drop_last().push(piece@));
    done
}

/// Whether a request starts with a `.` component.
fn starts_with_cur_dir(s: &str) -> (r: bool)
    ensures
        r == leads_with_cur_dir(s@),
{
    let n = s.unicode_len();
    n > 0 && s.get_char(0) == '.' && (n == 1 || s.get_char(1) == '/')
}

/// The path that `requested` stands for below `root`: the request's
/// components are replayed under `root`, where `..` never climbs above
/// `root`. A request that starts with a `.` component is refused with
/// [`StorageError::InvalidPath`].
pub fn root_to(root: &str, requested: &str) -> (r: Result<String, StorageError>)
    ensures
        match rerooted(root@, requested@) {
            Some(p) => r matches Ok(out) && out@ == p,
            None => r == Err::<String, StorageError>(StorageError::InvalidPath),
        },
{
    if starts_with_cur_dir(requested) {
        return Err(StorageError::InvalidPath);
    }
    let ps = split_pieces(requested);
    let ghost pc = piece_comps(pieces(requested@));
    proof {
        if has_root(requested@) {
            lemma_replay_skips_front(Comp::RootDir, pc);
        }
        assert(names_below_root(requested@) == replay(Seq::empty(), pc));
    }
    let mut names: Vec<String> = Vec::new();
    let mut i: usize = 0;
    while i < ps.len()
        invariant
            i <= ps.len(),
            texts(ps@) == pieces(requested@),
            texts(names@) == replay(Seq::empty(), piece_comps(texts(ps@).take(i as int))),
        decreases ps.len() - i,
    {
        let ghost before = texts(names@);
        let ghost taken = texts(ps@).take(i as int);
        assert(texts(ps@).take(i + 1).drop_last() == taken);
        let piece = ps[i].as_str();
        let len = piece.unicode_len();
        if len == 0 || (len == 1 && piece.get_char(0) == '.') {
            assert(len == 1 ==> piece@ =~= seq!['.']);
        } else if len == 2 && piece.get_char(0) == '.' && piece.get_char(1) == '.' {
            assert(piece@ =~= seq!['.', '.']);
            proof {
                lemma_replay_push(Seq::empty(), piece_comps(taken), Comp::ParentDir);
            }
            if names.len() > 0 {
                names.pop();
                assert(texts(names@) =~= before.drop_last());
            }
        } else {
            assert(!is_dot(piece@) && !is_dot_dot(piece@));
            proof {
                lemma_replay_push(Seq::empty(), piece_comps(taken), Comp::Normal(piece@));
            }
            names.push(piece.to_owned());
            assert(texts(names@) =~= before.push(piece@));
        }
        i = i + 1;
    }
    assert(texts(ps@).take(ps.len() as int) =~= texts(ps@));
    let mut out = root.to_owned();
    let mut j: usize = 0;
    while j < names.len()
        invariant
            j <= names.len(),
            out@ == joined(root@, texts(names@).take(j as int)),
        decreases names.len() - j,
    {
        assert(texts(names@).take(j + 1).drop_last() == texts(names@).take(j as int));
        let len = out.as_str().unicode_len();
        if len == 0 || out.as_str().get_char(len - 1) != '/' {
            out.append("/");
            proof { reveal_strlit("/"); }
        }
        out.append(names[j].as_str());
        j = j + 1;
    }
    assert(texts(names@).take(names.len() as int) =~= texts(names@));
    Ok(out)
}


proof fn lemma_pieces_have_no_separator(s: Seq<char>)
    ensures
        forall|i: int| 0 <= i < pieces(s).len() ==> !(#[trigger] pieces(s)[i]).contains('/'),
    decreases s.len(),
{
    if s.len() > 0 {
        let p = pieces(s.drop_last());
        lemma_pieces_have_no_separator(s.drop_last());
        lemma_pieces_nonempty(s.drop_last());
        if s.last() != '/' {
            let q = p.last().push(s.last());
            assert forall|k: int| 0 <= k < q.len() implies q[k] != '/' by {
                if k < p.last().len() {
                    assert(q[k] == p.last()[k]);
                    assert(p.last().contains(p.last()[k]) == false ==> p.last()[k] != '/');
                }
            }
            assert forall|i: int| 0 <= i < pieces(s).len() implies !(#[trigger] pieces(s)[i]).contains('/') by {
                if i < p.len() - 1 {
                    assert(pieces(s)[i] == p[i]);
                } else {
                    assert(pieces(s)[i] == q);
                }
            }
        } else {
            assert forall|i: int| 0 <= i < pieces(s).len() implies !(#[trigger] pieces(s)[i]).contains('/') by {
                if i < p.len() {
                    assert(pieces(s)[i] == p[i]);
                } else {
                    assert(pieces(s)[i] =~= Seq::<char>::empty());
                }
            }
        }
    }
}

proof fn lemma_piece_comps_plain(ps: Seq<Seq<char>>)
    requires
        forall|i: int| 0 <= i < ps.len() ==> !(#[trigger] ps[i]).contains('/'),
    ensures
        forall|i: int| 0 <= i < piece_comps(ps).len() ==>
            (#[trigger] piece_comps(ps)[i] matches Comp::Normal(n) ==> is_plain_name(n)),
    decreases ps.len(),
{
    if ps.len() > 0 {
        assert(forall|i: int| 0 <= i < ps.drop_last().len() ==> ps.drop_last()[i] == ps[i]);
        lemma_piece_comps_plain(ps.drop_last());
        assert(ps.last() == ps[ps.len() - 1]);
    }
}

proof fn lemma_replay_plain(names: Seq<Seq<char>>, cs: Seq<Comp>)
    requires
        forall|i: int| 0 <= i < names.len() ==> is_plain_name(#[trigger] names[i]),
        forall|i: int| 0 <= i < cs.len() ==> (#[trigger] cs[i] matches Comp::Normal(n) ==> is_plain_name(n)),
    ensures
        forall|i: int| 0 <= i < replay(names, cs).len() ==> is_plain_name(#[trigger] replay(names, cs)[i]),
    decreases cs.len(),
{
    if cs.len() > 0 {
        let next = step(names, cs[0]);
        assert forall|i: int| 0 <= i < next.len() implies is_plain_name(#[trigger] next[i]) by {
            if i < names.len() {
                assert(next[i] == names[i]);
            } else {
                assert(cs[0] matches Comp::Normal(n) ==> is_plain_name(n));
            }
        }
        assert(forall|i: int| 0 <= i < cs.drop_first().len() ==> cs.drop_first()[i] == cs[i + 1]);
        lemma_replay_plain(next, cs.drop_first());
        assert(replay(names, cs) == replay(next, cs.drop_first()));
    }
}

proof fn lemma_joined_extends_root(root: Seq<char>, names: Seq<Seq<char>>)
    ensures
        root.is_prefix_of(joined(root, names)),
        (names.len() > 0 && names.last().len() > 0) ==> joined(root, names).len() > root.len(),
    decreases names.len(),
{
    if names.len() > 0 {
        let before = joined(root, names.drop_last());
        lemma_joined_extends_root(root, names.drop_last());
        let after = joined(root, names);
        assert(before.is_prefix_of(after));
        assert(root.is_prefix_of(after)) by {
            assert forall|k: int| 0 <= k < root.len() implies root[k] == after[k] by {
                assert(root[k] == before[k]);
            }
        }
    }
}

/// A rerooted path never leaves its root: it starts with `root`, what
/// follows is `root` extended by plain names only (none empty, none holding
/// a separator, none `.` or `..`), and it is strictly longer than `root`
/// whenever the request leaves any name below the root.
pub proof fn lemma_no_escape(root: Seq<char>, requested: Seq<char>)
    requires
        rerooted(root, requested) is Some,
    ensures
        root.is_prefix_of(rerooted(root, requested).unwrap()),
        rerooted(root, requested).unwrap() == joined(root, names_below_root(requested)),
        forall|i: int| 0 <= i < names_below_root(requested).len()
            ==> is_plain_name(#[trigger] names_below_root(requested)[i]),
        names_below_root(requested).len() > 0 ==> rerooted(root, requested).unwrap().len() > root.len(),
{
    let ps = pieces(requested);
    let pc = piece_comps(ps);
    lemma_pieces_have_no_separator(requested);
    lemma_piece_comps_plain(ps);
    let cs = components(requested);
    assert forall|i: int| 0 <= i < cs.len() implies (#[trigger] cs[i] matches Comp::Normal(n) ==> is_plain_name(n)) by {
        if has_root(requested) || leads_with_cur_dir(requested) {
            if i > 0 {
                assert(cs[i] == pc[i - 1]);
            }
        } else {
            assert(cs[i] == pc[i]);
        }
    }
    lemma_replay_plain(Seq::empty(), cs);
    let names = names_below_root(requested);
    if names.len() > 0 {
        assert(is_plain_name(names[names.len() - 1]));
    }
    lemma_joined_extends_root(root, names);
}

proof fn lemma_pieces_after_separator(a: Seq<char>, b: Seq<char>)
    requires
        a.len() > 0,
        a.last() == '/',
    ensures
        pieces(a + b) == pieces(a).drop_last() + pieces(b),
    decreases b.len(),
{
    lemma_pieces_nonempty(a.drop_last());
    if b.len() == 0 {
        assert(a + b =~= a);
        assert(pieces(a).drop_last() + pieces(b) =~= pieces(a));
    } else {
        let c = b.last();
        assert((a + b).drop_last() =~= a + b.drop_last());
        assert((a + b).last() == c);
        lemma_pieces_after_separator(a, b.drop_last());
        lemma_pieces_nonempty(b.drop_last());
        let front = pieces(a).drop_last();
        let x = pieces(b.drop_last());
        if c == '/' {
            assert(front + x.push(Seq::<char>::empty()) =~= (front + x).push(Seq::<char>::empty()));
        } else {
            let y = front + x;
            assert(y.update(y.len() - 1, y.last().push(c)) =~= front + x.update(
                x.len() - 1,
                x.last().push(c),
            ));
        }
    }
}

proof fn lemma_piece_comps_concat(a: Seq<Seq<char>>, b: Seq<Seq<char>>)
    ensures
        piece_comps(a + b) == piece_comps(a) + piece_comps(b),
    decreases b.len(),
{
    if b.len() == 0 {
        assert(a + b =~= a);
        assert(piece_comps(a) + piece_comps(b) =~= piece_comps(a));
    } else {
        assert((a + b).drop_last() =~= a + b.drop_last());
        assert((a + b).last() == b.last());
        lemma_piece_comps_concat(a, b.drop_last());
        let x = piece_comps(a);
        let y = piece_comps(b.drop_last());
        assert(x + y.push(Comp::ParentDir) =~= (x + y).push(Comp::ParentDir));
        assert(x + y.push(Comp::Normal(b.last())) =~= (x + y).push(Comp::Normal(b.last())));
    }
}

/// The components of `/` followed by `q`: the root, then `q`'s pieces.
proof fn lemma_absolute_components(q: Seq<char>)
    ensures
        components(seq!['/'] + q) == seq![Comp::RootDir] + piece_comps(pieces(q)),
{
    let slash = seq!['/'];
    let e = Seq::<char>::empty();
    assert(slash.drop_last() =~= e);
    assert(slash.last() == '/');
    assert(pieces(e) == seq![e]);
    assert(pieces(slash) == seq![e].push(e));
    assert(pieces(slash).drop_last() =~= seq![e]);
    assert(seq![e].last() == e);
    lemma_pieces_after_separator(slash, q);
    lemma_piece_comps_concat(seq![Seq::<char>::empty()], pieces(q));
    assert(seq![e].drop_last() =~= Seq::<Seq<char>>::empty());
    assert(piece_comps(seq![e].drop_last()) == Seq::<Comp>::empty());
    assert(piece_comps(seq![e]) =~= Seq::<Comp>::empty());
    assert(Seq::<Comp>::empty() + piece_comps(pieces(q)) =~= piece_comps(pieces(q)));
    assert((slash + q)[0] == '/');
}

/// An absolute request is rooted once: `/q` gives the same path as `q`
/// (where `q` itself is a valid request), so the leading `/` never adds a
/// second copy of the root or anything else.
pub proof fn lemma_absolute_rooted_once(root: Seq<char>, q: Seq<char>)
    requires
        !leads_with_cur_dir(q),
    ensures
        rerooted(root, seq!['/'] + q) == rerooted(root, q),
{
    let pc = piece_comps(pieces(q));
    lemma_absolute_components(q);
    lemma_replay_skips_front(Comp::RootDir, pc);
    assert((seq!['/'] + q)[0] == '/');
    if has_root(q) {
        assert(names_below_root(q) == replay(Seq::empty(), seq![Comp::RootDir] + pc));
    }
}

/// A `..` at the root is clamped: `../q` gives the same path as `/q`, so no
/// number of leading `..` components climbs above the root.
pub proof fn lemma_parent_at_root_clamped(root: Seq<char>, q: Seq<char>)
    ensures
        rerooted(root, seq!['.', '.', '/'] + q) == rerooted(root, seq!['/'] + q),
{
    let up = seq!['.', '.', '/'];
    let dd = seq!['.', '.'];
    let pc = piece_comps(pieces(q));
    let e = Seq::<char>::empty();
    let dot = seq!['.'];
    assert(up.drop_last() =~= dd);
    assert(up.last() == '/');
    assert(dd.drop_last() =~= dot);
    assert(dd.last() == '.');
    assert(dot.drop_last() =~= e);
    assert(dot.last() == '.');
    assert(pieces(e) == seq![e]);
    assert(pieces(dot) == seq![e].update(0, e.push('.')));
    assert(pieces(dot) =~= seq![dot]);
    assert(pieces(dd) == seq![dot].update(0, dot.push('.')));
    assert(dot.push('.') =~= dd);
    assert(pieces(dd) =~= seq![dd]);
    assert(pieces(up) == seq![dd].push(e));
    assert(pieces(up).drop_last() =~= seq![dd]);
    assert(seq![dd].last() == dd);
    assert(is_dot_dot(dd));
    lemma_pieces_after_separator(up, q);
    lemma_piece_comps_concat(seq![dd], pieces(q));
    assert(seq![dd].drop_last() =~= Seq::<Seq<char>>::empty());
    assert(piece_comps(seq![dd].drop_last()) == Seq::<Comp>::empty());
    assert(dd.len() == 2 && !is_dot(dd));
    assert(piece_comps(seq![dd]) =~= seq![Comp::ParentDir]);
    let s = up + q;
    assert(s[0] == '.' && s[1] == '.');
    assert(components(s) == seq![Comp::ParentDir] + pc);
    lemma_replay_skips_front(Comp::ParentDir, pc);
    lemma_absolute_components(q);
    lemma_replay_skips_front(Comp::RootDir, pc);
    assert((seq!['/'] + q)[0] == '/');
}


/// The path that `requested` stands for on behalf of `user`: the request
/// below the user's root, or the request itself for an unconfined user.
pub fn user_new_path(user: &User, requested: &str) -> (r: Result<String, StorageError>)
    ensures
        match user_path(Some(*user), requested@) {
            Some(p) => r matches Ok(out) && out@ == p,
            None => r == Err::<String, StorageError>(StorageError::InvalidPath),
        },
{
    match user.user_root() {
        Some(root) => root_to(root.as_str(), requested),
        None => Ok(requested.to_owned()),
    }
}

/// A back-end that confines every path to the user's root before it
/// delegates; a request that cannot be confined is refused with
/// [`StorageError::InvalidPath`] and never reaches the wrapped back-end.
#[derive(Debug)]
pub struct RooterVfs<B> {
    pub inner: B,
}

impl<B> RooterVfs<B> {
    /// Wraps `inner`.
    pub fn new(inner: B) -> (r: RooterVfs<B>)
        ensures
            r.inner == inner,
    {
        RooterVfs { inner }
    }
}

impl<M, B: StorageBackend<M>> StorageBackend<M> for RooterVfs<B> {
    open spec fn metadata_ready(&self, user: User, path: Seq<char>) -> bool {
        match user_path(Some(user), path) {
            Some(p) => self.inner.metadata_ready(user, p),
            None => true,
        }
    }

    open spec fn list_ready(&self, user: User, path: Seq<char>) -> bool {
        match user_path(Some(user), path) {
            Some(p) => self.inner.list_ready(user, p),
            None => true,
        }
    }

    open spec fn get_ready(&self, user: User, path: Seq<char>, start_pos: u64) -> bool {
        match user_path(Some(user), path) {
            Some(p) => self.inner.get_ready(user, p, start_pos),
            None => true,
        }
    }

    open spec fn put_ready(&self, user: User, data: Seq<u8>, path: Seq<char>, start_pos: u64) -> bool {
        match user_path(Some(user), path) {
            Some(p) => self.inner.put_ready(user, data, p, start_pos),
            None => true,
        }
    }

    open spec fn del_ready(&self, user: User, path: Seq<char>) -> bool {
        match user_path(Some(user), path) {
            Some(p) => self.inner.del_ready(user, p),
            None => true,
        }
    }

    open spec fn mkd_ready(&self, user: User, path: Seq<char>) -> bool {
        match user_path(Some(user), path) {
            Some(p) => self.inner.mkd_ready(user, p),
            None => true,
        }
    }

    open spec fn rmd_ready(&self, user: User, path: Seq<char>) -> bool {
        match user_path(Some(user), path) {
            Some(p) => self.inner.rmd_ready(user, p),
            None => true,
        }
    }

    open spec fn rename_ready(&self, user: User, from: Seq<char>, to: Seq<char>) -> bool {
        match (user_path(Some(user), from), user_path(Some(user), to)) {
            (Some(f), Some(t)) => self.inner.rename_ready(user, f, t),
            _ => true,
        }
    }

    open spec fn md5_ready(&self, user: User, path: Seq<char>) -> bool {
        match user_path(Some(user), path) {
            Some(p) => self.inner.md5_ready(user, p),
            None => true,
        }
    }

    open spec fn cwd_ready(&self, user: User, path: Seq<char>) -> bool {
        match user_path(Some(user), path) {
            Some(p) => self.inner.cwd_ready(user, p),
            None => true,
        }
    }

    open spec fn metadata_outcome(&self, user: User, path: Seq<char>, r: Result<M, StorageError>) -> bool {
        match user_path(Some(user), path) {
            Some(p) => self.inner.metadata_outcome(user, p, r),
            None => r == Err::<M, StorageError>(StorageError::InvalidPath),
        }
    }

    open spec fn list_outcome(&self, user: User, path: Seq<char>, r: Result<Vec<Fileinfo<M>>, StorageError>) -> bool {
        match user_path(Some(user), path) {
            Some(p) => self.inner.list_outcome(user, p, r),
            None => r == Err::<Vec<Fileinfo<M>>, StorageError>(StorageError::InvalidPath),
        }
    }

    open spec fn get_outcome(&self, user: User, path: Seq<char>, start_pos: u64, r: Result<Vec<u8>, StorageError>) -> bool {
        match user_path(Some(user), path) {
            Some(p) => self.inner.get_outcome(user, p, start_pos, r),
            None => r == Err::<Vec<u8>, StorageError>(StorageError::InvalidPath),
        }
    }

    open spec fn del_outcome(&self, user: User, path: Seq<char>, r: Result<(), StorageError>) -> bool {
        match user_path(Some(user), path) {
            Some(p) => self.inner.del_outcome(user, p, r),
            None => r == Err::<(), StorageError>(StorageError::InvalidPath),
        }
    }

    open spec fn mkd_outcome(&self, user: User, path: Seq<char>, r: Result<(), StorageError>) -> bool {
        match user_path(Some(user), path) {
            Some(p) => self.inner.mkd_outcome(user, p, r),
            None => r == Err::<(), StorageError>(StorageError::InvalidPath),
        }
    }

    open spec fn rmd_outcome(&self, user: User, path: Seq<char>, r: Result<(), StorageError>) -> bool {
        match user_path(Some(user), path) {
            Some(p) => self.inner.rmd_outcome(user, p, r),
            None => r == Err::<(), StorageError>(StorageError::InvalidPath),
        }
    }

    open spec fn md5_outcome(&self, user: User, path: Seq<char>, r: Result<String, StorageError>) -> bool {
        match user_path(Some(user), path) {
            Some(p) => self.inner.md5_outcome(user, p, r),
            None => r == Err::<String, StorageError>(StorageError::InvalidPath),
        }
    }

    open spec fn cwd_outcome(&self, user: User, path: Seq<char>, r: Result<(), StorageError>) -> bool {
        match user_path(Some(user), path) {
            Some(p) => self.inner.cwd_outcome(user, p, r),
            None => r == Err::<(), StorageError>(StorageError::InvalidPath),
        }
    }

    open spec fn put_outcome(
        &self,
        user: User,
        data: Seq<u8>,
        path: Seq<char>,
        start_pos: u64,
        r: Result<u64, StorageError>,
    ) -> bool {
        match user_path(Some(user), path) {
            Some(p) => self.inner.put_outcome(user, data, p, start_pos, r),
            None => r == Err::<u64, StorageError>(StorageError::InvalidPath),
        }
    }

    open spec fn rename_outcome(
        &self,
        user: User,
        from: Seq<char>,
        to: Seq<char>,
        r: Result<(), StorageError>,
    ) -> bool {
        match (user_path(Some(user), from), user_path(Some(user), to)) {
            (Some(f), Some(t)) => self.inner.rename_outcome(user, f, t, r),
            _ => r == Err::<(), StorageError>(StorageError::InvalidPath),
        }
    }

    fn metadata(&self, user: &User, path: &str) -> (r: Result<M, StorageError>) {
        match user_new_path(user, path) {
            Ok(p) => self.inner.metadata(user, p.as_str()),
            Err(e) => Err(e),
        }
    }

    fn list(&self, user: &User, path: &str) -> (r: Result<Vec<Fileinfo<M>>, StorageError>) {
        match user_new_path(user, path) {
            Ok(p) => self.inner.list(user, p.as_str()),
            Err(e) => Err(e),
        }
    }

    fn get(&self, user: &User, path: &str, start_pos: u64) -> (r: Result<Vec<u8>, StorageError>) {
        match user_new_path(user, path) {
            Ok(p) => self.inner.get(user, p.as_str(), start_pos),
            Err(e) => Err(e),
        }
    }

    fn del(&self, user: &User, path: &str) -> (r: Result<(), StorageError>) {
        match user_new_path(user, path) {
            Ok(p) => self.inner.del(user, p.as_str()),
            Err(e) => Err(e),
        }
    }

    fn mkd(&self, user: &User, path: &str) -> (r: Result<(), StorageError>) {
        match user_new_path(user, path) {
            Ok(p) => self.inner.mkd(user, p.as_str()),
            Err(e) => Err(e),
        }
    }

    fn rmd(&self, user: &User, path: &str) -> (r: Result<(), StorageError>) {
        match user_new_path(user, path) {
            Ok(p) => self.inner.rmd(user, p.as_str()),
            Err(e) => Err(e),
        }
    }

    fn md5(&self, user: &User, path: &str) -> (r: Result<String, StorageError>) {
        match user_new_path(user, path) {
            Ok(p) => self.inner.md5(user, p.as_str()),
            Err(e) => Err(e),
        }
    }

    fn cwd(&self, user: &User, path: &str) -> (r: Result<(), StorageError>) {
        match user_new_path(user, path) {
            Ok(p) => self.inner.cwd(user, p.as_str()),
            Err(e) => Err(e),
        }
    }

    fn put(&self, user: &User, data: Vec<u8>, path: &str, start_pos: u64) -> (r: Result<u64, StorageError>) {
        match user_new_path(user, path) {
            Ok(p) => self.inner.put(user, data, p.as_str(), start_pos),
            Err(e) => Err(e),
        }
    }

    fn rename(&self, user: &User, from: &str, to: &str) -> (r: Result<(), StorageError>) {
        let from_path = match user_new_path(user, from) {
            Ok(p) => p,
            Err(e) => return Err(e),
        };
        match user_new_path(user, to) {
            Ok(to_path) => self.inner.rename(user, from_path.as_str(), to_path.as_str()),
            Err(e) => Err(e),
        }
    }
}

} // verus!
