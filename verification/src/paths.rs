//! Resolution of a request's decoded URL path segments against the root
//! directory.
//!
//! A decoded segment may itself contain `/` (a percent-encoded slash decodes
//! after the framework's own URL normalization), so every segment is first
//! split on `/`. The pieces are then normalized: empty pieces and `.` are
//! dropped, and `..` removes the previously kept piece. A `..` with nothing
//! left to remove is dropped, so a resolved path never climbs above the root.
//! The resolved path is the root itself when nothing remains, else the root
//! joined with each kept piece by `/`.

use vstd::prelude::*;
use vstd::string::StrSliceExecFns;
use vstd::string::StringExecFns;

verus! {

/// The pieces of `s[start..]` split on the separator `sep`, where `cur` is
/// the scan position and `s[start..cur]` holds no `sep`. `split_at` below
/// starts the scan.
pub open spec fn split_from(s: Seq<char>, sep: char, start: int, cur: int) -> Seq<Seq<char>>
    recommends
        0 <= start <= cur <= s.len(),
    decreases s.len() - cur,
{
    if cur >= s.len() {
        seq![s.subrange(start, s.len() as int)]
    } else if s[cur] == sep {
        seq![s.subrange(start, cur)] + split_from(s, sep, cur + 1, cur + 1)
    } else {
        split_from(s, sep, start, cur + 1)
    }
}

/// The pieces of `s` split on the separator `sep`. The empty string splits
/// into one empty piece.
pub open spec fn split_at(s: Seq<char>, sep: char) -> Seq<Seq<char>> {
    split_from(s, sep, 0, 0)
}

/// The pieces of `s` split on `/`.
pub open spec fn split_slash(s: Seq<char>) -> Seq<Seq<char>> {
    split_at(s, '/')
}

/// One normalization step: how the kept components change when piece `p` is
/// read.
pub open spec fn norm_step(acc: Seq<Seq<char>>, p: Seq<char>) -> Seq<Seq<char>> {
    if p.len() == 0 || p == seq!['.'] {
        acc
    } else if p == seq!['.', '.'] {
        if acc.len() > 0 {
            acc.drop_last()
        } else {
            acc
        }
    } else {
        acc.push(p)
    }
}

/// The kept components after reading each piece of `ps` in order, starting
/// from `acc`.
pub open spec fn norm_pieces(acc: Seq<Seq<char>>, ps: Seq<Seq<char>>) -> Seq<Seq<char>>
    decreases ps.len(),
{
    if ps.len() == 0 {
        acc
    } else {
        norm_pieces(norm_step(acc, ps[0]), ps.skip(1))
    }
}

/// The kept components after reading every piece of every segment of `segs`
/// in order, starting from `acc`.
pub open spec fn resolve_from(acc: Seq<Seq<char>>, segs: Seq<Seq<char>>) -> Seq<Seq<char>>
    decreases segs.len(),
{
    if segs.len() == 0 {
        acc
    } else {
        resolve_from(norm_pieces(acc, split_slash(segs[0])), segs.skip(1))
    }
}

/// The normalized path components of the decoded segments `segs`.
pub open spec fn resolved_components(segs: Seq<Seq<char>>) -> Seq<Seq<char>> {
    resolve_from(Seq::empty(), segs)
}

/// `root` joined with each component of `comps` by `/`; exactly `root` when
/// `comps` is empty.
pub open spec fn joined_path(root: Seq<char>, comps: Seq<Seq<char>>) -> Seq<char>
    decreases comps.len(),
{
    if comps.len() == 0 {
        root
    } else {
        joined_path(root.push('/') + comps[0], comps.skip(1))
    }
}

/// The filesystem path that the decoded segments `segs` resolve to under
/// `root`.
pub open spec fn candidate_of(root: Seq<char>, segs: Seq<Seq<char>>) -> Seq<char> {
    joined_path(root, resolved_components(segs))
}

/// Whether every component is a plain name: non-empty and neither `.` nor
/// `..`.
pub open spec fn plain_components(cs: Seq<Seq<char>>) -> bool {
    forall|i: int|
        0 <= i < cs.len() ==> cs[i].len() != 0 && cs[i] != seq!['.'] && cs[i] != seq!['.', '.']
}

proof fn lemma_norm_step_plain(acc: Seq<Seq<char>>, p: Seq<char>)
    requires
        plain_components(acc),
    ensures
        plain_components(norm_step(acc, p)),
{
    if p.len() == 0 || p == seq!['.'] {
    } else if p == seq!['.', '.'] {
        if acc.len() > 0 {
            assert forall|i: int| 0 <= i < acc.drop_last().len() implies acc.drop_last()[i].len()
                != 0 && acc.drop_last()[i] != seq!['.'] && acc.drop_last()[i] != seq![
                '.',
                '.',
            ] by {
                assert(acc.drop_last()[i] == acc[i]);
            }
        }
    } else {
        assert forall|i: int| 0 <= i < acc.push(p).len() implies acc.push(p)[i].len() != 0
            && acc.push(p)[i] != seq!['.'] && acc.push(p)[i] != seq!['.', '.'] by {
            if i < acc.len() {
                assert(acc.push(p)[i] == acc[i]);
            } else {
                assert(acc.push(p)[i] == p);
            }
        }
    }
}

proof fn lemma_norm_pieces_plain(acc: Seq<Seq<char>>, ps: Seq<Seq<char>>)
    requires
        plain_components(acc),
    ensures
        plain_components(norm_pieces(acc, ps)),
    decreases ps.len(),
{
    if ps.len() > 0 {
        lemma_norm_step_plain(acc, ps[0]);
        lemma_norm_pieces_plain(norm_step(acc, ps[0]), ps.skip(1));
    }
}

proof fn lemma_resolve_from_plain(acc: Seq<Seq<char>>, segs: Seq<Seq<char>>)
    requires
        plain_components(acc),
    ensures
        plain_components(resolve_from(acc, segs)),
    decreases segs.len(),
{
    if segs.len() > 0 {
        lemma_norm_pieces_plain(acc, split_slash(segs[0]));
        lemma_resolve_from_plain(norm_pieces(acc, split_slash(segs[0])), segs.skip(1));
    }
}

/// Normalization keeps only plain names: no resolved component is empty,
/// `.`, or `..`.
pub proof fn lemma_resolved_components_plain(segs: Seq<Seq<char>>)
    ensures
        plain_components(resolved_components(segs)),
{
    lemma_resolve_from_plain(Seq::empty(), segs);
}

proof fn lemma_joined_path_prefix(root: Seq<char>, comps: Seq<Seq<char>>)
    ensures
        joined_path(root, comps).len() >= root.len(),
        joined_path(root, comps).take(root.len() as int) == root,
    decreases comps.len(),
{
    if comps.len() == 0 {
        assert(root.take(root.len() as int) =~= root);
    } else {
        let ext = root.push('/') + comps[0];
        lemma_joined_path_prefix(ext, comps.skip(1));
        assert(joined_path(root, comps) == joined_path(ext, comps.skip(1)));
        assert(joined_path(ext, comps.skip(1)).take(ext.len() as int) == ext);
        assert(joined_path(root, comps).take(root.len() as int) =~= root);
    }
}

/// The resolved path begins with the root, and what follows is the kept
/// components joined by `/`: a request cannot name a path outside the root.
pub proof fn lemma_candidate_stays_under_root(root: Seq<char>, segs: Seq<Seq<char>>)
    ensures
        candidate_of(root, segs).len() >= root.len(),
        candidate_of(root, segs).take(root.len() as int) == root,
        candidate_of(root, segs) == joined_path(root, resolved_components(segs)),
        plain_components(resolved_components(segs)),
{
    lemma_joined_path_prefix(root, resolved_components(segs));
    lemma_resolved_components_plain(segs);
}

proof fn lemma_norm_pieces_snoc(acc: Seq<Seq<char>>, ps: Seq<Seq<char>>, p: Seq<char>)
    ensures
        norm_pieces(acc, ps.push(p)) == norm_step(norm_pieces(acc, ps), p),
    decreases ps.len(),
{
    if ps.len() == 0 {
        assert(ps.push(p)[0] == p);
        assert(ps.push(p).skip(1) =~= Seq::<Seq<char>>::empty());
        assert(norm_pieces(norm_step(acc, p), Seq::<Seq<char>>::empty()) == norm_step(acc, p));
        assert(norm_pieces(acc, ps.push(p)) == norm_pieces(
            norm_step(acc, p),
            Seq::<Seq<char>>::empty(),
        ));
    } else {
        assert(ps.push(p)[0] == ps[0]);
        assert(ps.push(p).skip(1) =~= ps.skip(1).push(p));
        lemma_norm_pieces_snoc(norm_step(acc, ps[0]), ps.skip(1), p);
        assert(norm_pieces(acc, ps.push(p)) == norm_pieces(
            norm_step(acc, ps[0]),
            ps.skip(1).push(p),
        ));
        assert(norm_pieces(acc, ps) == norm_pieces(norm_step(acc, ps[0]), ps.skip(1)));
    }
}

proof fn lemma_resolve_from_snoc(acc: Seq<Seq<char>>, segs: Seq<Seq<char>>, s: Seq<char>)
    ensures
        resolve_from(acc, segs.push(s)) == norm_pieces(resolve_from(acc, segs), split_slash(s)),
    decreases segs.len(),
{
    if segs.len() == 0 {
        assert(segs.push(s)[0] == s);
        assert(segs.push(s).skip(1) =~= Seq::<Seq<char>>::empty());
        assert(resolve_from(norm_pieces(acc, split_slash(s)), Seq::<Seq<char>>::empty())
            == norm_pieces(acc, split_slash(s)));
        assert(resolve_from(acc, segs.push(s)) == resolve_from(
            norm_pieces(acc, split_slash(s)),
            Seq::<Seq<char>>::empty(),
        ));
    } else {
        assert(segs.push(s)[0] == segs[0]);
        assert(segs.push(s).skip(1) =~= segs.skip(1).push(s));
        lemma_resolve_from_snoc(norm_pieces(acc, split_slash(segs[0])), segs.skip(1), s);
        assert(resolve_from(acc, segs.push(s)) == resolve_from(
            norm_pieces(acc, split_slash(segs[0])),
            segs.skip(1).push(s),
        ));
        assert(resolve_from(acc, segs) == resolve_from(
            norm_pieces(acc, split_slash(segs[0])),
            segs.skip(1),
        ));
    }
}

/// Reads the pieces of one decoded segment into `out`, normalizing as it
/// goes.
fn push_segment_pieces(out: &mut Vec<String>, seg: &str)
    ensures
        final(out).deep_view() == norm_pieces(old(out).deep_view(), split_slash(seg@)),
{
    let ghost acc0 = out.deep_view();
    let n = seg.unicode_len();
    let mut start: usize = 0;
    let mut i: usize = 0;
    let ghost mut done: Seq<Seq<char>> = Seq::empty();
    loop
        invariant_except_break
            0 <= start <= i <= n == seg@.len(),
            split_slash(seg@) == done + split_from(seg@, '/', start as int, i as int),
        invariant
            out.deep_view() == norm_pieces(acc0, done),
        ensures
            done == split_slash(seg@),
        decreases n - i + 1,
    {
        if i == n || seg.get_char(i) == '/' {
            let piece = seg.substring_char(start, i);
            push_piece(out, piece);
            proof {
                lemma_norm_pieces_snoc(acc0, done, piece@);
                done = done.push(piece@);
            }
            if i == n {
                proof {
                    assert(split_from(seg@, '/', start as int, i as int) =~= seq![piece@]);
                    assert(done =~= split_slash(seg@));
                }
                break ;
            }
            i = i + 1;
            start = i;
        } else {
            i = i + 1;
        }
    }
}

/// Applies one normalization step for piece `p`.
fn push_piece(out: &mut Vec<String>, p: &str)
    ensures
        final(out).deep_view() == norm_step(old(out).deep_view(), p@),
{
    let ghost acc0 = out.deep_view();
    let n = p.unicode_len();
    if n == 0 {
        return ;
    }
    if n == 1 && p.get_char(0) == '.' {
        proof {
            assert(p@ =~= seq!['.']);
        }
        return ;
    }
    if n == 2 && p.get_char(0) == '.' && p.get_char(1) == '.' {
        proof {
            assert(p@ =~= seq!['.', '.']);
        }
        if out.len() > 0 {
            out.pop();
            proof {
                assert(out.deep_view() =~= acc0.drop_last());
            }
        }
        return ;
    }
    proof {
        assert(p@ != seq!['.']);
        assert(p@ != seq!['.', '.']);
    }
    out.push(p.to_owned());
    proof {
        assert(out.deep_view() =~= acc0.push(p@));
    }
}

/// The normalized path components of the decoded request segments.
pub fn resolve_components(segments: &Vec<String>) -> (r: Vec<String>)
    ensures
        r.deep_view() == resolved_components(segments.deep_view()),
{
    let mut out: Vec<String> = Vec::new();
    let ghost segs = segments.deep_view();
    proof {
        assert(out.deep_view() =~= Seq::<Seq<char>>::empty());
    }
    for k in 0..segments.len()
        invariant
            segs == segments.deep_view(),
            out.deep_view() == resolve_from(Seq::empty(), segs.take(k as int)),
    {
        push_segment_pieces(&mut out, segments[k].as_str());
        proof {
            lemma_resolve_from_snoc(Seq::empty(), segs.take(k as int), segs[k as int]);
            assert(segs.take(k as int).push(segs[k as int]) =~= segs.take(k + 1 as int));
        }
    }
    proof {
        assert(segs.take(segments.len() as int) =~= segs);
    }
    out
}

/// `root` joined with each of `comps` by `/`; exactly `root` when `comps` is
/// empty.
pub fn join_path(root: &str, comps: &Vec<String>) -> (r: String)
    ensures
        r@ == joined_path(root@, comps.deep_view()),
{
    let ghost dv = comps.deep_view();
    let mut r = String::from_str(root);
    proof {
        assert(dv.skip(0) =~= dv);
    }
    for i in 0..comps.len()
        invariant
            dv == comps.deep_view(),
            joined_path(root@, dv) == joined_path(r@, dv.skip(i as int)),
    {
        proof {
            reveal_strlit("/");
        }
        let ghost before = r@;
        r.append("/");
        r.append(comps[i].as_str());
        proof {
            assert(r@ =~= before.push('/') + dv[i as int]);
            assert(dv.skip(i as int)[0] == dv[i as int]);
            assert(dv.skip(i as int).skip(1) =~= dv.skip(i + 1 as int));
        }
    }
    proof {
        assert(dv.skip(comps.len() as int) =~= Seq::<Seq<char>>::empty());
    }
    r
}

/// The filesystem path that the decoded request segments resolve to under
/// `root`.
pub fn candidate_path(root: &str, segments: &Vec<String>) -> (r: String)
    ensures
        r@ == candidate_of(root@, segments.deep_view()),
{
    let comps = resolve_components(segments);
    join_path(root, &comps)
}

/// The path of the directory index file inside the directory `dir`.
pub fn index_path(dir: &str) -> (r: String)
    ensures
        r@ == dir@ + "/index.html"@,
{
    let mut r = String::from_str(dir);
    r.append("/index.html");
    r
}

} // verus!
