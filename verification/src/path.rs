//! Textual path normalization, and the dir/file split.
//!
//! A user-supplied name is expanded to an absolute, canonical form: a
//! bare `~`, or a leading `~/`, becomes the home directory; a name
//! that is still relative is put under the default directory; then
//! empty components, `.` and `..` are collapsed textually.  Symbolic
//! links are deliberately not resolved — the probe must still see the
//! link itself — and `..` above the root stays at the root.  A name of
//! the form `~user` is not resolved here: reading another user's home
//! directory is the id databases' business, and such a name is treated
//! like any other relative name.
//!
//! The dir/file split serves the legacy whole-record routine, which
//! takes the directory part and the file part of an absolute name as
//! separate arguments.

use vstd::prelude::*;

use crate::record::copy_bytes;
use crate::value::texts_model;

verus! {

/// The path separator.
pub const SLASH: u8 = 47;

/// The `.` of a no-op path component.
pub const DOT: u8 = 46;

/// The `~` that stands for the home directory.
pub const TILDE: u8 = 126;

/// Whether a path begins at the root.
pub open spec fn is_absolute(p: Seq<u8>) -> bool {
    p.len() > 0 && p[0] == SLASH
}

/// Whether a name asks for the home directory: a bare `~`, or `~/`
/// followed by anything.
pub open spec fn asks_for_home(name: Seq<u8>) -> bool {
    name.len() >= 1 && name[0] == TILDE && (name.len() == 1 || name[1] == SLASH)
}

/// The name with its base supplied, before any collapsing: the home
/// directory in place of `~`, the default directory under a relative
/// name, and an absolute name as it stands.
pub open spec fn spec_prefixed(name: Seq<u8>, dir: Seq<u8>, home: Seq<u8>) -> Seq<u8> {
    if asks_for_home(name) {
        home + name.skip(1)
    } else if is_absolute(name) {
        name
    } else {
        dir + seq![SLASH] + name
    }
}

/// The components of `p` from position `i` on, split at every
/// separator, appended to `acc` with `cur` as the component read so
/// far.  Splitting the whole of `p` is `split_from(p, 0, empty,
/// empty)`; a path of n separators yields n + 1 components, empty
/// ones included.
pub open spec fn split_from(p: Seq<u8>, i: int, cur: Seq<u8>, acc: Seq<Seq<u8>>) -> Seq<Seq<u8>>
    decreases p.len() - i,
{
    if i < 0 || i >= p.len() {
        acc.push(cur)
    } else if p[i] == SLASH {
        split_from(p, i + 1, Seq::empty(), acc.push(cur))
    } else {
        split_from(p, i + 1, cur.push(p[i]), acc)
    }
}

/// All components of `p`.
pub open spec fn split_path(p: Seq<u8>) -> Seq<Seq<u8>> {
    split_from(p, 0, Seq::empty(), Seq::empty())
}

/// A `.` component.
pub open spec fn is_dot(c: Seq<u8>) -> bool {
    c.len() == 1 && c[0] == DOT
}

/// A `..` component.
pub open spec fn is_dotdot(c: Seq<u8>) -> bool {
    c.len() == 2 && c[0] == DOT && c[1] == DOT
}

/// One component applied to the stack of kept components: empty and
/// `.` vanish, `..` removes the last kept component and is a no-op at
/// the root, anything else is kept.
pub open spec fn step(stack: Seq<Seq<u8>>, c: Seq<u8>) -> Seq<Seq<u8>> {
    if c.len() == 0 || is_dot(c) {
        stack
    } else if is_dotdot(c) {
        if stack.len() == 0 {
            stack
        } else {
            stack.drop_last()
        }
    } else {
        stack.push(c)
    }
}

/// The components of `cs` from position `i` on, applied in order to
/// `stack`.
pub open spec fn collapse_from(stack: Seq<Seq<u8>>, cs: Seq<Seq<u8>>, i: int) -> Seq<Seq<u8>>
    decreases cs.len() - i,
{
    if i < 0 || i >= cs.len() {
        stack
    } else {
        collapse_from(step(stack, cs[i]), cs, i + 1)
    }
}

/// The components that survive collapsing, in order.
pub open spec fn collapse(cs: Seq<Seq<u8>>) -> Seq<Seq<u8>> {
    collapse_from(Seq::empty(), cs, 0)
}

/// The bytes of the components of `cs` from position `i` on, each
/// preceded by a separator.
pub open spec fn join_from(cs: Seq<Seq<u8>>, i: int) -> Seq<u8>
    decreases cs.len() - i,
{
    if i < 0 || i >= cs.len() {
        Seq::empty()
    } else {
        seq![SLASH] + cs[i] + join_from(cs, i + 1)
    }
}

/// The absolute path the kept components spell; the bare root when
/// none survived.
pub open spec fn join_abs(cs: Seq<Seq<u8>>) -> Seq<u8> {
    if cs.len() == 0 {
        seq![SLASH]
    } else {
        join_from(cs, 0)
    }
}

/// The canonical absolute form of a name: its base supplied, then its
/// components collapsed and rejoined.
pub open spec fn spec_expand(name: Seq<u8>, dir: Seq<u8>, home: Seq<u8>) -> Seq<u8> {
    join_abs(collapse(split_path(spec_prefixed(name, dir, home))))
}

/// A component that survives collapsing: non-empty, and neither `.`
/// nor `..`.
pub open spec fn plain_component(c: Seq<u8>) -> bool {
    c.len() > 0 && !is_dot(c) && !is_dotdot(c)
}

/// Appends `src[from..]` to `dst`.
fn append_from(dst: &mut Vec<u8>, src: &Vec<u8>, from: usize)
    requires
        from <= src.len(),
    ensures
        final(dst)@ == old(dst)@ + src@.skip(from as int),
{
    let mut i: usize = from;
    while i < src.len()
        invariant
            from <= i <= src.len(),
            dst@ == old(dst)@ + src@.subrange(from as int, i as int),
        decreases src.len() - i,
    {
        dst.push(src[i]);
        proof {
            assert(old(dst)@ + src@.subrange(from as int, i as int) + seq![src@[i as int]]
                =~= old(dst)@ + src@.subrange(from as int, i as int + 1));
        }
        i = i + 1;
    }
    proof {
        assert(src@.subrange(from as int, src@.len() as int) =~= src@.skip(from as int));
    }
}

/// Appends the whole of `src` to `dst`.
fn append_bytes(dst: &mut Vec<u8>, src: &Vec<u8>)
    ensures
        final(dst)@ == old(dst)@ + src@,
{
    append_from(dst, src, 0);
    proof {
        assert(old(dst)@ + src@.skip(0) =~= old(dst)@ + src@);
    }
}

/// Expands `name` to its canonical absolute form: `~` becomes `home`,
/// a relative name is placed under `dir`, and empty, `.` and `..`
/// components are collapsed textually, without resolving any symbolic
/// link.  The result always begins at the root.
pub fn expand_file_name(name: &Vec<u8>, dir: &Vec<u8>, home: &Vec<u8>) -> (r: Vec<u8>)
    ensures
        r@ == spec_expand(name@, dir@, home@),
        is_absolute(r@),
{
    let ghost p_spec = spec_prefixed(name@, dir@, home@);
    let mut pre: Vec<u8> = Vec::new();
    if name.len() >= 1 && name[0] == TILDE && (name.len() == 1 || name[1] == SLASH) {
        append_bytes(&mut pre, home);
        append_from(&mut pre, name, 1);
    } else if name.len() >= 1 && name[0] == SLASH {
        append_bytes(&mut pre, name);
    } else {
        append_bytes(&mut pre, dir);
        pre.push(SLASH);
        append_bytes(&mut pre, name);
        proof {
            assert(dir@ + seq![SLASH] + name@ =~= dir@.push(SLASH) + name@);
        }
    }
    assert(pre@ == p_spec);
    let ghost p = pre@;

    let mut comps: Vec<Vec<u8>> = Vec::new();
    let mut cur: Vec<u8> = Vec::new();
    let mut i: usize = 0;
    proof {
        assert(texts_model(comps@) =~= Seq::<Seq<u8>>::empty());
    }
    while i < pre.len()
        invariant
            i <= pre.len(),
            pre@ == p,
            split_from(p, i as int, cur@, texts_model(comps@)) == split_path(p),
        decreases pre.len() - i,
    {
        let ghost old_comps = texts_model(comps@);
        let ghost old_cur = cur@;
        if pre[i] == SLASH {
            comps.push(cur);
            cur = Vec::new();
            proof {
                assert(texts_model(comps@) =~= old_comps.push(old_cur));
            }
        } else {
            cur.push(pre[i]);
        }
        i = i + 1;
    }
    comps.push(cur);
    proof {
        assert(texts_model(comps@) == split_path(p)) by {
            assert(texts_model(comps@.drop_last()) =~= texts_model(
                comps@,
            ).drop_last());
            assert(texts_model(comps@) =~= texts_model(
                comps@.drop_last(),
            ).push(comps@.last()@));
        }
    }
    let ghost cs = texts_model(comps@);

    let mut stack: Vec<Vec<u8>> = Vec::new();
    let mut j: usize = 0;
    proof {
        assert(texts_model(stack@) =~= Seq::<Seq<u8>>::empty());
    }
    while j < comps.len()
        invariant
            j <= comps.len(),
            texts_model(comps@) == cs,
            comps@.len() == cs.len(),
            collapse_from(texts_model(stack@), cs, j as int) == collapse(cs),
        decreases comps.len() - j,
    {
        let ghost old_stack = texts_model(stack@);
        let c = &comps[j];
        let c_len = c.len();
        if c_len == 0 || (c_len == 1 && c[0] == DOT) {
            proof {
                assert(step(old_stack, cs[j as int]) == old_stack);
            }
        } else if c_len == 2 && c[0] == DOT && c[1] == DOT {
            if stack.len() > 0 {
                let _ = stack.pop();
                proof {
                    assert(texts_model(stack@) =~= old_stack.drop_last());
                }
            }
        } else {
            stack.push(copy_bytes(c));
            proof {
                assert(texts_model(stack@) =~= old_stack.push(cs[j as int]));
            }
        }
        j = j + 1;
    }
    let ghost kept = texts_model(stack@);
    proof {
        assert(kept == collapse(cs));
        assert(stack@.len() == kept.len());
    }

    let mut r: Vec<u8> = Vec::new();
    if stack.len() == 0 {
        r.push(SLASH);
        proof {
            assert(r@ =~= seq![SLASH]);
        }
    } else {
        let mut k: usize = 0;
        while k < stack.len()
            invariant
                k <= stack.len(),
                texts_model(stack@) == kept,
                stack@.len() == kept.len(),
                r@ + join_from(kept, k as int) == join_from(kept, 0),
            decreases stack.len() - k,
        {
            let ghost old_r = r@;
            r.push(SLASH);
            append_bytes(&mut r, &stack[k]);
            proof {
                assert(r@ =~= old_r + (seq![SLASH] + kept[k as int]));
                assert(old_r + (seq![SLASH] + kept[k as int]) + join_from(kept, k as int + 1)
                    =~= old_r + (seq![SLASH] + kept[k as int] + join_from(kept, k as int + 1)));
            }
            k = k + 1;
        }
        proof {
            assert(r@ + join_from(kept, stack@.len() as int) =~= r@);
            assert(r@ == join_abs(kept));
        }
    }
    proof {
        assert(is_absolute(r@)) by {
            if kept.len() > 0 {
                assert(r@ == seq![SLASH] + kept[0] + join_from(kept, 1));
            }
        }
    }
    r
}

/// The directory part and the file part of `dirname/filename`, joined
/// for the single-path entry points: the directory, one separator,
/// the name, with nothing collapsed.  The directory-relative query
/// hands this straight to the probe — its caller has already
/// normalized the directory and consulted the handler registry.
pub fn query_with_parent_path(dirname: &Vec<u8>, filename: &Vec<u8>) -> (r: Vec<u8>)
    ensures
        r@ == dirname@ + seq![SLASH] + filename@,
{
    let mut r: Vec<u8> = Vec::new();
    append_bytes(&mut r, dirname);
    r.push(SLASH);
    append_bytes(&mut r, filename);
    proof {
        assert(dirname@ + seq![SLASH] + filename@ =~= dirname@.push(SLASH) + filename@);
    }
    r
}

/// The position of the last separator before position `k`, or -1.
pub open spec fn rfind_from(p: Seq<u8>, k: int) -> int
    decreases k,
{
    if k <= 0 {
        -1
    } else if p[k - 1] == SLASH {
        k - 1
    } else {
        rfind_from(p, k - 1)
    }
}

/// The position of the last separator of `p`, or -1 when it has none.
pub open spec fn rfind_slash(p: Seq<u8>) -> int {
    rfind_from(p, p.len() as int)
}

/// The directory part of `p`: everything before the last separator,
/// the bare root when that is empty, and empty when `p` has no
/// separator at all.
pub open spec fn spec_dir_part(p: Seq<u8>) -> Seq<u8> {
    if rfind_slash(p) < 0 {
        Seq::empty()
    } else if rfind_slash(p) == 0 {
        seq![SLASH]
    } else {
        p.take(rfind_slash(p))
    }
}

/// The file part of `p`: everything after the last separator, or the
/// whole of `p` when it has none.
pub open spec fn spec_file_part(p: Seq<u8>) -> Seq<u8> {
    p.skip(rfind_slash(p) + 1)
}

/// Splits a path into its directory part and its file part at the
/// last separator, as the legacy whole-record routine takes them.
pub fn split_dir_file(p: &Vec<u8>) -> (r: (Vec<u8>, Vec<u8>))
    ensures
        r.0@ == spec_dir_part(p@),
        r.1@ == spec_file_part(p@),
{
    let mut k: usize = p.len();
    let mut found: bool = false;
    let mut at: usize = 0;
    while k > 0
        invariant
            k <= p.len(),
            !found ==> rfind_from(p@, k as int) == rfind_slash(p@),
            found ==> at < p.len() && at == rfind_slash(p@),
        decreases k,
    {
        if !found && p[k - 1] == SLASH {
            found = true;
            at = k - 1;
        }
        k = k - 1;
    }
    proof {
        if !found {
            assert(rfind_slash(p@) == -1);
        }
    }
    let mut dir: Vec<u8> = Vec::new();
    let mut file: Vec<u8> = Vec::new();
    if !found {
        append_from(&mut file, p, 0);
        proof {
            assert(file@ =~= spec_file_part(p@));
            assert(dir@ =~= spec_dir_part(p@));
        }
    } else {
        if at == 0 {
            dir.push(SLASH);
            proof {
                assert(dir@ =~= seq![SLASH]);
            }
        } else {
            let mut d: usize = 0;
            while d < at
                invariant
                    d <= at,
                    at < p@.len(),
                    dir@ == p@.subrange(0, d as int),
                decreases at - d,
            {
                dir.push(p[d]);
                proof {
                    assert(p@.subrange(0, d as int) + seq![p@[d as int]] =~= p@.subrange(
                        0,
                        d as int + 1,
                    ));
                }
                d = d + 1;
            }
        }
        append_from(&mut file, p, at + 1);
        proof {
            assert(file@ =~= spec_file_part(p@));
        }
    }
    (dir, file)
}

} // verus!
