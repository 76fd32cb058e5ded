//! Byte-level path arithmetic.
//!
//! Paths are byte strings, as the operating system hands them out.  The
//! only structure the browser reads out of a path is the `/` separator:
//! `join` appends one component, `parent` removes the last one.  Paths
//! handled here are the ones the browser itself builds: an absolute
//! starting directory extended component by component, so `parent` is
//! defined to return nothing for a bare top-level name, where no
//! enclosing directory is known.

use vstd::prelude::*;

verus! {

/// The path separator byte, `/`.
pub const SLASH: u8 = 47;

/// Index of the last occurrence of `b` in `s`, or `-1` if `b` does not
/// occur.
pub open spec fn last_byte(s: Seq<u8>, b: u8) -> int
    decreases s.len(),
{
    if s.len() == 0 {
        -1
    } else if s[s.len() - 1] == b {
        s.len() - 1
    } else {
        last_byte(s.drop_last(), b)
    }
}

/// `p` extended with the component `name`: a `/` is inserted unless `p`
/// already ends with one (as the root `/` does).
pub open spec fn join_of(p: Seq<u8>, name: Seq<u8>) -> Seq<u8> {
    if p.len() > 0 && p[p.len() - 1] == SLASH {
        p + name
    } else {
        p + seq![SLASH] + name
    }
}

/// The enclosing directory of `s`, if the path itself shows one: the
/// prefix before the last `/`, the root `/` when that separator is the
/// leading one, and nothing for the root itself or for a separator-free
/// name.
pub open spec fn parent_of(s: Seq<u8>) -> Option<Seq<u8>> {
    let j = last_byte(s, SLASH);
    if j < 0 {
        None
    } else if j == 0 {
        if s.len() == 1 {
            None
        } else {
            Some(seq![SLASH])
        }
    } else {
        Some(s.subrange(0, j))
    }
}

/// A path the browser navigates from: the root, or a nonempty path
/// without a trailing separator.  `join` preserves this shape, so every
/// path the application ever holds satisfies it.
pub open spec fn path_wf(p: Seq<u8>) -> bool {
    p.len() > 0 && (p =~= seq![SLASH] || p[p.len() - 1] != SLASH)
}

/// A directory-entry name as the scanner reports it: nonempty and free
/// of separators.
pub open spec fn name_wf(n: Seq<u8>) -> bool {
    n.len() > 0 && forall|k: int| 0 <= k < n.len() ==> n[k] != SLASH
}

/// Appending bytes in which `b` does not occur leaves the last
/// occurrence of `b` where it was.
pub proof fn lemma_last_byte_append_none(s: Seq<u8>, t: Seq<u8>, b: u8)
    requires
        forall|k: int| 0 <= k < t.len() ==> t[k] != b,
    ensures
        last_byte(s + t, b) == last_byte(s, b),
    decreases t.len(),
{
    if t.len() == 0 {
        assert(s + t =~= s);
    } else {
        assert((s + t).drop_last() =~= s + t.drop_last());
        lemma_last_byte_append_none(s, t.drop_last(), b);
    }
}

/// Joining a well-formed component onto a well-formed path and then
/// taking the parent gives the original path back.
pub proof fn lemma_parent_of_join(p: Seq<u8>, name: Seq<u8>)
    requires
        path_wf(p),
        name_wf(name),
    ensures
        parent_of(join_of(p, name)) == Some(p),
{
    if p.len() > 0 && p[p.len() - 1] == SLASH {
        // p is the root "/": the joined path is "/" + name.
        assert(p =~= seq![SLASH]);
        let j = p + name;
        lemma_last_byte_append_none(p, name, SLASH);
        assert(last_byte(p, SLASH) == 0);
        assert(last_byte(j, SLASH) == 0);
        assert(j.len() > 1);
        assert(parent_of(j) == Some(seq![SLASH]));
    } else {
        let j = p + seq![SLASH] + name;
        lemma_last_byte_append_none(p + seq![SLASH], name, SLASH);
        assert((p + seq![SLASH])[(p + seq![SLASH]).len() - 1] == SLASH);
        assert(last_byte(p + seq![SLASH], SLASH) == p.len());
        assert(last_byte(j, SLASH) == p.len());
        assert(j.subrange(0, p.len() as int) =~= p);
    }
}

proof fn lemma_last_byte_bounds(s: Seq<u8>, b: u8)
    ensures
        -1 <= last_byte(s, b) < s.len(),
    decreases s.len(),
{
    if s.len() > 0 && s[s.len() - 1] != b {
        lemma_last_byte_bounds(s.drop_last(), b);
    }
}

/// A parent, where one exists, is strictly shorter than the path, so a
/// path is never its own ancestor.
pub proof fn lemma_parent_shorter(s: Seq<u8>, q: Seq<u8>)
    requires
        parent_of(s) == Some(q),
    ensures
        q.len() < s.len(),
        q != s,
{
    lemma_last_byte_bounds(s, SLASH);
}

/// The join is strictly longer than the path it extends, so a path is
/// never its own subdirectory.
pub proof fn lemma_join_longer(p: Seq<u8>, name: Seq<u8>)
    requires
        name.len() > 0,
    ensures
        join_of(p, name).len() > p.len(),
        join_of(p, name) != p,
{
    if join_of(p, name) == p {
        assert(join_of(p, name).len() == p.len());
    }
}

/// The joined path keeps the well-formed shape: nonempty and, since the
/// component is nonempty and separator-free, without a trailing `/`.
pub proof fn lemma_join_wf(p: Seq<u8>, name: Seq<u8>)
    requires
        path_wf(p),
        name_wf(name),
    ensures
        path_wf(join_of(p, name)),
{
    let j = join_of(p, name);
    assert(j[j.len() - 1] == name[name.len() - 1]);
}

/// A fresh copy of a byte string.
pub fn clone_bytes(v: &Vec<u8>) -> (r: Vec<u8>)
    ensures
        r@ == v@,
{
    let mut r: Vec<u8> = Vec::new();
    let n = v.len();
    let mut i: usize = 0;
    while i < n
        invariant
            n == v.len(),
            i <= n,
            r@ =~= v@.subrange(0, i as int),
        decreases n - i,
    {
        r.push(v[i]);
        i += 1;
    }
    proof {
        assert(r@ =~= v@);
    }
    r
}

/// Byte-string equality.
pub fn bytes_eq(a: &Vec<u8>, b: &Vec<u8>) -> (r: bool)
    ensures
        r == (a@ == b@),
{
    if a.len() != b.len() {
        return false;
    }
    let n = a.len();
    let mut i: usize = 0;
    while i < n
        invariant
            n == a.len() == b.len(),
            i <= n,
            forall|k: int| 0 <= k < i ==> a@[k] == b@[k],
        decreases n - i,
    {
        if a[i] != b[i] {
            return false;
        }
        i += 1;
    }
    proof {
        assert(a@ =~= b@);
    }
    true
}

/// `p` extended with one component, with a `/` between unless `p` is
/// the root.
pub fn join(p: &Vec<u8>, name: &Vec<u8>) -> (r: Vec<u8>)
    ensures
        r@ == join_of(p@, name@),
{
    let mut r: Vec<u8> = Vec::new();
    let plen = p.len();
    let mut i: usize = 0;
    while i < plen
        invariant
            plen == p.len(),
            i <= plen,
            r@ =~= p@.subrange(0, i as int),
        decreases plen - i,
    {
        r.push(p[i]);
        i += 1;
    }
    proof {
        assert(r@ =~= p@);
    }
    if plen == 0 || p[plen - 1] != SLASH {
        r.push(SLASH);
    }
    let nlen = name.len();
    let ghost stem: Seq<u8> = r@;
    let mut k: usize = 0;
    while k < nlen
        invariant
            nlen == name.len(),
            k <= nlen,
            r@ =~= stem + name@.subrange(0, k as int),
        decreases nlen - k,
    {
        r.push(name[k]);
        k += 1;
    }
    proof {
        assert(r@ =~= join_of(p@, name@));
    }
    r
}

/// The enclosing directory of `p`, if the path itself shows one.
pub fn parent(p: &Vec<u8>) -> (r: Option<Vec<u8>>)
    ensures
        match r {
            Some(q) => parent_of(p@) == Some(q@),
            None => parent_of(p@) is None,
        },
{
    let len = p.len();
    let mut i: usize = len;
    while i > 0 && p[i - 1] != SLASH
        invariant
            len == p.len(),
            i <= len,
            forall|k: int| i <= k < len ==> p@[k] != SLASH,
        decreases i,
    {
        i -= 1;
    }
    proof {
        assert(p@ =~= p@.subrange(0, i as int) + p@.subrange(i as int, len as int));
        lemma_last_byte_append_none(
            p@.subrange(0, i as int),
            p@.subrange(i as int, len as int),
            SLASH,
        );
    }
    if i == 0 {
        proof {
            assert(p@.subrange(0, 0) =~= Seq::<u8>::empty());
            assert(last_byte(p@, SLASH) == -1);
        }
        None
    } else if i == 1 {
        proof {
            assert(p@.subrange(0, 1).drop_last() =~= Seq::<u8>::empty());
            assert(last_byte(p@, SLASH) == 0);
        }
        if len == 1 {
            None
        } else {
            let mut root: Vec<u8> = Vec::new();
            root.push(SLASH);
            proof {
                assert(root@ =~= seq![SLASH]);
            }
            Some(root)
        }
    } else {
        proof {
            assert(last_byte(p@, SLASH) == i - 1);
        }
        let mut q: Vec<u8> = Vec::new();
        let stop = i - 1;
        let mut k: usize = 0;
        while k < stop
            invariant
                stop < p.len(),
                k <= stop,
                q@ =~= p@.subrange(0, k as int),
            decreases stop - k,
        {
            q.push(p[k]);
            k += 1;
        }
        Some(q)
    }
}

} // verus!
