//! Slash-separated file system paths held as text: joining, the final
//! component, the parent directory and the extension.
use vstd::prelude::*;
use crate::text::{chars_of, string_of, slice_chars, rfind_char, chars_eq, join2, join3};

verus! {

/// `p` without its trailing `/` characters and trailing `.` components
/// (a `.` that follows a `/`), which `Path` skips from the end.
pub open spec fn strip_slashes(p: Seq<char>) -> Seq<char>
    decreases p.len(),
{
    if p.len() > 0 && p.last() == '/' {
        strip_slashes(p.drop_last())
    } else if p.len() >= 2 && p.last() == '.' && p[p.len() - 2] == '/' {
        strip_slashes(p.drop_last())
    } else {
        p
    }
}

/// The position just after the last `/` of `q` (0 when it has none).
pub open spec fn name_start(q: Seq<char>) -> nat
    decreases q.len(),
{
    if q.len() == 0 {
        0
    } else if q.last() == '/' {
        q.len()
    } else {
        name_start(q.drop_last())
    }
}

/// The final component of `p`, as `Path::file_name` gives it (trailing
/// separators and `.` components skipped): `None` for an empty path, the
/// root, `.` and `..`.
pub open spec fn file_name_of(p: Seq<char>) -> Option<Seq<char>> {
    let q = strip_slashes(p);
    let name = q.subrange(name_start(q) as int, q.len() as int);
    if q.len() == 0 || name == seq!['.'] || name == seq!['.', '.'] {
        None
    } else {
        Some(name)
    }
}

/// The directory holding `p`, as `Path::parent` gives it: `None` for an
/// empty path and for the root, the empty path for a single relative
/// component, `/` for a single component below the root.
pub open spec fn parent_of(p: Seq<char>) -> Option<Seq<char>> {
    let q = strip_slashes(p);
    if q.len() == 0 {
        None
    } else if name_start(q) == 0 {
        Some(Seq::<char>::empty())
    } else {
        let head = strip_slashes(q.subrange(0, name_start(q) as int));
        if head.len() == 0 {
            Some(seq!['/'])
        } else {
            Some(head)
        }
    }
}

/// `base` with `part` appended, as `PathBuf::push` does it: an absolute
/// `part` replaces `base`, and one separator is put between them when
/// `base` is not empty and does not already end in one.
pub open spec fn join_path(base: Seq<char>, part: Seq<char>) -> Seq<char> {
    if part.len() > 0 && part[0] == '/' {
        part
    } else if base.len() == 0 || base.last() == '/' {
        base + part
    } else {
        base + seq!['/'] + part
    }
}

/// The position of the last `.` in `name`, if any.
pub open spec fn last_dot(name: Seq<char>) -> Option<int>
    decreases name.len(),
{
    if name.len() == 0 {
        None
    } else if name.last() == '.' {
        Some(name.len() - 1)
    } else {
        last_dot(name.drop_last())
    }
}

/// The extension of `p`, as `Path::extension` gives it.
pub open spec fn extension_of(p: Seq<char>) -> Option<Seq<char>> {
    match file_name_of(p) {
        None => None,
        Some(name) => match last_dot(name) {
            Some(d) if d > 0 => Some(name.subrange(d + 1, name.len() as int)),
            _ => None,
        },
    }
}

/// The final component of `p` without its extension, as `Path::file_stem`
/// gives it.
pub open spec fn file_stem_of(p: Seq<char>) -> Option<Seq<char>> {
    match file_name_of(p) {
        None => None,
        Some(name) => match last_dot(name) {
            Some(d) if d > 0 => Some(name.subrange(0, d)),
            _ => Some(name),
        },
    }
}

proof fn lemma_strip_slashes_prefix(p: Seq<char>)
    ensures
        strip_slashes(p).len() <= p.len(),
        strip_slashes(p) == p.subrange(0, strip_slashes(p).len() as int),
        strip_slashes(p).len() > 0 ==> strip_slashes(p).last() != '/',
    decreases p.len(),
{
    if (p.len() > 0 && p.last() == '/') || (p.len() >= 2 && p.last() == '.' && p[p.len() - 2] == '/') {
        let d = p.drop_last();
        lemma_strip_slashes_prefix(d);
        assert(p.subrange(0, strip_slashes(p).len() as int) =~= d.subrange(0, strip_slashes(d).len() as int));
    } else {
        assert(p.subrange(0, p.len() as int) =~= p);
    }
}

proof fn lemma_name_start(q: Seq<char>)
    ensures
        name_start(q) <= q.len(),
        name_start(q) > 0 ==> q[name_start(q) - 1] == '/',
        forall|i: int| name_start(q) <= i < q.len() ==> q[i] != '/',
    decreases q.len(),
{
    if q.len() > 0 && q.last() != '/' {
        let d = q.drop_last();
        lemma_name_start(d);
        assert forall|i: int| name_start(q) <= i < q.len() implies q[i] != '/' by {
            if i < d.len() {
                assert(q[i] == d[i]);
            }
        }
        if name_start(q) > 0 {
            assert(q[name_start(q) - 1] == d[name_start(q) - 1]);
        }
    }
}

proof fn lemma_last_dot(name: Seq<char>)
    ensures
        match last_dot(name) {
            Some(d) => 0 <= d < name.len() && name[d] == '.' && forall|j: int| d < j < name.len() ==> name[j] != '.',
            None => forall|j: int| 0 <= j < name.len() ==> name[j] != '.',
        },
    decreases name.len(),
{
    if name.len() > 0 && name.last() != '.' {
        let d = name.drop_last();
        lemma_last_dot(d);
        assert forall|j: int| 0 <= j < d.len() implies name[j] == d[j] by {}
    }
}

proof fn lemma_name_start_append(q: Seq<char>, n: Seq<char>)
    requires
        forall|i: int| 0 <= i < n.len() ==> n[i] != '/',
    ensures
        name_start(q + n) == name_start(q),
    decreases n.len(),
{
    if n.len() == 0 {
        assert(q + n =~= q);
    } else {
        assert((q + n).drop_last() =~= q + n.drop_last());
        lemma_name_start_append(q, n.drop_last());
    }
}

/// Pushing a plain name `n` (no `/`, not `.` or `..`) onto `base` gives a
/// path whose final component is `n` and whose parent is `base` without its
/// trailing separators.
pub proof fn lemma_join_name(base: Seq<char>, n: Seq<char>)
    requires
        n.len() > 0,
        forall|i: int| 0 <= i < n.len() ==> n[i] != '/',
        n != seq!['.'],
        n != seq!['.', '.'],
    ensures
        file_name_of(join_path(base, n)) == Some(n),
        parent_of(join_path(base, n)) == (if base.len() == 0 {
            Some(Seq::<char>::empty())
        } else if strip_slashes(base).len() == 0 {
            Some(seq!['/'])
        } else {
            Some(strip_slashes(base))
        }),
{
    let p = join_path(base, n);
    let pre = if base.len() == 0 || base.last() == '/' {
        base
    } else {
        base + seq!['/']
    };
    assert(p =~= pre + n);
    assert(p.last() == n.last());
    if n.len() == 1 {
        if n[0] == '.' {
            assert(n =~= seq!['.']);
        }
    } else {
        assert(p[p.len() - 2] == n[n.len() - 2]);
    }
    assert(strip_slashes(p) == p);
    lemma_name_start_append(pre, n);
    if pre.len() > 0 {
        assert(pre.last() == '/');
        assert(name_start(pre) == pre.len());
    } else {
        assert(name_start(pre) == 0);
    }
    assert(p.subrange(name_start(p) as int, p.len() as int) =~= n);
    if base.len() > 0 {
        assert(p.subrange(0, name_start(p) as int) =~= pre);
        if base.last() != '/' {
            assert(pre.drop_last() =~= base);
            assert(strip_slashes(pre) == strip_slashes(base));
        }
    }
}

/// The length of `p` without its trailing slashes.
fn stripped_len(p: &Vec<char>, upto: usize) -> (n: usize)
    requires
        upto <= p@.len(),
    ensures
        n == strip_slashes(p@.subrange(0, upto as int)).len(),
{
    let mut n = upto;
    while n > 0 && (p[n - 1] == '/' || (n >= 2 && p[n - 1] == '.' && p[n - 2] == '/'))
        invariant
            n <= upto <= p@.len(),
            strip_slashes(p@.subrange(0, upto as int)) == strip_slashes(p@.subrange(0, n as int)),
        decreases n,
    {
        let ghost s = p@.subrange(0, n as int);
        assert(s.drop_last() =~= p@.subrange(0, n - 1));
        assert(s.last() == p@[n - 1]);
        if n >= 2 {
            assert(s[n - 2] == p@[n - 2]);
        }
        n = n - 1;
    }
    proof {
        let s = p@.subrange(0, n as int);
        if n > 0 {
            assert(s.last() == p@[n - 1]);
        }
        if n >= 2 {
            assert(s[n - 2] == p@[n - 2]);
        }
    }
    n
}

/// The position just after the last `/` among the first `len` characters.
fn name_start_in(p: &Vec<char>, len: usize) -> (k: usize)
    requires
        len <= p@.len(),
    ensures
        k == name_start(p@.subrange(0, len as int)),
{
    let mut k = len;
    while k > 0 && p[k - 1] != '/'
        invariant
            k <= len <= p@.len(),
            name_start(p@.subrange(0, len as int)) == name_start(p@.subrange(0, k as int)),
        decreases k,
    {
        assert(p@.subrange(0, k as int).drop_last() =~= p@.subrange(0, k - 1));
        k = k - 1;
    }
    proof {
        if k > 0 {
            assert(p@.subrange(0, k as int).last() == p@[k - 1]);
        }
    }
    k
}

/// `Path::file_name`.
pub fn file_name(p: &str) -> (res: Option<String>)
    ensures
        match res {
            Some(s) => file_name_of(p@) == Some(s@),
            None => file_name_of(p@) is None,
        },
{
    let cs = chars_of(p);
    let n = cs.len();
    let q = stripped_len(&cs, n);
    assert(cs@.subrange(0, n as int) =~= cs@);
    let ghost qs = strip_slashes(cs@);
    proof {
        lemma_strip_slashes_prefix(cs@);
    }
    assert(cs@.subrange(0, q as int) == qs);
    let k = name_start_in(&cs, q);
    proof {
        lemma_name_start(qs);
    }
    let name = slice_chars(&cs, k, q);
    assert(name@ =~= qs.subrange(name_start(qs) as int, qs.len() as int));
    let dot: Vec<char> = vec!['.'];
    let dotdot: Vec<char> = vec!['.', '.'];
    assert(dot@ =~= seq!['.']);
    assert(dotdot@ =~= seq!['.', '.']);
    if q == 0 || chars_eq(&name, &dot) || chars_eq(&name, &dotdot) {
        None
    } else {
        Some(string_of(name.as_slice()))
    }
}

/// `Path::parent`.
pub fn parent(p: &str) -> (res: Option<String>)
    ensures
        match res {
            Some(s) => parent_of(p@) == Some(s@),
            None => parent_of(p@) is None,
        },
{
    let cs = chars_of(p);
    let n = cs.len();
    let q = stripped_len(&cs, n);
    assert(cs@.subrange(0, n as int) =~= cs@);
    let ghost qs = strip_slashes(cs@);
    proof {
        lemma_strip_slashes_prefix(cs@);
    }
    assert(cs@.subrange(0, q as int) == qs);
    if q == 0 {
        return None;
    }
    let k = name_start_in(&cs, q);
    proof {
        lemma_name_start(qs);
    }
    if k == 0 {
        return Some(String::new());
    }
    let h = stripped_len(&cs, k);
    assert(cs@.subrange(0, k as int) =~= qs.subrange(0, k as int));
    if h == 0 {
        let root: Vec<char> = vec!['/'];
        assert(root@ =~= seq!['/']);
        return Some(string_of(root.as_slice()));
    }
    proof {
        lemma_strip_slashes_prefix(qs.subrange(0, k as int));
        lemma_strip_slashes_prefix(cs@.subrange(0, k as int));
        assert(qs.subrange(0, k as int).subrange(0, h as int) =~= cs@.subrange(0, h as int));
    }
    let head = slice_chars(&cs, 0, h);
    Some(string_of(head.as_slice()))
}

/// `PathBuf::push` onto a copy of `base`.
pub fn join(base: &str, part: &str) -> (res: String)
    ensures
        res@ == join_path(base@, part@),
{
    let b = chars_of(base);
    let q = chars_of(part);
    if q.len() > 0 && q[0] == '/' {
        return String::from_str(part);
    }
    if b.len() == 0 || b[b.len() - 1] == '/' {
        return join2(base, part);
    }
    proof {
        reveal_strlit("/");
    }
    join3(base, "/", part)
}

/// Joins each of `parts` onto `base` in turn.
pub fn join_all(base: &str, parts: &[&str]) -> (res: String)
    ensures
        res@ == join_seq(base@, parts@.map_values(|s: &str| s@)),
{
    let mut acc = String::from_str(base);
    let mut i: usize = 0;
    while i < parts.len()
        invariant
            i <= parts@.len(),
            acc@ == join_seq(base@, parts@.map_values(|s: &str| s@).take(i as int)),
        decreases parts.len() - i,
    {
        let ghost ps = parts@.map_values(|s: &str| s@);
        assert(ps.take(i + 1).drop_last() =~= ps.take(i as int));
        acc = join(acc.as_str(), parts[i]);
        i = i + 1;
    }
    assert(parts@.map_values(|s: &str| s@).take(parts@.len() as int) =~= parts@.map_values(
        |s: &str| s@,
    ));
    acc
}

/// `base` with each of `parts` pushed onto it in turn.
pub open spec fn join_seq(base: Seq<char>, parts: Seq<Seq<char>>) -> Seq<char>
    decreases parts.len(),
{
    if parts.len() == 0 {
        base
    } else {
        join_path(join_seq(base, parts.drop_last()), parts.last())
    }
}

/// `Path::extension`.
pub fn extension(p: &str) -> (res: Option<String>)
    ensures
        match res {
            Some(s) => extension_of(p@) == Some(s@),
            None => extension_of(p@) is None,
        },
{
    match file_name(p) {
        None => None,
        Some(name) => {
            let cs = chars_of(name.as_str());
            proof {
                lemma_last_dot(cs@);
            }
            match rfind_char(&cs, '.') {
                Some(d) => {
                    assert(last_dot(cs@) == Some(d as int));
                    let n = cs.len();
                    if d > 0 {
                        let e = slice_chars(&cs, d + 1, n);
                        Some(string_of(e.as_slice()))
                    } else {
                        None
                    }
                },
                None => {
                    assert(last_dot(cs@) is None);
                    None
                },
            }
        },
    }
}

/// `Path::file_stem`.
pub fn file_stem(p: &str) -> (res: Option<String>)
    ensures
        match res {
            Some(s) => file_stem_of(p@) == Some(s@),
            None => file_stem_of(p@) is None,
        },
{
    match file_name(p) {
        None => None,
        Some(name) => {
            let cs = chars_of(name.as_str());
            proof {
                lemma_last_dot(cs@);
            }
            match rfind_char(&cs, '.') {
                Some(d) => {
                    assert(last_dot(cs@) == Some(d as int));
                    if d > 0 {
                        let e = slice_chars(&cs, 0, d);
                        Some(string_of(e.as_slice()))
                    } else {
                        Some(name)
                    }
                },
                None => {
                    assert(last_dot(cs@) is None);
                    Some(name)
                },
            }
        },
    }
}

} // verus!
