//! Paths as text: segments separated by `/`.
//!
//! A path is kept as the text it was given in. Nothing here looks at a disk: two
//! spellings of one place are two paths.

use vstd::prelude::*;
use vstd::string::*;

verus! {

/// `child` placed under `base`. An absolute `child` stands for itself; otherwise the
/// two are put together with exactly one `/` between them, unless `base` is empty or
/// already ends in one.
pub open spec fn joined(base: Seq<char>, child: Seq<char>) -> Seq<char> {
    if child.len() > 0 && child[0] == '/' {
        child
    } else if base.len() == 0 || base.last() == '/' {
        base + child
    } else {
        base + seq!['/'] + child
    }
}

/// The path without what carries no name at its end: closing `/`, and closing
/// segments that are a single `.`.
pub open spec fn trimmed(path: Seq<char>) -> Seq<char>
    decreases path.len(),
{
    if path.len() > 0 && path.last() == '/' {
        trimmed(path.drop_last())
    } else if path.len() >= 2 && path.last() == '.' && path[path.len() - 2] == '/' {
        trimmed(path.drop_last())
    } else {
        path
    }
}

/// Where the last segment of `path` begins: just behind its last `/`, or at 0.
pub open spec fn segment_start(path: Seq<char>) -> int
    decreases path.len(),
{
    if path.len() == 0 || path.last() == '/' {
        path.len() as int
    } else {
        segment_start(path.drop_last())
    }
}

/// The last segment of the trimmed path.
pub open spec fn last_segment(path: Seq<char>) -> Seq<char> {
    let kept = trimmed(path);
    kept.skip(segment_start(kept))
}

/// The name that the path ends in, if it ends in one: none for the empty path, for
/// a root, and where the last segment is `.` or `..`.
pub open spec fn final_component(path: Seq<char>) -> Option<Seq<char>> {
    let segment = last_segment(path);
    if segment.len() == 0 || segment == seq!['.'] || segment == seq!['.', '.'] {
        None
    } else {
        Some(segment)
    }
}

/// The last segment of a text that ends in a run without `/` begins where that run
/// begins, if the run stands at the start or behind a `/`.
pub proof fn lemma_segment_start(prefix: Seq<char>, segment: Seq<char>)
    requires
        prefix.len() == 0 || prefix.last() == '/',
        forall|i: int| 0 <= i < segment.len() ==> #[trigger] segment[i] != '/',
    ensures
        segment_start(prefix + segment) == prefix.len(),
    decreases segment.len(),
{
    if segment.len() > 0 {
        assert((prefix + segment).drop_last() =~= prefix + segment.drop_last());
        lemma_segment_start(prefix, segment.drop_last());
    }
}

/// A path that was made by joining a name on ends in that name: any name that is
/// not empty, holds no `/` and does not end in `.`.
pub proof fn lemma_final_component_of_joined(base: Seq<char>, name: Seq<char>)
    requires
        name.len() > 0,
        forall|i: int| 0 <= i < name.len() ==> #[trigger] name[i] != '/',
        name.last() != '.',
    ensures
        final_component(joined(base, name)) == Some(name),
{
    let path = joined(base, name);
    let prefix = if base.len() == 0 || base.last() == '/' {
        base
    } else {
        base + seq!['/']
    };
    lemma_segment_start(prefix, name);
    assert(path.skip(prefix.len() as int) =~= name);
}

/// Puts `child` under `base`.
pub fn join(base: &str, child: &str) -> (res: String)
    ensures
        res@ == joined(base@, child@),
{
    let base_len: usize = base.unicode_len();
    let child_len: usize = child.unicode_len();
    if child_len > 0 && child.get_char(0) == '/' {
        child.to_owned()
    } else if base_len == 0 || base.get_char(base_len - 1) == '/' {
        let mut out = base.to_owned();
        out.append(child);
        out
    } else {
        proof {
            reveal_strlit("/");
        }
        let mut out = base.to_owned();
        out.append("/");
        out.append(child);
        out
    }
}

/// Finds the name that `path` ends in.
pub fn last_name(path: &str) -> (res: Option<String>)
    ensures
        match res {
            Some(name) => final_component(path@) == Some(name@),
            None => final_component(path@) is None,
        },
{
    let len: usize = path.unicode_len();
    let mut end: usize = len;
    let mut trimming: bool = true;
    assert(path@.take(len as int) =~= path@);
    while trimming
        invariant
            end <= len,
            len == path@.len(),
            trimmed(path@) == trimmed(path@.take(end as int)),
            !trimming ==> trimmed(path@.take(end as int)) == path@.take(end as int),
        decreases end + if trimming { 1int } else { 0int },
    {
        let ghost head = path@.take(end as int);
        if end == 0 {
            trimming = false;
        } else {
            assert(head.drop_last() =~= path@.take(end - 1));
            let c: char = path.get_char(end - 1);
            if c == '/' {
                end = end - 1;
            } else if c == '.' && end >= 2 && path.get_char(end - 2) == '/' {
                end = end - 1;
            } else {
                trimming = false;
            }
        }
    }
    let ghost kept = path@.take(end as int);
    let mut start: usize = end;
    let mut scanning: bool = true;
    while scanning
        invariant
            start <= end <= len,
            len == path@.len(),
            segment_start(path@.take(end as int)) == segment_start(path@.take(start as int)),
            !scanning ==> segment_start(path@.take(start as int)) == start,
        decreases start + if scanning { 1int } else { 0int },
    {
        let ghost head = path@.take(start as int);
        if start == 0 {
            scanning = false;
        } else {
            assert(head.drop_last() =~= path@.take(start - 1));
            if path.get_char(start - 1) == '/' {
                scanning = false;
            } else {
                start = start - 1;
            }
        }
    }
    let width: usize = end - start;
    if width == 0 {
        None
    } else if width == 1 && path.get_char(start) == '.' {
        assert(last_segment(path@) =~= seq!['.']);
        None
    } else if width == 2 && path.get_char(start) == '.' && path.get_char(start + 1) == '.' {
        assert(last_segment(path@) =~= seq!['.', '.']);
        None
    } else {
        let segment = path.substring_char(start, end);
        assert(last_segment(path@) != seq!['.']) by {
            if width == 1 {
                assert(last_segment(path@)[0] != '.');
            }
        }
        assert(last_segment(path@) != seq!['.', '.']);
        Some(segment.to_owned())
    }
}

} // verus!
