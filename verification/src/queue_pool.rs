//! Which caller starts the process's single queue worker pool.
//!
//! The pool is bound to one workspace, while the guard that starts it is
//! process-wide: a second start under a different workspace would be a silent
//! no-op leaving that store's queue with nothing draining it. Recording which
//! workspace won makes that case loud.

use vstd::prelude::*;
use crate::text::{chars_of, str_eq, string_from};

verus! {

/// What a claim found.
#[derive(Debug, Clone, Copy, PartialEq, Eq, Structural)]
pub enum QueuePoolClaim {
    /// Nothing had claimed the pool; this caller starts it.
    Start,
    /// A pool already drains this workspace's queue.
    AlreadyDraining,
    /// A pool runs, but rooted at another workspace: this store's queue has
    /// nothing draining it.
    Foreign,
}

/// The `/`-separated segments of `s`, empty ones included.
pub open spec fn segments(s: Seq<char>) -> Seq<Seq<char>>
    decreases s.len(),
{
    if s.len() == 0 {
        seq![Seq::<char>::empty()]
    } else if s.last() == '/' {
        segments(s.drop_last()).push(Seq::<char>::empty())
    } else {
        let p = segments(s.drop_last());
        p.update(p.len() - 1, p.last().push(s.last()))
    }
}

/// A path that starts at the root.
pub open spec fn has_root(s: Seq<char>) -> bool {
    s.len() > 0 && s[0] == '/'
}

/// Whether segment `i` of a path is one of its components, as a path
/// compares them: empty segments (repeated or trailing separators) are not,
/// and a `.` is not, except as the first segment of a relative path.
pub open spec fn kept_segment(i: int, seg: Seq<char>, root: bool) -> bool {
    seg.len() > 0 && (seg != seq!['.'] || (i == 0 && !root))
}

/// `r` with segment `i` appended when it is a component, behind a `/` when
/// `r` already holds one.
pub open spec fn step_path(r: Seq<char>, i: int, seg: Seq<char>, root: bool) -> Seq<char> {
    if !kept_segment(i, seg, root) {
        r
    } else if r.len() > (if root {
        1int
    } else {
        0int
    }) {
        r.push('/') + seg
    } else {
        r + seg
    }
}

/// The components of `segs`, written out: a leading `/` for a rooted path,
/// then the kept segments joined by single `/`.
pub open spec fn joined(segs: Seq<Seq<char>>, root: bool) -> Seq<char>
    decreases segs.len(),
{
    if segs.len() == 0 {
        if root {
            seq!['/']
        } else {
            Seq::empty()
        }
    } else {
        step_path(joined(segs.drop_last(), root), segs.len() - 1, segs.last(), root)
    }
}

/// A path in the form paths are compared in: by component, so a trailing
/// `/`, repeated separators and interior `.` parts make no difference
/// (`/w1`, `/w1/` and `//w1/./` are one path; `./a` and `a` are not).
pub open spec fn normalized_path(s: Seq<char>) -> Seq<char> {
    joined(segments(s), has_root(s))
}

/// A trailing separator names the same path: `/w1/` is `/w1`.
pub proof fn law_trailing_separator_is_ignored(s: Seq<char>)
    requires
        s.len() > 0,
    ensures
        normalized_path(s.push('/')) == normalized_path(s),
{
    let t = s.push('/');
    assert(t.drop_last() =~= s);
    assert(t[0] == s[0]);
    let segs = segments(s).push(Seq::<char>::empty());
    assert(segments(t) == segs);
    assert(segs.drop_last() =~= segments(s));
    assert(!kept_segment(segs.len() - 1, segs.last(), has_root(s)));
}

fn push_segment(out: &mut Vec<char>, seg: &Vec<char>, i: usize, root: bool)
    requires
        old(out)@.len() >= (if root {
            1int
        } else {
            0int
        }),
    ensures
        final(out)@ == step_path(old(out)@, i as int, seg@, root),
        final(out)@.len() >= (if root {
            1int
        } else {
            0int
        }),
{
    let dot = seg.len() == 1 && seg[0] == '.';
    if dot {
        assert(seg@ =~= seq!['.']);
    } else if seg.len() == 1 {
        assert(seg@ != seq!['.']) by {
            assert(seg@[0] != seq!['.'][0]);
        }
    }
    let kept = seg.len() > 0 && (!dot || (i == 0 && !root));
    if !kept {
        return;
    }
    let base: usize = if root {
        1
    } else {
        0
    };
    let ghost before = out@;
    if out.len() > base {
        out.push('/');
    }
    let mut k: usize = 0;
    let ghost mid = out@;
    while k < seg.len()
        invariant
            k <= seg.len(),
            out@ == mid + seg@.subrange(0, k as int),
        decreases seg.len() - k,
    {
        out.push(seg[k]);
        assert(seg@.subrange(0, k + 1) =~= seg@.subrange(0, k as int).push(seg@[k as int]));
        k = k + 1;
    }
    assert(seg@.subrange(0, seg@.len() as int) =~= seg@);
}

/// `workspace` in the form paths are compared in.
pub fn normalize_path(workspace: &str) -> (r: String)
    ensures
        r@ == normalized_path(workspace@),
{
    let v = chars_of(workspace);
    let root = v.len() > 0 && v[0] == '/';
    let mut out: Vec<char> = Vec::new();
    if root {
        out.push('/');
    }
    let mut cur: Vec<char> = Vec::new();
    let mut idx: usize = 0;
    let mut i: usize = 0;
    assert(v@.subrange(0, 0) =~= Seq::<char>::empty());
    assert(segments(Seq::<char>::empty()).drop_last() =~= Seq::<Seq<char>>::empty());
    assert(cur@ =~= segments(Seq::<char>::empty()).last());
    while i < v.len()
        invariant
            v@ == workspace@,
            root == has_root(v@),
            i <= v.len(),
            idx <= i,
            segments(v@.subrange(0, i as int)).len() == idx + 1,
            cur@ == segments(v@.subrange(0, i as int)).last(),
            out@ == joined(segments(v@.subrange(0, i as int)).drop_last(), root),
            out@.len() >= (if root {
                1int
            } else {
                0int
            }),
        decreases v.len() - i,
    {
        let c = v[i];
        let ghost pre = v@.subrange(0, i as int);
        let ghost segs = segments(pre);
        assert(v@.subrange(0, i + 1).drop_last() =~= pre);
        assert(v@.subrange(0, i + 1).last() == c);
        if c == '/' {
            push_segment(&mut out, &cur, idx, root);
            assert(segments(v@.subrange(0, i + 1)) == segs.push(Seq::<char>::empty()));
            assert(segs.push(Seq::<char>::empty()).drop_last() =~= segs);
            assert(segs =~= segs.drop_last().push(segs.last()));
            cur = Vec::new();
            idx = idx + 1;
        } else {
            cur.push(c);
            let ghost next = segs.update(segs.len() - 1, segs.last().push(c));
            assert(segments(v@.subrange(0, i + 1)) == next);
            assert(next.drop_last() =~= segs.drop_last());
        }
        i = i + 1;
    }
    assert(v@.subrange(0, v@.len() as int) =~= v@);
    push_segment(&mut out, &cur, idx, root);
    proof {
        let segs = segments(v@);
        assert(segs =~= segs.drop_last().push(segs.last()));
    }
    string_from(&out)
}

/// The once-set record of the workspace whose queue the pool drains, in
/// the form paths are compared in.
pub struct QueuePoolSlot {
    pub workspace: Option<String>,
}

pub open spec fn claim_outcome(claimed: Option<Seq<char>>, workspace: Seq<char>) -> QueuePoolClaim {
    match claimed {
        None => QueuePoolClaim::Start,
        Some(w) => if w == normalized_path(workspace) {
            QueuePoolClaim::AlreadyDraining
        } else {
            QueuePoolClaim::Foreign
        },
    }
}

pub open spec fn slot_view(slot: QueuePoolSlot) -> Option<Seq<char>> {
    match slot.workspace {
        Some(w) => Some(w@),
        None => None,
    }
}

impl QueuePoolSlot {
    pub fn new() -> (r: Self)
        ensures
            r.workspace is None,
    {
        QueuePoolSlot { workspace: None }
    }

    /// Decide whether this caller starts the pool. The first claim records
    /// its workspace, normalised; the record never changes afterwards. A
    /// later claim names the same workspace when it is the same path
    /// component by component.
    pub fn claim_queue_pool(&mut self, workspace: &str) -> (r: QueuePoolClaim)
        ensures
            r == claim_outcome(slot_view(*old(self)), workspace@),
            slot_view(*final(self)) == match slot_view(*old(self)) {
                None => Some(normalized_path(workspace@)),
                Some(w) => Some(w),
            },
    {
        let normal = normalize_path(workspace);
        match &self.workspace {
            None => {
                self.workspace = Some(normal);
                QueuePoolClaim::Start
            },
            Some(w) => if str_eq(w.as_str(), normal.as_str()) {
                QueuePoolClaim::AlreadyDraining
            } else {
                QueuePoolClaim::Foreign
            },
        }
    }
}

} // verus!
