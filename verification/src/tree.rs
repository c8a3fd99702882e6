//! Summary-tree identities: which kind of tree a scope names, and the slug a
//! tree's files are stored under.

use vstd::prelude::*;
use crate::text::{
    ascii_lower, chars_of, is_ascii_alnum, starts_with, starts_with_chars,
    slice_chars, string_from, to_ascii_lower,
};

verus! {

/// The scope of the single global tree.
pub const GLOBAL_SCOPE: &'static str = "global";

/// What a tree summarises.
#[derive(Debug, Clone, Copy, PartialEq, Eq, Structural)]
pub enum TreeKind {
    /// One source (a connection, a folder, a feed).
    Source,
    /// Everything.
    Global,
    /// One entity or topic across sources.
    Topic,
}

/// The summary-tree kind a tree is sealed as.
#[derive(Debug, Clone, Copy, PartialEq, Eq, Structural)]
pub enum SummaryTreeKind {
    Source,
    Global,
    Topic,
}

/// The identity of a tree: its kind and its full scope.
#[derive(Debug)]
pub struct TreeFactory {
    pub kind: TreeKind,
    pub scope: String,
}

/// A character kept in a slug.
pub open spec fn slug_char(c: char) -> bool {
    is_ascii_alnum(c)
}

/// The slug of `s`: its ASCII letters and digits, lower-cased, with every run
/// of other characters between two kept characters turned into one `-`.
pub open spec fn slug_of(s: Seq<char>) -> Seq<char>
    decreases s.len(),
{
    if s.len() == 0 {
        Seq::empty()
    } else {
        let p = s.drop_last();
        let c = s.last();
        let r = slug_of(p);
        if !slug_char(c) {
            r
        } else if p.len() > 0 && !slug_char(p.last()) && r.len() > 0 {
            r.push('-').push(ascii_lower(c))
        } else {
            r.push(ascii_lower(c))
        }
    }
}

/// The part of a scope a slug is made from: a source tree drops the `gmail:`
/// platform prefix (its scope is already the mailbox); every other prefix, and
/// every other kind, is kept.
pub open spec fn slug_basis(kind: TreeKind, scope: Seq<char>) -> Seq<char> {
    if kind is Source && starts_with(scope, "gmail:"@) {
        scope.subrange(6, scope.len() as int)
    } else {
        scope
    }
}

pub open spec fn summary_kind_of(kind: TreeKind) -> SummaryTreeKind {
    match kind {
        TreeKind::Source => SummaryTreeKind::Source,
        TreeKind::Global => SummaryTreeKind::Global,
        TreeKind::Topic => SummaryTreeKind::Topic,
    }
}

fn slugify(v: &Vec<char>) -> (r: Vec<char>)
    ensures
        r@ == slug_of(v@),
{
    let mut out: Vec<char> = Vec::new();
    let mut i: usize = 0;
    while i < v.len()
        invariant
            i <= v.len(),
            out@ == slug_of(v@.subrange(0, i as int)),
        decreases v.len() - i,
    {
        let c = v[i];
        let ghost pre = v@.subrange(0, i as int);
        assert(v@.subrange(0, i + 1).drop_last() =~= pre);
        assert(v@.subrange(0, i + 1).last() == c);
        let keep = ('0' <= c && c <= '9') || ('a' <= c && c <= 'z') || ('A' <= c && c <= 'Z');
        if keep {
            if i > 0 {
                let p = v[i - 1];
                let prev_kept = ('0' <= p && p <= '9') || ('a' <= p && p <= 'z') || ('A' <= p && p
                    <= 'Z');
                assert(pre.last() == p);
                if !prev_kept && out.len() > 0 {
                    out.push('-');
                }
            }
            out.push(to_ascii_lower(c));
        }
        i = i + 1;
    }
    assert(v@.subrange(0, v@.len() as int) =~= v@);
    out
}

impl TreeFactory {
    /// The tree of one source, under its full scope.
    pub fn source(scope: &str) -> (r: Self)
        ensures
            r.kind == TreeKind::Source,
            r.scope@ == scope@,
    {
        TreeFactory { kind: TreeKind::Source, scope: scope.to_owned() }
    }

    /// The single global tree.
    pub fn global() -> (r: Self)
        ensures
            r.kind == TreeKind::Global,
            r.scope@ == GLOBAL_SCOPE@,
    {
        TreeFactory { kind: TreeKind::Global, scope: GLOBAL_SCOPE.to_owned() }
    }

    /// The tree of one topic, under its canonical scope.
    pub fn topic(scope: &str) -> (r: Self)
        ensures
            r.kind == TreeKind::Topic,
            r.scope@ == scope@,
    {
        TreeFactory { kind: TreeKind::Topic, scope: scope.to_owned() }
    }

    pub fn kind(&self) -> (r: TreeKind)
        ensures
            r == self.kind,
    {
        self.kind
    }

    pub fn scope(&self) -> (r: &str)
        ensures
            r@ == self.scope@,
    {
        self.scope.as_str()
    }

    pub fn summary_tree_kind(&self) -> (r: SummaryTreeKind)
        ensures
            r == summary_kind_of(self.kind),
    {
        match self.kind {
            TreeKind::Source => SummaryTreeKind::Source,
            TreeKind::Global => SummaryTreeKind::Global,
            TreeKind::Topic => SummaryTreeKind::Topic,
        }
    }

    /// The file-system-safe slug of this tree's scope.
    pub fn scope_slug(&self) -> (r: String)
        ensures
            r@ == slug_of(slug_basis(self.kind, self.scope@)),
    {
        let v = chars_of(self.scope.as_str());
        let gmail = chars_of("gmail:");
        proof {
            reveal_strlit("gmail:");
        }
        let basis = match self.kind {
            TreeKind::Source => if starts_with_chars(&v, &gmail) {
                slice_chars(&v, 6, v.len())
            } else {
                v
            },
            _ => v,
        };
        string_from(&slugify(&basis))
    }
}

} // verus!
