//! The memory-source registry's entries, the reader each kind is read with,
//! the `source_id` addressing scheme, and the conservative caps migration.

use vstd::prelude::*;
use crate::text::{
    char_to_uppercase, chars_of, push_str, slice_chars, string_from, uppercase_of_char,
};

verus! {

/// What a memory source reads from.
#[derive(Debug, Clone, Copy, PartialEq, Eq, Structural)]
pub enum SourceKind {
    /// A connected account synced through Composio. Stored, queried and
    /// forgotten under this kind; never read by this crate.
    Composio,
    Conversation,
    Folder,
    GithubRepo,
    TwitterQuery,
    RssFeed,
    WebPage,
}

/// The reader that serves a source kind.
#[derive(Debug, Clone, Copy, PartialEq, Eq, Structural)]
pub enum ReaderKind {
    Conversation,
    Folder,
    Github,
    Twitter,
    Rss,
    WebPage,
}

/// One registry entry. (The per-sync dollar budget the host also records is
/// not read by any logic here and travels outside this type.)
#[derive(Debug)]
pub struct MemorySourceEntry {
    pub id: String,
    pub kind: SourceKind,
    pub label: String,
    pub enabled: bool,
    pub toolkit: Option<String>,
    pub connection_id: Option<String>,
    pub path: Option<String>,
    pub glob: Option<String>,
    pub url: Option<String>,
    pub branch: Option<String>,
    pub paths: Vec<String>,
    pub query: Option<String>,
    pub since_days: Option<u32>,
    pub max_items: Option<u32>,
    pub max_commits: Option<u32>,
    pub max_issues: Option<u32>,
    pub max_prs: Option<u32>,
    pub selector: Option<String>,
    pub max_tokens_per_sync: Option<u64>,
    pub sync_depth_days: Option<u32>,
}

pub open spec fn reader_of(kind: SourceKind) -> Option<ReaderKind> {
    match kind {
        SourceKind::Composio => None,
        SourceKind::Conversation => Some(ReaderKind::Conversation),
        SourceKind::Folder => Some(ReaderKind::Folder),
        SourceKind::GithubRepo => Some(ReaderKind::Github),
        SourceKind::TwitterQuery => Some(ReaderKind::Twitter),
        SourceKind::RssFeed => Some(ReaderKind::Rss),
        SourceKind::WebPage => Some(ReaderKind::WebPage),
    }
}

/// Get the reader for a given source kind, if this crate has one.
///
/// `None` for [`SourceKind::Composio`]: an OAuth connector is reached with a
/// credential this crate does not hold, so the host fetches and hands the
/// records over. A caller has to decide what to do about a kind it cannot
/// read, rather than discover it once per item.
pub fn reader_for(kind: &SourceKind) -> (r: Option<ReaderKind>)
    ensures
        r == reader_of(*kind),
{
    match kind {
        SourceKind::Composio => None,
        SourceKind::Conversation => Some(ReaderKind::Conversation),
        SourceKind::Folder => Some(ReaderKind::Folder),
        SourceKind::GithubRepo => Some(ReaderKind::Github),
        SourceKind::TwitterQuery => Some(ReaderKind::Twitter),
        SourceKind::RssFeed => Some(ReaderKind::Rss),
        SourceKind::WebPage => Some(ReaderKind::WebPage),
    }
}

pub open spec fn opt_view(o: Option<String>) -> Option<Seq<char>> {
    match o {
        Some(s) => Some(s@),
        None => None,
    }
}

/// The `source_id LIKE` pattern that selects one source's chunks.
///
/// A Composio source is keyed `"{toolkit}:{connection_id}:…"`, so a second
/// account of the same toolkit does not count the first's chunks; every other
/// kind is keyed `"mem_src:{id}:…"`.
pub open spec fn source_id_pattern(
    kind: SourceKind,
    id: Seq<char>,
    toolkit: Option<Seq<char>>,
    connection_id: Option<Seq<char>>,
) -> Seq<char> {
    match kind {
        SourceKind::Composio => match toolkit {
            None => "__no_toolkit__:%"@,
            Some(t) => match connection_id {
                Some(c) => t + ":"@ + c + ":%"@,
                None => t + ":%"@,
            },
        },
        _ => "mem_src:"@ + id + ":%"@,
    }
}

pub fn source_id_prefix(entry: &MemorySourceEntry) -> (r: String)
    ensures
        r@ == source_id_pattern(
            entry.kind,
            entry.id@,
            opt_view(entry.toolkit),
            opt_view(entry.connection_id),
        ),
{
    let mut out = String::new();
    match entry.kind {
        SourceKind::Composio => match &entry.toolkit {
            None => push_str(&mut out, "__no_toolkit__:%"),
            Some(t) => {
                push_str(&mut out, t.as_str());
                match &entry.connection_id {
                    Some(c) => {
                        push_str(&mut out, ":");
                        push_str(&mut out, c.as_str());
                        push_str(&mut out, ":%");
                    },
                    None => push_str(&mut out, ":%"),
                }
            },
        },
        _ => {
            push_str(&mut out, "mem_src:");
            push_str(&mut out, entry.id.as_str());
            push_str(&mut out, ":%");
        },
    }
    out
}

/// The registry id carried by a memory-source `source_id`
/// (`"mem_src:{id}:{item}"`): the text between the prefix and the first `:`
/// after it, when both it and the item part are non-empty. Item ids may
/// themselves contain `:`.
pub open spec fn mem_src_id_of(s: Seq<char>) -> Option<Seq<char>> {
    let prefix = "mem_src:"@;
    if s.len() >= prefix.len() && s.subrange(0, prefix.len() as int) == prefix {
        let rest = s.subrange(prefix.len() as int, s.len() as int);
        if exists|k: int| 0 <= k < rest.len() && rest[k] == ':' {
            let k = choose|k: int|
                0 <= k < rest.len() && rest[k] == ':' && (forall|j: int|
                    0 <= j < k ==> rest[j] != ':');
            if k > 0 && k + 1 < rest.len() {
                Some(rest.subrange(0, k))
            } else {
                None
            }
        } else {
            None
        }
    } else {
        None
    }
}

proof fn lemma_first_colon(rest: Seq<char>, k: int)
    requires
        0 <= k < rest.len(),
        rest[k] == ':',
        forall|j: int| 0 <= j < k ==> rest[j] != ':',
    ensures
        (choose|k: int|
            0 <= k < rest.len() && rest[k] == ':' && (forall|j: int| 0 <= j < k ==> rest[j] != ':'))
            == k,
{
    let c = choose|k: int|
        0 <= k < rest.len() && rest[k] == ':' && (forall|j: int| 0 <= j < k ==> rest[j] != ':');
    assert(0 <= c < rest.len() && rest[c] == ':' && (forall|j: int| 0 <= j < c ==> rest[j] != ':'));
    if c < k {
        assert(rest[c] != ':');
    }
    if k < c {
        assert(rest[k] != ':');
    }
}

pub fn extract_mem_src_id(source_id: &str) -> (r: Option<String>)
    ensures
        opt_view(r) == mem_src_id_of(source_id@),
{
    proof {
        reveal_strlit("mem_src:");
    }
    let v = chars_of(source_id);
    let prefix = chars_of("mem_src:");
    let ghost p = "mem_src:"@;
    if v.len() < prefix.len() {
        return None;
    }
    let mut i: usize = 0;
    while i < prefix.len()
        invariant
            prefix@ == p,
            p == "mem_src:"@,
            v@ == source_id@,
            i <= prefix.len() <= v.len(),
            forall|j: int| 0 <= j < i ==> v@[j] == prefix@[j],
        decreases prefix.len() - i,
    {
        if v[i] != prefix[i] {
            assert(v@.subrange(0, p.len() as int)[i as int] != p[i as int]);
            assert(v@.subrange(0, p.len() as int) != p);
            assert(source_id@.len() >= p.len());
            return None;
        }
        i = i + 1;
    }
    assert(v@.subrange(0, p.len() as int) =~= p);
    let ghost rest = v@.subrange(p.len() as int, v@.len() as int);
    let start = prefix.len();
    let mut k: usize = start;
    while k < v.len() && v[k] != ':'
        invariant
            start == p.len(),
            v@ == source_id@,
            start <= k <= v.len(),
            rest == v@.subrange(start as int, v@.len() as int),
            forall|j: int| 0 <= j < k - start ==> rest[j] != ':',
        decreases v.len() - k,
    {
        k = k + 1;
    }
    if k == v.len() {
        assert(!exists|m: int| 0 <= m < rest.len() && rest[m] == ':');
        return None;
    }
    assert(rest[k - start] == ':');
    proof {
        lemma_first_colon(rest, k - start);
    }
    if k > start && k + 1 < v.len() {
        let id = slice_chars(&v, start, k);
        assert(id@ =~= rest.subrange(0, k - start));
        Some(string_from(&id))
    } else {
        None
    }
}

/// A memory-source `source_id` written as `mem_src:{id}:{item}` reads back
/// as `{id}`, whatever colons the item id holds, when `{id}` is non-empty and
/// colon-free and the item is non-empty.
pub proof fn law_mem_src_id_round_trip(id: Seq<char>, item: Seq<char>)
    requires
        id.len() > 0,
        item.len() > 0,
        forall|j: int| 0 <= j < id.len() ==> id[j] != ':',
    ensures
        mem_src_id_of("mem_src:"@ + id + ":"@ + item) == Some(id),
{
    reveal_strlit("mem_src:");
    reveal_strlit(":");
    let p = "mem_src:"@;
    let s = p + id + ":"@ + item;
    assert(s.subrange(0, p.len() as int) =~= p);
    let rest = s.subrange(p.len() as int, s.len() as int);
    assert(rest =~= id + ":"@ + item);
    assert(rest[id.len() as int] == ':');
    assert forall|j: int| 0 <= j < id.len() implies rest[j] != ':' by {
        assert(rest[j] == id[j]);
    }
    lemma_first_colon(rest, id.len() as int);
    assert(rest.subrange(0, id.len() as int) =~= id);
}

/// `s` with its first character upper-cased (Unicode), the rest unchanged.
pub open spec fn title_cased(s: Seq<char>) -> Seq<char> {
    if s.len() == 0 {
        s
    } else {
        uppercase_of_char(s[0]) + s.drop_first()
    }
}

pub fn title_case(s: &str) -> (r: String)
    ensures
        r@ == title_cased(s@),
{
    let v = chars_of(s);
    if v.len() == 0 {
        return String::new();
    }
    let mut out = char_to_uppercase(v[0]);
    let mut i: usize = 1;
    while i < v.len()
        invariant
            1 <= i <= v.len(),
            v.len() > 0,
            out@ == uppercase_of_char(v@[0]) + v@.subrange(1, i as int),
        decreases v.len() - i,
    {
        out.push(v[i]);
        i = i + 1;
    }
    assert(v@.subrange(1, v@.len() as int) =~= v@.drop_first());
    string_from(&out)
}

/// The last eight characters of an id (the whole id when shorter), so labels
/// stay compact without cutting inside a character.
pub open spec fn short_id_of(id: Seq<char>) -> Seq<char> {
    if id.len() <= 8 {
        id
    } else {
        id.subrange(id.len() - 8, id.len() as int)
    }
}

pub fn short_id(id: &str) -> (r: String)
    ensures
        r@ == short_id_of(id@),
{
    let v = chars_of(id);
    if v.len() <= 8 {
        return string_from(&v);
    }
    string_from(&slice_chars(&v, v.len() - 8, v.len()))
}

/// A Composio entry the user has not customised: no cap of either kind.
pub open spec fn caps_unset(e: MemorySourceEntry) -> bool {
    e.max_items is None && e.sync_depth_days is None
}

/// The toolkit an entry names, or the empty string.
pub open spec fn toolkit_or_empty(e: MemorySourceEntry) -> Seq<char> {
    match e.toolkit {
        Some(t) => t@,
        None => Seq::empty(),
    }
}

/// `e`, enabled, carrying the conservative `(max_items, sync_depth_days)`.
pub open spec fn with_defaults(e: MemorySourceEntry, d: (Option<u32>, Option<u32>)) -> MemorySourceEntry {
    MemorySourceEntry { enabled: true, max_items: d.0, sync_depth_days: d.1, ..e }
}

/// What filling defaults into an entry may change: only caps that were
/// unset. Its id, kind, toolkit and connection are kept, and so is every cap
/// the user set.
pub open spec fn keeps_user_choices(before: MemorySourceEntry, after: MemorySourceEntry) -> bool {
    &&& after.id@ == before.id@
    &&& after.kind == before.kind
    &&& after.toolkit == before.toolkit
    &&& after.connection_id == before.connection_id
    &&& before.since_days is Some ==> after.since_days == before.since_days
    &&& before.max_items is Some ==> after.max_items == before.max_items
    &&& before.max_commits is Some ==> after.max_commits == before.max_commits
    &&& before.max_issues is Some ==> after.max_issues == before.max_issues
    &&& before.max_prs is Some ==> after.max_prs == before.max_prs
    &&& before.max_tokens_per_sync is Some ==> after.max_tokens_per_sync
        == before.max_tokens_per_sync
    &&& before.sync_depth_days is Some ==> after.sync_depth_days == before.sync_depth_days
}

/// What the caps migration does to one entry: a cap-less Composio entry gets
/// its toolkit's defaults and is enabled, a customised Composio entry is left
/// exactly as it was, and any other kind goes through its kind defaults.
pub open spec fn entry_migrated<F: Fn(&str) -> (Option<u32>, Option<u32>), G: Fn(MemorySourceEntry) -> MemorySourceEntry>(
    old_entry: MemorySourceEntry,
    new_entry: MemorySourceEntry,
    toolkit_defaults: F,
    kind_defaults: G,
) -> bool {
    if old_entry.kind is Composio {
        if caps_unset(old_entry) {
            exists|t: &str, d: (Option<u32>, Option<u32>)|
                t@ == toolkit_or_empty(old_entry) && call_ensures(toolkit_defaults, (t,), d)
                    && new_entry == with_defaults(old_entry, d)
        } else {
            new_entry == old_entry
        }
    } else {
        call_ensures(kind_defaults, (old_entry,), new_entry)
    }
}

/// How many entries of `s` are cap-less Composio entries.
pub open spec fn capless_composio_count(s: Seq<MemorySourceEntry>) -> nat
    decreases s.len(),
{
    if s.len() == 0 {
        0
    } else {
        capless_composio_count(s.drop_last()) + if s.last().kind is Composio && caps_unset(
            s.last(),
        ) {
            1nat
        } else {
            0nat
        }
    }
}

/// Apply conservative default caps in place to every cap-less source.
///
/// A Composio source with neither `max_items` nor `sync_depth_days` gets its
/// toolkit's defaults (`toolkit_defaults`) and is enabled, whether it was
/// enabled or not; a Composio source with any cap set is the user's choice and
/// is left untouched. Every other kind has its unset kind-specific caps filled
/// by `kind_defaults`. Returns how many Composio entries received defaults.
pub fn apply_caps_defaults_to_entries<F, G>(
    sources: &mut Vec<MemorySourceEntry>,
    toolkit_defaults: &F,
    kind_defaults: &G,
) -> (applied: u32) where
    F: Fn(&str) -> (Option<u32>, Option<u32>),
    G: Fn(MemorySourceEntry) -> MemorySourceEntry,

    requires
        old(sources).len() <= u32::MAX,
        forall|t: &str| #[trigger] toolkit_defaults.requires((t,)),
        forall|e: MemorySourceEntry| #[trigger] kind_defaults.requires((e,)),
        forall|e: MemorySourceEntry, out: MemorySourceEntry|
            #[trigger] kind_defaults.ensures((e,), out) ==> keeps_user_choices(e, out),
    ensures
        final(sources).len() == old(sources).len(),
        forall|i: int|
            0 <= i < old(sources).len() ==> keeps_user_choices(
                #[trigger] old(sources)@[i],
                final(sources)@[i],
            ),
        forall|i: int|
            0 <= i < old(sources).len() ==> entry_migrated(
                #[trigger] old(sources)@[i],
                final(sources)@[i],
                *toolkit_defaults,
                *kind_defaults,
            ),
        applied == capless_composio_count(old(sources)@),
{
    let ghost given = sources@;
    let mut pending: Vec<MemorySourceEntry> = Vec::new();
    std::mem::swap(sources, &mut pending);
    let n = pending.len();
    let mut applied: u32 = 0;
    let mut i: usize = 0;
    while i < n
        invariant
            n == given.len(),
            n <= u32::MAX,
            i <= n,
            pending@ == given.subrange(i as int, n as int),
            sources@.len() == i,
            forall|j: int|
                0 <= j < i ==> entry_migrated(
                    #[trigger] given[j],
                    sources@[j],
                    *toolkit_defaults,
                    *kind_defaults,
                ),
            applied == capless_composio_count(given.subrange(0, i as int)),
            applied <= i,
            forall|t: &str| #[trigger] toolkit_defaults.requires((t,)),
            forall|e: MemorySourceEntry| #[trigger] kind_defaults.requires((e,)),
            forall|e: MemorySourceEntry, out: MemorySourceEntry|
                #[trigger] kind_defaults.ensures((e,), out) ==> keeps_user_choices(e, out),
            forall|j: int|
                0 <= j < i ==> keeps_user_choices(#[trigger] given[j], sources@[j]),
        decreases n - i,
    {
        let source = pending.remove(0);
        assert(source == given[i as int]);
        assert(given.subrange(0, i + 1).drop_last() =~= given.subrange(0, i as int));
        let migrated = match source.kind {
            SourceKind::Composio => {
                if source.max_items.is_none() && source.sync_depth_days.is_none() {
                    let toolkit: &str = match &source.toolkit {
                        Some(t) => t.as_str(),
                        None => "",
                    };
                    proof {
                        reveal_strlit("");
                    }
                    let d = toolkit_defaults(toolkit);
                    applied = applied + 1;
                    let e = MemorySourceEntry {
                        enabled: true,
                        max_items: d.0,
                        sync_depth_days: d.1,
                        ..source
                    };
                    assert(toolkit@ == toolkit_or_empty(given[i as int]));
                    assert(e == with_defaults(given[i as int], d));
                    assert(entry_migrated(given[i as int], e, *toolkit_defaults, *kind_defaults));
                    e
                } else {
                    source
                }
            },
            _ => kind_defaults(source),
        };
        assert(entry_migrated(given[i as int], migrated, *toolkit_defaults, *kind_defaults));
        assert(keeps_user_choices(given[i as int], migrated));
        let ghost before = sources@;
        sources.push(migrated);
        assert(forall|j: int| 0 <= j < i ==> sources@[j] == before[j]);
        assert(pending@ =~= given.subrange(i + 1, n as int));
        i = i + 1;
    }
    assert(given.subrange(0, n as int) =~= given);
    applied
}


/// The revision of the caps migration. Bumped when the migration changes, so
/// installs that ran an earlier revision run it again, exactly once.
pub const CURRENT_CAPS_MIGRATION_VERSION: u32 = 1;

/// Whether an install that recorded `recorded_version` still owes the caps
/// migration.
pub open spec fn caps_migration_due(recorded_version: u32) -> bool {
    recorded_version < CURRENT_CAPS_MIGRATION_VERSION
}

/// The version-gated caps migration over a loaded registry.
///
/// When `recorded_version` is already current the registry and the version are
/// left alone and `None` comes back. Otherwise every entry is migrated as
/// [`apply_caps_defaults_to_entries`] does, the version becomes current, and
/// the number of Composio entries that received defaults comes back.
pub fn run_caps_migration<F, G>(
    recorded_version: &mut u32,
    sources: &mut Vec<MemorySourceEntry>,
    toolkit_defaults: &F,
    kind_defaults: &G,
) -> (migrated: Option<u32>) where
    F: Fn(&str) -> (Option<u32>, Option<u32>),
    G: Fn(MemorySourceEntry) -> MemorySourceEntry,

    requires
        old(sources).len() <= u32::MAX,
        forall|t: &str| #[trigger] toolkit_defaults.requires((t,)),
        forall|e: MemorySourceEntry| #[trigger] kind_defaults.requires((e,)),
        forall|e: MemorySourceEntry, out: MemorySourceEntry|
            #[trigger] kind_defaults.ensures((e,), out) ==> keeps_user_choices(e, out),
    ensures
        !caps_migration_due(*final(recorded_version)),
        !caps_migration_due(*old(recorded_version)) ==> {
            &&& migrated is None
            &&& *final(recorded_version) == *old(recorded_version)
            &&& final(sources)@ == old(sources)@
        },
        caps_migration_due(*old(recorded_version)) ==> {
            &&& migrated == Some(capless_composio_count(old(sources)@) as u32)
            &&& *final(recorded_version) == CURRENT_CAPS_MIGRATION_VERSION
            &&& final(sources).len() == old(sources).len()
            &&& forall|i: int|
                0 <= i < old(sources).len() ==> keeps_user_choices(
                    #[trigger] old(sources)@[i],
                    final(sources)@[i],
                )
            &&& forall|i: int|
                0 <= i < old(sources).len() ==> entry_migrated(
                    #[trigger] old(sources)@[i],
                    final(sources)@[i],
                    *toolkit_defaults,
                    *kind_defaults,
                )
        },
{
    if *recorded_version >= CURRENT_CAPS_MIGRATION_VERSION {
        return None;
    }
    let applied = apply_caps_defaults_to_entries(sources, toolkit_defaults, kind_defaults);
    *recorded_version = CURRENT_CAPS_MIGRATION_VERSION;
    Some(applied)
}

/// The migration runs once per revision: whatever version an install had
/// recorded, the version a run leaves behind owes nothing.
pub proof fn law_caps_migration_runs_once(recorded_version: u32)
    ensures
        !caps_migration_due(
            if caps_migration_due(recorded_version) {
                CURRENT_CAPS_MIGRATION_VERSION
            } else {
                recorded_version
            },
        ),
{
}

} // verus!
