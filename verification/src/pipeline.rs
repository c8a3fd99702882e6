//! The host side of the engine-free sync pipelines: the adapter the pipelines
//! store through, the Composio settings mapping, the toolkit gate, and the
//! per-connection run guard.

use std::sync::Arc;
use vstd::prelude::*;
use crate::text::{
    ascii_lower, ascii_lowercase, ascii_lowered, eq_ignore_ascii_case,
    eq_ignoring_ascii_case, is_ws, lemma_trim_both_fixed, push_str, str_eq, string_from, trim,
    trimmed, CharClass,
};

verus! {

/// A second handle on the same shared value (`Arc::clone`).
#[verifier::external_body]
fn share<T>(a: &Arc<T>) -> (r: Arc<T>)
    ensures
        r == *a,
{
    Arc::clone(a)
}

/// Composio's connection mode.
#[derive(Debug, Clone, Copy, PartialEq, Eq, Structural)]
pub enum ComposioMode {
    /// Calls go straight to Composio with the user's own API key.
    Direct,
    /// Calls go through the OpenHuman backend with a session bearer token.
    Proxied,
}

/// The resolved Composio connection settings a pipeline client is built with.
#[derive(Debug)]
pub struct ComposioSyncConfig {
    pub mode: ComposioMode,
    pub base_url: String,
    pub api_key: Option<String>,
    pub bearer_token: Option<String>,
    pub entity_id: Option<String>,
}

impl ComposioSyncConfig {
    /// Proxied mode with nothing resolved yet.
    pub fn default() -> (r: Self)
        ensures
            r.mode == ComposioMode::Proxied,
            r.base_url@ == Seq::<char>::empty(),
            r.api_key is None,
            r.bearer_token is None,
            r.entity_id is None,
    {
        ComposioSyncConfig {
            mode: ComposioMode::Proxied,
            base_url: String::new(),
            api_key: None,
            bearer_token: None,
            entity_id: None,
        }
    }
}

/// The Composio section of the host's config.
#[derive(Debug)]
pub struct ComposioSettings {
    /// `"direct"` (any ASCII case) selects direct mode; anything else proxies.
    pub mode: String,
    pub api_key: Option<String>,
    pub entity_id: String,
}

/// What the settings mapping reads from the host's config.
#[derive(Debug)]
pub struct SyncHostConfig {
    pub composio: ComposioSettings,
    /// The backend session token as the host resolves it: an error when the
    /// token store cannot be read, `None` when nobody is signed in.
    pub session_token: Result<Option<String>, String>,
    /// The backend API URL the host's config resolves to.
    pub backend_api_url: String,
}

/// The direct-mode Composio endpoint.
pub open spec fn direct_base_url() -> Seq<char> {
    "https://backend.composio.dev/api/v3"@
}

pub open spec fn opt_string_view(o: Option<String>) -> Option<Seq<char>> {
    match o {
        Some(s) => Some(s@),
        None => None,
    }
}

/// The settings `composio_config` resolves, with the error it reports when a
/// credential is missing.
pub open spec fn composio_config_result(
    config: SyncHostConfig,
    host_api_key: Option<Seq<char>>,
    r: Result<ComposioSyncConfig, String>,
) -> bool {
    if eq_ignoring_ascii_case(config.composio.mode@, "direct"@) {
        let key = match host_api_key {
            Some(k) => Some(k),
            None => opt_string_view(config.composio.api_key),
        };
        match key {
            Some(k) => r matches Ok(c) && c.mode == ComposioMode::Direct && c.base_url@
                == direct_base_url() && opt_string_view(c.api_key) == Some(k) && c.bearer_token
                is None && opt_string_view(c.entity_id) == Some(config.composio.entity_id@),
            None => r matches Err(e) && e@ == "Composio direct API key is not configured"@,
        }
    } else {
        match config.session_token {
            Err(e) => r matches Err(x) && x@ == e@,
            Ok(None) => r matches Err(x) && x@
                == "OpenHuman backend bearer token is not configured"@,
            Ok(Some(token)) => r matches Ok(c) && c.mode == ComposioMode::Proxied && c.base_url@
                == config.backend_api_url@ && c.api_key is None && opt_string_view(c.bearer_token)
                == Some(token@) && opt_string_view(c.entity_id) == Some(
                config.composio.entity_id@,
            ),
        }
    }
}

fn copy_opt(o: &Option<String>) -> (r: Option<String>)
    ensures
        opt_string_view(r) == opt_string_view(*o),
{
    match o {
        Some(s) => Some(s.clone()),
        None => None,
    }
}

/// The Composio connection settings from the host's config.
///
/// Direct mode takes the key the host's Composio seam answers
/// (`host_api_key`), falling back to the one in the config; every other mode
/// goes through the backend with the session token.
pub fn composio_config(config: &SyncHostConfig, host_api_key: Option<String>) -> (r: Result<
    ComposioSyncConfig,
    String,
>)
    ensures
        composio_config_result(*config, opt_string_view(host_api_key), r),
{
    if eq_ignore_ascii_case(config.composio.mode.as_str(), "direct") {
        let key = match host_api_key {
            Some(k) => Some(k),
            None => copy_opt(&config.composio.api_key),
        };
        match key {
            Some(api_key) => Ok(
                ComposioSyncConfig {
                    mode: ComposioMode::Direct,
                    base_url: "https://backend.composio.dev/api/v3".to_owned(),
                    api_key: Some(api_key),
                    bearer_token: None,
                    entity_id: Some(config.composio.entity_id.clone()),
                },
            ),
            None => Err("Composio direct API key is not configured".to_owned()),
        }
    } else {
        match &config.session_token {
            Err(e) => Err(e.clone()),
            Ok(None) => Err("OpenHuman backend bearer token is not configured".to_owned()),
            Ok(Some(token)) => Ok(
                ComposioSyncConfig {
                    mode: ComposioMode::Proxied,
                    base_url: config.backend_api_url.clone(),
                    api_key: None,
                    bearer_token: Some(token.clone()),
                    entity_id: Some(config.composio.entity_id.clone()),
                },
            ),
        }
    }
}

/// The toolkits with a native pipeline.
#[derive(Debug, Clone, Copy, PartialEq, Eq, Structural)]
pub enum ComposioPipelineKind {
    ClickUp,
    GitHub,
    Gmail,
    Linear,
    Notion,
    Slack,
}

/// The slugs of the toolkits with a native pipeline, in advertised order.
pub open spec fn syncable_slugs() -> Seq<Seq<char>> {
    seq!["clickup"@, "github"@, "gmail"@, "linear"@, "notion"@, "slack"@]
}

/// The native pipeline a normalised slug selects.
pub open spec fn slug_kind(slug: Seq<char>) -> Option<ComposioPipelineKind> {
    if slug == "clickup"@ {
        Some(ComposioPipelineKind::ClickUp)
    } else if slug == "github"@ {
        Some(ComposioPipelineKind::GitHub)
    } else if slug == "gmail"@ {
        Some(ComposioPipelineKind::Gmail)
    } else if slug == "linear"@ {
        Some(ComposioPipelineKind::Linear)
    } else if slug == "notion"@ {
        Some(ComposioPipelineKind::Notion)
    } else if slug == "slack"@ {
        Some(ComposioPipelineKind::Slack)
    } else {
        None
    }
}

/// A toolkit name as the toolkit check compares it: trimmed, ASCII-lower-cased.
pub open spec fn toolkit_slug(toolkit: Seq<char>) -> Seq<char> {
    ascii_lowered(trimmed(toolkit))
}

/// Whether a toolkit (in any padding or ASCII case) has a native pipeline.
pub open spec fn is_syncable(toolkit: Seq<char>) -> bool {
    slug_kind(toolkit_slug(toolkit)) is Some
}

/// The toolkits with a native pipeline here.
pub fn syncable_composio_toolkits() -> (r: Vec<&'static str>)
    ensures
        r@.map_values(|s: &str| s@) == syncable_slugs(),
{
    let r = vec!["clickup", "github", "gmail", "linear", "notion", "slack"];
    assert(r@.map_values(|s: &str| s@) =~= syncable_slugs());
    r
}

fn kind_for_slug(slug: &str) -> (r: Option<ComposioPipelineKind>)
    ensures
        r == slug_kind(slug@),
{
    if str_eq(slug, "clickup") {
        Some(ComposioPipelineKind::ClickUp)
    } else if str_eq(slug, "github") {
        Some(ComposioPipelineKind::GitHub)
    } else if str_eq(slug, "gmail") {
        Some(ComposioPipelineKind::Gmail)
    } else if str_eq(slug, "linear") {
        Some(ComposioPipelineKind::Linear)
    } else if str_eq(slug, "notion") {
        Some(ComposioPipelineKind::Notion)
    } else if str_eq(slug, "slack") {
        Some(ComposioPipelineKind::Slack)
    } else {
        None
    }
}

/// The normalised slug of a toolkit name.
fn slug_of(toolkit: &str) -> (r: String)
    ensures
        r@ == toolkit_slug(toolkit@),
{
    string_from(&ascii_lowercase(&trim(toolkit)))
}

/// Whether `toolkit` has a native pipeline (case-insensitive, padding
/// ignored).
pub fn is_composio_toolkit_syncable(toolkit: &str) -> (r: bool)
    ensures
        r == is_syncable(toolkit@),
{
    let slug = slug_of(toolkit);
    kind_for_slug(slug.as_str()).is_some()
}

/// A slug made of lower-case ASCII letters is its own normalised form.
proof fn lemma_lowercase_slug_is_normal(s: Seq<char>)
    requires
        s.len() > 0,
        forall|i: int| 0 <= i < s.len() ==> 'a' <= #[trigger] s[i] <= 'z',
    ensures
        toolkit_slug(s) == s,
{
    assert(!is_ws(s[0]));
    assert(!is_ws(s[s.len() - 1]));
    lemma_trim_both_fixed(s, CharClass::Whitespace);
    assert(ascii_lowered(s) =~= s);
}

/// Every toolkit the toolkit check advertises passes that check, so it also builds.
pub proof fn law_advertised_toolkits_are_syncable(i: int)
    requires
        0 <= i < syncable_slugs().len(),
    ensures
        is_syncable(syncable_slugs()[i]),
{
    reveal_strlit("clickup");
    reveal_strlit("github");
    reveal_strlit("gmail");
    reveal_strlit("linear");
    reveal_strlit("notion");
    reveal_strlit("slack");
    let s = syncable_slugs()[i];
    assert forall|j: int| 0 <= j < s.len() implies 'a' <= #[trigger] s[j] <= 'z' by {}
    lemma_lowercase_slug_is_normal(s);
}

/// The pipeline a run builds: which native pipeline, for which connection,
/// with which resolved settings.
#[derive(Debug)]
pub struct ComposioPipelineSpec {
    pub kind: ComposioPipelineKind,
    pub connection_id: String,
    pub composio: ComposioSyncConfig,
}

/// The refusal for a toolkit without a native pipeline.
pub open spec fn unsupported_toolkit_message(toolkit: Seq<char>) -> Seq<char> {
    "memory sync does not support toolkit '"@ + toolkit + "'"@
}

/// Choose the native pipeline for a toolkit, failing closed before any
/// credential is used for a toolkit without one. The check and the choice
/// read the same normalised slug, so a padded or mixed-case toolkit that
/// passes the check always builds.
pub fn build_composio_pipeline(
    toolkit: &str,
    connection_id: &str,
    composio: ComposioSyncConfig,
) -> (r: Result<ComposioPipelineSpec, String>)
    ensures
        match r {
            Ok(p) => slug_kind(toolkit_slug(toolkit@)) == Some(p.kind) && p.connection_id@
                == connection_id@ && p.composio == composio,
            Err(e) => slug_kind(toolkit_slug(toolkit@)) is None && e@
                == unsupported_toolkit_message(toolkit@),
        },
{
    let slug = slug_of(toolkit);
    match kind_for_slug(slug.as_str()) {
        Some(kind) => Ok(
            ComposioPipelineSpec { kind, connection_id: connection_id.to_owned(), composio },
        ),
        None => {
            let mut message = String::new();
            push_str(&mut message, "memory sync does not support toolkit '");
            push_str(&mut message, toolkit);
            push_str(&mut message, "'");
            Err(message)
        },
    }
}

/// The guard key for a connection: the toolkit normalised exactly as the toolkit check
/// normalises it, the connection id trimmed.
pub open spec fn connection_key_of(toolkit: Seq<char>, connection_id: Seq<char>) -> (
    Seq<char>,
    Seq<char>,
) {
    (toolkit_slug(toolkit), trimmed(connection_id))
}

pub fn connection_key(toolkit: &str, connection_id: &str) -> (r: (String, String))
    ensures
        (r.0@, r.1@) == connection_key_of(toolkit@, connection_id@),
{
    (slug_of(toolkit), string_from(&trim(connection_id)))
}

/// The note a run carries when another run already holds its connection.
pub const SYNC_ALREADY_RUNNING: &'static str = "sync already running for this connection";

/// Proof that a run holds one connection.
#[derive(Debug)]
pub struct ConnectionGuard {
    pub toolkit: String,
    pub connection_id: String,
}

pub open spec fn guard_key(g: ConnectionGuard) -> (Seq<char>, Seq<char>) {
    (g.toolkit@, g.connection_id@)
}

/// The connections that have a run in progress. One run per connection, so
/// two runs cannot clobber each other's cursor, dedup set and budget.
pub struct ConnectionGuards {
    held: Vec<(String, String)>,
}

impl ConnectionGuards {
    /// The keys of the connections currently held.
    pub closed spec fn held_keys(self) -> Seq<(Seq<char>, Seq<char>)> {
        self.held@.map_values(|k: (String, String)| (k.0@, k.1@))
    }

    /// No connection is held twice.
    pub closed spec fn wf(self) -> bool {
        self.held_keys().no_duplicates()
    }

    pub open spec fn is_held(self, key: (Seq<char>, Seq<char>)) -> bool {
        self.held_keys().contains(key)
    }

    pub fn new() -> (r: Self)
        ensures
            r.wf(),
            forall|k: (Seq<char>, Seq<char>)| !r.is_held(k),
    {
        let r = ConnectionGuards { held: Vec::new() };
        assert(r.held_keys() =~= Seq::<(Seq<char>, Seq<char>)>::empty());
        r
    }

    fn position(&self, toolkit: &String, connection_id: &String) -> (r: Option<usize>)
        ensures
            match r {
                Some(i) => i < self.held@.len() && self.held_keys()[i as int] == (
                    toolkit@,
                    connection_id@,
                ),
                None => !self.held_keys().contains((toolkit@, connection_id@)),
            },
    {
        let mut i: usize = 0;
        while i < self.held.len()
            invariant
                i <= self.held@.len(),
                forall|j: int| 0 <= j < i ==> self.held_keys()[j] != (toolkit@, connection_id@),
            decreases self.held.len() - i,
        {
            let (t, c) = &self.held[i];
            if str_eq(t.as_str(), toolkit.as_str()) && str_eq(
                c.as_str(),
                connection_id.as_str(),
            ) {
                return Some(i);
            }
            i = i + 1;
        }
        None
    }

    /// Take the guard for one connection, or `None` when a run already holds
    /// it. Never waits: queueing behind the running sync would stall the
    /// periodic tick and then re-run a connection that was just synced.
    pub fn try_hold_connection(&mut self, toolkit: &str, connection_id: &str) -> (r: Option<
        ConnectionGuard,
    >)
        requires
            old(self).wf(),
        ensures
            final(self).wf(),
            match r {
                Some(g) => {
                    &&& guard_key(g) == connection_key_of(toolkit@, connection_id@)
                    &&& !old(self).is_held(guard_key(g))
                    &&& final(self).held_keys() == old(self).held_keys().push(guard_key(g))
                },
                None => {
                    &&& old(self).is_held(connection_key_of(toolkit@, connection_id@))
                    &&& final(self).held_keys() == old(self).held_keys()
                },
            },
    {
        let (t, c) = connection_key(toolkit, connection_id);
        match self.position(&t, &c) {
            Some(_) => None,
            None => {
                let ghost before = self.held_keys();
                self.held.push((t.clone(), c.clone()));
                assert(self.held_keys() =~= before.push((t@, c@)));
                Some(ConnectionGuard { toolkit: t, connection_id: c })
            },
        }
    }

    /// End the run that holds `guard`'s connection.
    pub fn release(&mut self, guard: ConnectionGuard)
        requires
            old(self).wf(),
        ensures
            final(self).wf(),
            !final(self).is_held(guard_key(guard)),
            forall|k: (Seq<char>, Seq<char>)|
                k != guard_key(guard) ==> (final(self).is_held(k) == old(self).is_held(k)),
    {
        match self.position(&guard.toolkit, &guard.connection_id) {
            None => {},
            Some(i) => {
                let ghost before = self.held_keys();
                self.held.remove(i);
                assert(self.held_keys() =~= before.remove(i as int));
                assert forall|k: (Seq<char>, Seq<char>)| k != guard_key(guard) implies (
                self.is_held(k) == before.contains(k)) by {
                    if before.contains(k) {
                        let j = choose|j: int| 0 <= j < before.len() && before[j] == k;
                        if j < i {
                            assert(self.held_keys()[j] == k);
                        } else {
                            assert(self.held_keys()[j - 1] == k);
                        }
                    }
                }
                assert forall|j1: int, j2: int|
                    0 <= j1 < self.held_keys().len() && 0 <= j2 < self.held_keys().len() && j1
                        != j2 implies self.held_keys()[j1] != self.held_keys()[j2] by {
                    let a = if j1 < i { j1 } else { j1 + 1 };
                    let b = if j2 < i { j2 } else { j2 + 1 };
                    assert(before[a] != before[b]);
                }
                proof {
                    if self.held_keys().contains(guard_key(guard)) {
                        let j = choose|j: int|
                            0 <= j < self.held_keys().len() && self.held_keys()[j] == guard_key(
                                guard,
                            );
                        let a = if j < i { j } else { j + 1 };
                        assert(before[a] == before[i as int]);
                    }
                }
            },
        }
    }
}

/// Guards are per connection: taking one connection's guard leaves every
/// other connection exactly as held or free as it was.
pub proof fn law_guards_are_independent(
    before: ConnectionGuards,
    after: ConnectionGuards,
    taken: (Seq<char>, Seq<char>),
    other: (Seq<char>, Seq<char>),
)
    requires
        after.held_keys() == before.held_keys().push(taken),
        other != taken,
    ensures
        after.is_held(other) == before.is_held(other),
        after.is_held(taken),
{
    assert(after.held_keys()[before.held_keys().len() as int] == taken);
    if before.is_held(other) {
        let j = choose|j: int| 0 <= j < before.held_keys().len() && before.held_keys()[j] == other;
        assert(after.held_keys()[j] == other);
    }
    if after.is_held(other) {
        let j = choose|j: int| 0 <= j < after.held_keys().len() && after.held_keys()[j] == other;
        assert(j < before.held_keys().len());
        assert(before.held_keys()[j] == other);
    }
}

/// A synchronized document as a pipeline hands it over.
#[derive(Debug)]
pub struct SkillDocument {
    pub namespace_skill_id: String,
    pub connection_id: String,
    pub document_id: String,
    pub title: String,
    pub content: String,
    pub toolkit: String,
    /// Provider metadata, as JSON text.
    pub metadata: String,
}

/// Where a stored document is reconnected into the memory tree.
///
/// The tree scope is `"{toolkit}:{connection_id}"` — one tree per connection,
/// named by the platform prefix retrieval classifies by — and the chunk
/// source id is `"{scope}:{document_id}"`, the scheme the source status and
/// diff snapshots query by.
#[derive(Debug)]
pub struct TreeIngestPlan {
    pub tree_scope: String,
    pub source_id: String,
    pub owner: String,
    pub provider: String,
    pub tags: Vec<String>,
    /// The ingested document's title: the synced document's.
    pub title: String,
    /// The ingested document's body: the synced document's content.
    pub body: String,
    /// The ingested document's source reference: the synced document's id.
    pub source_ref: String,
}

pub open spec fn tree_plan_matches(doc: SkillDocument, plan: TreeIngestPlan) -> bool {
    let toolkit = ascii_lowered(trimmed(doc.toolkit@));
    let connection = trimmed(doc.connection_id@);
    &&& plan.tree_scope@ == toolkit + ":"@ + connection
    &&& plan.source_id@ == toolkit + ":"@ + connection + ":"@ + doc.document_id@
    &&& plan.owner@ == toolkit + "-sync:"@ + connection
    &&& plan.provider@ == "composio:"@ + toolkit
    &&& plan.tags@.map_values(|t: String| t@) == seq!["composio_sync"@, toolkit]
    &&& plan.title@ == doc.title@
    &&& plan.body@ == doc.content@
    &&& plan.source_ref@ == doc.document_id@
}

/// Whether a document carries the scope a tree needs: a toolkit and a
/// connection that are not blank.
pub open spec fn has_tree_scope(doc: SkillDocument) -> bool {
    trimmed(doc.toolkit@).len() > 0 && trimmed(doc.connection_id@).len() > 0
}

/// The memory-tree reconnect for a stored document, or `None` when a blank
/// toolkit or connection would name a tree no retrieval kind can reach.
pub fn tree_ingest_plan(document: &SkillDocument) -> (r: Option<TreeIngestPlan>)
    ensures
        r is Some <==> has_tree_scope(*document),
        r matches Some(p) ==> tree_plan_matches(*document, p),
{
    let trimmed_toolkit = trim(document.toolkit.as_str());
    let connection_chars = trim(document.connection_id.as_str());
    if trimmed_toolkit.len() == 0 || connection_chars.len() == 0 {
        return None;
    }
    let toolkit = string_from(&ascii_lowercase(&trimmed_toolkit));
    let connection = string_from(&connection_chars);
    let mut tree_scope = toolkit.clone();
    push_str(&mut tree_scope, ":");
    push_str(&mut tree_scope, connection.as_str());
    let mut source_id = tree_scope.clone();
    push_str(&mut source_id, ":");
    push_str(&mut source_id, document.document_id.as_str());
    let mut owner = toolkit.clone();
    push_str(&mut owner, "-sync:");
    push_str(&mut owner, connection.as_str());
    let mut provider = "composio:".to_owned();
    push_str(&mut provider, toolkit.as_str());
    let tags = vec!["composio_sync".to_owned(), toolkit];
    proof {
        assert(tags@.map_values(|t: String| t@) =~= seq!["composio_sync"@, tags@[1]@]);
    }
    Some(
        TreeIngestPlan {
            tree_scope,
            source_id,
            owner,
            provider,
            tags,
            title: document.title.clone(),
            body: document.content.clone(),
            source_ref: document.document_id.clone(),
        },
    )
}

impl TreeIngestPlan {
    /// The error a failed tree ingest reports: it names the source.
    pub fn failure(&self, error: &str) -> (r: String)
        ensures
            r@ == "memory-tree ingest failed for source `"@ + self.source_id@ + "`: "@ + error@,
    {
        let mut m = "memory-tree ingest failed for source `".to_owned();
        push_str(&mut m, self.source_id.as_str());
        push_str(&mut m, "`: ");
        push_str(&mut m, error);
        m
    }
}

/// A synced document's tree is named by the same platform slug the toolkit
/// check and the run guard use: the tree scope is the guard key's toolkit and
/// connection joined by `:`, the source id extends the scope with the
/// document id, the owner and provider are keyed by that slug, and the slug
/// holds no ASCII upper-case letter, so `GitHub` and `github` name one tree.
pub proof fn law_tree_scope_is_the_guard_key(doc: SkillDocument, plan: TreeIngestPlan)
    requires
        tree_plan_matches(doc, plan),
    ensures
        plan.tree_scope@ == connection_key_of(doc.toolkit@, doc.connection_id@).0 + ":"@
            + connection_key_of(doc.toolkit@, doc.connection_id@).1,
        plan.source_id@ == plan.tree_scope@ + ":"@ + doc.document_id@,
        plan.owner@ == connection_key_of(doc.toolkit@, doc.connection_id@).0 + "-sync:"@
            + connection_key_of(doc.toolkit@, doc.connection_id@).1,
        plan.provider@ == "composio:"@ + connection_key_of(doc.toolkit@, doc.connection_id@).0,
        forall|i: int|
            0 <= i < toolkit_slug(doc.toolkit@).len() ==> !('A' <= #[trigger] plan.tree_scope@[i]
                <= 'Z'),
{
    let slug = toolkit_slug(doc.toolkit@);
    assert forall|i: int| 0 <= i < slug.len() implies !('A' <= #[trigger] plan.tree_scope@[i]
        <= 'Z') by {
        assert(plan.tree_scope@[i] == slug[i]);
        assert(slug[i] == ascii_lower(trimmed(doc.toolkit@)[i]));
    }
}

/// Toolkit names that differ only in padding and ASCII case name one tree.
pub proof fn law_tree_scope_ignores_toolkit_case(
    a: SkillDocument,
    pa: TreeIngestPlan,
    b: SkillDocument,
    pb: TreeIngestPlan,
)
    requires
        tree_plan_matches(a, pa),
        tree_plan_matches(b, pb),
        eq_ignoring_ascii_case(trimmed(a.toolkit@), trimmed(b.toolkit@)),
        a.connection_id@ == b.connection_id@,
    ensures
        pa.tree_scope@ == pb.tree_scope@,
{
}

/// The namespace a pipeline's document lives under: `"skill-{id}"`, id
/// trimmed.
pub fn skill_namespace(namespace_skill_id: &str) -> (r: String)
    ensures
        r@ == "skill-"@ + trimmed(namespace_skill_id@),
{
    let mut out = "skill-".to_owned();
    let id = string_from(&trim(namespace_skill_id));
    push_str(&mut out, id.as_str());
    out
}

/// What storing one synchronized document involves: the skill-store write,
/// which is always made and is the source of truth, then the best-effort
/// tree reconnect when this adapter feeds the tree and the document has a
/// scope.
#[derive(Debug)]
pub struct StorePlan {
    pub tree: Option<TreeIngestPlan>,
}

/// Adapter giving the pipelines their three capabilities — events,
/// documents, state — over the bound memory client `memory`; `config` is the
/// host config when the adapter also feeds the memory tree.
pub struct PipelineHost<M, C> {
    pub memory: M,
    pub config: Option<C>,
}

/// The pipeline context: the three capabilities, all served by one adapter.
pub struct SyncContext<M, C> {
    pub events: Arc<PipelineHost<M, C>>,
    pub documents: Arc<PipelineHost<M, C>>,
    pub state: Arc<PipelineHost<M, C>>,
}

impl<M, C> PipelineHost<M, C> {
    /// An adapter that also feeds the memory tree after each stored document.
    pub fn new(memory: M, config: C) -> (r: Self)
        ensures
            r.memory == memory,
            r.config == Some(config),
    {
        PipelineHost { memory, config: Some(config) }
    }

    /// An adapter with no host config: documents are stored, tree ingest is
    /// skipped. This is the shape a non-TinyCortex host uses.
    pub fn without_tree_ingest(memory: M) -> (r: Self)
        ensures
            r.memory == memory,
            r.config is None,
    {
        PipelineHost { memory, config: None }
    }

    /// The pipeline context over this adapter.
    pub fn context(self: &Arc<Self>) -> (r: SyncContext<M, C>)
        ensures
            r.events == *self,
            r.documents == *self,
            r.state == *self,
    {
        SyncContext { events: share(self), documents: share(self), state: share(self) }
    }

    /// What storing `document` involves on this adapter: a config-less
    /// adapter never touches the tree.
    pub fn store_plan(&self, document: &SkillDocument) -> (r: StorePlan)
        ensures
            self.config is None ==> r.tree is None,
            self.config is Some ==> (r.tree is Some <==> has_tree_scope(*document)),
            r.tree matches Some(p) ==> tree_plan_matches(*document, p),
    {
        match &self.config {
            None => StorePlan { tree: None },
            Some(_) => StorePlan { tree: tree_ingest_plan(document) },
        }
    }
}

} // verus!
