//! Request checks at the memory service boundary: the response-size ceiling,
//! what the ingest path accepts, and how documents and conversations are
//! addressed when they are stored as entries.

use vstd::prelude::*;
use vstd::utf8::encode_utf8;
use crate::remote::{hex_of, hex_string, sha256, sha256_of};
use crate::text::{
    ascii_lowercase, ascii_lowered, chars_of, contains_seq, decimal, decimal_string, ends_with,
    ends_with_chars, find_chars, first_occurrence, occurs_at, push_str, slice_chars, starts_with,
    starts_with_chars, str_eq, string_from, trim, trim_chars, trimmed, CharClass,
};

verus! {

/// The errors the memory contract names.
#[derive(Debug)]
pub enum MemoryError {
    /// The caller's input is malformed.
    Invalid(String),
    /// The result exceeded a size budget.
    BudgetExceeded(String),
    /// The backing service could not be reached.
    Unreachable(String),
}

/// Where an entry's content came from. Provenance is never defaulted away:
/// externally sourced content must not become internal-trust content.
#[derive(Debug, Clone, Copy, PartialEq, Eq, Structural)]
pub enum MemoryTaint {
    Internal,
    ExternalSync,
}

/// The response-size ceiling for a method that returns a list of entries:
/// half a 16 MiB frame, leaving room for the JSON around the content.
pub const MAX_RESPONSE_BYTES: usize = 8388608;

/// Per-entry allowance for the fields that are not `content`.
pub const PER_ENTRY_OVERHEAD_BYTES: usize = 512;

/// One entry's estimated size: its content bytes plus the overhead,
/// saturating.
pub open spec fn entry_estimate(content_len: nat) -> nat {
    if content_len + PER_ENTRY_OVERHEAD_BYTES > usize::MAX {
        usize::MAX as nat
    } else {
        (content_len + PER_ENTRY_OVERHEAD_BYTES) as nat
    }
}

/// The estimated size of a response carrying `contents`.
pub open spec fn response_estimate(contents: Seq<String>) -> nat
    decreases contents.len(),
{
    if contents.len() == 0 {
        0
    } else {
        response_estimate(contents.drop_last()) + entry_estimate(
            (vstd::utf8::encode_utf8(contents.last()@).len() as usize) as nat,
        )
    }
}

/// A list response refused for its size: how many entries, and the estimate.
#[derive(Debug)]
pub struct ResponseTooLarge {
    pub entries: usize,
    pub estimate: u128,
}

/// Refuse a list response that would not fit in a frame.
///
/// A refusal, not a truncation: `List` has no cursor, so a short list could
/// not be told apart from a complete one. The caller narrows the query
/// instead.
pub fn ensure_response_fits(contents: &Vec<String>) -> (r: Result<(), ResponseTooLarge>)
    ensures
        r is Ok <==> response_estimate(contents@) <= MAX_RESPONSE_BYTES,
        r matches Err(e) ==> e.entries == contents@.len() && e.estimate == response_estimate(
            contents@,
        ),
{
    let mut estimate: u128 = 0;
    let mut i: usize = 0;
    while i < contents.len()
        invariant
            i <= contents.len(),
            estimate == response_estimate(contents@.subrange(0, i as int)),
            estimate <= i * (usize::MAX as nat),
        decreases contents.len() - i,
    {
        assert(contents@.subrange(0, i + 1).drop_last() =~= contents@.subrange(0, i as int));
        assert(contents@.subrange(0, i + 1).last() == contents@[i as int]);
        let len = contents[i].as_str().len();
        assert(len == vstd::utf8::encode_utf8(contents@[i as int]@).len() as usize);
        let one = len.saturating_add(PER_ENTRY_OVERHEAD_BYTES);
        assert(i * (usize::MAX as nat) + usize::MAX as nat == (i + 1) * (usize::MAX as nat))
            by (nonlinear_arith);
        assert(i < usize::MAX);
        assert((i + 1) * (usize::MAX as nat) <= (usize::MAX as nat) * (usize::MAX as nat))
            by (nonlinear_arith)
            requires
                i + 1 <= usize::MAX,
        ;
        assert((usize::MAX as nat) * (usize::MAX as nat) < u128::MAX) by (nonlinear_arith)
            requires
                usize::MAX <= u64::MAX,
        ;
        estimate = estimate + one as u128;
        i = i + 1;
    }
    assert(contents@.subrange(0, contents@.len() as int) =~= contents@);
    if estimate > MAX_RESPONSE_BYTES as u128 {
        return Err(ResponseTooLarge { entries: contents.len(), estimate });
    }
    Ok(())
}

impl ResponseTooLarge {
    /// The refusal message: the method, the entry count and the estimate,
    /// never any entry's content.
    pub fn message(&self, method: &str) -> (r: String)
        ensures
            r@ == method@ + " would return "@ + decimal(self.entries as nat) + " entries (~"@
                + decimal(self.estimate as nat) + " bytes), over the "@ + decimal(
                MAX_RESPONSE_BYTES as nat,
            )
                + " byte response ceiling; narrow the query by namespace, category or session"@,
    {
        let mut m = method.to_owned();
        push_str(&mut m, " would return ");
        push_str(&mut m, decimal_string(self.entries as u128).as_str());
        push_str(&mut m, " entries (~");
        push_str(&mut m, decimal_string(self.estimate).as_str());
        push_str(&mut m, " bytes), over the ");
        push_str(&mut m, decimal_string(MAX_RESPONSE_BYTES as u128).as_str());
        push_str(
            &mut m,
            " byte response ceiling; narrow the query by namespace, category or session",
        );
        m
    }
}

/// An item handed to the ingest path.
#[derive(Debug)]
pub struct IngestItem {
    /// The conversation, document or source the item belongs to.
    pub source_id: String,
    pub content: String,
    pub mime: Option<String>,
    pub namespace: Option<String>,
    /// The item's own reference within its source, when it has one.
    pub source_ref: Option<String>,
    /// When the item was written, as RFC 3339 text.
    pub timestamp: Option<String>,
    pub taint: MemoryTaint,
}

/// `s` up to its first `;` (all of it when there is none).
pub open spec fn before_semicolon(s: Seq<char>) -> Seq<char> {
    if contains_seq(s, seq![';']) {
        let k = choose|k: int| first_occurrence(s, seq![';'], k);
        s.subrange(0, k)
    } else {
        s
    }
}

/// The MIME type as compared: trimmed and ASCII-lower-cased.
pub open spec fn normalized_mime(mime: Seq<char>) -> Seq<char> {
    ascii_lowered(trimmed(mime))
}

/// A MIME type whose essence (the part before any parameters) names decoded
/// text: any `text/*`, any `+json` or `+xml` structured type, JSON, XML or
/// newline-delimited JSON.
pub open spec fn is_text_mime(mime: Seq<char>) -> bool {
    let base = trimmed(before_semicolon(normalized_mime(mime)));
    ||| starts_with(base, "text/"@)
    ||| ends_with(base, "+json"@)
    ||| ends_with(base, "+xml"@)
    ||| base == "application/json"@
    ||| base == "application/xml"@
    ||| base == "application/x-ndjson"@
}

/// Why an ingest item is refused, or `None` when it is accepted: a
/// non-default taint cannot be preserved in the chunk tier, blank content is
/// nothing to ingest, and only decoded text is accepted.
pub open spec fn ingest_refusal(item: IngestItem) -> Option<Seq<char>> {
    if item.taint != MemoryTaint::Internal {
        Some("ingest cannot preserve a non-default taint in the chunk tier"@)
    } else if trimmed(item.content@).len() == 0 {
        Some("ingest content must not be empty"@)
    } else {
        match item.mime {
            Some(m) => if is_text_mime(m@) {
                None
            } else {
                Some(
                    "unsupported MIME '"@ + normalized_mime(m@)
                        + "': ingest accepts decoded text only"@,
                )
            },
            None => None,
        }
    }
}

fn mime_is_text(mime: &str) -> (r: bool)
    ensures
        r == is_text_mime(mime@),
{
    let norm = ascii_lowercase(&trim(mime));
    let semi = vec![';'];
    assert(semi@ =~= seq![';']);
    let head = match find_chars(&norm, &semi) {
        Some(k) => {
            proof {
                assert forall|j: int| first_occurrence(norm@, seq![';'], j) implies j == k by {
                    if j < k {
                        assert(occurs_at(norm@, seq![';'], j));
                    }
                    if k < j {
                        assert(occurs_at(norm@, seq![';'], k as int));
                    }
                }
                assert(semi@ =~= seq![';']);
            }
            slice_chars(&norm, 0, k)
        },
        None => {
            assert(semi@ =~= seq![';']);
            norm
        },
    };
    let base = trim_chars(&head, &CharClass::Whitespace);
    let text = chars_of("text/");
    let json = chars_of("+json");
    let xml = chars_of("+xml");
    let base_str = string_from(&base);
    starts_with_chars(&base, &text) || ends_with_chars(&base, &json) || ends_with_chars(
        &base,
        &xml,
    ) || str_eq(base_str.as_str(), "application/json") || str_eq(
        base_str.as_str(),
        "application/xml",
    ) || str_eq(base_str.as_str(), "application/x-ndjson")
}

/// Check an item before it enters the ingest path.
pub fn validate_ingest_item(item: &IngestItem) -> (r: Result<(), MemoryError>)
    ensures
        match ingest_refusal(*item) {
            None => r is Ok,
            Some(msg) => r matches Err(MemoryError::Invalid(m)) && m@ == msg,
        },
{
    if item.taint != MemoryTaint::Internal {
        return Err(
            MemoryError::Invalid(
                "ingest cannot preserve a non-default taint in the chunk tier".to_owned(),
            ),
        );
    }
    if trim(item.content.as_str()).len() == 0 {
        return Err(MemoryError::Invalid("ingest content must not be empty".to_owned()));
    }
    match &item.mime {
        Some(m) => {
            if mime_is_text(m.as_str()) {
                Ok(())
            } else {
                let mut msg = "unsupported MIME '".to_owned();
                let norm = string_from(&ascii_lowercase(&trim(m.as_str())));
                push_str(&mut msg, norm.as_str());
                push_str(&mut msg, "': ingest accepts decoded text only");
                Err(MemoryError::Invalid(msg))
            }
        },
        None => Ok(()),
    }
}

/// Where a document is stored as an entry: its namespace, its key, and the
/// id reported back (`"{namespace}/{key}"`).
#[derive(Debug)]
pub struct DocumentAddress {
    pub namespace: String,
    pub key: String,
    pub id: String,
}

pub open spec fn document_address_ok(item: IngestItem, a: DocumentAddress) -> bool {
    &&& a.namespace@ == match item.namespace {
        Some(n) => n@,
        None => "document:"@ + item.source_id@,
    }
    &&& a.key@ == match item.source_ref {
        Some(r) => r@,
        None => item.source_id@,
    }
    &&& a.id@ == a.namespace@ + "/"@ + a.key@
}

/// Address a document for storage: its own namespace, or one per document
/// (`"document:{source_id}"`); keyed by its source reference, or by its
/// source id. A document with a blank source id or blank content is refused.
pub fn document_address(item: &IngestItem) -> (r: Result<DocumentAddress, MemoryError>)
    ensures
        (trimmed(item.source_id@).len() == 0 || trimmed(item.content@).len() == 0) ==> (r matches Err(
            MemoryError::Invalid(m),
        ) && m@ == "document source id and content must not be empty"@),
        !(trimmed(item.source_id@).len() == 0 || trimmed(item.content@).len() == 0) ==> (r matches Ok(
            a,
        ) && document_address_ok(*item, a)),
{
    if trim(item.source_id.as_str()).len() == 0 || trim(item.content.as_str()).len() == 0 {
        return Err(
            MemoryError::Invalid("document source id and content must not be empty".to_owned()),
        );
    }
    let namespace = match &item.namespace {
        Some(n) => n.clone(),
        None => {
            let mut n = "document:".to_owned();
            push_str(&mut n, item.source_id.as_str());
            n
        },
    };
    let key = match &item.source_ref {
        Some(r) => r.clone(),
        None => item.source_id.clone(),
    };
    let mut id = namespace.clone();
    push_str(&mut id, "/");
    push_str(&mut id, key.as_str());
    Ok(DocumentAddress { namespace, key, id })
}

/// A conversation batch the conversation-ingest path accepts: empty, or every
/// message from one non-blank conversation and none of them blank.
pub open spec fn conversation_refusal(messages: Seq<IngestItem>) -> Option<Seq<char>> {
    if messages.len() == 0 {
        None
    } else if trimmed(messages[0].source_id@).len() == 0 {
        Some("conversation id must not be empty"@)
    } else if exists|i: int|
        0 <= i < messages.len() && (messages[i].source_id@ != messages[0].source_id@ || trimmed(
            messages[i].content@,
        ).len() == 0) {
        Some("conversation batches must contain one conversation and non-empty messages"@)
    } else {
        None
    }
}

/// Check a conversation batch before any message of it is stored.
pub fn validate_conversation(messages: &Vec<IngestItem>) -> (r: Result<(), MemoryError>)
    ensures
        match conversation_refusal(messages@) {
            None => r is Ok,
            Some(msg) => r matches Err(MemoryError::Invalid(m)) && m@ == msg,
        },
{
    if messages.len() == 0 {
        return Ok(());
    }
    let first = &messages[0].source_id;
    if trim(first.as_str()).len() == 0 {
        return Err(MemoryError::Invalid("conversation id must not be empty".to_owned()));
    }
    let mut i: usize = 0;
    while i < messages.len()
        invariant
            messages.len() > 0,
            first@ == messages@[0].source_id@,
            trimmed(messages@[0].source_id@).len() > 0,
            i <= messages.len(),
            forall|j: int|
                0 <= j < i ==> !(#[trigger] messages@[j].source_id@ != messages@[0].source_id@
                    || trimmed(messages@[j].content@).len() == 0),
        decreases messages.len() - i,
    {
        let same = str_eq(messages[i].source_id.as_str(), first.as_str());
        let blank = trim(messages[i].content.as_str()).len() == 0;
        assert(same == (messages@[i as int].source_id@ == messages@[0].source_id@));
        assert(blank == (trimmed(messages@[i as int].content@).len() == 0));
        if !same || blank {
            assert(0 <= i < messages@.len() && (messages@[i as int].source_id@
                != messages@[0].source_id@ || trimmed(messages@[i as int].content@).len() == 0));
            return Err(
                MemoryError::Invalid(
                    "conversation batches must contain one conversation and non-empty messages".to_owned(),
                ),
            );
        }
        assert(!(messages@[i as int].source_id@ != messages@[0].source_id@ || trimmed(
            messages@[i as int].content@,
        ).len() == 0));
        i = i + 1;
    }
    assert(!exists|j: int|
        0 <= j < messages@.len() && (messages@[j].source_id@ != messages@[0].source_id@
            || trimmed(messages@[j].content@).len() == 0));
    Ok(())
}

/// The namespace a conversation message is stored under: its own, or
/// `"conversation:{conversation_id}"`.
pub fn conversation_namespace(message: &IngestItem, conversation_id: &str) -> (r: String)
    ensures
        r@ == match message.namespace {
            Some(n) => n@,
            None => "conversation:"@ + conversation_id@,
        },
{
    match &message.namespace {
        Some(n) => n.clone(),
        None => {
            let mut n = "conversation:".to_owned();
            push_str(&mut n, conversation_id);
            n
        },
    }
}

/// Recall page size when a request names none.
pub fn default_limit() -> (r: usize)
    ensures
        r == 10,
{
    10
}

/// Export page size when a request names none.
pub fn default_export_limit() -> (r: usize)
    ensures
        r == 50,
{
    50
}

/// Graph-relations page size when a request names none.
pub fn default_relations_limit() -> (r: usize)
    ensures
        r == 100,
{
    100
}

/// The taint a request's wire value denotes: `"external_sync"` is external,
/// anything else (or nothing) internal.
pub fn parse_taint(value: &Option<String>) -> (r: MemoryTaint)
    ensures
        r == (if *value matches Some(v) && v@ == "external_sync"@ {
            MemoryTaint::ExternalSync
        } else {
            MemoryTaint::Internal
        }),
{
    match value {
        Some(v) => if str_eq(v.as_str(), "external_sync") {
            MemoryTaint::ExternalSync
        } else {
            MemoryTaint::Internal
        },
        None => MemoryTaint::Internal,
    }
}

/// Why a chat batch is refused: the first message that fails the ingest
/// checks, in order, or the first that belongs to another conversation than
/// the first message.
pub open spec fn chat_refusal(messages: Seq<IngestItem>) -> Option<Seq<char>> {
    if messages.len() == 0 {
        None
    } else {
        chat_refusal_with_first(messages, messages[0])
    }
}

/// `chat_refusal` with the conversation fixed to `first`'s.
pub open spec fn chat_refusal_with_first(messages: Seq<IngestItem>, first: IngestItem) -> Option<
    Seq<char>,
>
    decreases messages.len(),
{
    if messages.len() == 0 {
        None
    } else {
        match chat_refusal_with_first(messages.drop_last(), first) {
            Some(m) => Some(m),
            None => match ingest_refusal(messages.last()) {
                Some(m) => Some(m),
                None => if messages.last().source_id@ != first.source_id@ {
                    Some("ingest_chat batches must contain one conversation"@)
                } else {
                    None
                },
            },
        }
    }
}

/// Check a chat batch: every message passes the ingest checks and belongs to
/// the first message's conversation.
pub fn validate_chat_batch(messages: &Vec<IngestItem>) -> (r: Result<(), MemoryError>)
    ensures
        match chat_refusal(messages@) {
            None => r is Ok,
            Some(msg) => r matches Err(MemoryError::Invalid(m)) && m@ == msg,
        },
{
    if messages.len() == 0 {
        return Ok(());
    }
    let first = &messages[0].source_id;
    let mut i: usize = 0;
    while i < messages.len()
        invariant
            messages.len() > 0,
            first@ == messages@[0].source_id@,
            i <= messages.len(),
            chat_refusal_with_first(messages@.subrange(0, i as int), messages@[0]) is None,
        decreases messages.len() - i,
    {
        assert(messages@.subrange(0, i + 1).drop_last() =~= messages@.subrange(0, i as int));
        assert(messages@.subrange(0, i + 1).last() == messages@[i as int]);
        match validate_ingest_item(&messages[i]) {
            Err(e) => {
                proof {
                    assert(chat_refusal_with_first(messages@.subrange(0, i + 1), messages@[0])
                        == ingest_refusal(messages@[i as int]));
                    lemma_chat_refusal_monotone(messages@, messages@[0], i + 1);
                }
                return Err(e);
            },
            Ok(()) => {},
        }
        if !str_eq(messages[i].source_id.as_str(), first.as_str()) {
            proof {
                assert(chat_refusal_with_first(messages@.subrange(0, i + 1), messages@[0]) is Some);
                lemma_chat_refusal_monotone(messages@, messages@[0], i + 1);
            }
            return Err(
                MemoryError::Invalid("ingest_chat batches must contain one conversation".to_owned()),
            );
        }
        i = i + 1;
    }
    proof {
        assert(messages@.subrange(0, messages@.len() as int) =~= messages@);
    }
    Ok(())
}

/// Once a prefix is refused, the whole batch is refused for the same reason.
proof fn lemma_chat_refusal_monotone(messages: Seq<IngestItem>, first: IngestItem, i: int)
    requires
        0 <= i <= messages.len(),
        chat_refusal_with_first(messages.subrange(0, i), first) is Some,
    ensures
        chat_refusal_with_first(messages, first) == chat_refusal_with_first(
            messages.subrange(0, i),
            first,
        ),
    decreases messages.len() - i,
{
    if i < messages.len() {
        assert(messages.subrange(0, i + 1).drop_last() =~= messages.subrange(0, i));
        lemma_chat_refusal_monotone(messages, first, i + 1);
    } else {
        assert(messages.subrange(0, i) =~= messages);
    }
}

/// What an ingest call reports: entries written, items skipped, and the ids
/// written.
#[derive(Debug)]
pub struct IngestOutcome {
    pub written: u32,
    pub skipped: u32,
    pub ids: Vec<String>,
}

/// `n` as a `u32`, saturating (`u32::try_from(n).unwrap_or(u32::MAX)`).
pub open spec fn saturate_u32(n: nat) -> u32 {
    if n > u32::MAX {
        u32::MAX
    } else {
        n as u32
    }
}

fn to_u32_saturating(n: usize) -> (r: u32)
    ensures
        r == saturate_u32(n as nat),
{
    if n > u32::MAX as usize {
        u32::MAX
    } else {
        n as u32
    }
}

impl IngestOutcome {
    pub fn new() -> (r: Self)
        ensures
            r.written == 0,
            r.skipped == 0,
            r.ids@.len() == 0,
    {
        IngestOutcome { written: 0, skipped: 0, ids: Vec::new() }
    }

    /// Record one attempted write: a stored document counts as written and
    /// its id is kept; a failed one counts as skipped, so a bulk import is not
    /// aborted by one bad item. Both counts saturate.
    pub fn record<E>(&mut self, result: Result<String, E>)
        ensures
            match result {
                Ok(id) => {
                    &&& final(self).written == saturate_u32((old(self).written + 1) as nat)
                    &&& final(self).skipped == old(self).skipped
                    &&& final(self).ids@ == old(self).ids@.push(id)
                },
                Err(_) => {
                    &&& final(self).written == old(self).written
                    &&& final(self).skipped == saturate_u32((old(self).skipped + 1) as nat)
                    &&& final(self).ids@ == old(self).ids@
                },
            },
    {
        match result {
            Ok(id) => {
                self.written = self.written.saturating_add(1);
                self.ids.push(id);
            },
            Err(_) => {
                self.skipped = self.skipped.saturating_add(1);
            },
        }
    }
}

/// The outcome of an engine ingest run: chunks written; one skipped item
/// when the document was already ingested, else the dropped chunks.
pub fn ingest_outcome(
    chunks_written: usize,
    chunks_dropped: usize,
    already_ingested: bool,
    ids: Vec<String>,
) -> (r: IngestOutcome)
    ensures
        r.written == saturate_u32(chunks_written as nat),
        r.skipped == (if already_ingested {
            1u32
        } else {
            saturate_u32(chunks_dropped as nat)
        }),
        r.ids == ids,
{
    IngestOutcome {
        written: to_u32_saturating(chunks_written),
        skipped: if already_ingested {
            1
        } else {
            to_u32_saturating(chunks_dropped)
        },
        ids,
    }
}

/// One item a source hands over for storage.
#[derive(Debug)]
pub struct SourceItem {
    pub item_id: String,
    pub title: String,
    pub content: String,
    pub url: Option<String>,
    pub mime: Option<String>,
    pub tags: Vec<String>,
}

/// The namespace a source's items are stored under: `"source:{id}"`.
pub fn source_namespace(source_id: &str) -> (r: String)
    ensures
        r@ == "source:"@ + source_id@,
{
    let mut n = "source:".to_owned();
    push_str(&mut n, source_id);
    n
}

/// The key and title a source item is stored under: keyed by its item id
/// (refused when blank), titled by its title or, when that is blank, its id.
pub fn source_item_key_and_title(item: &SourceItem) -> (r: Result<(String, String), MemoryError>)
    ensures
        trimmed(item.item_id@).len() == 0 ==> (r matches Err(MemoryError::Invalid(m)) && m@
            == "source item_id must not be empty"@),
        trimmed(item.item_id@).len() > 0 ==> (r matches Ok(kt) && kt.0@ == item.item_id@ && kt.1@
            == if trimmed(item.title@).len() == 0 {
            item.item_id@
        } else {
            item.title@
        }),
{
    if trim(item.item_id.as_str()).len() == 0 {
        return Err(MemoryError::Invalid("source item_id must not be empty".to_owned()));
    }
    let title = if trim(item.title.as_str()).len() == 0 {
        item.item_id.clone()
    } else {
        item.title.clone()
    };
    Ok((item.item_id.clone(), title))
}

/// The title a source item is stored under: its title, or its id when the
/// title is blank.
pub open spec fn source_item_title(item: SourceItem) -> Seq<char> {
    if trimmed(item.title@).len() == 0 {
        item.item_id@
    } else {
        item.title@
    }
}

/// What accepting a batch of source items stores, in order: the key and
/// title of every item before the first one with a blank id; the items from
/// that one on are not stored, and the batch then answers with its refusal.
pub fn source_items_plan(items: &Vec<SourceItem>) -> (r: (Vec<(String, String)>, Option<
    MemoryError,
>))
    ensures
        r.0.len() <= items.len(),
        forall|j: int|
            0 <= j < r.0.len() ==> {
                &&& trimmed((#[trigger] items@[j]).item_id@).len() > 0
                &&& r.0@[j].0@ == items@[j].item_id@
                &&& r.0@[j].1@ == source_item_title(items@[j])
            },
        r.1 is None <==> r.0.len() == items.len(),
        r.1 matches Some(e) ==> {
            &&& trimmed(items@[r.0.len() as int].item_id@).len() == 0
            &&& e matches MemoryError::Invalid(m) && m@ == "source item_id must not be empty"@
        },
{
    let mut stored: Vec<(String, String)> = Vec::new();
    let mut i: usize = 0;
    while i < items.len()
        invariant
            i <= items.len(),
            stored.len() == i,
            forall|j: int|
                0 <= j < i ==> {
                    &&& trimmed((#[trigger] items@[j]).item_id@).len() > 0
                    &&& stored@[j].0@ == items@[j].item_id@
                    &&& stored@[j].1@ == source_item_title(items@[j])
                },
        decreases items.len() - i,
    {
        match source_item_key_and_title(&items[i]) {
            Ok(kt) => {
                assert(trimmed(items@[i as int].item_id@).len() > 0);
                let ghost before = stored@;
                stored.push(kt);
                assert forall|j: int| 0 <= j < i + 1 implies {
                    &&& trimmed((#[trigger] items@[j]).item_id@).len() > 0
                    &&& stored@[j].0@ == items@[j].item_id@
                    &&& stored@[j].1@ == source_item_title(items@[j])
                } by {
                    if j < i {
                        assert(stored@[j] == before[j]);
                    }
                }
            },
            Err(e) => {
                return (stored, Some(e));
            },
        }
        i = i + 1;
    }
    (stored, None)
}

/// How many records forgetting a source removed: its documents and its
/// chunks, saturating at `u64::MAX`.
pub fn forgotten_total(documents: usize, chunks: usize) -> (r: u64)
    ensures
        r == (if documents + chunks > u64::MAX {
            u64::MAX as int
        } else if documents + chunks > usize::MAX {
            usize::MAX as int
        } else {
            documents + chunks
        }),
{
    let sum = documents.saturating_add(chunks);
    if sum as u128 > u64::MAX as u128 {
        u64::MAX
    } else {
        sum as u64
    }
}

/// A diff is reported for the source it was asked for: a `to` snapshot
/// that belongs to another source is refused.
pub fn check_diff_source(source_id: &str, snapshot_source_id: &str, to: &str) -> (r: Result<
    (),
    MemoryError,
>)
    ensures
        snapshot_source_id@ == source_id@ <==> r is Ok,
        r matches Err(e) ==> e matches MemoryError::Invalid(m) && m@ == "snapshot '"@ + to@
            + "' belongs to a different source"@,
{
    if str_eq(snapshot_source_id, source_id) {
        return Ok(());
    }
    let mut m = "snapshot '".to_owned();
    push_str(&mut m, to);
    push_str(&mut m, "' belongs to a different source");
    Err(MemoryError::Invalid(m))
}

/// A tree append or a fast retrieval refuses blank text: `Invalid` with
/// `message` when `text` is empty after trimming.
pub fn require_text(text: &str, message: &str) -> (r: Result<(), MemoryError>)
    ensures
        r is Ok <==> trimmed(text@).len() > 0,
        r matches Err(e) ==> e matches MemoryError::Invalid(m) && m@ == message@,
{
    if trim(text).len() == 0 {
        return Err(MemoryError::Invalid(message.to_owned()));
    }
    Ok(())
}

/// The key an entity's hotness counters are kept under: `"{namespace}:{id}"`.
pub fn entity_hotness_key(namespace: &str, entity_id: &str) -> (r: String)
    ensures
        r@ == namespace@ + ":"@ + entity_id@,
{
    let mut k = namespace.to_owned();
    push_str(&mut k, ":");
    push_str(&mut k, entity_id);
    k
}

/// The little-endian bytes of `n`, `count` of them (`to_le_bytes`).
pub open spec fn le_bytes(n: nat, count: nat) -> Seq<u8>
    decreases count,
{
    if count == 0 {
        Seq::empty()
    } else {
        seq![(n % 256) as u8] + le_bytes(n / 256, (count - 1) as nat)
    }
}

fn usize_le_bytes(n: usize) -> (r: Vec<u8>)
    ensures
        r@ == le_bytes(n as nat, (usize::BITS / 8) as nat),
{
    let count: u32 = usize::BITS / 8;
    let mut out: Vec<u8> = Vec::new();
    let mut rest: usize = n;
    let mut i: u32 = 0;
    while i < count
        invariant
            count == usize::BITS / 8,
            i <= count,
            out@ + le_bytes(rest as nat, (count - i) as nat) == le_bytes(
                n as nat,
                count as nat,
            ),
        decreases count - i,
    {
        let ghost before = out@;
        let ghost k = (count - i) as nat;
        let b: u8 = (rest % 256) as u8;
        out.push(b);
        assert(le_bytes(rest as nat, k) == seq![b] + le_bytes((rest / 256) as nat, (k - 1) as nat));
        assert(out@ + le_bytes((rest / 256) as nat, (k - 1) as nat) =~= before + le_bytes(
            rest as nat,
            k,
        ));
        rest = rest / 256;
        i = i + 1;
    }
    assert(out@ + le_bytes(rest as nat, 0) =~= out@);
    out
}

fn append_bytes(buf: &mut Vec<u8>, bytes: &[u8])
    ensures
        final(buf)@ == old(buf)@ + bytes@,
{
    let ghost start = buf@;
    let mut i: usize = 0;
    while i < bytes.len()
        invariant
            i <= bytes@.len(),
            buf@ == start + bytes@.subrange(0, i as int),
        decreases bytes.len() - i,
    {
        buf.push(bytes[i]);
        assert(bytes@.subrange(0, i + 1) =~= bytes@.subrange(0, i as int).push(bytes@[i as int]));
        i = i + 1;
    }
    assert(bytes@.subrange(0, bytes@.len() as int) =~= bytes@);
}

pub open spec fn opt_utf8(o: Option<Seq<char>>) -> Seq<u8> {
    match o {
        Some(t) => encode_utf8(t),
        None => Seq::empty(),
    }
}

/// What a conversation message's key digests: the conversation id, the
/// message's position (machine-width little-endian), its content, and its
/// timestamp when it has one.
pub open spec fn message_digest_input(
    conversation_id: Seq<char>,
    index: nat,
    content: Seq<char>,
    timestamp: Option<Seq<char>>,
) -> Seq<u8> {
    encode_utf8(conversation_id) + le_bytes(index, (usize::BITS / 8) as nat) + encode_utf8(content)
        + opt_utf8(timestamp)
}

pub open spec fn message_key_of(
    conversation_id: Seq<char>,
    index: nat,
    content: Seq<char>,
    timestamp: Option<Seq<char>>,
) -> Seq<char> {
    "message-"@ + hex_of(sha256_of(message_digest_input(conversation_id, index, content, timestamp)))
}

pub open spec fn opt_str(o: Option<&str>) -> Option<Seq<char>> {
    match o {
        Some(s) => Some(s@),
        None => None,
    }
}

/// The key a conversation message is stored under: `message-` and the hex
/// SHA-256 of [`message_digest_input`], so the same message at the same
/// position is stored once however often the batch is replayed.
pub fn conversation_message_key(
    conversation_id: &str,
    index: usize,
    content: &str,
    timestamp: Option<&str>,
) -> (r: String)
    ensures
        r@ == message_key_of(conversation_id@, index as nat, content@, opt_str(timestamp)),
{
    let mut buf: Vec<u8> = Vec::new();
    append_bytes(&mut buf, conversation_id.as_bytes());
    let le = usize_le_bytes(index);
    append_bytes(&mut buf, le.as_slice());
    append_bytes(&mut buf, content.as_bytes());
    match timestamp {
        Some(t) => append_bytes(&mut buf, t.as_bytes()),
        None => {},
    }
    assert(buf@ =~= message_digest_input(
        conversation_id@,
        index as nat,
        content@,
        opt_str(timestamp),
    ));
    let digest = sha256(buf.as_slice());
    let mut key = "message-".to_owned();
    push_str(&mut key, hex_string(&digest).as_str());
    key
}

pub open spec fn opt_string(o: Option<String>) -> Option<Seq<char>> {
    match o {
        Some(s) => Some(s@),
        None => None,
    }
}

/// Where each message of an accepted conversation batch is stored: its
/// namespace (its own, or the conversation's) and its key. The batch is
/// checked first, as a whole, so nothing is stored from a refused batch.
pub fn conversation_store_plan(messages: &Vec<IngestItem>) -> (r: Result<
    Vec<(String, String)>,
    MemoryError,
>)
    ensures
        match conversation_refusal(messages@) {
            Some(msg) => r matches Err(MemoryError::Invalid(m)) && m@ == msg,
            None => r matches Ok(plan) && plan.len() == messages.len() && forall|i: int|
                0 <= i < plan.len() ==> {
                    &&& (#[trigger] plan@[i]).0@ == match messages@[i].namespace {
                        Some(n) => n@,
                        None => "conversation:"@ + messages@[0].source_id@,
                    }
                    &&& plan@[i].1@ == message_key_of(
                        messages@[0].source_id@,
                        i as nat,
                        messages@[i].content@,
                        opt_string(messages@[i].timestamp),
                    )
                },
        },
{
    match validate_conversation(messages) {
        Err(e) => return Err(e),
        Ok(()) => {},
    }
    let mut plan: Vec<(String, String)> = Vec::new();
    let mut i: usize = 0;
    while i < messages.len()
        invariant
            i <= messages.len(),
            plan.len() == i,
            forall|j: int|
                0 <= j < i ==> {
                    &&& (#[trigger] plan@[j]).0@ == match messages@[j].namespace {
                        Some(n) => n@,
                        None => "conversation:"@ + messages@[0].source_id@,
                    }
                    &&& plan@[j].1@ == message_key_of(
                        messages@[0].source_id@,
                        j as nat,
                        messages@[j].content@,
                        opt_string(messages@[j].timestamp),
                    )
                },
        decreases messages.len() - i,
    {
        let conversation_id = messages[0].source_id.as_str();
        let message = &messages[i];
        let namespace = conversation_namespace(message, conversation_id);
        let timestamp: Option<&str> = match &message.timestamp {
            Some(t) => Some(t.as_str()),
            None => None,
        };
        let key = conversation_message_key(conversation_id, i, message.content.as_str(), timestamp);
        plan.push((namespace, key));
        i = i + 1;
    }
    Ok(plan)
}

} // verus!
