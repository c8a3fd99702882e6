use tinymemory::safety::{
    canonical_document_key, canonical_identifier, canonical_logical_namespace, PiiScan,
};

fn clean() -> PiiScan {
    PiiScan { has_likely_pii: false, redacted: String::new() }
}

fn flagged(redacted: &str) -> PiiScan {
    PiiScan { has_likely_pii: true, redacted: redacted.into() }
}

#[test]
fn only_a_flagged_identifier_is_rewritten() {
    assert_eq!(canonical_identifier("12025551234-1543890267@g.us", &clean()), "12025551234-1543890267@g.us");
    assert_eq!(
        canonical_identifier("ssn-123-45-6789", &flagged("ssn-[REDACTED_PII_SSN]")),
        "ssn-[REDACTED_PII_SSN]"
    );
}

#[test]
fn canonicalising_an_identifier_twice_is_a_no_op() {
    let once = canonical_identifier("ssn-123-45-6789", &flagged("ssn-[REDACTED_PII_SSN]"));
    assert_eq!(canonical_identifier(&once, &clean()), once);
}

#[test]
fn the_logical_namespace_drops_brackets_and_falls_back_when_blank() {
    assert_eq!(
        canonical_logical_namespace(" cliente-RFC ", &flagged("cliente-[REDACTED_PII_RFC]"), "global"),
        "cliente-REDACTED_PII_RFC"
    );
    assert_eq!(canonical_logical_namespace("   ", &clean(), "global"), "global");
    assert_eq!(canonical_logical_namespace("[]", &clean(), "global"), "global");
    assert_eq!(canonical_logical_namespace(" notes/a ", &clean(), "global"), "notes/a");
}

#[test]
fn a_document_key_is_trimmed_then_canonicalised() {
    assert_eq!(canonical_document_key("  ticket-7 ", &clean()), "ticket-7");
    assert_eq!(canonical_document_key(" ssn ", &flagged("[REDACTED_PII_SSN]")), "[REDACTED_PII_SSN]");
}
