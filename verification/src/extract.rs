//! Turning one raw feed message into a certificate event.
//!
//! A feed message is a JSON document. Its discriminator is the top-level
//! string field `message_type`; when that field holds the literal
//! `certificate_update`, the list of covered domains is the array of
//! strings at the path `data.leaf_cert.all_domains`. The JSON engine is
//! the `serde_json` crate: one trusted probe reads the fixed projection
//! of the document — discriminator and domain list — into plain values,
//! and everything after the probe is verified. Extraction is pure: the
//! probe's result is named as a function of the message text alone.

use vstd::prelude::*;

verus! {

/// The view of a probed message: what the JSON document holds at the
/// two places the monitor reads.
pub ghost enum MessageModel {
    /// The text is not a JSON document.
    NotJson,
    /// The document has no top-level string field under the
    /// discriminator name.
    NoDiscriminator,
    /// The discriminator is a string; `domains` is what stands at the
    /// domain-list path.
    Tagged { tag: Seq<char>, domains: DomainsModel },
}

/// The view of what stands at the domain-list path.
pub ghost enum DomainsModel {
    /// Nothing stands at the path.
    Missing,
    /// Something stands there, but it is not an array.
    NotList,
    /// An array stands there; each entry is its text if it is a string,
    /// `None` otherwise.
    List(Seq<Option<Seq<char>>>),
}

/// A probed message, as plain values.
#[derive(Debug)]
pub enum ProbedMessage {
    NotJson,
    NoDiscriminator,
    Tagged { tag: String, domains: ProbedDomains },
}

/// What stands at the domain-list path, as plain values.
#[derive(Debug)]
pub enum ProbedDomains {
    Missing,
    NotList,
    List(Vec<Option<String>>),
}

impl View for ProbedDomains {
    type V = DomainsModel;

    open spec fn view(&self) -> DomainsModel {
        match self {
            ProbedDomains::Missing => DomainsModel::Missing,
            ProbedDomains::NotList => DomainsModel::NotList,
            ProbedDomains::List(entries) => DomainsModel::List(entries.deep_view()),
        }
    }
}

impl View for ProbedMessage {
    type V = MessageModel;

    open spec fn view(&self) -> MessageModel {
        match self {
            ProbedMessage::NotJson => MessageModel::NotJson,
            ProbedMessage::NoDiscriminator => MessageModel::NoDiscriminator,
            ProbedMessage::Tagged { tag, domains } => MessageModel::Tagged {
                tag: tag@,
                domains: domains@,
            },
        }
    }
}

/// What probing a JSON text at a given discriminator field and list
/// path yields; a function of the three texts alone.
pub uninterp spec fn json_probe(raw: Seq<char>, tag_field: Seq<char>, list_path: Seq<char>)
    -> MessageModel;

/// Relies on `serde_json::from_str`, `Value`'s `&str` index,
/// `Value::pointer`, `Value::as_str` and `Value::as_array`: parsing a
/// text and reading fixed paths out of the parsed tree depends on the
/// texts alone.
#[verifier::external_body]
fn probe_json(raw: &str, tag_field: &str, list_path: &str) -> (r: ProbedMessage)
    ensures
        r@ == json_probe(raw@, tag_field@, list_path@),
{
    let v: serde_json::Value = match serde_json::from_str(raw) {
        Ok(v) => v,
        Err(_) => return ProbedMessage::NotJson,
    };
    let tag = match v[tag_field].as_str() {
        Some(t) => t.to_string(),
        None => return ProbedMessage::NoDiscriminator,
    };
    let domains = match v.pointer(list_path).map(|n| n.as_array()) {
        None => ProbedDomains::Missing,
        Some(None) => ProbedDomains::NotList,
        Some(Some(a)) => ProbedDomains::List(a.iter().map(|e| e.as_str().map(str::to_string)).collect()),
    };
    ProbedMessage::Tagged { tag, domains }
}

/// The discriminator value that marks a certificate-issued event.
pub open spec fn cert_update_tag() -> Seq<char> {
    "certificate_update"@
}

/// What the feed message `raw` holds at the monitor's two read points.
pub open spec fn feed_message_model(raw: Seq<char>) -> MessageModel {
    json_probe(raw, "message_type"@, "/data/leaf_cert/all_domains"@)
}

/// Why a message that claimed to be a certificate update could not be
/// extracted.
#[derive(Clone, Copy, Debug, PartialEq, Eq, Structural)]
pub enum ExtractError {
    /// The text is not a JSON document.
    MalformedDocument,
    /// The document has no top-level string field `message_type`.
    MissingDiscriminator,
    /// Nothing stands at `data.leaf_cert.all_domains`.
    MissingDomainList,
    /// What stands at `data.leaf_cert.all_domains` is not an array.
    DomainListNotList,
    /// Some entry of the domain list is not a string.
    NonStringDomain,
}

/// The ordered domain list one certificate-issued message covers.
#[derive(Clone, Debug, PartialEq, Eq)]
pub struct CertificateEvent {
    /// The domain names, verbatim: no normalization, no lower-casing,
    /// no wildcard stripping.
    pub domains: Vec<String>,
}

impl View for CertificateEvent {
    type V = Seq<Seq<char>>;

    open spec fn view(&self) -> Seq<Seq<char>> {
        self.domains.deep_view()
    }
}

/// What extraction yields for one raw message.
#[derive(Debug, PartialEq, Eq)]
pub enum ExtractOutcome {
    /// The message is a certificate update; here are its domains.
    Event(CertificateEvent),
    /// The message is of another kind and is silently ignored.
    Skip,
    /// The message claimed to be a certificate update but its shape is
    /// wrong, or it is not JSON at all. Non-fatal: the caller logs and
    /// continues.
    Error(ExtractError),
}

/// The view of an extraction outcome.
pub ghost enum ExtractModel {
    Event(Seq<Seq<char>>),
    Skip,
    Error(ExtractError),
}

impl View for ExtractOutcome {
    type V = ExtractModel;

    open spec fn view(&self) -> ExtractModel {
        match self {
            ExtractOutcome::Event(e) => ExtractModel::Event(e@),
            ExtractOutcome::Skip => ExtractModel::Skip,
            ExtractOutcome::Error(e) => ExtractModel::Error(*e),
        }
    }
}

/// Whether some entry of the probed list is not a string.
pub open spec fn has_non_string_entry(entries: Seq<Option<Seq<char>>>) -> bool {
    exists|i: int| 0 <= i < entries.len() && entries[i] is None
}

/// The texts of an all-string entry list.
pub open spec fn string_entries(entries: Seq<Option<Seq<char>>>) -> Seq<Seq<char>> {
    Seq::new(entries.len(), |i: int| entries[i]->Some_0)
}

/// What extraction yields for each probed message shape: a message of
/// another kind is skipped whatever the rest of its shape; a
/// certificate update with a missing, non-array or non-string-entry
/// domain list is an error naming the failed expectation; otherwise the
/// domain list is taken verbatim.
pub open spec fn extract_spec(m: MessageModel) -> ExtractModel {
    match m {
        MessageModel::NotJson => ExtractModel::Error(ExtractError::MalformedDocument),
        MessageModel::NoDiscriminator => ExtractModel::Error(ExtractError::MissingDiscriminator),
        MessageModel::Tagged { tag, domains } => if tag != cert_update_tag() {
            ExtractModel::Skip
        } else {
            match domains {
                DomainsModel::Missing => ExtractModel::Error(ExtractError::MissingDomainList),
                DomainsModel::NotList => ExtractModel::Error(ExtractError::DomainListNotList),
                DomainsModel::List(entries) => if has_non_string_entry(entries) {
                    ExtractModel::Error(ExtractError::NonStringDomain)
                } else {
                    ExtractModel::Event(string_entries(entries))
                },
            }
        },
    }
}

/// Character-for-character equality of two string slices.
pub fn str_eq(a: &str, b: &str) -> (r: bool)
    ensures
        r == (a@ == b@),
{
    let alen = a.unicode_len();
    if alen != b.unicode_len() {
        return false;
    }
    let mut i: usize = 0;
    while i < alen
        invariant
            i <= alen,
            alen == a@.len(),
            alen == b@.len(),
            forall|j: int| 0 <= j < i ==> a@[j] == b@[j],
        decreases alen - i,
    {
        if a.get_char(i) != b.get_char(i) {
            return false;
        }
        i += 1;
    }
    proof {
        assert(a@ =~= b@);
    }
    true
}

/// Turn one raw feed message into zero or one certificate event, the
/// signal that the message is of another kind, or the structural
/// expectation it failed. Pure: the outcome is a function of the
/// message text alone, and a malformed message yields an error value,
/// never a crash.
pub fn extract(raw: &str) -> (r: ExtractOutcome)
    ensures
        r@ == extract_spec(feed_message_model(raw@)),
{
    let probe = probe_json(raw, "message_type", "/data/leaf_cert/all_domains");
    match probe {
        ProbedMessage::NotJson => ExtractOutcome::Error(ExtractError::MalformedDocument),
        ProbedMessage::NoDiscriminator => ExtractOutcome::Error(
            ExtractError::MissingDiscriminator,
        ),
        ProbedMessage::Tagged { tag, domains } => {
            if !str_eq(tag.as_str(), "certificate_update") {
                return ExtractOutcome::Skip;
            }
            match domains {
                ProbedDomains::Missing => ExtractOutcome::Error(ExtractError::MissingDomainList),
                ProbedDomains::NotList => ExtractOutcome::Error(ExtractError::DomainListNotList),
                ProbedDomains::List(entries) => {
                    let mut out: Vec<String> = Vec::new();
                    let mut i: usize = 0;
                    while i < entries.len()
                        invariant
                            i <= entries@.len(),
                            tag@ == cert_update_tag(),
                            feed_message_model(raw@) == (MessageModel::Tagged {
                                tag: tag@,
                                domains: DomainsModel::List(entries.deep_view()),
                            }),
                            out.deep_view() == string_entries(entries.deep_view().take(i as int)),
                            forall|j: int| 0 <= j < i ==> entries.deep_view()[j] is Some,
                        decreases entries@.len() - i,
                    {
                        let ghost prev = out.deep_view();
                        match &entries[i] {
                            Some(s) => {
                                out.push(s.clone());
                                proof {
                                    assert(out.deep_view() =~= prev.push(
                                        entries.deep_view()[i as int]->Some_0,
                                    ));
                                    assert(string_entries(entries.deep_view().take(i + 1)) =~= prev
                                        .push(entries.deep_view()[i as int]->Some_0));
                                }
                            },
                            None => {
                                proof {
                                    assert(entries.deep_view()[i as int] is None);
                                    assert(has_non_string_entry(entries.deep_view()));
                                }
                                return ExtractOutcome::Error(ExtractError::NonStringDomain);
                            },
                        }
                        i += 1;
                    }
                    proof {
                        assert(entries.deep_view().take(entries@.len() as int) =~= entries
                            .deep_view());
                        assert(!has_non_string_entry(entries.deep_view()));
                    }
                    ExtractOutcome::Event(CertificateEvent { domains: out })
                },
            }
        },
    }
}

/// Law: extraction is pure and idempotent — two extractions of the same
/// raw message text yield equal results.
pub proof fn lemma_extract_deterministic(raw: Seq<char>, r1: ExtractModel, r2: ExtractModel)
    requires
        r1 == extract_spec(feed_message_model(raw)),
        r2 == extract_spec(feed_message_model(raw)),
    ensures
        r1 == r2,
{
}

/// Law: a message whose discriminator is not `certificate_update`
/// always yields `Skip`, never an error, whatever the rest of its
/// shape.
pub proof fn lemma_other_kinds_skipped(tag: Seq<char>, domains: DomainsModel)
    requires
        tag != cert_update_tag(),
    ensures
        extract_spec(MessageModel::Tagged { tag, domains }) == ExtractModel::Skip,
{
}

/// Law: a certificate-update message missing its domain list always
/// yields the missing-domain-list error.
pub proof fn lemma_missing_domains_is_error(tag: Seq<char>)
    requires
        tag == cert_update_tag(),
    ensures
        extract_spec(MessageModel::Tagged { tag, domains: DomainsModel::Missing })
            == ExtractModel::Error(ExtractError::MissingDomainList),
{
}

} // verus!
