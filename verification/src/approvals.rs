//! Counter-signed live approvals.
//!
//! `approved_for_live` in the model catalog is a request, not an authority. A
//! model may only run against a live endpoint when a separate approvals ledger
//! carries a matching record for the exact model ID and artifact digest,
//! naming the approver and the approval time. Keeping the approval in a second
//! file enforces separation of duties: a person who edits the model catalog
//! cannot promote a model to live on their own.

use vstd::prelude::*;

use crate::domain::{ModelCatalog, ModelConfig};
use crate::text::{framed, prefixed, str_eq, trim, trimmed};

verus! {

/// One record of the approvals ledger.
#[derive(Debug)]
pub struct ApprovalEntry {
    pub model_id: String,
    pub artifact_digest: String,
    pub approver: String,
    pub approved_at: String,
}

/// Why the approvals ledger or a model catalog was refused. Each variant
/// names the model concerned.
#[derive(Debug, PartialEq, Eq)]
pub enum ApprovalError {
    /// A record names no approver or no approval time.
    MissingApprover(String),
    /// A record records no artifact digest.
    MissingDigest(String),
    /// A second record for the same model.
    DuplicateRecord(String),
    /// A live-approved model declares no artifact digest.
    UndeclaredDigest(String),
    /// A live-approved model has no record in the ledger.
    NotCounterSigned(String),
    /// The ledger's digest differs from the catalog's digest.
    DigestMismatch(String),
}

/// The text that explains a refused ledger or catalog.
pub open spec fn approval_error_text(e: ApprovalError) -> Seq<char> {
    match e {
        ApprovalError::MissingApprover(id) => "Approval for "@ + id@ + " must name an approver and an approval time"@,
        ApprovalError::MissingDigest(id) => "Approval for "@ + id@ + " must record an artifact digest"@,
        ApprovalError::DuplicateRecord(id) => "Duplicate approval record for model "@ + id@,
        ApprovalError::UndeclaredDigest(_) => "A live-approved model must declare an artifact digest"@,
        ApprovalError::NotCounterSigned(id) => "Model "@ + id@
            + " is marked approved_for_live but has no signed approval in the approvals ledger"@,
        ApprovalError::DigestMismatch(id) => "Model "@ + id@
            + " approval digest does not match the catalog digest. Re-approve the exact artifact."@,
    }
}

impl ApprovalError {
    /// The explanation of the refusal.
    pub fn message(&self) -> (s: String)
        ensures
            s@ == approval_error_text(*self),
    {
        match self {
            ApprovalError::MissingApprover(id) => framed(
                "Approval for ",
                id.as_str(),
                " must name an approver and an approval time",
            ),
            ApprovalError::MissingDigest(id) => framed("Approval for ", id.as_str(), " must record an artifact digest"),
            ApprovalError::DuplicateRecord(id) => prefixed("Duplicate approval record for model ", id.as_str()),
            ApprovalError::UndeclaredDigest(_) => "A live-approved model must declare an artifact digest".to_owned(),
            ApprovalError::NotCounterSigned(id) => framed(
                "Model ",
                id.as_str(),
                " is marked approved_for_live but has no signed approval in the approvals ledger",
            ),
            ApprovalError::DigestMismatch(id) => framed(
                "Model ",
                id.as_str(),
                " approval digest does not match the catalog digest. Re-approve the exact artifact.",
            ),
        }
    }
}

/// Record `i` names an approver and an approval time.
pub open spec fn names_approver(entries: Seq<ApprovalEntry>, i: int) -> bool {
    trimmed(entries[i].approver@).len() > 0 && trimmed(entries[i].approved_at@).len() > 0
}

/// Record `i` records an artifact digest.
pub open spec fn records_digest(entries: Seq<ApprovalEntry>, i: int) -> bool {
    trimmed(entries[i].artifact_digest@).len() > 0
}

/// Record `i` repeats the model of an earlier record.
pub open spec fn model_repeated(entries: Seq<ApprovalEntry>, i: int) -> bool {
    exists|j: int| 0 <= j < i && #[trigger] entries[j].model_id@ == entries[i].model_id@
}

pub open spec fn approval_entry_ok(entries: Seq<ApprovalEntry>, i: int) -> bool {
    names_approver(entries, i) && records_digest(entries, i) && !model_repeated(entries, i)
}

/// The error that record `i` raises when it is the first unacceptable one.
pub open spec fn approval_entry_error(entries: Seq<ApprovalEntry>, i: int) -> ApprovalError {
    if !names_approver(entries, i) {
        ApprovalError::MissingApprover(entries[i].model_id)
    } else if !records_digest(entries, i) {
        ApprovalError::MissingDigest(entries[i].model_id)
    } else {
        ApprovalError::DuplicateRecord(entries[i].model_id)
    }
}

/// The counter-signed approvals, at most one per model.
pub struct ApprovalLedger {
    by_model: Vec<ApprovalEntry>,
}

/// The digest that the ledger records for a model, if it holds a record.
pub open spec fn ledger_digest(records: Seq<ApprovalEntry>, model_id: Seq<char>) -> Option<Seq<char>> {
    if exists|i: int| 0 <= i < records.len() && (#[trigger] records[i]).model_id@ == model_id {
        let i = choose|i: int| 0 <= i < records.len() && (#[trigger] records[i]).model_id@ == model_id;
        Some(records[i].artifact_digest@)
    } else {
        None
    }
}

/// The reason model `m` cannot run live, if there is one.
pub open spec fn model_approval_error(records: Seq<ApprovalEntry>, m: ModelConfig) -> Option<ApprovalError> {
    if !m.approved_for_live {
        None
    } else {
        match m.artifact_digest {
            None => Some(ApprovalError::UndeclaredDigest(m.id)),
            Some(digest) => match ledger_digest(records, m.id@) {
                None => Some(ApprovalError::NotCounterSigned(m.id)),
                Some(recorded) => if recorded != digest@ {
                    Some(ApprovalError::DigestMismatch(m.id))
                } else {
                    None
                },
            },
        }
    }
}

impl ApprovalLedger {
    /// The records of the ledger.
    pub closed spec fn records(&self) -> Seq<ApprovalEntry> {
        self.by_model@
    }

    #[verifier::type_invariant]
    closed spec fn inv(&self) -> bool {
        forall|i: int, j: int|
            0 <= i < self.by_model@.len() && 0 <= j < self.by_model@.len() && i != j
                ==> #[trigger] self.by_model@[i].model_id@ != #[trigger] self.by_model@[j].model_id@
    }

    /// Build the ledger from its records, in order. The first record that
    /// names no approver or time, records no digest, or repeats a model is
    /// refused.
    #[verifier::loop_isolation(false)]
    pub fn from_entries(entries: Vec<ApprovalEntry>) -> (r: Result<ApprovalLedger, ApprovalError>)
        ensures
            r is Ok <==> forall|i: int| 0 <= i < entries@.len() ==> approval_entry_ok(entries@, i),
            r matches Ok(l) ==> l.records() == entries@,
            r matches Err(e) ==> exists|i: int|
                0 <= i < entries@.len() && !approval_entry_ok(entries@, i) && (forall|k: int|
                    0 <= k < i ==> approval_entry_ok(entries@, k)) && e == approval_entry_error(
                    entries@,
                    i,
                ),
    {
        let ghost src = entries@;
        let n = entries.len();
        let mut rest = entries;
        let mut by_model: Vec<ApprovalEntry> = Vec::new();
        let mut i: usize = 0;
        while i < n
            invariant
                n == src.len(),
                i <= n,
                rest@ == src.subrange(i as int, n as int),
                by_model@ == src.subrange(0, i as int),
                forall|k: int| 0 <= k < i ==> approval_entry_ok(src, k),
            decreases n - i,
        {
            let entry = rest.remove(0);
            assert(entry == src[i as int]);
            if trim(entry.approver.as_str()).unicode_len() == 0 || trim(entry.approved_at.as_str()).unicode_len() == 0 {
                assert(!approval_entry_ok(src, i as int));
                return Err(ApprovalError::MissingApprover(entry.model_id));
            }
            if trim(entry.artifact_digest.as_str()).unicode_len() == 0 {
                assert(!approval_entry_ok(src, i as int));
                return Err(ApprovalError::MissingDigest(entry.model_id));
            }
            let mut j: usize = 0;
            while j < by_model.len()
                invariant
                    j <= by_model@.len() == i,
                    forall|k: int| 0 <= k < j ==> src[k].model_id@ != entry.model_id@,
                decreases by_model@.len() - j,
            {
                if by_model[j].model_id == entry.model_id {
                    assert(src[j as int].model_id@ == src[i as int].model_id@);
                    assert(model_repeated(src, i as int));
                    assert(!approval_entry_ok(src, i as int));
                    return Err(ApprovalError::DuplicateRecord(entry.model_id));
                }
                j = j + 1;
            }
            assert(approval_entry_ok(src, i as int));
            by_model.push(entry);
            assert(by_model@ =~= src.subrange(0, i + 1));
            i = i + 1;
        }
        assert forall|a: int, b: int|
            0 <= a < by_model@.len() && 0 <= b < by_model@.len() && a != b implies #[trigger] by_model@[a].model_id@
                != #[trigger] by_model@[b].model_id@ by {
            if a < b {
                assert(approval_entry_ok(src, b));
            } else {
                assert(approval_entry_ok(src, a));
            }
        }
        assert(by_model@ =~= src);
        Ok(ApprovalLedger { by_model })
    }

    /// Every live-approved model must have a matching signed approval whose
    /// artifact digest equals the digest declared in the catalog. The first
    /// model, in catalog order, that breaks this rule is reported.
    #[verifier::loop_isolation(false)]
    pub fn verify(&self, models: &ModelCatalog) -> (r: Result<(), ApprovalError>)
        ensures
            r is Ok <==> forall|i: int|
                0 <= i < models.models@.len() ==> model_approval_error(self.records(), #[trigger] models.models@[i])
                    is None,
            r matches Err(e) ==> exists|i: int|
                0 <= i < models.models@.len() && model_approval_error(self.records(), #[trigger] models.models@[i])
                    == Some(e) && forall|k: int|
                    0 <= k < i ==> model_approval_error(self.records(), #[trigger] models.models@[k]) is None,
    {
        proof {
            use_type_invariant(self);
        }
        let ms = &models.models;
        let mut i: usize = 0;
        while i < ms.len()
            invariant
                i <= ms@.len(),
                forall|k: int| 0 <= k < i ==> model_approval_error(self.records(), #[trigger] ms@[k]) is None,
            decreases ms@.len() - i,
        {
            let model = &ms[i];
            if model.approved_for_live {
                let digest = match &model.artifact_digest {
                    None => {
                        assert(model_approval_error(self.records(), ms@[i as int]) == Some(
                            ApprovalError::UndeclaredDigest(model.id),
                        ));
                        return Err(ApprovalError::UndeclaredDigest(clone_string(&model.id)));
                    },
                    Some(d) => d,
                };
                let mut j: usize = 0;
                let mut found: Option<usize> = None;
                while j < self.by_model.len() && found.is_none()
                    invariant
                        j <= self.by_model@.len(),
                        found matches Some(w) ==> w < self.by_model@.len() && self.by_model@[w as int].model_id@
                            == model.id@,
                        found is None ==> forall|k: int| 0 <= k < j ==> (#[trigger] self.by_model@[k]).model_id@ != model.id@,
                    decreases self.by_model@.len() - j, (if found is None { 1int } else { 0int }),
                {
                    if str_eq(self.by_model[j].model_id.as_str(), model.id.as_str()) {
                        found = Some(j);
                    } else {
                        j = j + 1;
                    }
                }
                match found {
                    None => {
                        assert(ledger_digest(self.records(), model.id@) is None);
                        return Err(ApprovalError::NotCounterSigned(clone_string(&model.id)));
                    },
                    Some(w) => {
                        proof {
                            let s = self.records();
                            let c = choose|c: int| 0 <= c < s.len() && (#[trigger] s[c]).model_id@ == model.id@;
                            if c != w {
                                assert(s[c].model_id@ != s[w as int].model_id@);
                            }
                            assert(ledger_digest(s, model.id@) == Some(s[w as int].artifact_digest@));
                        }
                        if !str_eq(self.by_model[w].artifact_digest.as_str(), digest.as_str()) {
                            return Err(ApprovalError::DigestMismatch(clone_string(&model.id)));
                        }
                    },
                }
            }
            i = i + 1;
        }
        Ok(())
    }
}

/// Separation of duties: when the catalog passes the ledger, every model
/// marked for live runs declares a digest and the ledger counter-signs that
/// exact digest.
pub proof fn law_live_models_are_counter_signed(records: Seq<ApprovalEntry>, m: ModelConfig)
    requires
        m.approved_for_live,
        model_approval_error(records, m) is None,
    ensures
        m.artifact_digest matches Some(d) && ledger_digest(records, m.id@) == Some(d@),
{
}

/// A model that is not marked for live runs needs no record.
pub proof fn law_unapproved_model_needs_no_record(records: Seq<ApprovalEntry>, m: ModelConfig)
    requires
        !m.approved_for_live,
    ensures
        model_approval_error(records, m) is None,
{
}

/// A copy of a string.
pub fn clone_string(s: &String) -> (c: String)
    ensures
        c == *s,
{
    s.clone()
}

} // verus!
