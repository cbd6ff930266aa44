//! Classification of one transaction's program-log lines.
//!
//! The signals are substring heuristics over free-text logs, as the launch
//! platform emits them.  The marker set is fixed; it is a best-effort
//! text match and the main source of false negatives and positives in the
//! pipeline.

use vstd::prelude::*;
use crate::strutil::{contains_seq, str_contains};

verus! {

/// Independent boolean signals computed from one notification's log lines.
#[derive(Clone, Copy, Debug, PartialEq, Eq, Structural)]
pub struct LogClassification {
    pub success: bool,
    pub is_buy: bool,
    pub is_sell: bool,
    pub is_create: bool,
    pub is_swap: bool,
}

/// What the listener does with one classified notification.
#[derive(Clone, Copy, Debug, PartialEq, Eq, Structural)]
pub enum NotificationAction {
    /// The transaction did not succeed: drop it before any fetch.
    Discard,
    /// Successful but no creation signal: nothing to parse.
    Skip,
    /// A creation signal: resolve it into a token record.
    ParseCreation,
}

/// Some line of `logs` contains `pat`.
pub open spec fn some_line_contains(logs: Seq<String>, pat: Seq<char>) -> bool {
    exists|i: int| 0 <= i < logs.len() && contains_seq(logs[i]@, pat)
}

/// One line carries a creation-related marker: mint initialization,
/// metadata-account creation in either historical version, a generic
/// create instruction, an edition marker, or associated-token-account
/// initialization.
pub open spec fn line_is_create(l: Seq<char>) -> bool {
    contains_seq(l, "InitializeMint"@) || contains_seq(l, "InitializeMint2"@) || contains_seq(
        l,
        "CreateMetadataAccount"@,
    ) || contains_seq(l, "CreateMetadataAccountV3"@) || contains_seq(l, "Instruction: Create"@)
        || contains_seq(l, "master_edition"@) || contains_seq(l, "InitializeAccount3"@)
}

/// One line carries a swap-related marker.
pub open spec fn line_is_swap(l: Seq<char>) -> bool {
    contains_seq(l, "Instruction: SwapTob"@) || contains_seq(l, "SwapEvent"@)
}

/// The runtime's generic success marker appears somewhere.
pub open spec fn spec_success(logs: Seq<String>) -> bool {
    some_line_contains(logs, "success"@)
}

pub open spec fn spec_is_buy(logs: Seq<String>) -> bool {
    some_line_contains(logs, "Instruction: Buy"@)
}

pub open spec fn spec_is_sell(logs: Seq<String>) -> bool {
    some_line_contains(logs, "Instruction: Sell"@)
}

pub open spec fn spec_is_create(logs: Seq<String>) -> bool {
    exists|i: int| 0 <= i < logs.len() && line_is_create(logs[i]@)
}

pub open spec fn spec_is_swap(logs: Seq<String>) -> bool {
    exists|i: int| 0 <= i < logs.len() && line_is_swap(logs[i]@)
}

/// The full classification of one log-line set.
pub open spec fn spec_classify(logs: Seq<String>) -> LogClassification {
    LogClassification {
        success: spec_success(logs),
        is_buy: spec_is_buy(logs),
        is_sell: spec_is_sell(logs),
        is_create: spec_is_create(logs),
        is_swap: spec_is_swap(logs),
    }
}

/// Does any line of `logs` contain `pat`?
pub fn any_line_contains(logs: &Vec<String>, pat: &str) -> (r: bool)
    ensures
        r == some_line_contains(logs@, pat@),
{
    let mut i: usize = 0;
    while i < logs.len()
        invariant
            i <= logs@.len(),
            forall|k: int| 0 <= k < i ==> !contains_seq(logs@[k]@, pat@),
        decreases logs@.len() - i,
    {
        if str_contains(logs[i].as_str(), pat) {
            return true;
        }
        i = i + 1;
    }
    false
}

/// Does the line carry any creation marker?
fn line_is_create_exec(l: &String) -> (r: bool)
    ensures
        r == line_is_create(l@),
{
    str_contains(l.as_str(), "InitializeMint") || str_contains(l.as_str(), "InitializeMint2")
        || str_contains(l.as_str(), "CreateMetadataAccount") || str_contains(
        l.as_str(),
        "CreateMetadataAccountV3",
    ) || str_contains(l.as_str(), "Instruction: Create") || str_contains(
        l.as_str(),
        "master_edition",
    ) || str_contains(l.as_str(), "InitializeAccount3")
}

/// Does the line carry a swap marker?
fn line_is_swap_exec(l: &String) -> (r: bool)
    ensures
        r == line_is_swap(l@),
{
    str_contains(l.as_str(), "Instruction: SwapTob") || str_contains(l.as_str(), "SwapEvent")
}

/// Does any line carry a creation marker?
fn any_line_is_create(logs: &Vec<String>) -> (r: bool)
    ensures
        r == spec_is_create(logs@),
{
    let mut i: usize = 0;
    while i < logs.len()
        invariant
            i <= logs@.len(),
            forall|k: int| 0 <= k < i ==> !line_is_create(logs@[k]@),
        decreases logs@.len() - i,
    {
        if line_is_create_exec(&logs[i]) {
            return true;
        }
        i = i + 1;
    }
    false
}

/// Does any line carry a swap marker?
fn any_line_is_swap(logs: &Vec<String>) -> (r: bool)
    ensures
        r == spec_is_swap(logs@),
{
    let mut i: usize = 0;
    while i < logs.len()
        invariant
            i <= logs@.len(),
            forall|k: int| 0 <= k < i ==> !line_is_swap(logs@[k]@),
        decreases logs@.len() - i,
    {
        if line_is_swap_exec(&logs[i]) {
            return true;
        }
        i = i + 1;
    }
    false
}

/// Classifies the log lines of one transaction notification.
/// Classification never fails and has no error path.
pub fn classify_logs(logs: &Vec<String>) -> (c: LogClassification)
    ensures
        c == spec_classify(logs@),
{
    LogClassification {
        success: any_line_contains(logs, "success"),
        is_buy: any_line_contains(logs, "Instruction: Buy"),
        is_sell: any_line_contains(logs, "Instruction: Sell"),
        is_create: any_line_is_create(logs),
        is_swap: any_line_is_swap(logs),
    }
}

/// The action that follows from a classification: a transaction without
/// the success marker is discarded before any fetch; a successful one
/// without a creation signal is skipped; only a successful creation
/// proceeds to parsing.
pub open spec fn spec_notification_action(logs: Seq<String>) -> NotificationAction {
    if !spec_success(logs) {
        NotificationAction::Discard
    } else if !spec_is_create(logs) {
        NotificationAction::Skip
    } else {
        NotificationAction::ParseCreation
    }
}

/// Decides what to do with one notification's log lines.
pub fn notification_action(logs: &Vec<String>) -> (a: NotificationAction)
    ensures
        a == spec_notification_action(logs@),
{
    let c = classify_logs(logs);
    if !c.success {
        NotificationAction::Discard
    } else if !c.is_create {
        NotificationAction::Skip
    } else {
        NotificationAction::ParseCreation
    }
}

/// Law: a log-line set with no success marker is always discarded, before
/// any fetch occurs; its classification reports `success == false`.
pub proof fn lemma_no_success_discards(logs: Seq<String>)
    requires
        !spec_success(logs),
    ensures
        spec_classify(logs).success == false,
        spec_notification_action(logs) == NotificationAction::Discard,
{
}

} // verus!
