//! Building a fully described startup item from a raw entry.

use vstd::prelude::*;

use crate::model::{is_disabled_name, spec_build_id, RawEntry, Signature, StartupItem};
use crate::rules::{evaluate, spec_evaluate};
use crate::text::str_ends_with;

verus! {

/// Build a fully-enriched startup item from a raw entry.
///
/// `sig_verifier` is handed the entry's command and returns its signature
/// status; the risk comes from the rule engine with no publisher.
pub fn enrich(raw: &RawEntry, sig_verifier: impl Fn(&str) -> Signature) -> (r: StartupItem)
    requires
        forall|s: &str| #[trigger] sig_verifier.requires((s,)),
    ensures
        r.id@ == spec_build_id(raw.category, raw.location@, raw.name@),
        r.category == raw.category,
        r.name@ == raw.name@,
        r.command@ == raw.command@,
        r.location@ == raw.location@,
        exists|s: &str| s@ == raw.command@ && #[trigger] sig_verifier.ensures((s,), r.signature),
        r.publisher is None,
        exists|file_exists: bool|
            r.risk == (#[trigger] spec_evaluate(
                raw.category,
                raw.command@,
                r.signature,
                None,
                file_exists,
            )).0,
        r.enabled == !is_disabled_name(raw.name@),
{
    let command = raw.command.as_str();
    let signature = sig_verifier(command);
    let rule = evaluate(raw, signature, None);
    let enabled = !str_ends_with(raw.name.as_str(), ".disabled");
    StartupItem {
        id: StartupItem::build_id(raw.category, raw.location.as_str(), raw.name.as_str()),
        category: raw.category,
        name: raw.name.clone(),
        command: raw.command.clone(),
        location: raw.location.clone(),
        signature,
        publisher: None,
        risk: rule.risk,
        enabled,
    }
}

} // verus!
