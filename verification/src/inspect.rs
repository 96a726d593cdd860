//! Inspection, receipts, conditional release, evidence and the management of
//! auto-renewal.

use crate::common::{
    get_vec, lemma_map_values_insert, lemma_map_values_lookup, named_admin_refusal, outcome, outcome_unit,
    spec_is_open, Step,
};
use crate::dispute::score_of;
use crate::errors::ContractError;
use crate::model::{
    Address, Approval, EscrowExtensions, EscrowReceipt, EscrowStatus, EscrowView, EvidenceSubmission, Hash32,
    InspectorReplacement, InspectorReport, InspectorScore, PriceData, Transfer,
};
use crate::release::{note_buyer_action, spec_release_escrow, with_status};
use crate::renew::history_of;
use crate::state::{AhjoorEscrowContract, ContractView, MAX_EVIDENCE_ENTRIES_PER_PARTY};
use std::collections::HashMap;
use vstd::prelude::*;

verus! {

broadcast use vstd::std_specs::hash::group_hash_axioms;

/// The seller of an open escrow with an inspector handing it to inspection.
pub open spec fn spec_seller_mark_complete(pre: ContractView, seller: Address, id: u32) -> Step {
    if pre.paused {
        Err(ContractError::ContractIsPaused)
    } else if !pre.escrows.contains_key(id) {
        Err(ContractError::EscrowNotFound)
    } else if pre.escrows[id].seller != seller {
        Err(ContractError::OnlySellerCanMarkComplete)
    } else if !spec_is_open(pre.escrows[id].status) {
        Err(ContractError::EscrowIsNotActive)
    } else if pre.escrows[id].extensions.inspector is None {
        Err(ContractError::NoInspectorSetUseReleaseEscrowDirectly)
    } else {
        Ok(
            (
                ContractView {
                    escrows: pre.escrows.insert(id, with_status(pre.escrows[id], EscrowStatus::AwaitingInspection)),
                    ..pre
                },
                Seq::empty(),
            ),
        )
    }
}

/// The assigned inspector passing or failing an escrow awaiting inspection.
pub open spec fn spec_submit_inspection_report(
    pre: ContractView,
    inspector: Address,
    id: u32,
    approved: bool,
    report_hash: Hash32,
    now: u64,
) -> Step {
    if pre.paused {
        Err(ContractError::ContractIsPaused)
    } else if !pre.escrows.contains_key(id) {
        Err(ContractError::EscrowNotFound)
    } else if pre.escrows[id].status != EscrowStatus::AwaitingInspection {
        Err(ContractError::EscrowIsNotAwaitingInspection)
    } else if pre.escrows[id].extensions.inspector is None {
        Err(ContractError::NoInspectorSetEscrow)
    } else if pre.escrows[id].extensions.inspector->0 != inspector {
        Err(ContractError::OnlyAssignedInspectorCanSubmitReport)
    } else {
        Ok(
            (
                ContractView {
                    inspector_reports: pre.inspector_reports.insert(
                        id,
                        InspectorReport { inspector, approved, report_hash, submitted_at: now },
                    ),
                    escrows: pre.escrows.insert(
                        id,
                        with_status(
                            pre.escrows[id],
                            if approved {
                                EscrowStatus::InspectionPassed
                            } else {
                                EscrowStatus::InspectionFailed
                            },
                        ),
                    ),
                    ..pre
                },
                Seq::empty(),
            ),
        )
    }
}

/// Whether recording one more ruling for an inspector with record `s`
/// overflows the accuracy it reports.
pub open spec fn accuracy_overflows(s: InspectorScore) -> bool {
    s.correct_rulings * 10000 > u32::MAX
}

/// The buyer or the seller signing the replacement of the inspector by
/// `new_inspector`; once both signed the same replacement it takes effect, an
/// escrow awaiting or failing inspection becomes active again, and the old
/// inspector is charged an incomplete ruling.
pub open spec fn spec_replace_inspector(pre: ContractView, caller: Address, id: u32, new_inspector: Address) -> Step {
    if pre.paused {
        Err(ContractError::ContractIsPaused)
    } else if !pre.escrows.contains_key(id) {
        Err(ContractError::EscrowNotFound)
    } else {
        let e = pre.escrows[id];
        if caller != e.buyer && caller != e.seller {
            Err(ContractError::OnlyBuyerOrSellerCanProposeInspectorReplacement)
        } else if e.extensions.inspector is None {
            Err(ContractError::NoInspectorSetEscrow)
        } else {
            let fresh = InspectorReplacement { new_inspector, buyer_signed: false, seller_signed: false };
            let cur = if pre.inspector_replacements.contains_key(id)
                && pre.inspector_replacements[id].new_inspector == new_inspector {
                pre.inspector_replacements[id]
            } else {
                fresh
            };
            let signed = if caller == e.buyer {
                InspectorReplacement { buyer_signed: true, ..cur }
            } else {
                InspectorReplacement { seller_signed: true, ..cur }
            };
            if signed.buyer_signed && signed.seller_signed {
                let old = e.extensions.inspector->0;
                let s = score_of(pre, old);
                let s2 = InspectorScore {
                    total_rulings: if s.total_rulings == u32::MAX {
                        u32::MAX
                    } else {
                        (s.total_rulings + 1) as u32
                    },
                    ..s
                };
                if accuracy_overflows(s2) {
                    Err(ContractError::Overflow)
                } else {
                    let e2 = EscrowView {
                        extensions: EscrowExtensions { inspector: Some(new_inspector), ..e.extensions },
                        status: if e.status == EscrowStatus::AwaitingInspection || e.status
                            == EscrowStatus::InspectionFailed {
                            EscrowStatus::Active
                        } else {
                            e.status
                        },
                        ..e
                    };
                    Ok(
                        (
                            ContractView {
                                escrows: pre.escrows.insert(id, e2),
                                inspector_replacements: pre.inspector_replacements.remove(id),
                                inspector_scores: pre.inspector_scores.insert(old, s2),
                                ..pre
                            },
                            Seq::empty(),
                        ),
                    )
                }
            } else {
                Ok(
                    (
                        ContractView { inspector_replacements: pre.inspector_replacements.insert(id, signed), ..pre },
                        Seq::empty(),
                    ),
                )
            }
        }
    }
}

/// Admin overturning the inspector's ruling on escrow `id` once: the
/// inspector loses one correct ruling (an inspector with no record counts as
/// one correct out of one).
pub open spec fn spec_appeal_inspector_ruling(pre: ContractView, admin: Address, id: u32) -> Step {
    if pre.paused {
        Err(ContractError::ContractIsPaused)
    } else if let Some(x) = named_admin_refusal(pre, admin, ContractError::OnlyAdminCanAppealInspectorRuling) {
        Err(x)
    } else if !pre.escrows.contains_key(id) {
        Err(ContractError::EscrowNotFound)
    } else if pre.escrows[id].extensions.inspector is None {
        Err(ContractError::NoInspectorOnEscrow)
    } else if pre.inspector_appealed.contains_key(id) && pre.inspector_appealed[id] {
        Err(ContractError::InspectorRulingAlreadyAppealedEscrow)
    } else {
        let i = pre.escrows[id].extensions.inspector->0;
        let s = if pre.inspector_scores.contains_key(i) {
            pre.inspector_scores[i]
        } else {
            InspectorScore { total_rulings: 1, correct_rulings: 1 }
        };
        let s2 = InspectorScore {
            correct_rulings: if s.correct_rulings > 0 {
                (s.correct_rulings - 1) as u32
            } else {
                0
            },
            ..s
        };
        if s2.total_rulings != 0 && accuracy_overflows(s2) {
            Err(ContractError::Overflow)
        } else {
            Ok(
                (
                    ContractView {
                        inspector_scores: pre.inspector_scores.insert(i, s2),
                        inspector_appealed: pre.inspector_appealed.insert(id, true),
                        ..pre
                    },
                    Seq::empty(),
                ),
            )
        }
    }
}

/// The holder of a receipt handing it on, unless its escrow has milestones or
/// a pending partial release.
pub open spec fn spec_transfer_escrow_receipt(pre: ContractView, caller: Address, receipt_id: u32, new_holder: Address) -> Step {
    if pre.paused {
        Err(ContractError::ContractIsPaused)
    } else if !pre.receipts.contains_key(receipt_id) {
        Err(ContractError::ReceiptNotFound)
    } else {
        let rc = pre.receipts[receipt_id];
        if caller != rc.holder {
            Err(ContractError::OnlyCurrentHolderCanTransferReceipt)
        } else if pre.milestones.contains_key(rc.escrow_id) || pre.pending_partial_release.contains_key(
            rc.escrow_id,
        ) {
            Err(ContractError::ActiveMilestoneInProgress)
        } else {
            Ok(
                (
                    ContractView {
                        receipts: pre.receipts.insert(receipt_id, EscrowReceipt { holder: new_holder, ..rc }),
                        ..pre
                    },
                    Seq::empty(),
                ),
            )
        }
    }
}

/// The receipt of an escrow, if one was minted and is outstanding.
pub open spec fn receipt_of_escrow(pre: ContractView, id: u32) -> Option<EscrowReceipt> {
    if pre.receipt_of.contains_key(id) && pre.receipts.contains_key(pre.receipt_of[id]) {
        Some(pre.receipts[pre.receipt_of[id]])
    } else {
        None
    }
}

/// Releasing escrow `id` once its external condition holds: `price` is the
/// oracle's answer for the condition's feed (0 when it has none).
pub open spec fn spec_trigger_conditional_release(
    pre: ContractView,
    caller: Address,
    id: u32,
    price: Option<PriceData>,
    now: u64,
    funds_available: bool,
) -> Step {
    if pre.paused {
        Err(ContractError::ContractIsPaused)
    } else if !pre.conditional_releases.contains_key(id) {
        Err(ContractError::NoConditionalReleaseSetEscrow)
    } else if pre.oracle is None {
        Err(ContractError::OracleNotConfigured)
    } else {
        let value = match price {
            Some(p) => p.price,
            None => 0,
        };
        if value < pre.conditional_releases[id].expected_value {
            Err(ContractError::ConditionNotMet)
        } else {
            spec_release_escrow(pre, caller, id, now, funds_available)
        }
    }
}

pub open spec fn flag_set(m: Map<u32, bool>, id: u32) -> bool {
    m.contains_key(id) && m[id]
}

/// The buyer or the seller signing the waiver of escrow `id`'s release
/// condition; it is dropped once both have signed.
pub open spec fn spec_waive_release_condition(pre: ContractView, caller: Address, id: u32) -> Step {
    if pre.paused {
        Err(ContractError::ContractIsPaused)
    } else if !pre.escrows.contains_key(id) {
        Err(ContractError::EscrowNotFound)
    } else if caller != pre.escrows[id].buyer && caller != pre.escrows[id].seller {
        Err(ContractError::OnlyBuyerOrSellerCanWaiveCondition)
    } else if !pre.conditional_releases.contains_key(id) {
        Err(ContractError::NoConditionalReleaseSetEscrow)
    } else {
        let s1 = if caller == pre.escrows[id].buyer {
            ContractView { buyer_waiver_signed: pre.buyer_waiver_signed.insert(id, true), ..pre }
        } else {
            ContractView { seller_waiver_signed: pre.seller_waiver_signed.insert(id, true), ..pre }
        };
        if flag_set(s1.buyer_waiver_signed, id) && flag_set(s1.seller_waiver_signed, id) {
            Ok(
                (
                    ContractView {
                        conditional_releases: s1.conditional_releases.remove(id),
                        buyer_waiver_signed: s1.buyer_waiver_signed.remove(id),
                        seller_waiver_signed: s1.seller_waiver_signed.remove(id),
                        ..s1
                    },
                    Seq::empty(),
                ),
            )
        } else {
            Ok((s1, Seq::empty()))
        }
    }
}

pub open spec fn evidence_table(pre: ContractView, id: u32) -> Map<Address, Seq<EvidenceSubmission>> {
    if pre.evidence.contains_key(id) {
        pre.evidence[id]
    } else {
        Map::empty()
    }
}

pub open spec fn evidence_of(pre: ContractView, id: u32, party: Address) -> Seq<EvidenceSubmission> {
    if evidence_table(pre, id).contains_key(party) {
        evidence_table(pre, id)[party]
    } else {
        Seq::empty()
    }
}

/// The buyer or the seller adding an evidence entry, at most five each.
pub open spec fn spec_submit_evidence(
    pre: ContractView,
    party: Address,
    id: u32,
    evidence_hash: Hash32,
    evidence_uri_hash: Hash32,
    now: u64,
) -> Step {
    if pre.paused {
        Err(ContractError::ContractIsPaused)
    } else if !pre.escrows.contains_key(id) {
        Err(ContractError::EscrowNotFound)
    } else {
        let e = pre.escrows[id];
        if party != e.buyer && party != e.seller {
            Err(ContractError::OnlyBuyerOrSellerCanSubmitEvidence)
        } else {
            let s1 = if party == e.buyer {
                note_buyer_action(pre, e, id, now)
            } else {
                pre
            };
            let entries = evidence_of(pre, id, party);
            if entries.len() >= MAX_EVIDENCE_ENTRIES_PER_PARTY {
                Err(ContractError::MaximumEvidenceEntriesReachedParty)
            } else {
                Ok(
                    (
                        ContractView {
                            evidence: s1.evidence.insert(
                                id,
                                evidence_table(pre, id).insert(
                                    party,
                                    entries.push(EvidenceSubmission { evidence_hash, evidence_uri_hash, submitted_at: now }),
                                ),
                            ),
                            ..s1
                        },
                        Seq::empty(),
                    ),
                )
            }
        }
    }
}

/// The evidence of the buyer, then of the seller, each only when there is any.
pub open spec fn evidence_listing(pre: ContractView, id: u32) -> Seq<(Address, Seq<EvidenceSubmission>)> {
    let e = pre.escrows[id];
    let b = evidence_of(pre, id, e.buyer);
    let s = evidence_of(pre, id, e.seller);
    let first: Seq<(Address, Seq<EvidenceSubmission>)> = if b.len() > 0 {
        seq![(e.buyer, b)]
    } else {
        Seq::empty()
    };
    if s.len() > 0 {
        first.push((e.seller, s))
    } else {
        first
    }
}

/// The buyer of an auto-renewing escrow granting the contract an allowance
/// for `total_renewals` more periods; the allowance lasts 100 000 ledgers.
pub open spec fn spec_set_renewal_allowance(
    pre: ContractView,
    buyer: Address,
    id: u32,
    total_renewals: u32,
    ledger: u32,
) -> Result<(ContractView, Approval), ContractError> {
    if pre.paused {
        Err(ContractError::ContractIsPaused)
    } else if !pre.escrows.contains_key(id) {
        Err(ContractError::EscrowNotFound)
    } else {
        let e = pre.escrows[id];
        if buyer != e.buyer {
            Err(ContractError::OnlyBuyerCanSetRenewalAllowance)
        } else if !e.extensions.auto_renew {
            Err(ContractError::AutoRenewIsNotEnabledEscrow)
        } else if e.amount * total_renewals > i128::MAX || e.amount * total_renewals < i128::MIN {
            Err(ContractError::Overflow)
        } else {
            Ok(
                (
                    ContractView { renewal_allowance: pre.renewal_allowance.insert(id, total_renewals), ..pre },
                    Approval {
                        token: e.token,
                        owner: buyer,
                        spender: pre.me,
                        amount: (e.amount * total_renewals) as i128,
                        expiration_ledger: if ledger + 100000 > u32::MAX {
                            u32::MAX
                        } else {
                            (ledger + 100000) as u32
                        },
                    },
                ),
            )
        }
    }
}

/// The buyer turning legacy auto-renewal off.
pub open spec fn spec_cancel_auto_renew(pre: ContractView, buyer: Address, id: u32) -> Step {
    if pre.paused {
        Err(ContractError::ContractIsPaused)
    } else if !pre.escrows.contains_key(id) {
        Err(ContractError::EscrowNotFound)
    } else if buyer != pre.escrows[id].buyer {
        Err(ContractError::OnlyBuyerCanCancelAutoRenew)
    } else {
        let e = pre.escrows[id];
        Ok(
            (
                ContractView {
                    escrows: pre.escrows.insert(
                        id,
                        EscrowView {
                            extensions: EscrowExtensions { auto_renew: false, renewals_remaining: 0, ..e.extensions },
                            ..e
                        },
                    ),
                    renewal_allowance: pre.renewal_allowance.remove(id),
                    ..pre
                },
                Seq::empty(),
            ),
        )
    }
}

/// The buyer stopping future renewals of an escrow with a renewal configuration.
pub open spec fn spec_cancel_auto_renewal(pre: ContractView, buyer: Address, id: u32) -> Step {
    if pre.paused {
        Err(ContractError::ContractIsPaused)
    } else if !pre.escrows.contains_key(id) {
        Err(ContractError::EscrowNotFound)
    } else if buyer != pre.escrows[id].buyer {
        Err(ContractError::OnlyBuyerCanCancelAutoRenewal)
    } else if pre.escrows[id].extensions.auto_renew_max_renewals is None {
        Err(ContractError::NoAutoRenewConfigSetEscrow)
    } else {
        Ok((ContractView { auto_renewal_cancelled: pre.auto_renewal_cancelled.insert(id, true), ..pre }, Seq::empty()))
    }
}

impl AhjoorEscrowContract {
    /// The seller hands an open escrow with an inspector to inspection.
    pub fn seller_mark_complete(&mut self, seller: Address, escrow_id: u32) -> (r: Result<(), ContractError>)
        ensures
            spec_seller_mark_complete(old(self)@, seller, escrow_id) == outcome_unit(r, final(self)@),
            r is Err ==> final(self)@ == old(self)@,
    {
        let id = escrow_id;
        if self.paused {
            return Err(ContractError::ContractIsPaused);
        }
        let e = self.find_escrow(id)?;
        if e.seller != seller {
            return Err(ContractError::OnlySellerCanMarkComplete);
        }
        if !Self::is_open_escrow_status(e.status) {
            return Err(ContractError::EscrowIsNotActive);
        }
        if e.extensions.inspector.is_none() {
            return Err(ContractError::NoInspectorSetUseReleaseEscrowDirectly);
        }
        let mut e = self.take_escrow(id);
        e.status = EscrowStatus::AwaitingInspection;
        self.put_escrow(id, e);
        assert(self@ =~= spec_seller_mark_complete(old(self)@, seller, id)->Ok_0.0);
        Ok(())
    }

    /// The assigned inspector passes or fails an escrow awaiting inspection.
    pub fn submit_inspection_report(
        &mut self,
        inspector: Address,
        escrow_id: u32,
        approved: bool,
        report_hash: Hash32,
        now: u64,
    ) -> (r: Result<(), ContractError>)
        ensures
            spec_submit_inspection_report(old(self)@, inspector, escrow_id, approved, report_hash, now)
                == outcome_unit(r, final(self)@),
            r is Err ==> final(self)@ == old(self)@,
    {
        let id = escrow_id;
        if self.paused {
            return Err(ContractError::ContractIsPaused);
        }
        let e = self.find_escrow(id)?;
        if e.status != EscrowStatus::AwaitingInspection {
            return Err(ContractError::EscrowIsNotAwaitingInspection);
        }
        let assigned = match e.extensions.inspector {
            Some(i) => i,
            None => return Err(ContractError::NoInspectorSetEscrow),
        };
        if inspector != assigned {
            return Err(ContractError::OnlyAssignedInspectorCanSubmitReport);
        }
        self.inspector_reports.insert(id, InspectorReport { inspector, approved, report_hash, submitted_at: now });
        let mut e = self.take_escrow(id);
        e.status = if approved {
            EscrowStatus::InspectionPassed
        } else {
            EscrowStatus::InspectionFailed
        };
        self.put_escrow(id, e);
        assert(self@ =~= spec_submit_inspection_report(old(self)@, inspector, id, approved, report_hash, now)->Ok_0.0);
        Ok(())
    }

    /// Same as [`Self::submit_inspection_report`].
    pub fn submit_inspection_result(
        &mut self,
        inspector: Address,
        escrow_id: u32,
        approved: bool,
        report_hash: Hash32,
        now: u64,
    ) -> (r: Result<(), ContractError>)
        ensures
            spec_submit_inspection_report(old(self)@, inspector, escrow_id, approved, report_hash, now)
                == outcome_unit(r, final(self)@),
            r is Err ==> final(self)@ == old(self)@,
    {
        self.submit_inspection_report(inspector, escrow_id, approved, report_hash, now)
    }

    /// The buyer or the seller signs the replacement of the inspector.
    pub fn replace_inspector(&mut self, caller: Address, escrow_id: u32, new_inspector: Address) -> (r: Result<
        (),
        ContractError,
    >)
        ensures
            spec_replace_inspector(old(self)@, caller, escrow_id, new_inspector) == outcome_unit(r, final(self)@),
            r is Err ==> final(self)@ == old(self)@,
    {
        let id = escrow_id;
        if self.paused {
            return Err(ContractError::ContractIsPaused);
        }
        let e = self.find_escrow(id)?;
        if caller != e.buyer && caller != e.seller {
            return Err(ContractError::OnlyBuyerOrSellerCanProposeInspectorReplacement);
        }
        let old = match e.extensions.inspector {
            Some(i) => i,
            None => return Err(ContractError::NoInspectorSetEscrow),
        };
        let fresh = InspectorReplacement { new_inspector, buyer_signed: false, seller_signed: false };
        let cur = match self.inspector_replacements.get(&id) {
            Some(rp) => if rp.new_inspector == new_inspector {
                *rp
            } else {
                fresh
            },
            None => fresh,
        };
        let signed = if caller == e.buyer {
            InspectorReplacement { buyer_signed: true, ..cur }
        } else {
            InspectorReplacement { seller_signed: true, ..cur }
        };
        if signed.buyer_signed && signed.seller_signed {
            let s = match self.inspector_scores.get(&old) {
                Some(s) => *s,
                None => InspectorScore { total_rulings: 0, correct_rulings: 0 },
            };
            let s2 = InspectorScore { total_rulings: s.total_rulings.saturating_add(1), ..s };
            if s2.correct_rulings > u32::MAX / 10000 {
                return Err(ContractError::Overflow);
            }
            let ghost pre = self@;
            let mut e = self.take_escrow(id);
            e.extensions.inspector = Some(new_inspector);
            if e.status == EscrowStatus::AwaitingInspection || e.status == EscrowStatus::InspectionFailed {
                e.status = EscrowStatus::Active;
            }
            self.put_escrow(id, e);
            self.inspector_replacements.remove(&id);
            self.inspector_scores.insert(old, s2);
            assert(self@ =~= spec_replace_inspector(pre, caller, id, new_inspector)->Ok_0.0);
        } else {
            self.inspector_replacements.insert(id, signed);
        }
        Ok(())
    }

    /// Same as [`Self::replace_inspector`].
    pub fn update_inspector(&mut self, caller: Address, escrow_id: u32, new_inspector: Address) -> (r: Result<
        (),
        ContractError,
    >)
        ensures
            spec_replace_inspector(old(self)@, caller, escrow_id, new_inspector) == outcome_unit(r, final(self)@),
            r is Err ==> final(self)@ == old(self)@,
    {
        self.replace_inspector(caller, escrow_id, new_inspector)
    }

    /// The inspector's report on an escrow, if any.
    pub fn get_inspector_report(&self, escrow_id: u32) -> (r: Option<InspectorReport>)
        ensures
            r == (if self@.inspector_reports.contains_key(escrow_id) {
                Some(self@.inspector_reports[escrow_id])
            } else {
                None::<InspectorReport>
            }),
    {
        match self.inspector_reports.get(&escrow_id) {
            Some(rp) => Some(*rp),
            None => None,
        }
    }

    /// Admin overturns the inspector's ruling on an escrow, once.
    pub fn appeal_inspector_ruling(&mut self, admin: Address, escrow_id: u32) -> (r: Result<(), ContractError>)
        ensures
            spec_appeal_inspector_ruling(old(self)@, admin, escrow_id) == outcome_unit(r, final(self)@),
            r is Err ==> final(self)@ == old(self)@,
    {
        let id = escrow_id;
        if self.paused {
            return Err(ContractError::ContractIsPaused);
        }
        self.check_named_admin(admin, ContractError::OnlyAdminCanAppealInspectorRuling)?;
        let e = self.find_escrow(id)?;
        let i = match e.extensions.inspector {
            Some(i) => i,
            None => return Err(ContractError::NoInspectorOnEscrow),
        };
        let appealed = match self.inspector_appealed.get(&id) {
            Some(b) => *b,
            None => false,
        };
        if appealed {
            return Err(ContractError::InspectorRulingAlreadyAppealedEscrow);
        }
        let s = match self.inspector_scores.get(&i) {
            Some(s) => *s,
            None => InspectorScore { total_rulings: 1, correct_rulings: 1 },
        };
        let s2 = InspectorScore {
            correct_rulings: if s.correct_rulings > 0 {
                s.correct_rulings - 1
            } else {
                0
            },
            ..s
        };
        if s2.total_rulings != 0 && s2.correct_rulings > u32::MAX / 10000 {
            return Err(ContractError::Overflow);
        }
        self.inspector_scores.insert(i, s2);
        self.inspector_appealed.insert(id, true);
        Ok(())
    }

    /// The holder of a receipt hands it on.
    pub fn transfer_escrow_receipt(&mut self, caller: Address, receipt_id: u32, new_holder: Address) -> (r: Result<
        (),
        ContractError,
    >)
        ensures
            spec_transfer_escrow_receipt(old(self)@, caller, receipt_id, new_holder) == outcome_unit(
                r,
                final(self)@,
            ),
            r is Err ==> final(self)@ == old(self)@,
    {
        if self.paused {
            return Err(ContractError::ContractIsPaused);
        }
        let rc = match self.receipts.get(&receipt_id) {
            Some(rc) => *rc,
            None => return Err(ContractError::ReceiptNotFound),
        };
        if caller != rc.holder {
            return Err(ContractError::OnlyCurrentHolderCanTransferReceipt);
        }
        if self.milestones.contains_key(&rc.escrow_id) || self.pending_partial_release.contains_key(&rc.escrow_id) {
            proof {
                lemma_map_values_lookup(self.milestones@, |v: Vec<crate::model::Milestone>| v@);
            }
            return Err(ContractError::ActiveMilestoneInProgress);
        }
        proof {
            lemma_map_values_lookup(self.milestones@, |v: Vec<crate::model::Milestone>| v@);
        }
        self.receipts.insert(receipt_id, EscrowReceipt { holder: new_holder, ..rc });
        Ok(())
    }

    /// The outstanding receipt of an escrow, if any.
    pub fn get_escrow_receipt(&self, escrow_id: u32) -> (r: Option<EscrowReceipt>)
        ensures
            r == receipt_of_escrow(self@, escrow_id),
    {
        match self.receipt_of.get(&escrow_id) {
            Some(rid) => match self.receipts.get(rid) {
                Some(rc) => Some(*rc),
                None => None,
            },
            None => None,
        }
    }

    /// Releases an escrow once its external condition holds. `price` is the
    /// oracle's latest price for the condition's feed, if it has one;
    /// `funds_available` is as for [`Self::release_escrow`].
    pub fn trigger_conditional_release(
        &mut self,
        caller: Address,
        escrow_id: u32,
        price: Option<PriceData>,
        now: u64,
        funds_available: bool,
    ) -> (r: Result<Vec<Transfer>, ContractError>)
        ensures
            spec_trigger_conditional_release(old(self)@, caller, escrow_id, price, now, funds_available)
                == outcome(r, final(self)@),
            r is Err ==> final(self)@ == old(self)@,
    {
        if self.paused {
            return Err(ContractError::ContractIsPaused);
        }
        let cond = match self.conditional_releases.get(&escrow_id) {
            Some(c) => *c,
            None => return Err(ContractError::NoConditionalReleaseSetEscrow),
        };
        if self.oracle.is_none() {
            return Err(ContractError::OracleNotConfigured);
        }
        let value: i128 = match price {
            Some(p) => p.price,
            None => 0,
        };
        if value < cond.expected_value {
            return Err(ContractError::ConditionNotMet);
        }
        self.release_escrow(caller, escrow_id, now, funds_available)
    }

    /// The buyer or the seller signs the waiver of the release condition.
    pub fn waive_release_condition(&mut self, caller: Address, escrow_id: u32) -> (r: Result<(), ContractError>)
        ensures
            spec_waive_release_condition(old(self)@, caller, escrow_id) == outcome_unit(r, final(self)@),
            r is Err ==> final(self)@ == old(self)@,
    {
        let id = escrow_id;
        if self.paused {
            return Err(ContractError::ContractIsPaused);
        }
        let e = self.find_escrow(id)?;
        if caller != e.buyer && caller != e.seller {
            return Err(ContractError::OnlyBuyerOrSellerCanWaiveCondition);
        }
        if !self.conditional_releases.contains_key(&id) {
            return Err(ContractError::NoConditionalReleaseSetEscrow);
        }
        if caller == e.buyer {
            self.buyer_waiver_signed.insert(id, true);
        } else {
            self.seller_waiver_signed.insert(id, true);
        }
        let b = match self.buyer_waiver_signed.get(&id) {
            Some(v) => *v,
            None => false,
        };
        let s = match self.seller_waiver_signed.get(&id) {
            Some(v) => *v,
            None => false,
        };
        if b && s {
            self.conditional_releases.remove(&id);
            self.buyer_waiver_signed.remove(&id);
            self.seller_waiver_signed.remove(&id);
        }
        assert(self@ =~= spec_waive_release_condition(old(self)@, caller, id)->Ok_0.0);
        Ok(())
    }

    /// The buyer or the seller adds an evidence entry (at most five each).
    pub fn submit_evidence(
        &mut self,
        party: Address,
        escrow_id: u32,
        evidence_hash: Hash32,
        evidence_uri_hash: Hash32,
        now: u64,
    ) -> (r: Result<(), ContractError>)
        ensures
            spec_submit_evidence(old(self)@, party, escrow_id, evidence_hash, evidence_uri_hash, now) == outcome_unit(
                r,
                final(self)@,
            ),
            r is Err ==> final(self)@ == old(self)@,
    {
        let id = escrow_id;
        if self.paused {
            return Err(ContractError::ContractIsPaused);
        }
        let e = self.find_escrow(id)?;
        if party != e.buyer && party != e.seller {
            return Err(ContractError::OnlyBuyerOrSellerCanSubmitEvidence);
        }
        let ghost pre = self@;
        proof {
            lemma_map_values_lookup(
                self.evidence@,
                |m: HashMap<Address, Vec<EvidenceSubmission>>| m@.map_values(|v: Vec<EvidenceSubmission>| v@),
            );
        }
        let mut inner: HashMap<Address, Vec<EvidenceSubmission>> = match self.evidence.get(&id) {
            Some(m) => m.clone(),
            None => HashMap::new(),
        };
        proof {
            lemma_map_values_lookup(inner@, |v: Vec<EvidenceSubmission>| v@);
        }
        assert(inner@.map_values(|v: Vec<EvidenceSubmission>| v@) =~= evidence_table(pre, id));
        let mut entries: Vec<EvidenceSubmission> = match inner.get(&party) {
            Some(v) => crate::common::copy_vec(v),
            None => Vec::new(),
        };
        assert(entries@ == evidence_of(pre, id, party));
        if entries.len() >= MAX_EVIDENCE_ENTRIES_PER_PARTY as usize {
            return Err(ContractError::MaximumEvidenceEntriesReachedParty);
        }
        if party == e.buyer {
            let secs = e.extensions.buyer_inactivity_secs;
            self.update_last_buyer_action(id, secs, now);
        }
        entries.push(EvidenceSubmission { evidence_hash, evidence_uri_hash, submitted_at: now });
        proof {
            lemma_map_values_insert(inner@, party, entries, |v: Vec<EvidenceSubmission>| v@);
        }
        inner.insert(party, entries);
        proof {
            lemma_map_values_insert(
                self.evidence@,
                id,
                inner,
                |m: HashMap<Address, Vec<EvidenceSubmission>>| m@.map_values(|v: Vec<EvidenceSubmission>| v@),
            );
        }
        self.evidence.insert(id, inner);
        proof {
            let sp = spec_submit_evidence(pre, party, id, evidence_hash, evidence_uri_hash, now)->Ok_0.0;
            assert(self@.evidence =~= sp.evidence);
            assert(self@ =~= sp);
        }
        Ok(())
    }

    fn evidence_entries(&self, id: u32, party: Address) -> (r: Vec<EvidenceSubmission>)
        ensures
            r@ == evidence_of(self@, id, party),
    {
        proof {
            lemma_map_values_lookup(
                self.evidence@,
                |m: HashMap<Address, Vec<EvidenceSubmission>>| m@.map_values(|v: Vec<EvidenceSubmission>| v@),
            );
        }
        match self.evidence.get(&id) {
            Some(m) => {
                proof {
                    lemma_map_values_lookup(m@, |v: Vec<EvidenceSubmission>| v@);
                }
                match m.get(&party) {
                    Some(v) => crate::common::copy_vec(v),
                    None => Vec::new(),
                }
            },
            None => Vec::new(),
        }
    }

    /// The evidence of the buyer, then of the seller, each only when there is any.
    pub fn get_evidence(&self, escrow_id: u32) -> (r: Result<Vec<(Address, Vec<EvidenceSubmission>)>, ContractError>)
        ensures
            match r {
                Ok(v) => self@.escrows.contains_key(escrow_id) && v@.map_values(
                    |p: (Address, Vec<EvidenceSubmission>)| (p.0, p.1@),
                ) == evidence_listing(self@, escrow_id),
                Err(x) => !self@.escrows.contains_key(escrow_id) && x == ContractError::EscrowNotFound,
            },
    {
        let e = self.find_escrow(escrow_id)?;
        let mut all: Vec<(Address, Vec<EvidenceSubmission>)> = Vec::new();
        let b = self.evidence_entries(escrow_id, e.buyer);
        let ghost bv = b@;
        if b.len() > 0 {
            all.push((e.buyer, b));
        }
        let s = self.evidence_entries(escrow_id, e.seller);
        let ghost sv = s@;
        if s.len() > 0 {
            all.push((e.seller, s));
        }
        assert(all@.map_values(|p: (Address, Vec<EvidenceSubmission>)| (p.0, p.1@)) =~= evidence_listing(
            self@,
            escrow_id,
        ));
        Ok(all)
    }

    /// The buyer of an auto-renewing escrow grants the contract an allowance
    /// for `total_renewals` more periods. `ledger` is the current ledger
    /// sequence; the allowance to grant is returned.
    pub fn set_renewal_allowance(&mut self, buyer: Address, escrow_id: u32, total_renewals: u32, ledger: u32) -> (r:
        Result<Approval, ContractError>)
        ensures
            spec_set_renewal_allowance(old(self)@, buyer, escrow_id, total_renewals, ledger) == match r {
                Ok(a) => Ok((final(self)@, a)),
                Err(x) => Err::<(ContractView, Approval), ContractError>(x),
            },
            r is Err ==> final(self)@ == old(self)@,
    {
        let id = escrow_id;
        if self.paused {
            return Err(ContractError::ContractIsPaused);
        }
        let e = self.find_escrow(id)?;
        if buyer != e.buyer {
            return Err(ContractError::OnlyBuyerCanSetRenewalAllowance);
        }
        if !e.extensions.auto_renew {
            return Err(ContractError::AutoRenewIsNotEnabledEscrow);
        }
        let total = match e.amount.checked_mul(total_renewals as i128) {
            Some(t) => t,
            None => return Err(ContractError::Overflow),
        };
        let expiration: u32 = match ledger.checked_add(100000) {
            Some(x) => x,
            None => u32::MAX,
        };
        let a = Approval { token: e.token, owner: buyer, spender: self.me, amount: total, expiration_ledger: expiration };
        self.renewal_allowance.insert(id, total_renewals);
        Ok(a)
    }

    /// The buyer turns legacy auto-renewal off.
    pub fn cancel_auto_renew(&mut self, buyer: Address, escrow_id: u32) -> (r: Result<(), ContractError>)
        ensures
            spec_cancel_auto_renew(old(self)@, buyer, escrow_id) == outcome_unit(r, final(self)@),
            r is Err ==> final(self)@ == old(self)@,
    {
        let id = escrow_id;
        if self.paused {
            return Err(ContractError::ContractIsPaused);
        }
        let e = self.find_escrow(id)?;
        if buyer != e.buyer {
            return Err(ContractError::OnlyBuyerCanCancelAutoRenew);
        }
        let mut e = self.take_escrow(id);
        e.extensions.auto_renew = false;
        e.extensions.renewals_remaining = 0;
        self.put_escrow(id, e);
        self.renewal_allowance.remove(&id);
        assert(self@ =~= spec_cancel_auto_renew(old(self)@, buyer, id)->Ok_0.0);
        Ok(())
    }

    /// The buyer stops future renewals of an escrow with a renewal configuration.
    pub fn cancel_auto_renewal(&mut self, buyer: Address, escrow_id: u32) -> (r: Result<(), ContractError>)
        ensures
            spec_cancel_auto_renewal(old(self)@, buyer, escrow_id) == outcome_unit(r, final(self)@),
            r is Err ==> final(self)@ == old(self)@,
    {
        let id = escrow_id;
        if self.paused {
            return Err(ContractError::ContractIsPaused);
        }
        let e = self.find_escrow(id)?;
        if buyer != e.buyer {
            return Err(ContractError::OnlyBuyerCanCancelAutoRenewal);
        }
        if e.extensions.auto_renew_max_renewals.is_none() {
            return Err(ContractError::NoAutoRenewConfigSetEscrow);
        }
        self.auto_renewal_cancelled.insert(id, true);
        Ok(())
    }

    /// The escrows created, in order, by AutoRenewConfig renewals of the chain
    /// that starts at `escrow_id`.
    pub fn get_renewal_history(&self, escrow_id: u32) -> (r: Vec<u32>)
        ensures
            r@ == history_of(self@, escrow_id),
    {
        proof {
            lemma_map_values_lookup(self.renewal_history@, |v: Vec<u32>| v@);
        }
        match get_vec(&self.renewal_history, escrow_id) {
            Some(v) => v,
            None => Vec::new(),
        }
    }
}

} // verus!
