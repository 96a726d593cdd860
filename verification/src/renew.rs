//! Automatic renewal of a released escrow into a fresh one.

use crate::common::{lemma_map_values_insert, lemma_map_values_lookup, pull, Step};
use crate::errors::ContractError;
use crate::model::{Address, Escrow, EscrowExtensions, EscrowStatus, EscrowView, TopUpEntry, Transfer};
use crate::state::AhjoorEscrowContract;
use crate::state::ContractView;
use vstd::prelude::*;

verus! {

broadcast use vstd::std_specs::hash::group_hash_axioms;

/// Whether the buyer has switched off renewals configured by an AutoRenewConfig.
pub open spec fn renewal_cancelled(pre: ContractView, id: u32) -> bool {
    pre.auto_renewal_cancelled.contains_key(id) && pre.auto_renewal_cancelled[id]
}

pub open spec fn allowance_of(pre: ContractView, id: u32) -> u32 {
    if pre.renewal_allowance.contains_key(id) {
        pre.renewal_allowance[id]
    } else {
        0
    }
}

/// How a released escrow renews.
pub enum RenewalKind {
    /// No renewal takes place.
    Nothing,
    /// AutoRenewConfig renewal whose allowance pull would fail: no renewal.
    Unfunded,
    /// AutoRenewConfig renewal into a fresh escrow.
    Configured,
    /// Legacy renewal into a fresh escrow of the same duration.
    Legacy,
}

/// Which renewal applies to `src` (the escrow as it was before release).
/// `funds_available` says whether the buyer's allowance covers another period.
pub open spec fn renewal_kind(pre: ContractView, id: u32, src: EscrowView, funds_available: bool) -> RenewalKind {
    match src.extensions.auto_renew_max_renewals {
        Some(max) => if renewal_cancelled(pre, id) || src.extensions.renewals_completed >= max {
            RenewalKind::Nothing
        } else if !funds_available {
            RenewalKind::Unfunded
        } else {
            RenewalKind::Configured
        },
        None => if !src.extensions.auto_renew || (src.extensions.renewal_count != 0
            && src.extensions.renewals_remaining == 0) {
            RenewalKind::Nothing
        } else {
            RenewalKind::Legacy
        },
    }
}

/// Seconds of one AutoRenewConfig period: five seconds per ledger.
pub open spec fn interval_secs(src: EscrowView) -> int {
    match src.extensions.auto_renew_interval_ledgers {
        Some(l) => l * 5,
        None => 0,
    }
}

/// Length of the escrow period that a legacy renewal repeats.
pub open spec fn legacy_duration(src: EscrowView) -> int {
    if src.deadline >= src.created_at {
        src.deadline - src.created_at
    } else {
        0
    }
}

/// The refusal, if any, that renewing `src` runs into; it undoes the release.
pub open spec fn renewal_refusal(pre: ContractView, id: u32, src: EscrowView, now: u64, funds_available: bool) -> Option<
    ContractError,
> {
    match renewal_kind(pre, id, src, funds_available) {
        RenewalKind::Nothing | RenewalKind::Unfunded => None,
        RenewalKind::Configured => if now + interval_secs(src) > u64::MAX || pre.escrow_counter
            == u32::MAX {
            Some(ContractError::Overflow)
        } else {
            None
        },
        RenewalKind::Legacy => if allowance_of(pre, id) == 0 {
            Some(ContractError::InsufficientRenewalAllowance)
        } else if legacy_duration(src) == 0 {
            Some(ContractError::EscrowRenewalDurationMustBePositive)
        } else if pre.escrow_counter == u32::MAX || now + legacy_duration(src) > u64::MAX {
            Some(ContractError::Overflow)
        } else {
            None
        },
    }
}

/// The fresh escrow a renewal of `src` creates.
pub open spec fn renewed_escrow(src: EscrowView, new_id: u32, now: u64, configured: bool) -> EscrowView {
    EscrowView {
        id: new_id,
        status: EscrowStatus::Active,
        created_at: now,
        deadline: if configured {
            (now + interval_secs(src)) as u64
        } else {
            (now + legacy_duration(src)) as u64
        },
        extensions: EscrowExtensions {
            renewals_remaining: if configured {
                if src.extensions.renewals_remaining > 0 {
                    (src.extensions.renewals_remaining - 1) as u32
                } else {
                    0
                }
            } else if src.extensions.renewal_count == 0 {
                0
            } else {
                (src.extensions.renewals_remaining - 1) as u32
            },
            collateral_deposit_deadline: 0,
            collateral_amount: 0,
            auto_renew_max_renewals: if configured {
                src.extensions.auto_renew_max_renewals
            } else {
                None
            },
            auto_renew_interval_ledgers: if configured {
                src.extensions.auto_renew_interval_ledgers
            } else {
                None
            },
            renewals_completed: if configured {
                (src.extensions.renewals_completed + 1) as u32
            } else {
                0
            },
            ..src.extensions
        },
        top_up_history: Seq::empty(),
        top_up_acknowledged: false,
        ..src
    }
}

/// The first escrow of the renewal chain that escrow `id` belongs to.
pub open spec fn origin_of(pre: ContractView, id: u32) -> u32 {
    if pre.renewal_origin.contains_key(id) {
        pre.renewal_origin[id]
    } else {
        id
    }
}

pub open spec fn history_of(pre: ContractView, id: u32) -> Seq<u32> {
    if pre.renewal_history.contains_key(id) {
        pre.renewal_history[id]
    } else {
        Seq::empty()
    }
}

/// Renewing `src` (released escrow `id`) when no refusal applies: the state
/// afterwards and the allowance pull it makes.
pub open spec fn spec_apply_renewal(pre: ContractView, id: u32, src: EscrowView, now: u64, funds_available: bool) -> (
    ContractView,
    Seq<Transfer>,
) {
    let new_id = pre.escrow_counter;
    let kind = renewal_kind(pre, id, src, funds_available);
    let configured = kind is Configured;
    if kind is Nothing || kind is Unfunded {
        (pre, Seq::empty())
    } else {
        let post = ContractView {
            escrows: pre.escrows.insert(new_id, renewed_escrow(src, new_id, now, configured)),
            escrow_counter: (new_id + 1) as u32,
            last_buyer_action: if src.extensions.buyer_inactivity_secs > 0 {
                pre.last_buyer_action.insert(new_id, now)
            } else {
                pre.last_buyer_action
            },
            renewal_history: if configured {
                pre.renewal_history.insert(origin_of(pre, id), history_of(pre, origin_of(pre, id)).push(new_id))
            } else {
                pre.renewal_history
            },
            renewal_origin: if configured {
                pre.renewal_origin.insert(new_id, origin_of(pre, id))
            } else {
                pre.renewal_origin
            },
            renewal_allowance: if configured {
                pre.renewal_allowance
            } else {
                pre.renewal_allowance.insert(new_id, (allowance_of(pre, id) - 1) as u32)
            },
            ..pre
        };
        (post, seq![pull(src.token, src.buyer, pre.me, src.amount)])
    }
}

/// Renewing a released escrow: refused, or the state and transfers afterwards.
pub open spec fn spec_renew(pre: ContractView, id: u32, src: EscrowView, now: u64, funds_available: bool) -> Step {
    match renewal_refusal(pre, id, src, now, funds_available) {
        Some(e) => Err(e),
        None => Ok(spec_apply_renewal(pre, id, src, now, funds_available)),
    }
}

impl AhjoorEscrowContract {
    pub(crate) fn renewal_kind(&self, id: u32, src: &Escrow, funds_available: bool) -> (r: RenewalKind)
        ensures
            r == renewal_kind(self@, id, src@, funds_available),
    {
        match src.extensions.auto_renew_max_renewals {
            Some(max) => {
                let cancelled = match self.auto_renewal_cancelled.get(&id) {
                    Some(b) => *b,
                    None => false,
                };
                if cancelled || src.extensions.renewals_completed >= max {
                    RenewalKind::Nothing
                } else if !funds_available {
                    RenewalKind::Unfunded
                } else {
                    RenewalKind::Configured
                }
            },
            None => {
                if !src.extensions.auto_renew || (src.extensions.renewal_count != 0
                    && src.extensions.renewals_remaining == 0) {
                    RenewalKind::Nothing
                } else {
                    RenewalKind::Legacy
                }
            },
        }
    }

    fn allowance_of(&self, id: u32) -> (r: u32)
        ensures
            r == allowance_of(self@, id),
    {
        match self.renewal_allowance.get(&id) {
            Some(a) => *a,
            None => 0,
        }
    }

    /// The refusal, if any, that renewing `src` would run into.
    pub(crate) fn renewal_check(&self, id: u32, src: &Escrow, now: u64, funds_available: bool) -> (r: Option<
        ContractError,
    >)
        ensures
            r == renewal_refusal(self@, id, src@, now, funds_available),
    {
        match self.renewal_kind(id, src, funds_available) {
            RenewalKind::Nothing | RenewalKind::Unfunded => None,
            RenewalKind::Configured => {
                let ledgers: u64 = match src.extensions.auto_renew_interval_ledgers {
                    Some(l) => l as u64,
                    None => 0,
                };
                if now > u64::MAX - ledgers * 5 || self.escrow_counter == u32::MAX {
                    Some(ContractError::Overflow)
                } else {
                    None
                }
            },
            RenewalKind::Legacy => {
                if self.allowance_of(id) == 0 {
                    return Some(ContractError::InsufficientRenewalAllowance);
                }
                let duration = if src.deadline >= src.created_at {
                    src.deadline - src.created_at
                } else {
                    0
                };
                if duration == 0 {
                    Some(ContractError::EscrowRenewalDurationMustBePositive)
                } else if self.escrow_counter == u32::MAX || now > u64::MAX - duration {
                    Some(ContractError::Overflow)
                } else {
                    None
                }
            },
        }
    }

    /// Renews released escrow `id` from `src`, its record before release.
    pub(crate) fn try_auto_renew(&mut self, id: u32, src: &Escrow, now: u64, funds_available: bool) -> (r: Vec<
        Transfer,
    >)
        requires
            renewal_refusal(old(self)@, id, src@, now, funds_available) is None,
        ensures
            (final(self)@, r@) == spec_apply_renewal(old(self)@, id, src@, now, funds_available),
    {
        let ghost pre = self@;
        let kind = self.renewal_kind(id, src, funds_available);
        let configured = match kind {
            RenewalKind::Nothing | RenewalKind::Unfunded => {
                return Vec::new();
            },
            RenewalKind::Configured => true,
            RenewalKind::Legacy => false,
        };
        let new_id = self.escrow_counter;
        let deadline: u64 = if configured {
            let ledgers: u64 = match src.extensions.auto_renew_interval_ledgers {
                Some(l) => l as u64,
                None => 0,
            };
            now + ledgers * 5
        } else {
            now + (src.deadline - src.created_at)
        };
        let renewals_remaining: u32 = if configured {
            if src.extensions.renewals_remaining > 0 {
                src.extensions.renewals_remaining - 1
            } else {
                0
            }
        } else if src.extensions.renewal_count == 0 {
            0
        } else {
            src.extensions.renewals_remaining - 1
        };
        let renewed = Escrow {
            id: new_id,
            buyer: src.buyer,
            seller: src.seller,
            arbiter: src.arbiter,
            amount: src.amount,
            original_amount: src.original_amount,
            token: src.token,
            status: EscrowStatus::Active,
            created_at: now,
            deadline,
            metadata_hash: src.metadata_hash,
            sellers: crate::common::copy_vec(&src.sellers),
            extensions: EscrowExtensions {
                renewals_remaining,
                collateral_deposit_deadline: 0,
                collateral_amount: 0,
                auto_renew_max_renewals: if configured {
                    src.extensions.auto_renew_max_renewals
                } else {
                    None
                },
                auto_renew_interval_ledgers: if configured {
                    src.extensions.auto_renew_interval_ledgers
                } else {
                    None
                },
                renewals_completed: if configured {
                    src.extensions.renewals_completed + 1
                } else {
                    0
                },
                ..src.extensions
            },
            top_up_history: Vec::new(),
            top_up_acknowledged: false,
        };
        assert(renewed@ == renewed_escrow(src@, new_id, now, configured)) by {
            assert(renewed@.top_up_history =~= Seq::<TopUpEntry>::empty());
        }
        proof {
            lemma_map_values_insert(self.escrows@, new_id, renewed, |e: Escrow| e@);
        }
        self.escrows.insert(new_id, renewed);
        self.escrow_counter = new_id + 1;
        if src.extensions.buyer_inactivity_secs > 0 {
            self.last_buyer_action.insert(new_id, now);
        }
        if configured {
            proof {
                lemma_map_values_lookup(self.renewal_history@, |v: Vec<u32>| v@);
            }
            let origin: u32 = match self.renewal_origin.get(&id) {
                Some(o) => *o,
                None => id,
            };
            let mut hist = match self.renewal_history.remove(&origin) {
                Some(h) => h,
                None => Vec::new(),
            };
            hist.push(new_id);
            proof {
                lemma_map_values_insert(self.renewal_history@, origin, hist, |v: Vec<u32>| v@);
            }
            self.renewal_history.insert(origin, hist);
            self.renewal_origin.insert(new_id, origin);
        } else {
            let a = self.allowance_of(id);
            self.renewal_allowance.insert(new_id, a - 1);
        }
        let mut ts = Vec::new();
        ts.push(Transfer { token: src.token, from: src.buyer, to: self.me, amount: src.amount, by_allowance: true });
        proof {
            let (sp, st) = spec_apply_renewal(pre, id, src@, now, funds_available);
            assert(self@.renewal_history =~= sp.renewal_history);
            assert(self@ =~= sp);
            assert(ts@ =~= st);
        }
        ts
    }
}

} // verus!
