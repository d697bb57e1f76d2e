//! The updates of a Yellowstone gRPC subscription, as far as the relay reads them.
use vstd::prelude::*;

verus! {

/// One update of a Geyser subscription: its kind and the fields the relay
/// reads (the slot it belongs to, and the owner of an updated account).
pub enum GrpcUpdate {
    /// `owner` is the owner of the account, when the update carries account info.
    Account { slot: u64, owner: Option<Vec<u8>> },
    Slot { slot: u64 },
    Transaction { slot: u64 },
    TransactionStatus { slot: u64 },
    Block { slot: u64 },
    Ping,
    Pong,
    BlockMeta { slot: u64 },
    Entry { slot: u64 },
}

/// The slot under which an update is relayed, or `None` for the keep-alive
/// updates (ping, pong) that the relay skips.
pub open spec fn spec_relayed_slot(update: GrpcUpdate) -> Option<u64> {
    match update {
        GrpcUpdate::Account { slot, .. } => Some(slot),
        GrpcUpdate::Slot { slot } => Some(slot),
        GrpcUpdate::Transaction { slot } => Some(slot),
        GrpcUpdate::TransactionStatus { slot } => Some(slot),
        GrpcUpdate::Block { slot } => Some(slot),
        GrpcUpdate::Ping => None,
        GrpcUpdate::Pong => None,
        GrpcUpdate::BlockMeta { slot } => Some(slot),
        GrpcUpdate::Entry { slot } => Some(slot),
    }
}

/// The owner bytes that the latency log reports: the account owner of an
/// account update with account info, and nothing for every other update.
pub open spec fn spec_update_owner(update: GrpcUpdate) -> Seq<u8> {
    match update {
        GrpcUpdate::Account { owner: Some(o), .. } => o@,
        _ => Seq::empty(),
    }
}

/// Every update but ping and pong is relayed, under the slot it carries.
pub proof fn lemma_relayed_slot_is_carried_slot(update: GrpcUpdate)
    ensures
        spec_relayed_slot(update) is None <==> (update is Ping || update is Pong),
        update matches GrpcUpdate::Account { slot, .. } ==> spec_relayed_slot(update) == Some(slot),
        update matches GrpcUpdate::Slot { slot } ==> spec_relayed_slot(update) == Some(slot),
        update matches GrpcUpdate::Transaction { slot } ==> spec_relayed_slot(update) == Some(slot),
        update matches GrpcUpdate::TransactionStatus { slot } ==> spec_relayed_slot(update) == Some(slot),
        update matches GrpcUpdate::Block { slot } ==> spec_relayed_slot(update) == Some(slot),
        update matches GrpcUpdate::BlockMeta { slot } ==> spec_relayed_slot(update) == Some(slot),
        update matches GrpcUpdate::Entry { slot } ==> spec_relayed_slot(update) == Some(slot),
{
}

/// The owner reported for an update is the account owner of an account update
/// that carries account info, and empty for every other update.
pub proof fn lemma_owner_is_account_owner(update: GrpcUpdate)
    ensures
        update matches GrpcUpdate::Account { owner: Some(o), .. } ==> spec_update_owner(update) == o@,
        !(update matches GrpcUpdate::Account { owner: Some(_), .. }) ==> spec_update_owner(update).len() == 0,
{
}

impl GrpcUpdate {
    /// The slot under which the update is relayed; `None` for ping and pong,
    /// which the relay skips.
    pub fn relayed_slot(&self) -> (res: Option<u64>)
        ensures
            res == spec_relayed_slot(*self),
    {
        match self {
            GrpcUpdate::Account { slot, .. } => Some(*slot),
            GrpcUpdate::Slot { slot } => Some(*slot),
            GrpcUpdate::Transaction { slot } => Some(*slot),
            GrpcUpdate::TransactionStatus { slot } => Some(*slot),
            GrpcUpdate::Block { slot } => Some(*slot),
            GrpcUpdate::Ping => None,
            GrpcUpdate::Pong => None,
            GrpcUpdate::BlockMeta { slot } => Some(*slot),
            GrpcUpdate::Entry { slot } => Some(*slot),
        }
    }

    /// The owner bytes of an account update (empty for every other update).
    pub fn owner(&self) -> (res: Vec<u8>)
        ensures
            res@ == spec_update_owner(*self),
    {
        match self {
            GrpcUpdate::Account { owner: Some(o), .. } => o.clone(),
            _ => Vec::new(),
        }
    }
}

} // verus!
