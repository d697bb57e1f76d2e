//! What each relay makes of the messages of its source.
use vstd::prelude::*;
use vstd::string::StringSliceAdditionalSpecFns;
use crate::kafka::keys::{dedup_key_parts, parse_dedup_key, DedupKey};
use crate::kafka::relay::Inbound;
use crate::update::{spec_relayed_slot, GrpcUpdate};

verus! {

/// A WebSocket message: a close frame ends the source, a text frame is relayed
/// and every other frame is ignored.
pub fn ws_inbound(is_close: bool, is_text: bool) -> (res: Inbound)
    ensures
        res == (if is_close {
            Inbound::Close
        } else if !is_text {
            Inbound::Skip
        } else {
            Inbound::Forward
        }),
{
    if is_close {
        Inbound::Close
    } else if !is_text {
        Inbound::Skip
    } else {
        Inbound::Forward
    }
}

/// A gRPC update: ping and pong are ignored, every other update is relayed.
pub fn grpc_inbound(update: &GrpcUpdate) -> (res: Inbound)
    ensures
        res == (if spec_relayed_slot(*update) is Some {
            Inbound::Forward
        } else {
            Inbound::Skip
        }),
{
    match update.relayed_slot() {
        Some(_) => Inbound::Forward,
        None => Inbound::Skip,
    }
}

/// A ping update is acknowledged with the health keep-alive (it is still not
/// relayed); no other update is.
pub fn acks_ping(update: &GrpcUpdate) -> (res: bool)
    ensures
        res == (*update is Ping),
{
    match update {
        GrpcUpdate::Ping => true,
        _ => false,
    }
}

/// A record read by the dedup stage, given its key (when the key is UTF-8) and
/// whether it has a payload: the slot and digest to check, or `None` when the
/// record is skipped.
pub fn dedup_inbound(key: Option<&str>, has_payload: bool) -> (res: Option<DedupKey>)
    ensures
        match key {
            Some(k) if has_payload => match dedup_key_parts(k.spec_bytes()) {
                Some((slot, hash)) => res matches Some(d) && d.slot == slot && d.hash@ == hash,
                None => res is None,
            },
            _ => res is None,
        },
{
    match key {
        Some(k) => {
            if has_payload {
                parse_dedup_key(k.as_bytes())
            } else {
                None
            }
        },
        None => None,
    }
}

} // verus!
