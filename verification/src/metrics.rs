//! Metrics: the kinds of relayed gRPC messages, and which requests the metrics
//! endpoint answers.
use vstd::prelude::*;
use crate::update::GrpcUpdate;

verus! {

/// The kind of a relayed gRPC message, as a metrics label.
#[derive(Debug, Clone, Copy)]
pub enum GprcMessageKind {
    Account,
    Slot,
    Transaction,
    TransactionStatus,
    Block,
    Ping,
    Pong,
    BlockMeta,
    Entry,
    Unknown,
}

/// The kind of each update.
pub open spec fn spec_kind_of(update: GrpcUpdate) -> GprcMessageKind {
    match update {
        GrpcUpdate::Account { .. } => GprcMessageKind::Account,
        GrpcUpdate::Slot { .. } => GprcMessageKind::Slot,
        GrpcUpdate::Transaction { .. } => GprcMessageKind::Transaction,
        GrpcUpdate::TransactionStatus { .. } => GprcMessageKind::TransactionStatus,
        GrpcUpdate::Block { .. } => GprcMessageKind::Block,
        GrpcUpdate::Ping => GprcMessageKind::Ping,
        GrpcUpdate::Pong => GprcMessageKind::Pong,
        GrpcUpdate::BlockMeta { .. } => GprcMessageKind::BlockMeta,
        GrpcUpdate::Entry { .. } => GprcMessageKind::Entry,
    }
}

impl<'a> From<&'a GrpcUpdate> for GprcMessageKind {
    fn from(msg: &'a GrpcUpdate) -> (res: Self) {
        match msg {
            GrpcUpdate::Account { .. } => GprcMessageKind::Account,
            GrpcUpdate::Slot { .. } => GprcMessageKind::Slot,
            GrpcUpdate::Transaction { .. } => GprcMessageKind::Transaction,
            GrpcUpdate::TransactionStatus { .. } => GprcMessageKind::TransactionStatus,
            GrpcUpdate::Block { .. } => GprcMessageKind::Block,
            GrpcUpdate::Ping => GprcMessageKind::Ping,
            GrpcUpdate::Pong => GprcMessageKind::Pong,
            GrpcUpdate::BlockMeta { .. } => GprcMessageKind::BlockMeta,
            GrpcUpdate::Entry { .. } => GprcMessageKind::Entry,
        }
    }
}

impl<'a> vstd::std_specs::convert::FromSpecImpl<&'a GrpcUpdate> for GprcMessageKind {
    open spec fn obeys_from_spec() -> bool {
        true
    }

    open spec fn from_spec(msg: &'a GrpcUpdate) -> GprcMessageKind {
        spec_kind_of(*msg)
    }
}

/// The label of each kind.
pub open spec fn spec_kind_label(kind: GprcMessageKind) -> Seq<char> {
    match kind {
        GprcMessageKind::Account => "account"@,
        GprcMessageKind::Slot => "slot"@,
        GprcMessageKind::Transaction => "transaction"@,
        GprcMessageKind::TransactionStatus => "transactionstatus"@,
        GprcMessageKind::Block => "block"@,
        GprcMessageKind::Ping => "ping"@,
        GprcMessageKind::Pong => "pong"@,
        GprcMessageKind::BlockMeta => "blockmeta"@,
        GprcMessageKind::Entry => "entry"@,
        GprcMessageKind::Unknown => "unknown"@,
    }
}

impl GprcMessageKind {
    /// The metrics label of the kind.
    pub fn as_str(self) -> (res: &'static str)
        ensures
            res@ == spec_kind_label(self),
    {
        match self {
            GprcMessageKind::Account => "account",
            GprcMessageKind::Slot => "slot",
            GprcMessageKind::Transaction => "transaction",
            GprcMessageKind::TransactionStatus => "transactionstatus",
            GprcMessageKind::Block => "block",
            GprcMessageKind::Ping => "ping",
            GprcMessageKind::Pong => "pong",
            GprcMessageKind::BlockMeta => "blockmeta",
            GprcMessageKind::Entry => "entry",
            GprcMessageKind::Unknown => "unknown",
        }
    }
}

/// The kind of an update depends on its variant alone, and each kind carries
/// its own label; no update is counted as `Unknown`.
pub proof fn lemma_kind_follows_variant(update: GrpcUpdate)
    ensures
        (update is Account) <==> spec_kind_of(update) == GprcMessageKind::Account,
        (update is Slot) <==> spec_kind_of(update) == GprcMessageKind::Slot,
        (update is Transaction) <==> spec_kind_of(update) == GprcMessageKind::Transaction,
        (update is TransactionStatus) <==> spec_kind_of(update) == GprcMessageKind::TransactionStatus,
        (update is Block) <==> spec_kind_of(update) == GprcMessageKind::Block,
        (update is Ping) <==> spec_kind_of(update) == GprcMessageKind::Ping,
        (update is Pong) <==> spec_kind_of(update) == GprcMessageKind::Pong,
        (update is BlockMeta) <==> spec_kind_of(update) == GprcMessageKind::BlockMeta,
        (update is Entry) <==> spec_kind_of(update) == GprcMessageKind::Entry,
        spec_kind_of(update) != GprcMessageKind::Unknown,
        <GprcMessageKind as vstd::std_specs::convert::FromSpec<&GrpcUpdate>>::obeys_from_spec(),
        <GprcMessageKind as vstd::std_specs::convert::FromSpec<&GrpcUpdate>>::from_spec(&update) == spec_kind_of(update),
{
}

/// The label of each kind.
pub proof fn lemma_kind_labels()
    ensures
        spec_kind_label(GprcMessageKind::Account) == "account"@,
        spec_kind_label(GprcMessageKind::Slot) == "slot"@,
        spec_kind_label(GprcMessageKind::Transaction) == "transaction"@,
        spec_kind_label(GprcMessageKind::TransactionStatus) == "transactionstatus"@,
        spec_kind_label(GprcMessageKind::Block) == "block"@,
        spec_kind_label(GprcMessageKind::Ping) == "ping"@,
        spec_kind_label(GprcMessageKind::Pong) == "pong"@,
        spec_kind_label(GprcMessageKind::BlockMeta) == "blockmeta"@,
        spec_kind_label(GprcMessageKind::Entry) == "entry"@,
        spec_kind_label(GprcMessageKind::Unknown) == "unknown"@,
{
}

/// How the metrics endpoint answers a request.
#[derive(Debug, Clone, Copy, PartialEq, Eq, Structural)]
pub enum MetricsRoute {
    /// The metrics of the registry, in the text exposition format.
    Metrics,
    /// 404 with an empty body.
    NotFound,
}

/// The metrics endpoint answers `/metrics` with the metrics and every other
/// path with 404.
pub fn route_request(path: &str) -> (res: MetricsRoute)
    ensures
        res == (if path@ == "/metrics"@ { MetricsRoute::Metrics } else { MetricsRoute::NotFound }),
{
    if path.to_owned() == "/metrics".to_owned() {
        MetricsRoute::Metrics
    } else {
        MetricsRoute::NotFound
    }
}

} // verus!
