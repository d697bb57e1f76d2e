//! The three tools of the gRPC/Kafka command line and the configuration
//! section that each one needs.
use vstd::prelude::*;

verus! {

/// The tool to run.
#[derive(Debug, Clone, Copy, PartialEq, Eq, Structural)]
pub enum ArgsAction {
    /// Receive data from Kafka, deduplicate and send them back to Kafka.
    Dedup,
    /// Receive data from gRPC and send them to Kafka.
    Grpc2Kafka,
    /// Receive data from Kafka and send them over gRPC.
    Kafka2Grpc,
}

/// The configuration section that the chosen tool runs with.
pub enum ActionSection<D, G, K> {
    Dedup(D),
    Grpc2Kafka(G),
    Kafka2Grpc(K),
}

/// The chosen tool has no section in the configuration.
#[derive(Debug, Clone, Copy, PartialEq, Eq, Structural)]
pub enum MissingSection {
    Dedup,
    Grpc2Kafka,
    Kafka2Grpc,
}

/// The text of each error.
pub open spec fn spec_missing_message(m: MissingSection) -> Seq<char> {
    match m {
        MissingSection::Dedup => "`dedup` section in config should be defined"@,
        MissingSection::Grpc2Kafka => "`grpc2kafka` section in config should be defined"@,
        MissingSection::Kafka2Grpc => "`kafka2grpc` section in config should be defined"@,
    }
}

impl MissingSection {
    /// The error text of the command line.
    pub fn message(self) -> (res: &'static str)
        ensures
            res@ == spec_missing_message(self),
    {
        match self {
            MissingSection::Dedup => "`dedup` section in config should be defined",
            MissingSection::Grpc2Kafka => "`grpc2kafka` section in config should be defined",
            MissingSection::Kafka2Grpc => "`kafka2grpc` section in config should be defined",
        }
    }
}

impl ArgsAction {
    /// Picks the section of the chosen tool among the sections of the
    /// configuration; the error names the tool whose section is absent.
    pub fn select_section<D, G, K>(
        self,
        dedup: Option<D>,
        grpc2kafka: Option<G>,
        kafka2grpc: Option<K>,
    ) -> (res: Result<ActionSection<D, G, K>, MissingSection>)
        ensures
            match self {
                ArgsAction::Dedup => match dedup {
                    Some(d) => res == Ok::<ActionSection<D, G, K>, MissingSection>(ActionSection::Dedup(d)),
                    None => res == Err::<ActionSection<D, G, K>, MissingSection>(MissingSection::Dedup),
                },
                ArgsAction::Grpc2Kafka => match grpc2kafka {
                    Some(g) => res == Ok::<ActionSection<D, G, K>, MissingSection>(ActionSection::Grpc2Kafka(g)),
                    None => res == Err::<ActionSection<D, G, K>, MissingSection>(MissingSection::Grpc2Kafka),
                },
                ArgsAction::Kafka2Grpc => match kafka2grpc {
                    Some(k) => res == Ok::<ActionSection<D, G, K>, MissingSection>(ActionSection::Kafka2Grpc(k)),
                    None => res == Err::<ActionSection<D, G, K>, MissingSection>(MissingSection::Kafka2Grpc),
                },
            },
    {
        match self {
            ArgsAction::Dedup => match dedup {
                Some(d) => Ok(ActionSection::Dedup(d)),
                None => Err(MissingSection::Dedup),
            },
            ArgsAction::Grpc2Kafka => match grpc2kafka {
                Some(g) => Ok(ActionSection::Grpc2Kafka(g)),
                None => Err(MissingSection::Grpc2Kafka),
            },
            ArgsAction::Kafka2Grpc => match kafka2grpc {
                Some(k) => Ok(ActionSection::Kafka2Grpc(k)),
                None => Err(MissingSection::Kafka2Grpc),
            },
        }
    }

    /// The `Debug` text of an error, for the log.
    ///
    /// Calls `format!("{:?}", ..)` of std; what `Debug` writes is up to the
    /// error's type, so nothing is stated of the text.
    #[verifier::external_body]
    pub fn serialize_log_error<E: std::fmt::Debug>(err: E) -> String {
        format!("{:?}", err)
    }
}

} // verus!
