//! Worker trigger messages, as the orchestrator's queue delivers them: which
//! kind of worker a message is meant for, parsed from its wire name.

use vstd::prelude::*;

verus! {

/// The kind of worker a trigger message addresses.
#[derive(Clone, Copy, Debug, PartialEq, Eq, Structural)]
pub enum WorkerTriggerType {
    Snos,
    Proving,
    ProofRegistration,
    DataSubmission,
    UpdateState,
    Batching,
}

/// The wire name of a worker kind.
pub open spec fn spec_trigger_name(t: WorkerTriggerType) -> Seq<char> {
    match t {
        WorkerTriggerType::Snos => "Snos"@,
        WorkerTriggerType::Proving => "Proving"@,
        WorkerTriggerType::ProofRegistration => "ProofRegistration"@,
        WorkerTriggerType::DataSubmission => "DataSubmission"@,
        WorkerTriggerType::UpdateState => "UpdateState"@,
        WorkerTriggerType::Batching => "Batching"@,
    }
}

/// The worker kind a wire name stands for, when it is one of the six names.
pub open spec fn spec_trigger_parse(s: Seq<char>) -> Option<WorkerTriggerType> {
    if s == "Snos"@ {
        Some(WorkerTriggerType::Snos)
    } else if s == "Proving"@ {
        Some(WorkerTriggerType::Proving)
    } else if s == "ProofRegistration"@ {
        Some(WorkerTriggerType::ProofRegistration)
    } else if s == "DataSubmission"@ {
        Some(WorkerTriggerType::DataSubmission)
    } else if s == "UpdateState"@ {
        Some(WorkerTriggerType::UpdateState)
    } else if s == "Batching"@ {
        Some(WorkerTriggerType::Batching)
    } else {
        None
    }
}

/// An unrecognized worker name.
#[derive(Clone, Debug, PartialEq, Eq)]
pub enum WorkerTriggerTypeError {
    /// Carries the name that was not recognized.
    UnknownType(String),
}

impl WorkerTriggerType {
    /// The kind's name, as it travels on the wire.
    pub fn name(&self) -> (r: String)
        ensures
            r@ == spec_trigger_name(*self),
    {
        match self {
            WorkerTriggerType::Snos => "Snos".to_owned(),
            WorkerTriggerType::Proving => "Proving".to_owned(),
            WorkerTriggerType::ProofRegistration => "ProofRegistration".to_owned(),
            WorkerTriggerType::DataSubmission => "DataSubmission".to_owned(),
            WorkerTriggerType::UpdateState => "UpdateState".to_owned(),
            WorkerTriggerType::Batching => "Batching".to_owned(),
        }
    }

    /// Parses a wire name; fails exactly on names that stand for no worker
    /// kind, reporting the offending name.
    pub fn parse(s: &str) -> (r: Result<WorkerTriggerType, WorkerTriggerTypeError>)
        ensures
            r matches Ok(t) ==> spec_trigger_parse(s@) == Some(t),
            r matches Err(e) ==> spec_trigger_parse(s@) is None && (e matches
            WorkerTriggerTypeError::UnknownType(n) && n@ == s@),
            r is Ok <==> spec_trigger_parse(s@) is Some,
    {
        let owned = s.to_owned();
        if owned == "Snos".to_owned() {
            Ok(WorkerTriggerType::Snos)
        } else if owned == "Proving".to_owned() {
            Ok(WorkerTriggerType::Proving)
        } else if owned == "ProofRegistration".to_owned() {
            Ok(WorkerTriggerType::ProofRegistration)
        } else if owned == "DataSubmission".to_owned() {
            Ok(WorkerTriggerType::DataSubmission)
        } else if owned == "UpdateState".to_owned() {
            Ok(WorkerTriggerType::UpdateState)
        } else if owned == "Batching".to_owned() {
            Ok(WorkerTriggerType::Batching)
        } else {
            Err(WorkerTriggerTypeError::UnknownType(owned))
        }
    }
}

/// A trigger message: which worker should run.
#[derive(Clone, Debug, PartialEq, Eq)]
pub struct WorkerTriggerMessage {
    pub worker: WorkerTriggerType,
}

impl WorkerTriggerMessage {
    /// Builds the message from the worker name carried on the wire; the
    /// embedding program's deserializer hands the name through here.
    pub fn from_worker_name(s: &str) -> (r: Result<
        WorkerTriggerMessage,
        WorkerTriggerTypeError,
    >)
        ensures
            r matches Ok(m) ==> spec_trigger_parse(s@) == Some(m.worker),
            r is Ok <==> spec_trigger_parse(s@) is Some,
    {
        match WorkerTriggerType::parse(s) {
            Ok(worker) => Ok(WorkerTriggerMessage { worker }),
            Err(e) => Err(e),
        }
    }
}

} // verus!
