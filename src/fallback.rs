use vstd::prelude::*;
use crate::operation::{Operation, OnFailure, transport_policy, decode_policy};
use crate::records::{SimulationStatus, Agent, Incident, RiskSummary, is_idle_status, is_empty_summary};

verus! {

/// How one round trip to the backend ended, as seen by the caller of the
/// transport.
#[derive(Clone, Debug, PartialEq, Eq)]
pub enum Exchange<T> {
    /// The request could not be completed (refused, unreachable, timed out).
    Unreachable(String),
    /// A reply arrived but its body could not be read as the expected value.
    Malformed(String),
    /// A reply arrived and its body was read as this value.
    Decoded(T),
}

/// The word naming what an operation's reply holds, in its decode errors.
pub open spec fn subject_of(op: Operation) -> Seq<char> {
    match op {
        Operation::Status => "status"@,
        Operation::RiskScore => "risk score"@,
        Operation::Agents => "agents"@,
        Operation::Incidents => "incidents"@,
        Operation::RiskSummary => "summary"@,
        Operation::IncidentDetail(_) => "details"@,
    }
}

/// The error reported when the request itself failed.
pub open spec fn transport_report(message: Seq<char>) -> Seq<char> {
    "Backend error: "@ + message
}

/// The error reported when the reply could not be read.
pub open spec fn decode_report(op: Operation, message: Seq<char>) -> Seq<char> {
    match op {
        Operation::IncidentDetail(_) => "Failed to get details: "@ + message,
        _ => "Failed to parse "@ + subject_of(op) + ": "@ + message,
    }
}

/// What an operation hands its caller for a given exchange, with `fallback`
/// as its neutral value.
pub open spec fn settled<T>(op: Operation, ex: Exchange<T>, fallback: T) -> Result<T, Seq<char>> {
    match ex {
        Exchange::Decoded(v) => Ok(v),
        Exchange::Unreachable(e) => match transport_policy(op) {
            OnFailure::UseDefault => Ok(fallback),
            OnFailure::Report => Err(transport_report(e@)),
        },
        Exchange::Malformed(e) => match decode_policy(op) {
            OnFailure::UseDefault => Ok(fallback),
            OnFailure::Report => Err(decode_report(op, e@)),
        },
    }
}

/// A result with its error message seen as a sequence of characters.
pub open spec fn outcome_view<T>(r: Result<T, String>) -> Result<T, Seq<char>> {
    match r {
        Ok(v) => Ok(v),
        Err(m) => Err(m@),
    }
}

fn subject(op: &Operation) -> (r: &'static str)
    ensures
        r@ == subject_of(*op),
{
    match op {
        Operation::Status => "status",
        Operation::RiskScore => "risk score",
        Operation::Agents => "agents",
        Operation::Incidents => "incidents",
        Operation::RiskSummary => "summary",
        Operation::IncidentDetail(_) => "details",
    }
}

fn decode_message(op: &Operation, message: &str) -> (r: String)
    ensures
        r@ == decode_report(*op, message@),
{
    match op {
        Operation::IncidentDetail(_) => {
            let mut m = String::from_str("Failed to get details: ");
            m.append(message);
            m
        },
        _ => {
            let mut m = String::from_str("Failed to parse ");
            m.append(subject(op));
            m.append(": ");
            m.append(message);
            m
        },
    }
}

/// Applies the operation's failure policy to one exchange: a decoded value
/// is passed through, a failure becomes `fallback` or an error message.
pub fn settle<T>(op: &Operation, ex: Exchange<T>, fallback: T) -> (r: Result<T, String>)
    ensures
        outcome_view(r) == settled(*op, ex, fallback),
{
    match ex {
        Exchange::Decoded(v) => Ok(v),
        Exchange::Unreachable(e) => match op.on_transport_failure() {
            OnFailure::UseDefault => Ok(fallback),
            OnFailure::Report => {
                let mut m = String::from_str("Backend error: ");
                m.append(e.as_str());
                Err(m)
            },
        },
        Exchange::Malformed(e) => match op.on_decode_failure() {
            OnFailure::UseDefault => Ok(fallback),
            OnFailure::Report => Err(decode_message(op, e.as_str())),
        },
    }
}

/// The outcome of fetching the simulation status.
pub fn resolve_status(ex: Exchange<SimulationStatus>) -> (r: Result<SimulationStatus, String>)
    ensures
        match ex {
            Exchange::Decoded(s) => r == Ok::<SimulationStatus, String>(s),
            Exchange::Unreachable(_) => r is Ok && is_idle_status(r->Ok_0),
            Exchange::Malformed(e) => r is Err && r->Err_0@ == decode_report(
                Operation::Status,
                e@,
            ),
        },
{
    settle(&Operation::Status, ex, SimulationStatus::idle())
}

/// The outcome of fetching the system risk score: never an error, `zero`
/// whenever no score could be read.
pub fn resolve_risk_score<T: Copy>(ex: Exchange<T>, zero: T) -> (r: T)
    ensures
        match ex {
            Exchange::Decoded(v) => r == v,
            _ => r == zero,
        },
{
    match settle(&Operation::RiskScore, ex, zero) {
        Ok(v) => v,
        Err(_) => {
            proof {
                assert(false);
            }
            zero
        },
    }
}

/// The outcome of fetching the active agents, in the order received.
pub fn resolve_agents(ex: Exchange<Vec<Agent>>) -> (r: Result<Vec<Agent>, String>)
    ensures
        match ex {
            Exchange::Decoded(v) => r == Ok::<Vec<Agent>, String>(v),
            Exchange::Unreachable(_) => r is Ok && r->Ok_0@.len() == 0,
            Exchange::Malformed(e) => r is Err && r->Err_0@ == decode_report(
                Operation::Agents,
                e@,
            ),
        },
{
    settle(&Operation::Agents, ex, Vec::new())
}

/// The outcome of fetching the incidents, in the order received.
pub fn resolve_incidents(ex: Exchange<Vec<Incident>>) -> (r: Result<Vec<Incident>, String>)
    ensures
        match ex {
            Exchange::Decoded(v) => r == Ok::<Vec<Incident>, String>(v),
            Exchange::Unreachable(_) => r is Ok && r->Ok_0@.len() == 0,
            Exchange::Malformed(e) => r is Err && r->Err_0@ == decode_report(
                Operation::Incidents,
                e@,
            ),
        },
{
    settle(&Operation::Incidents, ex, Vec::new())
}

/// The outcome of fetching the risk summary.
pub fn resolve_risk_summary(ex: Exchange<RiskSummary>) -> (r: Result<RiskSummary, String>)
    ensures
        match ex {
            Exchange::Decoded(s) => r == Ok::<RiskSummary, String>(s),
            Exchange::Unreachable(_) => r is Ok && is_empty_summary(r->Ok_0),
            Exchange::Malformed(e) => r is Err && r->Err_0@ == decode_report(
                Operation::RiskSummary,
                e@,
            ),
        },
{
    settle(&Operation::RiskSummary, ex, RiskSummary::empty())
}

/// The outcome of looking up one incident: the body as received, or an
/// error; there is no neutral value to fall back on.
pub fn resolve_incident_details(ex: Exchange<String>) -> (r: Result<String, String>)
    ensures
        match ex {
            Exchange::Decoded(body) => r is Ok && r->Ok_0@ == body@,
            Exchange::Unreachable(e) => r is Err && r->Err_0@ == transport_report(e@),
            Exchange::Malformed(e) => r is Err && r->Err_0@ == "Failed to get details: "@ + e@,
        },
{
    settle(&Operation::IncidentDetail(String::new()), ex, String::new())
}

} // verus!
