use vstd::prelude::*;

verus! {

/// The backend's run state at the time of the call.
#[derive(Clone, Debug, PartialEq, Eq)]
pub struct SimulationStatus {
    pub status: String,
    pub mode: String,
    /// A duration written `HH:MM:SS`.
    pub uptime: String,
    pub events_logged: u32,
}

/// One row of the roster of active agents.
#[derive(Clone, Debug, PartialEq, Eq)]
pub struct Agent {
    pub agent_id: String,
    pub agent_type: String,
    pub risk_score: i32,
    pub risk_level: String,
    pub battery: String,
    pub status: String,
}

/// A historical incident record.
#[derive(Clone, Debug, PartialEq, Eq)]
pub struct Incident {
    pub incident_id: String,
    pub timestamp: String,
    /// The agent involved; a reference, not owned by the incident.
    pub agent_id: String,
    pub fault_type: String,
    pub preventability: i32,
    pub liability: i32,
}

/// An aggregate view computed by the backend.
#[derive(Clone, Debug, PartialEq, Eq)]
pub struct RiskSummary {
    pub total_incidents: i32,
    pub highest_risk_agent: String,
    pub latest_event: String,
}

/// The idle, sealed state shown while the backend cannot be reached.
pub open spec fn is_idle_status(s: SimulationStatus) -> bool {
    &&& s.status@ == "NOT_RUNNING"@
    &&& s.mode@ == "SEALED"@
    &&& s.uptime@ == "00:00:00"@
    &&& s.events_logged == 0
}

/// The summary shown while the backend cannot be reached.
pub open spec fn is_empty_summary(s: RiskSummary) -> bool {
    &&& s.total_incidents == 0
    &&& s.highest_risk_agent@ == "None"@
    &&& s.latest_event@ == "No events"@
}

impl SimulationStatus {
    /// The status that stands in for an unreachable backend.
    pub fn idle() -> (r: SimulationStatus)
        ensures
            is_idle_status(r),
    {
        SimulationStatus {
            status: String::from_str("NOT_RUNNING"),
            mode: String::from_str("SEALED"),
            uptime: String::from_str("00:00:00"),
            events_logged: 0,
        }
    }
}

impl RiskSummary {
    /// The summary that stands in for an unreachable backend.
    pub fn empty() -> (r: RiskSummary)
        ensures
            is_empty_summary(r),
    {
        RiskSummary {
            total_incidents: 0,
            highest_risk_agent: String::from_str("None"),
            latest_event: String::from_str("No events"),
        }
    }
}

} // verus!
