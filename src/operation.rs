use vstd::prelude::*;

verus! {

/// One capability of the backend, each reached by a single GET.
#[derive(Clone, Debug, PartialEq, Eq)]
pub enum Operation {
    Status,
    RiskScore,
    Agents,
    Incidents,
    RiskSummary,
    /// Looks up one incident by its identifier.
    IncidentDetail(String),
}

/// What an operation does when one stage of the exchange fails.
#[derive(Clone, Copy, Debug, PartialEq, Eq)]
pub enum OnFailure {
    /// Return the operation's neutral value.
    UseDefault,
    /// Return an error message to the caller.
    Report,
}

/// The path of an operation under the base URL.
pub open spec fn path_of(op: Operation) -> Seq<char> {
    match op {
        Operation::Status => "/api/status"@,
        Operation::RiskScore => "/api/risk"@,
        Operation::Agents => "/api/agents"@,
        Operation::Incidents => "/api/incidents"@,
        Operation::RiskSummary => "/api/risk-summary"@,
        Operation::IncidentDetail(id) => "/api/incidents/"@ + id@,
    }
}

/// Policy when the request cannot be completed: only the lookup by
/// identifier has no neutral value to fall back on.
pub open spec fn transport_policy(op: Operation) -> OnFailure {
    match op {
        Operation::IncidentDetail(_) => OnFailure::Report,
        _ => OnFailure::UseDefault,
    }
}

/// Policy when a reply arrived but its body could not be read as expected:
/// only the risk score treats this as an absent value.
pub open spec fn decode_policy(op: Operation) -> OnFailure {
    match op {
        Operation::RiskScore => OnFailure::UseDefault,
        _ => OnFailure::Report,
    }
}

impl Operation {
    /// The path of this operation, to be appended to the base URL.
    pub fn path(&self) -> (r: String)
        ensures
            r@ == path_of(*self),
    {
        match self {
            Operation::Status => String::from_str("/api/status"),
            Operation::RiskScore => String::from_str("/api/risk"),
            Operation::Agents => String::from_str("/api/agents"),
            Operation::Incidents => String::from_str("/api/incidents"),
            Operation::RiskSummary => String::from_str("/api/risk-summary"),
            Operation::IncidentDetail(id) => {
                let mut p = String::from_str("/api/incidents/");
                p.append(id.as_str());
                p
            },
        }
    }

    pub fn on_transport_failure(&self) -> (r: OnFailure)
        ensures
            r == transport_policy(*self),
    {
        match self {
            Operation::IncidentDetail(_) => OnFailure::Report,
            _ => OnFailure::UseDefault,
        }
    }

    pub fn on_decode_failure(&self) -> (r: OnFailure)
        ensures
            r == decode_policy(*self),
    {
        match self {
            Operation::RiskScore => OnFailure::UseDefault,
            _ => OnFailure::Report,
        }
    }
}

/// The base URL of the backend, fixed when the gateway is made.
pub struct Gateway {
    base_url: String,
}

impl View for Gateway {
    type V = Seq<char>;

    closed spec fn view(&self) -> Seq<char> {
        self.base_url@
    }
}

/// Where the backend listens unless configured otherwise.
pub open spec fn local_base_url() -> Seq<char> {
    "http://127.0.0.1:8765"@
}

impl Gateway {
    pub fn new(base_url: &str) -> (r: Gateway)
        ensures
            r@ == base_url@,
    {
        Gateway { base_url: String::from_str(base_url) }
    }

    /// A gateway to the backend on the loopback address.
    pub fn local() -> (r: Gateway)
        ensures
            r@ == local_base_url(),
    {
        Gateway { base_url: String::from_str("http://127.0.0.1:8765") }
    }

    pub fn base_url(&self) -> (r: &str)
        ensures
            r@ == self@,
    {
        self.base_url.as_str()
    }

    /// The full URL that the GET for `op` is sent to.
    pub fn url(&self, op: &Operation) -> (r: String)
        ensures
            r@ == self@ + path_of(*op),
    {
        let mut u = self.base_url.clone();
        let p = op.path();
        u.append(p.as_str());
        u
    }
}

} // verus!
