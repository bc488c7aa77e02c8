use vstd::prelude::*;
use crate::fallback::{Exchange, settled, transport_report, decode_report};
use crate::operation::Operation;

verus! {

/// Every operation but the lookup by identifier answers an unreachable
/// backend with its neutral value, never with an error.
pub proof fn unreachable_backend_yields_default<T>(op: Operation, message: String, fallback: T)
    requires
        !(op is IncidentDetail),
    ensures
        settled(op, Exchange::Unreachable(message), fallback) == Ok::<T, Seq<char>>(fallback),
{
}

/// The risk score never fails: an unreadable reply, or one without a
/// numeric score, counts as no score at all.
pub proof fn risk_score_never_fails<T>(ex: Exchange<T>, zero: T)
    ensures
        settled(Operation::RiskScore, ex, zero) is Ok,
        !(ex is Decoded) ==> settled(Operation::RiskScore, ex, zero) == Ok::<T, Seq<char>>(zero),
{
}

/// The lookup by identifier hands back the body exactly as received.
pub proof fn incident_detail_is_verbatim(id: String, body: String, fallback: String)
    ensures
        settled(Operation::IncidentDetail(id), Exchange::Decoded(body), fallback) == Ok::<
            String,
            Seq<char>,
        >(body),
{
}

/// The lookup by identifier reports an unreachable backend as an error that
/// carries the transport's message, and never falls back.
pub proof fn unreachable_incident_detail_is_reported(id: String, message: String, fallback: String)
    ensures
        settled(Operation::IncidentDetail(id), Exchange::Unreachable(message), fallback)
            == Err::<String, Seq<char>>(transport_report(message@)),
        transport_report(message@).subrange(
            transport_report(message@).len() - message@.len(),
            transport_report(message@).len() as int,
        ) == message@,
{
    assert(transport_report(message@).subrange(
        transport_report(message@).len() - message@.len(),
        transport_report(message@).len() as int,
    ) =~= message@);
}

/// A list received whole, empty or not, is returned as it is, in its order.
pub proof fn decoded_list_is_returned<T>(op: Operation, items: Vec<T>, fallback: Vec<T>)
    requires
        op is Agents || op is Incidents,
    ensures
        settled(op, Exchange::Decoded(items), fallback) == Ok::<Vec<T>, Seq<char>>(items),
{
}

/// A list that cannot be read is reported as an error, not replaced by an
/// empty list.
pub proof fn malformed_list_is_reported<T>(op: Operation, message: String, fallback: Vec<T>)
    requires
        op is Agents || op is Incidents,
    ensures
        settled(op, Exchange::Malformed(message), fallback) == Err::<Vec<T>, Seq<char>>(
            decode_report(op, message@),
        ),
{
}

/// Asking twice against an unchanged backend: the same reply gives the
/// same result.
pub proof fn repeated_calls_agree<T>(
    op: Operation,
    first: Exchange<T>,
    second: Exchange<T>,
    fallback: T,
)
    requires
        first == second,
    ensures
        settled(op, first, fallback) == settled(op, second, fallback),
{
}

} // verus!
