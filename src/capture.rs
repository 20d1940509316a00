//! Capture of one call: the trace it yields, and where that trace goes.
use vstd::prelude::*;
use crate::client::traces_path;
use crate::context::{set_current_trace, TraceSlot};
use crate::registry::{get_tracer, TracerRegistry};
use crate::types::{Payload, Timestamp, Trace};

verus! {

/// Length of a trace identifier in its text form.
pub const TRACE_ID_LEN: usize = 26;

/// Relies on `ulid::Ulid::new` for a fresh identifier, made of the time now and
/// random bits, and on `Ulid::to_string` for its Crockford base32 text, which
/// is always 26 characters long.
#[verifier::external_body]
fn new_trace_id() -> (r: String)
    ensures
        r@.len() == TRACE_ID_LEN,
{
    ulid::Ulid::new().to_string()
}

/// Relies on `std::time::SystemTime::now` for the time now, turned into UTC by
/// chrono's `From<SystemTime> for DateTime<Utc>` (a time before 1970 becomes
/// negative seconds; it fails only for a reading some 262,000 years away from
/// 1970, which no system clock gives), and read through `DateTime::timestamp`
/// (whole seconds since the epoch) and `DateTime::timestamp_subsec_nanos`
/// (below two billion: past one billion only within a leap second).
#[verifier::external_body]
fn now_utc() -> (r: Timestamp)
    ensures
        r.wf(),
{
    let now = chrono::DateTime::<chrono::Utc>::from(std::time::SystemTime::now());
    Timestamp { secs: now.timestamp(), nanos: now.timestamp_subsec_nanos() }
}

pub open spec fn args_key() -> Seq<char> {
    seq!['a', 'r', 'g', 's']
}

pub open spec fn data_key() -> Seq<char> {
    seq!['d', 'a', 't', 'a']
}

pub open spec fn error_key() -> Seq<char> {
    seq!['e', 'r', 'r', 'o', 'r']
}

/// `p` records the rendered outcome of a call: `{"data": d}` for a success
/// rendered as `d`, `{"error": e}` for a failure rendered as `e`.
pub open spec fn records_outcome(p: Payload, outcome: Result<String, String>) -> bool {
    match outcome {
        Ok(d) => p.is_entry(data_key(), d@),
        Err(e) => p.is_entry(error_key(), e@),
    }
}

/// `t` is the trace of a call with identifier `id`, started at `now`, whose
/// arguments render as `args` and whose outcome renders as `outcome`.
pub open spec fn is_trace_of(
    t: Trace,
    id: Seq<char>,
    now: Timestamp,
    args: Seq<char>,
    outcome: Result<String, String>,
) -> bool {
    &&& t.id@ == id
    &&& t.request.is_entry(args_key(), args)
    &&& records_outcome(t.response, outcome)
    &&& t.created_at == now
    &&& t.updated_at == now
}

/// The request value of a call whose arguments render as `args`: `{"args": args}`.
pub fn request_payload(args: String) -> (r: Payload)
    ensures
        r.is_entry(args_key(), args@),
{
    let r = Payload::entry("args", args);
    proof {
        reveal_strlit("args");
        assert("args"@ =~= args_key());
    }
    r
}

/// The response value of a call with the rendered outcome `outcome`.
pub fn response_payload(outcome: Result<String, String>) -> (r: Payload)
    ensures
        records_outcome(r, outcome),
{
    proof {
        reveal_strlit("data");
        reveal_strlit("error");
        assert("data"@ =~= data_key());
        assert("error"@ =~= error_key());
    }
    match outcome {
        Ok(d) => Payload::entry("data", d),
        Err(e) => Payload::entry("error", e),
    }
}

/// The trace of one call that started at `now`: both timestamps are `now`.
pub fn assemble_trace(id: String, now: Timestamp, args: String, outcome: Result<String, String>) -> (r:
    Trace)
    ensures
        is_trace_of(r, id@, now, args@, outcome),
{
    Trace {
        id,
        request: request_payload(args),
        response: response_payload(outcome),
        created_at: now,
        updated_at: now,
    }
}

/// A trace to be written to the store at `url`.
#[derive(Clone, Debug)]
pub struct Delivery {
    pub url: String,
    pub trace: Trace,
}

/// Decides what becomes of a finished trace. With no store installed, nothing:
/// no delivery and the slot untouched. With one, the trace goes into the
/// calling context's slot and is to be written to the store's collection.
pub fn plan_delivery(registry: &TracerRegistry, slot: &mut TraceSlot, trace: Trace) -> (r: Option<
    Delivery,
>)
    ensures
        match registry.address() {
            None => r is None && *final(slot) == *old(slot),
            Some(a) => r matches Some(d) && d.url@ == a + traces_path() && d.trace == trace
                && final(slot).current == Some(trace),
        },
{
    match get_tracer(registry) {
        Some(client) => {
            set_current_trace(slot, trace.snapshot());
            Some(Delivery { url: client.traces_url(), trace })
        },
        None => None,
    }
}

/// Opens the capture of a call, before the call runs: a fresh trace
/// identifier and the start time.
pub fn begin_capture() -> (r: (String, Timestamp))
    ensures
        r.0@.len() == TRACE_ID_LEN,
        r.1.wf(),
{
    let id = new_trace_id();
    let now = now_utc();
    (id, now)
}

/// Captures one call, opened by `begin_capture` with `id` and `now`, that
/// returned `result`, with its arguments rendered as `args` and its outcome as
/// `outcome`. The result comes back unchanged, beside the delivery that
/// `plan_delivery` decides on for the call's trace.
pub fn capture_response<T, E>(
    registry: &TracerRegistry,
    slot: &mut TraceSlot,
    id: String,
    now: Timestamp,
    args: String,
    result: Result<T, E>,
    outcome: Result<String, String>,
) -> (r: (Result<T, E>, Option<Delivery>))
    requires
        result is Ok <==> outcome is Ok,
    ensures
        r.0 == result,
        registry.address() is None ==> r.1 is None && *final(slot) == *old(slot),
        registry.address() matches Some(a) ==> r.1 matches Some(d) && d.url@ == a + traces_path()
            && is_trace_of(d.trace, id@, now, args@, outcome) && final(slot).current == Some(
            d.trace,
        ),
{
    let trace = assemble_trace(id, now, args, outcome);
    let delivery = plan_delivery(registry, slot, trace);
    (result, delivery)
}

} // verus!
