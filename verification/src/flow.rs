//! The scheduler's and the HTTP route's decisions: the poll cadence, the
//! back-off on update failure, the watchdog timeout rule, and the response
//! the sync route gives.

use vstd::prelude::*;

use crate::download::header_error;
use crate::download::validate_headers;
use crate::download::Download;
use crate::download::HeaderValue;
use crate::error::Error;
use crate::registry::InFlightRegistry;
use crate::req::CrateReq;
use crate::strutil::dec_value;
use crate::strutil::dec_digits_of;
use crate::strutil::parse_u64;
use crate::strutil::parses_as_u64;

verus! {

/// Seconds between two poller ticks.
pub const POLL_INTERVAL_SECS: u64 = 300;

/// Seconds the poller backs off after a failed index update.
pub const RETRY_DELAY_SECS: u64 = 10;

/// How many workers consume the work channel concurrently.
pub const WORKER_COUNT: u64 = 10;

/// What the poller does after one update attempt: dispatch the returned work
/// and sleep until the deadline fixed at tick start, or back off briefly and
/// try again.
#[derive(Clone, Copy, Debug, PartialEq, Eq, Structural)]
pub enum PollAction {
    SleepUntil(u64),
    Backoff(u64),
}

/// Decides the poller's next sleep: a successful update dispatches and waits
/// out the tick; a failed one retries after the short back-off.
pub fn poll_plan(tick_start: u64, update_ok: bool) -> (r: PollAction)
    requires
        tick_start + POLL_INTERVAL_SECS <= u64::MAX,
    ensures
        update_ok ==> r == PollAction::SleepUntil((tick_start + POLL_INTERVAL_SECS) as u64),
        !update_ok ==> r == PollAction::Backoff(RETRY_DELAY_SECS),
{
    if update_ok {
        PollAction::SleepUntil(tick_start + POLL_INTERVAL_SECS)
    } else {
        PollAction::Backoff(RETRY_DELAY_SECS)
    }
}

/// The value a watchdog environment text must parse to, if any: a decimal
/// number in range of the given width.
pub open spec fn parsed_env_u64(s: Seq<char>) -> Option<u64> {
    if parses_as_u64(s) {
        Some(dec_value(dec_digits_of(s)) as u64)
    } else {
        None
    }
}

/// Decides the watchdog timeout from the environment: there is one exactly
/// when notification is enabled, the advertised watchdog PID parses and is
/// ours, and the microsecond budget parses; its value is that budget.
pub fn watchdog_timeout_micros(
    notify_enabled: bool,
    watchdog_pid: Option<&str>,
    our_pid: u32,
    watchdog_usec: Option<&str>,
) -> (r: Option<u64>)
    ensures
        r is Some <==> {
            &&& notify_enabled
            &&& watchdog_pid matches Some(p) && parsed_env_u64(p@) matches Some(v) && v == our_pid
            &&& watchdog_usec matches Some(u) && parsed_env_u64(u@) is Some
        },
        r matches Some(m) ==> m == parsed_env_u64(watchdog_usec->0@)->0,
{
    if !notify_enabled {
        return None;
    }
    let pid = match watchdog_pid {
        Some(text) => match parse_u64(text) {
            Some(v) => v,
            None => {
                return None;
            },
        },
        None => {
            return None;
        },
    };
    if pid != our_pid as u64 {
        return None;
    }
    match watchdog_usec {
        Some(text) => parse_u64(text),
        None => None,
    }
}

/// One request's create-or-join step, as both the route and the workers take
/// it: join the in-flight download if one exists; otherwise let the upstream
/// headers decide. A header failure leaves no entry behind — the next request
/// may trigger a fresh fetch — and surfaces exactly the header error; success
/// records a fresh download of the declared type and length, and only then
/// does the caller start the one producer.
pub fn create_or_join(
    registry: &mut InFlightRegistry,
    req: &CrateReq,
    status: u16,
    content_length: Option<u64>,
    content_type: HeaderValue,
) -> (r: Result<bool, Error>)
    requires
        old(registry).inv(),
    ensures
        final(registry).inv(),
        old(registry)@.contains_key(req.key()) ==> r == Result::<bool, Error>::Ok(false)
            && final(registry)@ == old(registry)@,
        ({
            let trouble = header_error(status, content_length, content_type);
            let fits = content_length->0 <= usize::MAX;
            &&& (!old(registry)@.contains_key(req.key()) && trouble is Some) ==> (r
                == Result::<bool, Error>::Err(trouble->0) && !final(registry)@.contains_key(
                req.key(),
            ))
            &&& !old(registry)@.contains_key(req.key()) && trouble is None && !fits ==> r
                == Result::<bool, Error>::Err(Error::FetchFail)
                && !final(registry)@.contains_key(req.key())
            &&& !old(registry)@.contains_key(req.key()) && trouble is None && fits ==> r
                == Result::<bool, Error>::Ok(true) && {
                &&& final(registry)@.contains_key(req.key())
                &&& final(registry)@[req.key()].content_type@ == content_type->Text_0@
                &&& final(registry)@[req.key()].content_length == content_length->0
                &&& final(registry)@[req.key()].buffer@ == Seq::<u8>::empty()
                &&& !final(registry)@[req.key()].done
            }
        }),
{
    if registry.contains(req) {
        return Ok(false);
    }
    match validate_headers(status, content_length, content_type) {
        Err(e) => Err(e),
        Ok((len, text)) => {
            if len > usize::MAX as u64 {
                return Err(Error::FetchFail);
            }
            let created = registry.get_or_create(req, Download::new(text, len as usize));
            Ok(created)
        },
    }
}

/// The response line of the sync route: 200 with the tar content type when a
/// download is available to stream, 404 with no body otherwise.
pub struct SyncResponse {
    pub status: u16,
    pub content_type: Option<String>,
}

/// Decides the sync route's response from whether the download could be
/// created or joined: success streams as a tar archive, failure is 404.
pub fn sync_response(create_ok: bool) -> (r: SyncResponse)
    ensures
        create_ok ==> r.status == 200 && (r.content_type matches Some(t) && t@
            == "application/x-tar"@),
        !create_ok ==> r.status == 404 && r.content_type is None,
{
    if create_ok {
        SyncResponse { status: 200, content_type: Some("application/x-tar".to_owned()) }
    } else {
        SyncResponse { status: 404, content_type: None }
    }
}

} // verus!
