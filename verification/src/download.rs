//! The retry protocol that downloads image bytes from a result URL.
//!
//! The remote store is eventually consistent: a freshly issued URL may
//! answer 404 for a short while. One GET attempt is made at a time, up to
//! [`DOWNLOAD_ATTEMPTS`]; a 404 is retried after a pause, any other
//! failure aborts at once. The per-attempt decision is
//! [`next_directive`]; [`run_download`] runs the whole protocol against a
//! scripted transport, so the loop's behavior can be exercised without a
//! network.

use vstd::prelude::*;
use vstd::slice::slice_to_vec;

use crate::error::ImagePigError;

verus! {

/// How many GET attempts the download protocol makes at most.
pub const DOWNLOAD_ATTEMPTS: u8 = 10;

/// What one GET attempt produced, as far as the decision needs it: either
/// the transport failed outright, or a response arrived with this status.
pub enum AttemptOutcome {
    TransportFailed,
    Responded(u16),
}

/// What to do with an attempt's outcome.
#[derive(Clone, Copy, Debug, PartialEq, Eq, Structural)]
pub enum Directive {
    /// The response is a success: read its body and deliver the bytes.
    FetchBody,
    /// The resource is not there yet: pause one second, then try again.
    Pause,
    /// Give up; the download fails with `MissingData`.
    Abort,
}

/// The decision for attempt number `attempt` (counting from zero): a 2xx
/// status delivers, a 404 retries while attempts remain, anything else —
/// another status, a transport failure, or an exhausted budget — aborts.
pub open spec fn spec_directive(attempt: int, outcome: AttemptOutcome) -> Directive {
    match outcome {
        AttemptOutcome::TransportFailed => Directive::Abort,
        AttemptOutcome::Responded(status) => if 200 <= status < 300 {
            Directive::FetchBody
        } else if status == 404 && attempt + 1 < DOWNLOAD_ATTEMPTS {
            Directive::Pause
        } else {
            Directive::Abort
        },
    }
}

/// One step of the retry protocol.
pub fn next_directive(attempt: u8, outcome: &AttemptOutcome) -> (r: Directive)
    requires
        attempt < DOWNLOAD_ATTEMPTS,
    ensures
        r == spec_directive(attempt as int, *outcome),
{
    match outcome {
        AttemptOutcome::TransportFailed => Directive::Abort,
        AttemptOutcome::Responded(status) => {
            if 200 <= *status && *status < 300 {
                Directive::FetchBody
            } else if *status == 404 && attempt + 1 < DOWNLOAD_ATTEMPTS {
                Directive::Pause
            } else {
                Directive::Abort
            }
        },
    }
}

/// One entry of a scripted transport: what the fake server answers to one
/// GET attempt. A reply carries the status and the body that a successful
/// status would deliver.
pub enum ScriptedAttempt {
    NoResponse,
    Reply(u16, Vec<u8>),
}

/// What running the protocol from attempt `i` onward yields on a script:
/// the delivered bytes if any, the number of attempts made, and the number
/// of pauses taken.
pub open spec fn spec_download_from(script: Seq<ScriptedAttempt>, i: int) -> (Option<Seq<u8>>, int, int)
    decreases DOWNLOAD_ATTEMPTS - i,
{
    if i < 0 || i >= DOWNLOAD_ATTEMPTS || i >= script.len() {
        (None, 0, 0)
    } else {
        match script[i] {
            ScriptedAttempt::NoResponse => (None, 1, 0),
            ScriptedAttempt::Reply(status, body) => if 200 <= status < 300 {
                (Some(body@), 1, 0)
            } else if status == 404 && i + 1 < DOWNLOAD_ATTEMPTS {
                let rest = spec_download_from(script, i + 1);
                (rest.0, rest.1 + 1, rest.2 + 1)
            } else {
                (None, 1, 0)
            },
        }
    }
}

/// The result of one full protocol run: the delivered bytes or the failure,
/// with how many GET attempts were made and how many one-second pauses were
/// taken.
pub struct DownloadRun {
    pub result: Result<Vec<u8>, ImagePigError>,
    pub attempts: usize,
    pub pauses: usize,
}

/// Run the whole retry protocol against a scripted transport.
///
/// The run delivers the body of the first successful reply, pausing and
/// retrying after each 404 while attempts remain; it fails with
/// `MissingData` on any other status, on a transport failure, when the
/// attempt budget is exhausted, or when the script runs out.
pub fn run_download(script: &Vec<ScriptedAttempt>) -> (r: DownloadRun)
    ensures
        ({
            let (bytes, attempts, pauses) = spec_download_from(script@, 0);
            &&& (r.result is Ok <==> bytes is Some)
            &&& (r.result is Ok ==> r.result.unwrap()@ == bytes.unwrap())
            &&& (r.result is Err ==> r.result.unwrap_err() is MissingData)
            &&& r.attempts as int == attempts
            &&& r.pauses as int == pauses
        }),
{
    let mut i: usize = 0;
    let mut pauses: usize = 0;
    loop
        invariant
            i <= DOWNLOAD_ATTEMPTS,
            pauses <= i,
            spec_download_from(script@, 0) == ({
                let rest = spec_download_from(script@, i as int);
                (rest.0, rest.1 + i as int, rest.2 + pauses as int)
            }),
        decreases DOWNLOAD_ATTEMPTS - i,
    {
        if i >= DOWNLOAD_ATTEMPTS as usize || i >= script.len() {
            return DownloadRun { result: Err(ImagePigError::MissingData), attempts: i, pauses };
        }
        match &script[i] {
            ScriptedAttempt::NoResponse => {
                return DownloadRun {
                    result: Err(ImagePigError::MissingData),
                    attempts: i + 1,
                    pauses,
                };
            },
            ScriptedAttempt::Reply(status, body) => {
                match next_directive(i as u8, &AttemptOutcome::Responded(*status)) {
                    Directive::FetchBody => {
                        return DownloadRun {
                            result: Ok(slice_to_vec(body.as_slice())),
                            attempts: i + 1,
                            pauses,
                        };
                    },
                    Directive::Pause => {
                        pauses = pauses + 1;
                        i = i + 1;
                    },
                    Directive::Abort => {
                        return DownloadRun {
                            result: Err(ImagePigError::MissingData),
                            attempts: i + 1,
                            pauses,
                        };
                    },
                }
            },
        }
    }
}

} // verus!
