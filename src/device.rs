use vstd::prelude::*;

use crate::settings::MonitorSettings;

verus! {

/// The control code of brightness.
pub const BRIGHTNESS_CODE: u8 = 0x10;

/// The control code of contrast.
pub const CONTRAST_CODE: u8 = 0x12;

/// One request to set a monitor control to a value.
#[derive(Clone, Copy, Debug, PartialEq, Eq, Structural)]
pub struct VcpRequest {
    pub feature: u8,
    pub value: i32,
}

/// Why a request to the monitor failed.
#[derive(Clone, Copy, Debug, PartialEq, Eq, Structural)]
pub enum DeviceError {
    /// The control utility could not be started.
    Unavailable,
    /// The control utility ended with a failure status.
    Failed,
}

/// The requests that apply a pair, brightness first.
pub open spec fn requests_for(s: MonitorSettings) -> Seq<VcpRequest> {
    seq![
        VcpRequest { feature: BRIGHTNESS_CODE, value: s.brightness },
        VcpRequest { feature: CONTRAST_CODE, value: s.contrast },
    ]
}

/// Applying a pair: which requests have been made, and the first failure.
#[derive(Clone, Copy, Debug, PartialEq, Eq, Structural)]
pub struct ApplySession {
    pub settings: MonitorSettings,
    pub sent: usize,
    pub first_error: Option<DeviceError>,
}

pub open spec fn session_start(s: MonitorSettings) -> ApplySession {
    ApplySession { settings: s, sent: 0, first_error: None }
}

/// The request to make next, if any is left.
pub open spec fn next_spec(a: ApplySession) -> Option<VcpRequest> {
    if a.sent < 2 {
        Some(requests_for(a.settings)[a.sent as int])
    } else {
        None
    }
}

/// The session once the outcome of the pending request is known: the next
/// request follows whatever the outcome, and the first failure is kept.
pub open spec fn report_spec(a: ApplySession, outcome: Result<(), DeviceError>) -> ApplySession {
    ApplySession {
        settings: a.settings,
        sent: (a.sent + 1) as usize,
        first_error: match a.first_error {
            Some(e) => Some(e),
            None => match outcome {
                Ok(()) => None,
                Err(e) => Some(e),
            },
        },
    }
}

/// The outcome of the whole application: the first failure, if any.
pub open spec fn finish_spec(a: ApplySession) -> Result<(), DeviceError> {
    match a.first_error {
        Some(e) => Err(e),
        None => Ok(()),
    }
}

impl ApplySession {
    pub open spec fn wf(&self) -> bool {
        self.sent <= 2
    }

    /// Starts applying a pair; no request has been made yet.
    pub fn start(settings: MonitorSettings) -> (r: ApplySession)
        ensures
            r == session_start(settings),
            r.wf(),
    {
        ApplySession { settings, sent: 0, first_error: None }
    }

    /// The request to make next, or none when both have been made.
    pub fn next_request(&self) -> (r: Option<VcpRequest>)
        requires
            self.wf(),
        ensures
            r == next_spec(*self),
    {
        if self.sent == 0 {
            Some(VcpRequest { feature: BRIGHTNESS_CODE, value: self.settings.brightness })
        } else if self.sent == 1 {
            Some(VcpRequest { feature: CONTRAST_CODE, value: self.settings.contrast })
        } else {
            None
        }
    }

    /// Records the outcome of the request that `next_request` gave.
    pub fn report(&mut self, outcome: Result<(), DeviceError>)
        requires
            old(self).sent < 2,
        ensures
            *final(self) == report_spec(*old(self), outcome),
            final(self).wf(),
    {
        if self.first_error.is_none() {
            match outcome {
                Ok(()) => {},
                Err(e) => {
                    self.first_error = Some(e);
                },
            }
        }
        self.sent = self.sent + 1;
    }

    /// Whether both requests have been made.
    pub fn is_done(&self) -> (r: bool)
        ensures
            r == (self.sent >= 2),
    {
        self.sent >= 2
    }

    /// The outcome: success only when no request failed.
    pub fn finish(&self) -> (r: Result<(), DeviceError>)
        ensures
            r == finish_spec(*self),
    {
        match self.first_error {
            Some(e) => Err(e),
            None => Ok(()),
        }
    }
}

/// A failure of the brightness request does not stop the contrast request:
/// once the first request is reported, whatever its outcome, the contrast
/// request comes next.
pub proof fn lemma_contrast_follows_brightness(
    s: MonitorSettings,
    outcome: Result<(), DeviceError>,
)
    ensures
        next_spec(report_spec(session_start(s), outcome)) == Some(
            VcpRequest { feature: CONTRAST_CODE, value: s.contrast },
        ),
{
}

/// Reporting both requests ends the session, and it succeeds exactly when
/// neither request failed; otherwise it gives the first failure.
pub proof fn lemma_both_requests_decide(
    s: MonitorSettings,
    first: Result<(), DeviceError>,
    second: Result<(), DeviceError>,
)
    ensures
        ({
            let done = report_spec(report_spec(session_start(s), first), second);
            &&& next_spec(done) is None
            &&& finish_spec(done) == match first {
                Err(e) => Err(e),
                Ok(()) => second,
            }
        }),
{
    match (first, second) {
        (Ok(()), Ok(u)) => {
            assert(u == ());
        },
        _ => {},
    }
}

} // verus!
