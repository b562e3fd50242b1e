//! The callback port range and the scan that picks a port from it.

use crate::decimal::{decimal_digits, decimal_string};
use vstd::prelude::*;
use vstd::string::StringExecFns;

verus! {

/// Lowest port the listener may bind.
pub const FIRST_PORT: u16 = 38714;

/// Highest port the listener may bind.
pub const LAST_PORT: u16 = 38724;

/// Address the listener binds: the loopback interface only.
pub const LISTEN_HOST: &'static str = "127.0.0.1";

/// Path segment of the landing route; the result route lies one segment
/// below it.
pub const CALLBACK_SEGMENT: &'static str = "callback";

/// Path segment of the result route below the landing route.
pub const RESULT_SEGMENT: &'static str = "result";

/// Body of every answer of the result route.
pub const RESULT_REPLY: &'static str = "OK";

/// Whether `port` lies in the callback range.
pub open spec fn is_callback_port(port: u16) -> bool {
    FIRST_PORT <= port <= LAST_PORT
}

/// The address the identity provider must redirect to when the listener
/// holds `port`.
pub open spec fn callback_url_text(port: u16) -> Seq<char> {
    "http://localhost:"@ + decimal_digits(port as nat) + "/callback"@
}

/// Writes the redirect address for a listener on `port`.
pub fn callback_url(port: u16) -> (text: String)
    ensures
        text@ == callback_url_text(port),
{
    let mut text = String::from_str("http://localhost:");
    let digits = decimal_string(port);
    text.append(digits.as_str());
    text.append("/callback");
    text
}

/// Where the identity provider must redirect to.
#[derive(Debug, Clone, PartialEq, Eq)]
pub struct OAuthServerInfo {
    pub callback_url: String,
    pub port: u16,
}

impl OAuthServerInfo {
    /// Whether this describes a listener on `port`.
    pub open spec fn describes(self, port: u16) -> bool {
        &&& self.port == port
        &&& self.callback_url@ == callback_url_text(port)
    }

    /// Describes a listener on `port`.
    pub fn for_port(port: u16) -> (info: Self)
        ensures
            info.describes(port),
    {
        OAuthServerInfo { callback_url: callback_url(port), port }
    }
}

/// How far a scan of the callback range has come.
#[derive(Debug, Clone, Copy, PartialEq, Eq)]
pub enum ScanPhase {
    /// Every lower port failed; this one is to be tried next.
    Trying(u16),
    /// Every lower port failed and this one is bound.
    Bound(u16),
    /// Every port of the range failed.
    Exhausted,
}

/// The phase that follows `phase` once the attempt on its candidate is
/// known to have bound or failed. A scan that is over stays as it is.
pub open spec fn phase_after(phase: ScanPhase, bound: bool) -> ScanPhase {
    match phase {
        ScanPhase::Trying(port) => if bound {
            ScanPhase::Bound(port)
        } else if port < LAST_PORT {
            ScanPhase::Trying((port + 1) as u16)
        } else {
            ScanPhase::Exhausted
        },
        _ => phase,
    }
}

/// The phase in which a scan ends that starts in `phase` and tries each
/// candidate in turn, where `bindable` holds the ports that bind.
pub open spec fn run_scan(phase: ScanPhase, bindable: Set<u16>) -> ScanPhase
    decreases
        (match phase {
            ScanPhase::Trying(port) => if is_callback_port(port) {
                LAST_PORT + 1 - port
            } else {
                0
            },
            _ => 0,
        }),
{
    match phase {
        ScanPhase::Trying(port) => if is_callback_port(port) {
            run_scan(phase_after(phase, bindable.contains(port)), bindable)
        } else {
            phase
        },
        _ => phase,
    }
}

/// A scan of the callback range in ascending order, which stops at the
/// first port that binds and keeps the listener `H` that was started on it.
///
/// The scan decides which port to try; the caller tries it and reports what
/// happened.
pub struct PortScan<H> {
    cursor: u16,
    listener: Option<H>,
}

impl<H> PortScan<H> {
    /// The cursor never leaves the range by more than one, and a listener
    /// is held only on a port of the range.
    #[verifier::type_invariant]
    pub closed spec fn wf(&self) -> bool {
        &&& FIRST_PORT <= self.cursor <= LAST_PORT + 1
        &&& self.listener is Some ==> self.cursor <= LAST_PORT
    }

    /// How far the scan has come.
    pub closed spec fn phase(&self) -> ScanPhase {
        if self.listener is Some {
            ScanPhase::Bound(self.cursor)
        } else if self.cursor <= LAST_PORT {
            ScanPhase::Trying(self.cursor)
        } else {
            ScanPhase::Exhausted
        }
    }

    /// The listener that runs on the bound port, if a port is bound.
    pub closed spec fn listener(&self) -> Option<H> {
        self.listener
    }

    /// A scan that has tried nothing yet.
    pub fn new() -> (scan: Self)
        ensures
            scan.phase() == ScanPhase::Trying(FIRST_PORT),
            scan.listener() is None,
    {
        PortScan { cursor: FIRST_PORT, listener: None }
    }

    /// The port to try next, or `None` once the scan is over.
    pub fn candidate(&self) -> (port: Option<u16>)
        ensures
            port == (match self.phase() {
                ScanPhase::Trying(p) => Some(p),
                _ => None,
            }),
            port matches Some(p) ==> is_callback_port(p),
    {
        proof {
            use_type_invariant(self);
        }
        if self.listener.is_none() && self.cursor <= LAST_PORT {
            Some(self.cursor)
        } else {
            None
        }
    }

    /// Takes note of the attempt on the current candidate: `Some` with the
    /// listener that now runs on it, or `None` if the port did not bind.
    ///
    /// Once the scan is over nothing changes any more, and a listener handed
    /// in then is dropped.
    pub fn record(&mut self, attempt: Option<H>)
        ensures
            final(self).phase() == phase_after(old(self).phase(), attempt is Some),
            final(self).listener() == (if old(self).phase() is Trying {
                attempt
            } else {
                old(self).listener()
            }),
    {
        proof {
            use_type_invariant(&*self);
        }
        if self.listener.is_none() && self.cursor <= LAST_PORT {
            match attempt {
                Some(listener) => {
                    self.listener = Some(listener);
                },
                None => {
                    self.cursor = self.cursor + 1;
                },
            }
        }
    }

    /// Ends the scan and hands out the bound port with its listener.
    pub fn into_bound(self) -> (bound: Option<(u16, H)>)
        ensures
            bound == (match self.phase() {
                ScanPhase::Bound(port) => Some((port, self.listener()->0)),
                _ => None,
            }),
            bound matches Some((port, _)) ==> is_callback_port(port),
            self.phase() is Bound <==> self.listener() is Some,
    {
        proof {
            use_type_invariant(&self);
        }
        match self.listener {
            Some(listener) => Some((self.cursor, listener)),
            None => None,
        }
    }
}

/// A scan from any candidate of the range ends bound to the lowest bindable
/// port from that candidate on, or exhausted if there is none.
proof fn lemma_run_scan_from(port: u16, bindable: Set<u16>)
    requires
        is_callback_port(port),
    ensures
        match run_scan(ScanPhase::Trying(port), bindable) {
            ScanPhase::Bound(chosen) => {
                &&& port <= chosen <= LAST_PORT
                &&& bindable.contains(chosen)
                &&& forall|lower: u16| port <= lower < chosen ==> !bindable.contains(lower)
            },
            ScanPhase::Exhausted => forall|other: u16|
                port <= other <= LAST_PORT ==> !bindable.contains(other),
            ScanPhase::Trying(_) => false,
        },
    decreases LAST_PORT - port,
{
    reveal_with_fuel(run_scan, 2);
    if !bindable.contains(port) && port < LAST_PORT {
        lemma_run_scan_from((port + 1) as u16, bindable);
    }
}

/// A full scan binds the lowest port of the range that binds at all, and is
/// exhausted exactly when no port of the range binds.
pub proof fn lemma_scan_binds_lowest_port(bindable: Set<u16>)
    ensures
        match run_scan(ScanPhase::Trying(FIRST_PORT), bindable) {
            ScanPhase::Bound(chosen) => {
                &&& is_callback_port(chosen)
                &&& bindable.contains(chosen)
                &&& forall|lower: u16| FIRST_PORT <= lower < chosen ==> !bindable.contains(lower)
            },
            ScanPhase::Exhausted => forall|other: u16|
                is_callback_port(other) ==> !bindable.contains(other),
            ScanPhase::Trying(_) => false,
        },
{
    lemma_run_scan_from(FIRST_PORT, bindable);
}

} // verus!
