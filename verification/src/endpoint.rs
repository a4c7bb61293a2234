//! What the HTTP side of the service is made of: where it listens, which
//! paths it serves, and the answer of the liveness probe.

use vstd::prelude::*;

verus! {

/// The address the service listens on: the loopback interface.
pub const LISTEN_IP: [u8; 4] = [127, 0, 0, 1];

/// The TCP port the service listens on.
pub const LISTEN_PORT: u16 = 9001;

/// The path that upgrades to a WebSocket stream.
pub const MANUSCRIPT_PATH: &'static str = "/manuscript";

/// The path of the liveness probe.
pub const HEALTHCHECK_PATH: &'static str = "/healthcheck";

/// The answer to a liveness probe: an HTTP status and a plain-text body.
#[derive(Debug, Clone, Copy, PartialEq, Eq)]
pub struct HealthReply {
    pub status: u16,
    pub body: &'static str,
}

/// The body of the liveness probe's answer: `healthy :D`.
pub open spec fn health_body() -> Seq<char> {
    seq!['h', 'e', 'a', 'l', 't', 'h', 'y', ' ', ':', 'D']
}

/// Answers the liveness probe: status 200 and the body `healthy :D`. The
/// answer depends on nothing, so it is the same whatever connections are open.
pub fn health_check() -> (reply: HealthReply)
    ensures
        reply.status == 200,
        reply.body@ == health_body(),
{
    proof {
        reveal_strlit("healthy :D");
    }
    let body = "healthy :D";
    assert(body@ =~= health_body());
    HealthReply { status: 200, body }
}

} // verus!
