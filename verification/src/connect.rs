//! Transport bring-up planning: address ordering, the per-address /
//! per-attempt retry discipline, and the classification of resolution,
//! handshake and authentication outcomes.

use vstd::prelude::*;
use crate::error::SshError;
use crate::transcript::HandshakeDiag;
use crate::text::u16_to_string;

verus! {

/// TCP connect timeout, in milliseconds.
pub const TCP_CONNECT_TIMEOUT_MS: u64 = 8_000;

/// Delay before the second handshake attempt on the same address, in
/// milliseconds.
pub const HANDSHAKE_RETRY_DELAY_MS: u64 = 200;

/// Transport keepalive interval, in seconds.
pub const KEEPALIVE_INTERVAL_SECS: u64 = 20;

/// Missed keepalives tolerated before the transport gives up.
pub const KEEPALIVE_MAX: usize = 3;

/// One resolved socket address in textual form.
pub struct ResolvedAddr {
    pub addr: String,
    pub is_ipv6: bool,
}

/// Sort resolved addresses with IPv4 before IPv6, keeping the original
/// relative order within each family.
pub fn sort_addresses(addrs: Vec<ResolvedAddr>) -> (r: Vec<ResolvedAddr>)
    ensures
        r@ == addrs@.filter(|a: ResolvedAddr| !a.is_ipv6) + addrs@.filter(
            |a: ResolvedAddr| a.is_ipv6,
        ),
{
    let ghost orig = addrs@;
    let mut rest = addrs;
    let mut v4: Vec<ResolvedAddr> = Vec::new();
    let mut v6: Vec<ResolvedAddr> = Vec::new();
    while rest.len() > 0
        invariant
            rest@.len() <= orig.len(),
            rest@ =~= orig.subrange(orig.len() - rest@.len(), orig.len() as int),
            v4@ == orig.subrange(0, orig.len() - rest@.len()).filter(
                |a: ResolvedAddr| !a.is_ipv6,
            ),
            v6@ == orig.subrange(0, orig.len() - rest@.len()).filter(|a: ResolvedAddr| a.is_ipv6),
        decreases rest@.len(),
    {
        let ghost k = orig.len() - rest@.len();
        let a = rest.remove(0);
        proof {
            reveal(Seq::filter);
            assert(a == orig[k]);
            let pre = orig.subrange(0, k as int);
            let cur = orig.subrange(0, k + 1);
            assert(cur.drop_last() =~= pre);
            assert(cur.last() == orig[k]);
            assert(rest@ =~= orig.subrange(k + 1, orig.len() as int));
        }
        if a.is_ipv6 {
            v6.push(a);
        } else {
            v4.push(a);
        }
        proof {
            reveal(Seq::filter);
            let cur = orig.subrange(0, k + 1);
            assert(v4@ == cur.filter(|x: ResolvedAddr| !x.is_ipv6));
            assert(v6@ == cur.filter(|x: ResolvedAddr| x.is_ipv6));
        }
    }
    proof {
        assert(orig.subrange(0, orig.len() as int) =~= orig);
    }
    let mut r = v4;
    let ghost sixes = v6@;
    let mut rest6 = v6;
    while rest6.len() > 0
        invariant
            rest6@.len() <= sixes.len(),
            rest6@ =~= sixes.subrange(sixes.len() - rest6@.len(), sixes.len() as int),
            r@ =~= orig.filter(|a: ResolvedAddr| !a.is_ipv6) + sixes.subrange(
                0,
                sixes.len() - rest6@.len(),
            ),
        decreases rest6@.len(),
    {
        let ghost m = sixes.len() - rest6@.len();
        let a = rest6.remove(0);
        proof {
            assert(a == sixes[m]);
            assert(rest6@ =~= sixes.subrange(m + 1, sixes.len() as int));
        }
        r.push(a);
        proof {
            assert(r@ =~= orig.filter(|x: ResolvedAddr| !x.is_ipv6) + sixes.subrange(0, m + 1));
        }
    }
    proof {
        assert(sixes.subrange(0, sixes.len() as int) =~= sixes);
        assert(r@ =~= orig.filter(|a: ResolvedAddr| !a.is_ipv6) + orig.filter(
            |a: ResolvedAddr| a.is_ipv6,
        ));
    }
    r
}

/// Classify a name-resolution outcome: a lookup failure has its own error,
/// an empty answer is a connection failure with a message naming the
/// target, and a non-empty answer proceeds.
pub fn classify_dns(host: &str, port: u16, lookup: Result<Vec<ResolvedAddr>, String>) -> (r:
    Result<Vec<ResolvedAddr>, SshError>)
    ensures
        match lookup {
            Err(detail) => r matches Err(SshError::DnsLookupFailed { host: h, port: p, detail: d })
                && h@ == host@ && p == port && d@ == detail@,
            Ok(addrs) => if addrs@.len() == 0 {
                r matches Err(SshError::ConnectionFailed(m)) && m@
                    == "DNS lookup returned no addresses for "@ + host@ + ":"@
                    + crate::text::dec_chars(port as int)
            } else {
                r matches Ok(a) && a == addrs
            },
        },
{
    match lookup {
        Err(detail) => Err(
            SshError::DnsLookupFailed { host: host.to_owned(), port, detail },
        ),
        Ok(addrs) => {
            if addrs.len() == 0 {
                let mut m = String::new();
                m.append("DNS lookup returned no addresses for ");
                m.append(host);
                m.append(":");
                let p = u16_to_string(port);
                m.append(p.as_str());
                Err(SshError::ConnectionFailed(m))
            } else {
                Ok(addrs)
            }
        },
    }
}

/// How one TCP dial went.
pub enum TcpOutcome {
    Connected,
    Failed(String),
    TimedOut,
}

/// How one handshake attempt went. Host-key rejections carry the error the
/// trust check produced; the diagnostics snapshot of the attempt rides
/// along where the transport reported a failure.
pub enum HandshakeOutcome {
    Established,
    JoinAborted { detail: String, diag: Option<HandshakeDiag> },
    OtherFailure { detail: String, diag: Option<HandshakeDiag> },
    HostKeyRejected(SshError),
    StoreFailure(String),
}

/// How authentication went: the server's verdict, or a transport error.
pub enum AuthOutcome {
    Accepted,
    Rejected,
    TransportError(String),
}

/// What the driver must do next: dial the address at `addr_index` (after
/// `delay_ms`, with the TCP timeout), or stop and surface the failure.
pub enum ConnectStep {
    Dial { addr_index: usize, delay_ms: u64 },
    GiveUp,
}

/// The bring-up plan: the sorted addresses and the position of the current
/// attempt. Each address gets up to two handshake attempts, the second one
/// only after an aborted join; host-key and store errors end the whole
/// plan at once.
pub struct ConnectPlan {
    pub addrs: Vec<ResolvedAddr>,
    pub addr_index: usize,
    pub attempt: u8,
    pub last_error: Option<SshError>,
    pub fatal: bool,
    pub established: bool,
}

impl ConnectPlan {
    pub open spec fn wf(&self) -> bool {
        self.addr_index <= self.addrs@.len() && self.attempt <= 1
    }

    /// A fresh plan over a resolved address list, sorted IPv4-first.
    pub fn new(addrs: Vec<ResolvedAddr>) -> (r: Self)
        ensures
            r.wf(),
            r.addrs@ == addrs@.filter(|a: ResolvedAddr| !a.is_ipv6) + addrs@.filter(
                |a: ResolvedAddr| a.is_ipv6,
            ),
            r.addr_index == 0,
            r.attempt == 0,
            r.last_error is None,
            !r.fatal,
            !r.established,
    {
        let sorted = sort_addresses(addrs);
        ConnectPlan {
            addrs: sorted,
            addr_index: 0,
            attempt: 0,
            last_error: None,
            fatal: false,
            established: false,
        }
    }

    /// The next move: dial the current address (with the retry delay on a
    /// second attempt), or give up once every address is exhausted or a
    /// final error occurred.
    pub fn next_step(&self) -> (s: ConnectStep)
        requires
            self.wf(),
        ensures
            if !self.fatal && !self.established && self.addr_index < self.addrs@.len() {
                s matches ConnectStep::Dial { addr_index, delay_ms } && addr_index
                    == self.addr_index && delay_ms == (if self.attempt > 0 {
                    HANDSHAKE_RETRY_DELAY_MS as u64
                } else {
                    0u64
                })
            } else {
                s is GiveUp
            },
    {
        if !self.fatal && !self.established && self.addr_index < self.addrs.len() {
            ConnectStep::Dial {
                addr_index: self.addr_index,
                delay_ms: if self.attempt > 0 {
                    HANDSHAKE_RETRY_DELAY_MS
                } else {
                    0
                },
            }
        } else {
            ConnectStep::GiveUp
        }
    }

    /// Record a TCP dial outcome. A connection leaves the plan in place for
    /// the handshake; failures and timeouts record their error and move on
    /// to the next address.
    pub fn on_tcp_outcome(&mut self, outcome: TcpOutcome)
        requires
            old(self).wf(),
            old(self).addr_index < old(self).addrs@.len(),
            !old(self).fatal,
            !old(self).established,
        ensures
            final(self).wf(),
            final(self).addrs == old(self).addrs,
            final(self).fatal == old(self).fatal,
            final(self).established == old(self).established,
            match outcome {
                TcpOutcome::Connected => *final(self) == *old(self),
                TcpOutcome::Failed(detail) => {
                    &&& final(self).addr_index == old(self).addr_index + 1
                    &&& final(self).attempt == 0
                    &&& final(self).last_error matches Some(SshError::TcpConnectFailed {
                        addr,
                        detail: d,
                    }) && addr@ == old(self).addrs@[old(self).addr_index as int].addr@ && d@
                        == detail@
                },
                TcpOutcome::TimedOut => {
                    &&& final(self).addr_index == old(self).addr_index + 1
                    &&& final(self).attempt == 0
                    &&& final(self).last_error matches Some(SshError::TcpConnectTimeout { addr })
                        && addr@ == old(self).addrs@[old(self).addr_index as int].addr@
                },
            },
    {
        let n = self.addrs.len();
        proof {
            assert(self.addr_index < n);
        }
        match outcome {
            TcpOutcome::Connected => {},
            TcpOutcome::Failed(detail) => {
                let addr = self.addrs[self.addr_index].addr.clone();
                self.last_error = Some(SshError::TcpConnectFailed { addr, detail });
                self.addr_index = self.addr_index + 1;
                self.attempt = 0;
            },
            TcpOutcome::TimedOut => {
                let addr = self.addrs[self.addr_index].addr.clone();
                self.last_error = Some(SshError::TcpConnectTimeout { addr });
                self.addr_index = self.addr_index + 1;
                self.attempt = 0;
            },
        }
    }

    /// Record a handshake outcome. An aborted join earns one retry on the
    /// same address (the next dial then waits the retry delay); any other
    /// failure moves to the next address; host-key and store errors are
    /// final.
    pub fn on_handshake_outcome(&mut self, outcome: HandshakeOutcome)
        requires
            old(self).wf(),
            old(self).addr_index < old(self).addrs@.len(),
            !old(self).fatal,
            !old(self).established,
        ensures
            final(self).wf(),
            final(self).addrs == old(self).addrs,
            match outcome {
                HandshakeOutcome::Established => {
                    &&& final(self).established
                    &&& final(self).addr_index == old(self).addr_index
                    &&& final(self).last_error == old(self).last_error
                    &&& !final(self).fatal
                },
                HandshakeOutcome::JoinAborted { detail, diag } => {
                    &&& !final(self).established
                    &&& !final(self).fatal
                    &&& final(self).last_error matches Some(SshError::HandshakeJoinAborted {
                        addr,
                        detail: dt,
                        diag: dg,
                    }) && addr@ == old(self).addrs@[old(self).addr_index as int].addr@ && (
                    dt matches Some(m) && m@ == detail@) && dg == diag
                    &&& (old(self).attempt == 0 ==> final(self).addr_index == old(
                        self,
                    ).addr_index && final(self).attempt == 1)
                    &&& (old(self).attempt > 0 ==> final(self).addr_index == old(self).addr_index
                        + 1 && final(self).attempt == 0)
                },
                HandshakeOutcome::OtherFailure { detail, diag } => {
                    &&& !final(self).established
                    &&& !final(self).fatal
                    &&& final(self).addr_index == old(self).addr_index + 1
                    &&& final(self).attempt == 0
                    &&& final(self).last_error matches Some(SshError::HandshakeFailed {
                        addr,
                        detail: dt,
                        diag: dg,
                    }) && addr@ == old(self).addrs@[old(self).addr_index as int].addr@ && dt@
                        == detail@ && dg == diag
                },
                HandshakeOutcome::HostKeyRejected(e) => {
                    &&& final(self).fatal
                    &&& final(self).last_error == Some(e)
                    &&& !final(self).established
                },
                HandshakeOutcome::StoreFailure(detail) => {
                    &&& final(self).fatal
                    &&& final(self).last_error matches Some(SshError::ConnectionFailed(m)) && m@
                        == detail@
                    &&& !final(self).established
                },
            },
    {
        let n = self.addrs.len();
        proof {
            assert(self.addr_index < n);
        }
        match outcome {
            HandshakeOutcome::Established => {
                self.established = true;
            },
            HandshakeOutcome::JoinAborted { detail, diag } => {
                let addr = self.addrs[self.addr_index].addr.clone();
                self.last_error = Some(
                    SshError::HandshakeJoinAborted { addr, detail: Some(detail), diag },
                );
                if self.attempt == 0 {
                    self.attempt = 1;
                } else {
                    self.addr_index = self.addr_index + 1;
                    self.attempt = 0;
                }
            },
            HandshakeOutcome::OtherFailure { detail, diag } => {
                let addr = self.addrs[self.addr_index].addr.clone();
                self.last_error = Some(SshError::HandshakeFailed { addr, detail, diag });
                self.addr_index = self.addr_index + 1;
                self.attempt = 0;
            },
            HandshakeOutcome::HostKeyRejected(e) => {
                self.last_error = Some(e);
                self.fatal = true;
            },
            HandshakeOutcome::StoreFailure(detail) => {
                self.last_error = Some(SshError::ConnectionFailed(detail));
                self.fatal = true;
            },
        }
    }

    /// Surface the failure of an exhausted plan: the last recorded error,
    /// or a generic connection failure when nothing was ever attempted.
    pub fn into_failure(self) -> (e: SshError)
        ensures
            match self.last_error {
                Some(le) => e == le,
                None => e matches SshError::ConnectionFailed(m) && m@
                    == "Failed to establish SSH connection"@,
            },
    {
        match self.last_error {
            Some(le) => le,
            None => {
                let mut m = String::new();
                m.append("Failed to establish SSH connection");
                SshError::ConnectionFailed(m)
            },
        }
    }
}

/// Classify the server's authentication verdict.
pub fn classify_auth(outcome: AuthOutcome) -> (r: Result<(), SshError>)
    ensures
        match outcome {
            AuthOutcome::Accepted => r is Ok,
            AuthOutcome::Rejected => r matches Err(SshError::AuthenticationFailed(m)) && m@
                == "Authentication rejected"@,
            AuthOutcome::TransportError(d) => r matches Err(SshError::AuthenticationFailed(m))
                && m@ == d@,
        },
{
    match outcome {
        AuthOutcome::Accepted => Ok(()),
        AuthOutcome::Rejected => {
            let mut m = String::new();
            m.append("Authentication rejected");
            Err(SshError::AuthenticationFailed(m))
        },
        AuthOutcome::TransportError(d) => Err(SshError::AuthenticationFailed(d)),
    }
}

} // verus!
