use std::collections::HashSet;

use vstd::prelude::*;

use crate::Token;

verus! {

broadcast use vstd::std_specs::hash::group_hash_axioms;

/// Which of the configured remote addresses to connect to.
#[derive(Debug, Clone, Copy, PartialEq, Eq, Structural)]
pub enum Peer {
    /// The main remote address.
    Primary,
    /// The extra remote address at this index.
    Extra(usize),
}

/// The address that a token stands for: token 0 is the main address and token `i` the
/// extra address `i - 1`. Without a token, and for a token past the extra addresses, it
/// is the main address.
pub open spec fn peer_of(token: Option<Token>, extra_count: nat) -> Peer {
    match token {
        Some(t) if 1 <= t.0 <= extra_count => Peer::Extra((t.0 - 1) as usize),
        _ => Peer::Primary,
    }
}

/// Selects the remote address for a token, out of the main one and `extra_count` others.
pub fn select_peer(token: Option<Token>, extra_count: usize) -> (peer: Peer)
    ensures
        peer == peer_of(token, extra_count as nat),
        token is None ==> peer == Peer::Primary,
        token matches Some(t) ==> (t.0 == 0 || t.0 > extra_count ==> peer == Peer::Primary),
        token matches Some(t) ==> (1 <= t.0 <= extra_count ==> peer == Peer::Extra(
            (t.0 - 1) as usize,
        )),
        peer matches Peer::Extra(i) ==> i < extra_count && token == Some(Token((i + 1) as u8)),
{
    match token {
        None => Peer::Primary,
        Some(t) => {
            let i: usize = t.0 as usize;
            if i > 0 && i - 1 < extra_count {
                Peer::Extra(i - 1)
            } else {
                Peer::Primary
            }
        },
    }
}

/// How an attempt to connect ended.
#[derive(Debug, Clone, Copy, PartialEq, Eq, Structural)]
pub enum Outcome {
    /// The connection stands; the time that it took, in milliseconds, where it was measured.
    Connected { elapsed_ms: Option<u128> },
    /// The connection failed.
    Failed,
}

/// A connection that stands but took too long.
#[derive(Debug, Clone, Copy, PartialEq, Eq, Structural)]
pub struct Candidate {
    /// The peer that it leads to.
    pub token: Option<Token>,
    /// The time that it took, in milliseconds.
    pub elapsed_ms: u128,
}

/// What to do after an attempt.
#[derive(Debug, Clone, Copy, PartialEq, Eq, Structural)]
pub enum Verdict {
    /// Use the connection that was just made.
    Accept,
    /// Ask the balancer for another peer and try again.
    Retry,
    /// No peers are left: use the connection that is kept as the fallback.
    UseFallback(Candidate),
    /// No peers are left and there is no fallback: return the error of the attempt.
    GiveUp,
}

/// The answer to an attempt.
#[derive(Debug, Clone, Copy, PartialEq, Eq, Structural)]
pub struct Decision {
    /// The peer whose failure is to be recorded.
    pub penalize: Option<Token>,
    /// Whether the connection that was just made becomes the fallback, in place of the
    /// one that is kept as such.
    pub keep: bool,
    /// How to go on; to be followed after the two points above.
    pub verdict: Verdict,
}

/// One attempt: the token that it was made with, and how it ended.
#[derive(Debug, Clone, Copy, PartialEq, Eq, Structural)]
pub struct Attempt {
    pub token: Option<Token>,
    pub outcome: Outcome,
}

/// What the failover procedure knows.
#[verifier::ext_equal]
pub struct FailoverState {
    /// The number of peers.
    pub total: u8,
    /// The longest time that connecting may take, in milliseconds.
    pub max_latency_ms: Option<u32>,
    /// The tokens of the attempts that were not accepted.
    pub tried: Set<u8>,
    /// The fastest of the connections that took too long.
    pub fallback: Option<Candidate>,
}

impl FailoverState {
    /// Before the first attempt.
    pub open spec fn initial(total: u8, max_latency_ms: Option<u32>) -> FailoverState {
        FailoverState { total, max_latency_ms, tried: Set::empty(), fallback: None }
    }

    /// The connection stands but took longer than the limit.
    pub open spec fn too_slow(self, outcome: Outcome) -> bool {
        match (self.max_latency_ms, outcome) {
            (Some(max), Outcome::Connected { elapsed_ms: Some(ms) }) => ms > max,
            _ => false,
        }
    }

    /// The connection stands and did not take too long.
    pub open spec fn acceptable(self, outcome: Outcome) -> bool {
        outcome is Connected && !self.too_slow(outcome)
    }

    /// The time that a measured connection took.
    pub open spec fn latency(outcome: Outcome) -> u128 {
        outcome->elapsed_ms->0
    }

    /// The attempt gives a better fallback than the one that is kept, if any.
    pub open spec fn improves(self, outcome: Outcome) -> bool {
        self.too_slow(outcome) && match self.fallback {
            Some(kept) => Self::latency(outcome) < kept.elapsed_ms,
            None => true,
        }
    }

    /// Every peer has been tried.
    pub open spec fn exhausted(self) -> bool {
        self.total == 0 || self.tried.len() >= self.total
    }

    /// The state after an attempt.
    pub open spec fn after(self, attempt: Attempt) -> FailoverState {
        if self.acceptable(attempt.outcome) {
            self
        } else {
            FailoverState {
                tried: match attempt.token {
                    Some(t) => self.tried.insert(t.0),
                    None => self.tried,
                },
                fallback: if self.improves(attempt.outcome) {
                    Some(
                        Candidate {
                            token: attempt.token,
                            elapsed_ms: Self::latency(attempt.outcome),
                        },
                    )
                } else {
                    self.fallback
                },
                ..self
            }
        }
    }

    /// The verdict on an attempt.
    pub open spec fn verdict(self, attempt: Attempt) -> Verdict {
        if self.acceptable(attempt.outcome) {
            Verdict::Accept
        } else if !self.after(attempt).exhausted() {
            Verdict::Retry
        } else {
            match self.after(attempt).fallback {
                Some(kept) => Verdict::UseFallback(kept),
                None => Verdict::GiveUp,
            }
        }
    }

    /// The answer to an attempt.
    pub open spec fn decision(self, attempt: Attempt) -> Decision {
        Decision {
            penalize: if self.acceptable(attempt.outcome) {
                None
            } else {
                attempt.token
            },
            keep: self.improves(attempt.outcome),
            verdict: self.verdict(attempt),
        }
    }
}

/// The procedure that connects to one of several peers.
///
/// A peer that fails, or that takes longer than the latency limit, is recorded as failed
/// and the next one is tried, until every peer has been tried. The fastest of the slow
/// connections is kept as a last resort.
///
/// The caller makes the attempts: it connects to the peer that [`select_peer`] gives for
/// the balancer's token, passes the outcome to [`record`](Self::record), and follows the
/// decision.
#[derive(Debug)]
pub struct Failover {
    total: u8,
    max_latency_ms: Option<u32>,
    tried: HashSet<u8>,
    fallback: Option<Candidate>,
}

impl View for Failover {
    type V = FailoverState;

    closed spec fn view(&self) -> FailoverState {
        FailoverState {
            total: self.total,
            max_latency_ms: self.max_latency_ms,
            tried: self.tried@,
            fallback: self.fallback,
        }
    }
}

impl Failover {
    /// Starts the procedure for `total` peers and, where latency-based failover is on, a
    /// latency limit.
    pub fn new(total: u8, max_latency_ms: Option<u32>) -> (failover: Self)
        ensures
            failover@ == FailoverState::initial(total, max_latency_ms),
            failover@.total == total,
            failover@.max_latency_ms == max_latency_ms,
            failover@.tried == Set::<u8>::empty(),
            failover@.fallback is None,
    {
        Failover { total, max_latency_ms, tried: HashSet::new(), fallback: None }
    }

    /// Whether the time that connecting takes is to be measured.
    pub fn measures(&self) -> (yes: bool)
        ensures
            yes == (self@.max_latency_ms is Some),
    {
        self.max_latency_ms.is_some()
    }

    /// Takes note of an attempt and decides how to go on.
    pub fn record(&mut self, attempt: Attempt) -> (decision: Decision)
        ensures
            decision == old(self)@.decision(attempt),
            final(self)@ == old(self)@.after(attempt),
    {
        let slow: Option<u128> = match (self.max_latency_ms, attempt.outcome) {
            (Some(max), Outcome::Connected { elapsed_ms: Some(ms) }) => if ms > max as u128 {
                Some(ms)
            } else {
                None
            },
            _ => None,
        };
        let failed: bool = match attempt.outcome {
            Outcome::Failed => true,
            Outcome::Connected { .. } => false,
        };
        if !failed && slow.is_none() {
            return Decision { penalize: None, keep: false, verdict: Verdict::Accept };
        }
        if let Some(t) = attempt.token {
            self.tried.insert(t.0);
        }
        let mut keep: bool = false;
        if let Some(ms) = slow {
            keep = match self.fallback {
                Some(kept) => ms < kept.elapsed_ms,
                None => true,
            };
            if keep {
                self.fallback = Some(Candidate { token: attempt.token, elapsed_ms: ms });
            }
        }
        let exhausted = self.total == 0 || self.tried.len() >= self.total as usize;
        let verdict = if !exhausted {
            Verdict::Retry
        } else {
            match self.fallback {
                Some(kept) => Verdict::UseFallback(kept),
                None => Verdict::GiveUp,
            }
        };
        Decision { penalize: attempt.token, keep, verdict }
    }
}

} // verus!
