use hoorayhug_lb::failover::{
    select_peer, Attempt, Candidate, Decision, Failover, Outcome, Peer, Verdict,
};
use hoorayhug_lb::{Balance, HealthCheckConfig, Token};

fn failed(token: u8) -> Attempt {
    Attempt { token: Some(Token(token)), outcome: Outcome::Failed }
}

fn connected(token: u8, ms: u128) -> Attempt {
    Attempt {
        token: Some(Token(token)),
        outcome: Outcome::Connected { elapsed_ms: Some(ms) },
    }
}

fn kept(token: u8, ms: u128) -> Candidate {
    Candidate { token: Some(Token(token)), elapsed_ms: ms }
}

#[test]
fn peers_of_tokens() {
    assert_eq!(select_peer(None, 3), Peer::Primary);
    assert_eq!(select_peer(Some(Token(0)), 3), Peer::Primary);
    assert_eq!(select_peer(Some(Token(1)), 3), Peer::Extra(0));
    assert_eq!(select_peer(Some(Token(3)), 3), Peer::Extra(2));
    assert_eq!(select_peer(Some(Token(4)), 3), Peer::Primary);
    assert_eq!(select_peer(Some(Token(1)), 0), Peer::Primary);
    assert_eq!(select_peer(Some(Token(255)), 1000), Peer::Extra(254));
}

#[test]
fn good_connection_is_accepted() {
    let mut f = Failover::new(2, Some(100));
    assert!(f.measures());
    assert_eq!(
        f.record(connected(0, 100)),
        Decision { penalize: None, keep: false, verdict: Verdict::Accept }
    );
}

#[test]
fn no_limit_accepts_any_connection() {
    let mut f = Failover::new(2, None);
    assert!(!f.measures());
    let attempt =
        Attempt { token: Some(Token(1)), outcome: Outcome::Connected { elapsed_ms: None } };
    assert_eq!(f.record(attempt).verdict, Verdict::Accept);
    assert_eq!(f.record(connected(0, u128::MAX)).verdict, Verdict::Accept);
}

#[test]
fn failures_go_on_until_all_peers_are_tried() {
    let mut f = Failover::new(3, None);
    assert_eq!(
        f.record(failed(0)),
        Decision { penalize: Some(Token(0)), keep: false, verdict: Verdict::Retry }
    );
    // The same peer again does not count twice.
    assert_eq!(f.record(failed(0)).verdict, Verdict::Retry);
    assert_eq!(f.record(failed(1)).verdict, Verdict::Retry);
    assert_eq!(
        f.record(failed(2)),
        Decision { penalize: Some(Token(2)), keep: false, verdict: Verdict::GiveUp }
    );
}

#[test]
fn attempts_without_token_are_not_counted() {
    let mut f = Failover::new(1, None);
    let attempt = Attempt { token: None, outcome: Outcome::Failed };
    assert_eq!(
        f.record(attempt),
        Decision { penalize: None, keep: false, verdict: Verdict::Retry }
    );
    assert_eq!(f.record(failed(0)).verdict, Verdict::GiveUp);
}

#[test]
fn no_peers_means_one_attempt() {
    let attempt = Attempt { token: None, outcome: Outcome::Failed };
    assert_eq!(Failover::new(0, None).record(attempt).verdict, Verdict::GiveUp);
    let slow = Attempt { token: None, outcome: Outcome::Connected { elapsed_ms: Some(11) } };
    assert_eq!(
        Failover::new(0, Some(10)).record(slow),
        Decision {
            penalize: None,
            keep: true,
            verdict: Verdict::UseFallback(Candidate { token: None, elapsed_ms: 11 }),
        }
    );
}

#[test]
fn fastest_slow_connection_is_the_fallback() {
    let mut f = Failover::new(4, Some(10));
    assert_eq!(
        f.record(connected(0, 50)),
        Decision { penalize: Some(Token(0)), keep: true, verdict: Verdict::Retry }
    );
    assert_eq!(
        f.record(connected(1, 30)),
        Decision { penalize: Some(Token(1)), keep: true, verdict: Verdict::Retry }
    );
    // As fast as the one that is kept: the earlier stays.
    assert_eq!(
        f.record(connected(2, 30)),
        Decision { penalize: Some(Token(2)), keep: false, verdict: Verdict::Retry }
    );
    assert_eq!(
        f.record(connected(3, 40)),
        Decision {
            penalize: Some(Token(3)),
            keep: false,
            verdict: Verdict::UseFallback(kept(1, 30)),
        }
    );
}

#[test]
fn slow_connection_is_preferred_to_an_error() {
    let mut f = Failover::new(2, Some(10));
    assert_eq!(f.record(connected(1, 12)).verdict, Verdict::Retry);
    assert_eq!(f.record(failed(0)).verdict, Verdict::UseFallback(kept(1, 12)));
}

#[test]
fn good_connection_after_failures() {
    let mut f = Failover::new(3, Some(10));
    f.record(failed(0));
    f.record(connected(1, 12));
    assert_eq!(f.record(connected(2, 10)).verdict, Verdict::Accept);
}

#[test]
fn largest_number_of_peers() {
    let mut f = Failover::new(255, None);
    for t in 0..254 {
        assert_eq!(f.record(failed(t)).verdict, Verdict::Retry);
    }
    assert_eq!(f.record(failed(254)).verdict, Verdict::GiveUp);
}

struct Fixed {
    total: u8,
}

impl Balance for Fixed {
    type State = u8;

    fn new(weights: &[u8], _config: Option<HealthCheckConfig>) -> Self {
        Fixed { total: weights.len() as u8 }
    }

    fn next(&self, state: &u8) -> Option<Token> {
        Some(Token(*state % self.total))
    }

    fn total(&self) -> u8 {
        self.total
    }
}

#[test]
fn balancers_need_not_record() {
    let b = Fixed::new(&[1, 1, 1], None);
    b.on_failure(Token(1));
    b.on_success(Token(2));
    assert_eq!(b.next(&4), Some(Token(1)));
    assert_eq!(b.total(), 3);
}
