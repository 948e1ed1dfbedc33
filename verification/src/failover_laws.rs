use vstd::prelude::*;

use crate::failover::{select_peer, Attempt, Candidate, FailoverState, Outcome, Peer, Verdict};
use crate::Token;

verus! {

/// The state after a series of attempts.
pub open spec fn replay(start: FailoverState, attempts: Seq<Attempt>) -> FailoverState
    decreases attempts.len(),
{
    if attempts.len() == 0 {
        start
    } else {
        replay(start, attempts.drop_last()).after(attempts.last())
    }
}

/// Each attempt of the series was answered with a further try.
pub open spec fn all_retried(start: FailoverState, attempts: Seq<Attempt>) -> bool
    decreases attempts.len(),
{
    attempts.len() > 0 ==> {
        &&& all_retried(start, attempts.drop_last())
        &&& replay(start, attempts.drop_last()).verdict(attempts.last()) is Retry
    }
}

/// The attempt at `i` made a connection in more milliseconds than the limit, and so can
/// be a fallback.
pub open spec fn slow_at(start: FailoverState, attempts: Seq<Attempt>, i: int) -> bool {
    &&& 0 <= i < attempts.len()
    &&& start.max_latency_ms matches Some(max)
    &&& attempts[i].outcome matches Outcome::Connected { elapsed_ms: Some(ms) }
    &&& ms > max
}

/// `kept` is the slow connection that the attempt at `i` made, with its token and in its
/// time; no slow connection took less time, and every earlier one took more.
pub open spec fn fastest_slow(
    start: FailoverState,
    attempts: Seq<Attempt>,
    i: int,
    kept: Candidate,
) -> bool {
    &&& slow_at(start, attempts, i)
    &&& attempts[i] == (Attempt {
        token: kept.token,
        outcome: Outcome::Connected { elapsed_ms: Some(kept.elapsed_ms) },
    })
    &&& forall|j: int| #[trigger]
        slow_at(start, attempts, j) ==> kept.elapsed_ms <= attempts[j].outcome->elapsed_ms->0
    &&& forall|j: int| #[trigger]
        slow_at(start, attempts, j) && j < i ==> kept.elapsed_ms
            < attempts[j].outcome->elapsed_ms->0
}

/// The attempt at `i` was made with token `t` and failed or took too long.
pub open spec fn rejected_with(
    start: FailoverState,
    attempts: Seq<Attempt>,
    i: int,
    t: u8,
) -> bool {
    &&& 0 <= i < attempts.len()
    &&& attempts[i].token == Some(Token(t))
    &&& attempts[i].outcome is Failed || slow_at(start, attempts, i)
}

/// All attempts were made with tokens, and no token was used twice.
pub open spec fn distinct_tokens(attempts: Seq<Attempt>) -> bool {
    &&& forall|i: int| 0 <= i < attempts.len() ==> (#[trigger] attempts[i]).token is Some
    &&& forall|i: int, j: int|
        0 <= i < j < attempts.len() ==> (#[trigger] attempts[i]).token != (
        #[trigger] attempts[j]).token
}

proof fn lemma_replay_keeps_setup(start: FailoverState, attempts: Seq<Attempt>)
    ensures
        replay(start, attempts).total == start.total,
        replay(start, attempts).max_latency_ms == start.max_latency_ms,
        start.tried.finite() ==> replay(start, attempts).tried.finite(),
    decreases attempts.len(),
{
    if attempts.len() > 0 {
        lemma_replay_keeps_setup(start, attempts.drop_last());
    }
}

/// The peers counted as tried are exactly those of the attempts that were not accepted.
pub proof fn law_tried_peers(
    total: u8,
    max_latency_ms: Option<u32>,
    attempts: Seq<Attempt>,
    t: u8,
)
    ensures
        ({
            let start = FailoverState::initial(total, max_latency_ms);
            replay(start, attempts).tried.contains(t) <==> exists|i: int| #[trigger]
                rejected_with(start, attempts, i, t)
        }),
    decreases attempts.len(),
{
    let start = FailoverState::initial(total, max_latency_ms);
    if attempts.len() > 0 {
        let before = attempts.drop_last();
        law_tried_peers(total, max_latency_ms, before, t);
        lemma_replay_keeps_setup(start, before);
        let last = attempts.len() - 1;
        assert forall|i: int| #[trigger] rejected_with(start, before, i, t) implies rejected_with(
            start,
            attempts,
            i,
            t,
        ) by {}
        assert forall|i: int| #[trigger]
            rejected_with(start, attempts, i, t) && i < last implies rejected_with(
            start,
            before,
            i,
            t,
        ) by {}
        if replay(start, attempts).tried.contains(t) && !replay(start, before).tried.contains(t) {
            assert(rejected_with(start, attempts, last, t));
        }
    }
}

/// The fallback is the fastest connection that took too long, the earliest of several
/// equally fast ones; there is none if and only if no connection took too long.
pub proof fn law_fallback_is_fastest_slow(
    total: u8,
    max_latency_ms: Option<u32>,
    attempts: Seq<Attempt>,
)
    ensures
        ({
            let start = FailoverState::initial(total, max_latency_ms);
            match replay(start, attempts).fallback {
                Some(kept) => exists|i: int| #[trigger] fastest_slow(start, attempts, i, kept),
                None => forall|i: int| !#[trigger] slow_at(start, attempts, i),
            }
        }),
    decreases attempts.len(),
{
    let start = FailoverState::initial(total, max_latency_ms);
    if attempts.len() > 0 {
        let before = attempts.drop_last();
        let last = attempts.len() - 1;
        law_fallback_is_fastest_slow(total, max_latency_ms, before);
        lemma_replay_keeps_setup(start, before);
        assert(forall|i: int| #[trigger]
            slow_at(start, attempts, i) ==> i == last || slow_at(start, before, i));
        let known = replay(start, before);
        if known.improves(attempts.last().outcome) {
            let kept = replay(start, attempts).fallback->0;
            assert(fastest_slow(start, attempts, last, kept));
        } else if known.fallback is Some {
            let kept = known.fallback->0;
            let i = choose|i: int| #[trigger] fastest_slow(start, before, i, kept);
            assert(slow_at(start, before, i));
            assert(fastest_slow(start, attempts, i, kept));
        }
    }
}

/// As long as attempts are answered with a further try, fewer peers have been tried than
/// there are.
pub proof fn law_retry_means_untried_peers(
    total: u8,
    max_latency_ms: Option<u32>,
    attempts: Seq<Attempt>,
)
    requires
        attempts.len() > 0,
        all_retried(FailoverState::initial(total, max_latency_ms), attempts),
    ensures
        replay(FailoverState::initial(total, max_latency_ms), attempts).tried.len() < total,
{
    lemma_replay_keeps_setup(FailoverState::initial(total, max_latency_ms), attempts);
}

proof fn lemma_distinct_rejections_add_up(start: FailoverState, attempts: Seq<Attempt>)
    requires
        start.tried == Set::<u8>::empty(),
        distinct_tokens(attempts),
        all_retried(start, attempts),
    ensures
        replay(start, attempts).tried.len() == attempts.len(),
        forall|t: u8|
            replay(start, attempts).tried.contains(t) ==> exists|i: int|
                0 <= i < attempts.len() && (#[trigger] attempts[i]).token == Some(Token(t)),
    decreases attempts.len(),
{
    if attempts.len() > 0 {
        let before = attempts.drop_last();
        let last = attempts.len() - 1;
        assert forall|i: int, j: int| 0 <= i < j < before.len() implies (
        #[trigger] before[i]).token != (#[trigger] before[j]).token by {
            assert(attempts[i].token != attempts[j].token);
        }
        assert forall|i: int| 0 <= i < before.len() implies (#[trigger] before[i]).token is Some by {
            assert(attempts[i].token is Some);
        }
        lemma_distinct_rejections_add_up(start, before);
        lemma_replay_keeps_setup(start, before);
        let token = attempts[last].token->0;
        let t = token.0;
        assert(attempts[last].token == Some(Token(t)));
        if replay(start, before).tried.contains(t) {
            let i = choose|i: int|
                0 <= i < before.len() && (#[trigger] before[i]).token == Some(Token(t));
            assert(attempts[i].token != attempts[last].token);
        }
        assert forall|u: u8| replay(start, attempts).tried.contains(u) implies exists|i: int|
            0 <= i < attempts.len() && (#[trigger] attempts[i]).token == Some(Token(u)) by {
            if u != t {
                let i = choose|i: int|
                    0 <= i < before.len() && (#[trigger] before[i]).token == Some(Token(u));
                assert(attempts[i].token == Some(Token(u)));
            }
        }
    }
}

/// If the balancer never hands out a peer twice, there is an end to the attempts: fewer
/// of them than there are peers are answered with a further try.
pub proof fn law_attempts_are_bounded(
    total: u8,
    max_latency_ms: Option<u32>,
    attempts: Seq<Attempt>,
)
    requires
        attempts.len() > 0,
        distinct_tokens(attempts),
        all_retried(FailoverState::initial(total, max_latency_ms), attempts),
    ensures
        attempts.len() < total,
{
    lemma_distinct_rejections_add_up(
        FailoverState::initial(total, max_latency_ms),
        attempts,
    );
    law_retry_means_untried_peers(total, max_latency_ms, attempts);
}

/// With a limit of `max` milliseconds, a connection that took `ms` milliseconds is used at
/// once if and only if `ms <= max`. Its peer is then not recorded as failed and nothing
/// changes; else its peer is recorded as failed.
pub proof fn law_limit_decides_on_connections(
    state: FailoverState,
    token: Option<Token>,
    max: u32,
    ms: u128,
)
    requires
        state.max_latency_ms == Some(max),
    ensures
        ({
            let attempt = Attempt { token, outcome: Outcome::Connected { elapsed_ms: Some(ms) } };
            let decision = state.decision(attempt);
            &&& decision.verdict == Verdict::Accept <==> ms <= max
            &&& ms <= max ==> decision.penalize is None && !decision.keep && state.after(attempt)
                == state
            &&& ms > max ==> decision.penalize == token
        }),
{
}

/// A connection that took longer than the limit becomes the fallback if and only if there
/// is none or it took less time than the one that is kept, under its own token and with
/// its own time; else the kept one stays.
pub proof fn law_faster_slow_connection_is_kept(
    state: FailoverState,
    token: Option<Token>,
    max: u32,
    ms: u128,
)
    requires
        state.max_latency_ms == Some(max),
        ms > max,
    ensures
        ({
            let attempt = Attempt { token, outcome: Outcome::Connected { elapsed_ms: Some(ms) } };
            let fallback = state.after(attempt).fallback;
            &&& state.decision(attempt).keep <==> (state.fallback matches Some(kept) ==> ms
                < kept.elapsed_ms)
            &&& state.decision(attempt).keep ==> fallback == Some(
                Candidate { token, elapsed_ms: ms },
            )
            &&& !state.decision(attempt).keep ==> fallback == state.fallback
            &&& fallback matches Some(best) && best.elapsed_ms <= ms && (
            state.fallback matches Some(kept) ==> best.elapsed_ms <= kept.elapsed_ms)
        }),
{
}

/// An attempt that failed is never accepted or kept; its peer is recorded as failed, and
/// the fallback stays.
pub proof fn law_failed_attempt(state: FailoverState, token: Option<Token>)
    ensures
        ({
            let attempt = Attempt { token, outcome: Outcome::Failed };
            let decision = state.decision(attempt);
            &&& decision.verdict != Verdict::Accept
            &&& decision.penalize == token
            &&& !decision.keep
            &&& state.after(attempt).fallback == state.fallback
        }),
{
}

/// After an attempt that is not accepted its peer counts as tried, and no other peer that
/// did not; the number of peers and the limit stay. There is a further try if and only if
/// fewer peers have been tried than there are. If not, the fallback is used, and the error
/// is returned if and only if there is no fallback.
pub proof fn law_rejected_attempt_goes_on_or_ends(state: FailoverState, attempt: Attempt, t: u8)
    requires
        state.decision(attempt).verdict != Verdict::Accept,
    ensures
        ({
            let next = state.after(attempt);
            let verdict = state.decision(attempt).verdict;
            let left = next.tried.len() < state.total;
            &&& next.total == state.total
            &&& next.max_latency_ms == state.max_latency_ms
            &&& next.tried.contains(t) <==> state.tried.contains(t) || attempt.token == Some(
                Token(t),
            )
            &&& verdict == Verdict::Retry <==> left
            &&& verdict is UseFallback <==> !left && next.fallback is Some
            &&& verdict matches Verdict::UseFallback(kept) ==> next.fallback == Some(kept)
            &&& verdict == Verdict::GiveUp <==> !left && next.fallback is None
        }),
{
}

/// A series of attempts begins with no peer tried, no fallback, and the number of peers
/// and the limit that were given.
pub proof fn law_series_begins_empty(total: u8, max_latency_ms: Option<u32>, t: u8)
    ensures
        ({
            let start = FailoverState::initial(total, max_latency_ms);
            &&& start.total == total
            &&& start.max_latency_ms == max_latency_ms
            &&& !start.tried.contains(t)
            &&& start.tried.finite() && start.tried.len() == 0
            &&& start.fallback is None
        }),
{
}

/// Trying a peer again uses up no further peer: of two rejected attempts with one token,
/// the second leaves the tried peers as they were.
pub proof fn law_peer_counts_once(state: FailoverState, first: Attempt, second: Attempt)
    requires
        first.token == second.token,
        state.decision(first).verdict != Verdict::Accept,
    ensures
        state.after(first).after(second).tried == state.after(first).tried,
{
}

/// A connection is used at once if and only if it stands and did not take longer than the
/// limit, where there is a limit and the time was measured; its peer is then not recorded
/// as failed, and nothing else changes. The peer of any other attempt is recorded as
/// failed.
pub proof fn law_accept_good_connections(state: FailoverState, attempt: Attempt)
    ensures
        state.decision(attempt).verdict is Accept <==> match attempt.outcome {
            Outcome::Connected { elapsed_ms } => elapsed_ms is None
                || state.max_latency_ms is None || elapsed_ms->0 <= state.max_latency_ms->0,
            Outcome::Failed => false,
        },
        state.decision(attempt).verdict is Accept ==> {
            &&& state.decision(attempt).penalize is None
            &&& !state.decision(attempt).keep
            &&& state.after(attempt) == state
        },
        !(state.decision(attempt).verdict is Accept) ==> state.decision(attempt).penalize
            == attempt.token,
{
}

/// Without a latency limit every connection that stands is used at once.
pub proof fn law_no_limit_no_latency_failover(state: FailoverState, attempt: Attempt)
    requires
        state.max_latency_ms is None,
        attempt.outcome is Connected,
    ensures
        state.decision(attempt).verdict is Accept,
{
}

/// The procedure gives up only after an attempt that failed, so that there is an error
/// to return, and never where a slow connection was kept: a slow connection is preferred
/// to an error.
pub proof fn law_slow_connection_beats_error(state: FailoverState, attempt: Attempt)
    ensures
        state.decision(attempt).verdict is GiveUp ==> attempt.outcome is Failed
            && state.fallback is None,
        attempt.outcome is Connected ==> !(state.decision(attempt).verdict is GiveUp),
{
}

/// The decision says to keep a connection exactly when it becomes the fallback; that
/// happens only to a connection that stands. So the fallback that is finally used is the
/// connection that was last to be kept.
pub proof fn law_kept_connection_is_fallback(state: FailoverState, attempt: Attempt)
    ensures
        state.decision(attempt).keep ==> {
            &&& state.after(attempt).fallback matches Some(kept)
            &&& kept.token == attempt.token
            &&& attempt.outcome == Outcome::Connected { elapsed_ms: Some(kept.elapsed_ms) }
        },
        !state.decision(attempt).keep ==> state.after(attempt).fallback == state.fallback,
        state.decision(attempt).verdict matches Verdict::UseFallback(kept) ==> state.after(
            attempt,
        ).fallback == Some(kept),
{
}

/// Where there are no peers to balance over, the first attempt decides.
pub proof fn law_no_peers_no_retry(state: FailoverState, attempt: Attempt)
    requires
        state.total == 0,
    ensures
        !(state.decision(attempt).verdict is Retry),
{
}

/// How a whole series of attempts ends, once one is answered with something else than a
/// further try: with the connection just made, if it stands and was fast enough; else,
/// every peer having been tried, with the fastest of the slow connections; and with an
/// error if no attempt made a connection.
pub proof fn law_end_of_series(
    total: u8,
    max_latency_ms: Option<u32>,
    attempts: Seq<Attempt>,
    last: Attempt,
)
    requires
        all_retried(FailoverState::initial(total, max_latency_ms), attempts),
    ensures
        ({
            let start = FailoverState::initial(total, max_latency_ms);
            let all = attempts.push(last);
            match replay(start, attempts).decision(last).verdict {
                Verdict::Accept => last.outcome is Connected && !slow_at(
                    start,
                    all,
                    attempts.len() as int,
                ),
                Verdict::Retry => replay(start, all).tried.len() < total,
                Verdict::UseFallback(kept) => {
                    &&& total == 0 || replay(start, all).tried.len() == total
                    &&& exists|i: int| #[trigger] fastest_slow(start, all, i, kept)
                },
                Verdict::GiveUp => {
                    &&& total == 0 || replay(start, all).tried.len() == total
                    &&& forall|i: int|
                        0 <= i < all.len() ==> (#[trigger] all[i]).outcome is Failed
                },
            }
        }),
{
    let start = FailoverState::initial(total, max_latency_ms);
    let all = attempts.push(last);
    assert(all.drop_last() =~= attempts);
    lemma_replay_keeps_setup(start, attempts);
    law_fallback_is_fastest_slow(total, max_latency_ms, all);
    if attempts.len() > 0 {
        law_retry_means_untried_peers(total, max_latency_ms, attempts);
    }
    lemma_retried_means_rejected(start, attempts);
    if replay(start, attempts).verdict(last) is GiveUp {
        assert forall|i: int| 0 <= i < all.len() implies (#[trigger] all[i]).outcome is Failed by {
            assert(!slow_at(start, all, i));
            if i < attempts.len() {
                assert(all[i] == attempts[i]);
            }
        }
    }
}

proof fn lemma_retried_means_rejected(start: FailoverState, attempts: Seq<Attempt>)
    requires
        all_retried(start, attempts),
    ensures
        forall|i: int|
            0 <= i < attempts.len() ==> !start.acceptable((#[trigger] attempts[i]).outcome),
    decreases attempts.len(),
{
    if attempts.len() > 0 {
        let before = attempts.drop_last();
        lemma_retried_means_rejected(start, before);
        lemma_replay_keeps_setup(start, before);
        assert forall|i: int| 0 <= i < attempts.len() implies !start.acceptable(
            (#[trigger] attempts[i]).outcome,
        ) by {
            if i < before.len() {
                assert(before[i] == attempts[i]);
            }
        }
    }
}

/// Token `t` stands for the extra address `t - 1`, as far as there are extra addresses;
/// token 0, any other token and no token stand for the main one.
pub proof fn law_token_selects_address(t: u8, extra_count: nat)
    ensures
        1 <= t <= extra_count ==> crate::failover::peer_of(Some(Token(t)), extra_count)
            == Peer::Extra((t - 1) as usize),
        t == 0 || t > extra_count ==> crate::failover::peer_of(Some(Token(t)), extra_count)
            == Peer::Primary,
        crate::failover::peer_of(None, extra_count) == Peer::Primary,
{
}

/// Whatever [`select_peer`] returns: it is the extra address `i` if and only if the token
/// is `i + 1` and there is such an address, and the main one else.
pub proof fn law_selected_peer(
    token: Option<Token>,
    extra_count: usize,
    peer: Peer,
    i: usize,
)
    requires
        call_ensures(select_peer, (token, extra_count), peer),
    ensures
        peer == Peer::Extra(i) <==> i < extra_count && (token matches Some(t) && t.0 == i + 1),
        peer == Peer::Primary <==> (token matches Some(t) ==> t.0 == 0 || t.0 > extra_count),
{
}

/// Every token that a balancer over the main address and the extra ones can hand out
/// has an address of its own.
pub proof fn law_tokens_reach_all_addresses(a: u8, b: u8, extra_count: nat)
    requires
        a <= extra_count,
        b <= extra_count,
        a != b,
    ensures
        crate::failover::peer_of(Some(Token(a)), extra_count) != crate::failover::peer_of(
            Some(Token(b)),
            extra_count,
        ),
        crate::failover::peer_of(Some(Token(0)), extra_count) == Peer::Primary,
{
}

} // verus!
