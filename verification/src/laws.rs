//! What holds of every run of the bridge, proved over the model.
//!
//! Each operation of the bridge is one step of the model, so whatever is
//! proved here of every sequence of events holds of every sequence of calls,
//! in whatever order threads that take turns on the bridge make them. That
//! they take turns is the caller's part: the bridge is handed out by `&mut`.
//!
//! The laws ask for a well-formed state; a well-formed bridge has one, by
//! `Bridge::lemma_wf_view`.

use vstd::prelude::*;
use crate::error::ErrorCode;
use crate::model::{BridgeState, Delivery, Event};
use crate::payload::{IndyHandle, Outcome, Payload};
use crate::registry::PendingCall;
use crate::results::Received;
use crate::waiter::{CallStyle, Next};

verus! {

/// A step keeps the state well formed.
pub proof fn lemma_step_preserves_wf<S, F>(s: BridgeState<S, F>, event: Event<S, F>)
    requires
        s.wf(),
    ensures
        s.step(event).wf(),
{
    let after = s.step(event);
    assert forall|t: IndyHandle| #[trigger] after.pending.contains_key(t) implies 1 <= t
        < after.next by {
        if !s.pending.contains_key(t) {
            assert(event is Register);
            assert(t == s.next);
        }
    }
}

/// A run keeps the state well formed.
pub proof fn lemma_run_preserves_wf<S, F>(s: BridgeState<S, F>, events: Seq<Event<S, F>>)
    requires
        s.wf(),
    ensures
        s.run(events).wf(),
    decreases events.len(),
{
    if events.len() > 0 {
        lemma_step_preserves_wf(s, events[0]);
        lemma_run_preserves_wf(s.step(events[0]), events.drop_first());
    }
}

/// A run in two parts ends where the second part ends, and delivers what
/// both parts deliver, in that order.
pub proof fn lemma_run_in_two_parts<S, F>(
    s: BridgeState<S, F>,
    first: Seq<Event<S, F>>,
    second: Seq<Event<S, F>>,
    token: IndyHandle,
)
    ensures
        s.run(first + second) == s.run(first).run(second),
        s.deliveries(first + second, token) == s.deliveries(first, token) + s.run(
            first,
        ).deliveries(second, token),
    decreases first.len(),
{
    if first.len() == 0 {
        assert(first + second =~= second);
        assert(s.deliveries(first, token) + s.deliveries(second, token) =~= s.deliveries(
            second,
            token,
        ));
    } else {
        let all = first + second;
        assert(all[0] == first[0]);
        assert(all.drop_first() =~= first.drop_first() + second);
        let s1 = s.step(first[0]);
        lemma_run_in_two_parts(s1, first.drop_first(), second, token);
        let tail_first = s1.deliveries(first.drop_first(), token);
        let tail_second = s1.run(first.drop_first()).deliveries(second, token);
        match s.delivered(first[0]) {
            Some(d) if d.token == token => {
                assert(seq![d] + (tail_first + tail_second) =~= (seq![d] + tail_first)
                    + tail_second);
            },
            _ => {},
        }
    }
}

/// Once a token is retired, no run delivers anything for it.
pub proof fn lemma_retired_token_gets_nothing<S, F>(
    s: BridgeState<S, F>,
    events: Seq<Event<S, F>>,
    token: IndyHandle,
)
    requires
        s.retired(token),
    ensures
        s.deliveries(events, token) == Seq::<Delivery<S, F>>::empty(),
        s.run(events).retired(token),
    decreases events.len(),
{
    if events.len() > 0 {
        assert(s.step(events[0]).retired(token));
        lemma_retired_token_gets_nothing(s.step(events[0]), events.drop_first(), token);
    }
}

/// No double delivery: whatever happens, in whatever order, at most one
/// completion is delivered for any one token.
pub proof fn law_at_most_one_delivery<S, F>(
    s: BridgeState<S, F>,
    events: Seq<Event<S, F>>,
    token: IndyHandle,
)
    requires
        s.wf(),
    ensures
        s.deliveries(events, token).len() <= 1,
    decreases events.len(),
{
    if events.len() > 0 {
        let s1 = s.step(events[0]);
        lemma_step_preserves_wf(s, events[0]);
        match s.delivered(events[0]) {
            Some(d) if d.token == token => {
                assert(s.pending.contains_key(token));
                assert(s1.retired(token));
                lemma_retired_token_gets_nothing(s1, events.drop_first(), token);
            },
            _ => {
                law_at_most_one_delivery(s1, events.drop_first(), token);
            },
        }
    }
}

/// An early error ends the call: once the native function has returned a
/// failure for an issued token, nothing is ever delivered for that token,
/// whatever the native side does afterwards.
pub proof fn law_early_error_delivers_nothing<S, F>(
    s: BridgeState<S, F>,
    token: IndyHandle,
    raw: i32,
    events: Seq<Event<S, F>>,
)
    requires
        token < s.next,
        ErrorCode::of_native(raw) != ErrorCode::Success,
    ensures
        s.settle(token, raw).deliveries(events, token) == Seq::<Delivery<S, F>>::empty(),
{
    lemma_retired_token_gets_nothing(s.settle(token, raw), events, token);
}

/// The registry, not the caller, owns a pending call: through any run
/// without a failed settlement or a completion for its token, the call stays
/// pending, unchanged, and nothing is delivered for it. What other tokens go
/// through, and whether the caller still waits, makes no difference.
pub proof fn law_entry_outlives_caller<S, F>(
    s: BridgeState<S, F>,
    events: Seq<Event<S, F>>,
    token: IndyHandle,
)
    requires
        s.wf(),
        s.pending.contains_key(token),
        forall|i: int| 0 <= i < events.len() ==> !(#[trigger] events[i]).concerns(token),
    ensures
        s.run(events).pending.contains_key(token),
        s.run(events).pending[token] == s.pending[token],
        s.deliveries(events, token) == Seq::<Delivery<S, F>>::empty(),
    decreases events.len(),
{
    if events.len() > 0 {
        let s1 = s.step(events[0]);
        let rest = events.drop_first();
        assert(!events[0].concerns(token));
        lemma_step_preserves_wf(s, events[0]);
        assert(s1.pending.contains_key(token) && s1.pending[token] == s.pending[token]);
        assert forall|i: int| 0 <= i < rest.len() implies !(#[trigger] rest[i]).concerns(
            token,
        ) by {
            assert(rest[i] == events[i + 1]);
        }
        law_entry_outlives_caller(s1, rest, token);
    }
}

/// Exactly one delivery for a call that was scheduled: if a call is pending
/// and the run up to its completion holds no failed settlement and no other
/// completion for its token, then the completion delivers its outcome to
/// that call, and the whole run, whatever follows, delivers nothing else for
/// the token.
pub proof fn law_exactly_one_delivery<S, F>(
    s: BridgeState<S, F>,
    before: Seq<Event<S, F>>,
    token: IndyHandle,
    raw: i32,
    payload: Payload,
    after: Seq<Event<S, F>>,
)
    requires
        s.wf(),
        s.pending.contains_key(token),
        s.pending[token].spec_shape() == payload.spec_shape(),
        forall|i: int| 0 <= i < before.len() ==> !(#[trigger] before[i]).concerns(token),
    ensures
        s.deliveries(before + seq![Event::Complete { token, raw, payload }] + after, token)
            == seq![
            Delivery { token, to: s.pending[token], outcome: Outcome::of_completion(raw, payload) },
        ],
{
    let completion = Event::<S, F>::Complete { token, raw, payload };
    let s1 = s.run(before);
    law_entry_outlives_caller(s, before, token);
    lemma_run_preserves_wf(s, before);
    let d = Delivery { token, to: s.pending[token], outcome: Outcome::of_completion(raw, payload) };
    assert(s1.delivered(completion) == Some(d));
    let s2 = s1.step(completion);
    assert(s2.retired(token));
    lemma_retired_token_gets_nothing(s2, after, token);
    let tail = seq![completion] + after;
    assert(tail[0] == completion);
    assert(tail.drop_first() =~= after);
    assert(s1.deliveries(tail, token) =~= seq![d]);
    assert(before + seq![completion] + after =~= before + tail);
    lemma_run_in_two_parts(s, before, tail, token);
    assert(s.deliveries(before, token) + s1.deliveries(tail, token) =~= seq![d]);
}

/// No cross-delivery: whatever a run delivers for the token of a pending
/// call goes to that very call, however the events of other tokens are
/// interleaved with it.
pub proof fn law_delivery_goes_to_owner<S, F>(
    s: BridgeState<S, F>,
    events: Seq<Event<S, F>>,
    token: IndyHandle,
    i: int,
)
    requires
        s.wf(),
        s.pending.contains_key(token),
        0 <= i < s.deliveries(events, token).len(),
    ensures
        s.deliveries(events, token)[i].token == token,
        s.deliveries(events, token)[i].to == s.pending[token],
    decreases events.len(),
{
    if events.len() > 0 {
        let s1 = s.step(events[0]);
        let rest = events.drop_first();
        lemma_step_preserves_wf(s, events[0]);
        match s.delivered(events[0]) {
            Some(d) if d.token == token => {
                assert(s1.retired(token));
                lemma_retired_token_gets_nothing(s1, rest, token);
                assert(s.deliveries(events, token) =~= seq![d]);
            },
            _ => {
                if s1.pending.contains_key(token) {
                    assert(s1.pending[token] == s.pending[token]);
                    law_delivery_goes_to_owner(s1, rest, token, i);
                } else {
                    assert(s1.retired(token));
                    lemma_retired_token_gets_nothing(s1, rest, token);
                }
            },
        }
    }
}

/// Completions for different tokens are independent: in either order they
/// deliver the same to each of the two calls and leave the same state.
pub proof fn law_completions_commute<S, F>(
    s: BridgeState<S, F>,
    token_a: IndyHandle,
    raw_a: i32,
    payload_a: Payload,
    token_b: IndyHandle,
    raw_b: i32,
    payload_b: Payload,
)
    requires
        token_a != token_b,
    ensures
        s.discard(token_a).discard(token_b) == s.discard(token_b).discard(token_a),
        s.discard(token_a).delivery(token_b, raw_b, payload_b) == s.delivery(
            token_b,
            raw_b,
            payload_b,
        ),
        s.discard(token_b).delivery(token_a, raw_a, payload_a) == s.delivery(
            token_a,
            raw_a,
            payload_a,
        ),
{
    assert(s.pending.remove(token_a).remove(token_b) =~= s.pending.remove(token_b).remove(
        token_a,
    ));
}

/// Tokens do not collide: a token that is issued is larger than every token
/// that is pending, and the call registered under it is the only thing that
/// changes in the registry. Where no token is left, nothing changes at all.
pub proof fn law_issued_token_is_fresh<S, F>(s: BridgeState<S, F>, call: PendingCall<S, F>)
    requires
        s.wf(),
    ensures
        match s.issued_by_register() {
            Some(token) => {
                &&& !s.pending.contains_key(token)
                &&& forall|t: IndyHandle| s.pending.contains_key(t) ==> t < token
                &&& s.register(call).pending == s.pending.insert(token, call)
                &&& s.register(call).next == s.next + 1
            },
            None => s.register(call) == s,
        },
{
    if s.can_issue() {
        let token = s.next as IndyHandle;
        if s.pending.contains_key(token) {
            assert(token < s.next);
        }
        assert forall|t: IndyHandle| s.pending.contains_key(t) implies t < token by {
            assert(t < s.next);
        }
    }
}

/// Tokens are issued in increasing order: no run lowers the token that comes
/// next.
pub proof fn lemma_next_never_decreases<S, F>(s: BridgeState<S, F>, events: Seq<Event<S, F>>)
    ensures
        s.next <= s.run(events).next,
    decreases events.len(),
{
    if events.len() > 0 {
        lemma_next_never_decreases(s.step(events[0]), events.drop_first());
    }
}

/// Nothing is delivered for a token before it is issued: a run delivers
/// nothing for any token that is still to come at its end.
pub proof fn lemma_nothing_before_issue<S, F>(
    s: BridgeState<S, F>,
    events: Seq<Event<S, F>>,
    token: IndyHandle,
)
    requires
        s.wf(),
        s.run(events).next <= token,
    ensures
        s.deliveries(events, token) == Seq::<Delivery<S, F>>::empty(),
    decreases events.len(),
{
    if events.len() > 0 {
        let s1 = s.step(events[0]);
        lemma_step_preserves_wf(s, events[0]);
        lemma_next_never_decreases(s, events);
        if s.pending.contains_key(token) {
            assert(token < s.next);
        }
        lemma_nothing_before_issue(s1, events.drop_first(), token);
    }
}

/// Every call is served alone. Take any run, a call registered after it,
/// and any run after that: calls of other callers registered, settled and
/// completed in any number and in any order. Then nothing was delivered for
/// the call's token before the registration, at most one delivery follows
/// it, and that delivery goes to this call and to no other. Where no token
/// was left, the call was not registered and the bridge did not change.
pub proof fn law_call_is_served_alone<S, F>(
    s: BridgeState<S, F>,
    before: Seq<Event<S, F>>,
    call: PendingCall<S, F>,
    after: Seq<Event<S, F>>,
)
    requires
        s.wf(),
    ensures
        match s.run(before).issued_by_register() {
            Some(token) => {
                let served = s.run(before).register(call).deliveries(after, token);
                &&& s.deliveries(before, token) == Seq::<Delivery<S, F>>::empty()
                &&& served.len() <= 1
                &&& forall|k: int|
                    0 <= k < served.len() ==> (#[trigger] served[k]).to == call && served[k].token
                        == token
            },
            None => s.run(before).register(call) == s.run(before),
        },
{
    let s1 = s.run(before);
    lemma_run_preserves_wf(s, before);
    if s1.can_issue() {
        let token = s1.next as IndyHandle;
        let s2 = s1.register(call);
        lemma_nothing_before_issue(s, before, token);
        lemma_step_preserves_wf(s1, Event::Register { call });
        assert(s2 == s1.step(Event::Register { call }));
        law_at_most_one_delivery(s2, after, token);
        let served = s2.deliveries(after, token);
        assert forall|k: int| 0 <= k < served.len() implies (#[trigger] served[k]).to == call
            && served[k].token == token by {
            law_delivery_goes_to_owner(s2, after, token, k);
        }
    }
}

/// A call that fails at once is over. Register a call in any state and let
/// the native function return a failure: every style returns that very
/// status without waiting, the registry is again as it was before the call,
/// and no run ever delivers anything for the call's token, so its sender is
/// never sent on and its continuation never called.
pub proof fn law_failed_call_is_never_completed<S, F>(
    s: BridgeState<S, F>,
    call: PendingCall<S, F>,
    style: CallStyle,
    raw: i32,
    events: Seq<Event<S, F>>,
)
    requires
        s.wf(),
        ErrorCode::of_native(raw) != ErrorCode::Success,
    ensures
        style.next_after(raw) == Next::Return(ErrorCode::of_native(raw)),
        ErrorCode::of_native(raw).native_code() == Some(raw as int),
        s.issued_by_register() matches Some(token) ==> {
            let settled = s.register(call).settle(token, raw);
            &&& settled.pending == s.pending
            &&& !settled.pending.contains_key(token)
            &&& settled.deliveries(events, token) == Seq::<Delivery<S, F>>::empty()
        },
{
    if s.can_issue() {
        let token = s.next as IndyHandle;
        let settled = s.register(call).settle(token, raw);
        if s.pending.contains_key(token) {
            assert(token < s.next);
        }
        assert(settled.pending =~= s.pending);
        lemma_retired_token_gets_nothing(settled, events, token);
    }
}

/// A call that was scheduled is completed exactly once, by a failure as by
/// a success. Register a call in any state and let the native function
/// return success; let any run follow that holds no failed settlement and no
/// completion for the call's token, then the completion, then any run at
/// all. Then the whole run delivers for the token exactly one outcome, to
/// this call: the status and the values of the completion, as they came.
pub proof fn law_scheduled_call_is_completed_once<S, F>(
    s: BridgeState<S, F>,
    call: PendingCall<S, F>,
    immediate: i32,
    before: Seq<Event<S, F>>,
    raw: i32,
    payload: Payload,
    after: Seq<Event<S, F>>,
)
    requires
        s.wf(),
        ErrorCode::of_native(immediate) == ErrorCode::Success,
        call.spec_shape() == payload.spec_shape(),
        s.issued_by_register() matches Some(token) ==> forall|i: int|
            0 <= i < before.len() ==> !(#[trigger] before[i]).concerns(token),
    ensures
        s.issued_by_register() matches Some(token) ==> s.register(call).settle(
            token,
            immediate,
        ).deliveries(before + seq![Event::Complete { token, raw, payload }] + after, token)
            == seq![
            Delivery {
                token,
                to: call,
                outcome: Outcome { status: ErrorCode::of_native(raw), payload: Some(payload) },
            },
        ],
{
    if s.can_issue() {
        let token = s.next as IndyHandle;
        let registered = s.register(call);
        lemma_step_preserves_wf(s, Event::Register { call });
        assert(registered == s.step(Event::Register { call }));
        law_exactly_one_delivery(registered, before, token, raw, payload, after);
    }
}

/// A timeout does not cancel: a blocking caller whose deadline passes gets
/// the timeout status, while the settlement that let it wait has left the
/// registry as it was, so that the completion, when it comes, still finds
/// the call and is delivered to it.
pub proof fn law_timeout_does_not_cancel<S, F>(
    s: BridgeState<S, F>,
    token: IndyHandle,
    immediate: i32,
    nanos: i128,
    raw: i32,
    payload: Payload,
)
    requires
        s.pending.contains_key(token),
        s.pending[token].spec_shape() == payload.spec_shape(),
        ErrorCode::of_native(immediate) == ErrorCode::Success,
    ensures
        s.settle(token, immediate) == s,
        nanos <= 0 ==> (CallStyle::BlockingWithTimeout { nanos }).next_after(immediate)
            == Next::Return(ErrorCode::TimeoutExpired),
        Received::Expired.as_result() == Err::<Payload, ErrorCode>(ErrorCode::TimeoutExpired),
        s.settle(token, immediate).delivery(token, raw, payload) == Some(
            Delivery { token, to: s.pending[token], outcome: Outcome::of_completion(raw, payload) },
        ),
{
}

} // verus!
