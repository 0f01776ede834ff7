use vstd::prelude::*;
use crate::policy::REPLY_THRESHOLD;
use crate::policy::TriggerPolicy;
use crate::policy::triggers;
use crate::store::ConversationStore;
use crate::store::append_model;
use crate::store::texts_of;

verus! {

/// Whether the turn that appends `text` fires a reply, for the given policy
/// and the store state before the turn.
pub open spec fn turn_fires(
    policy: TriggerPolicy,
    h0: Seq<Seq<char>>,
    cap: nat,
    pending0: nat,
    text: Seq<char>,
    token: Seq<char>,
    random_hit: bool,
) -> bool {
    triggers(policy, append_model(h0, cap, text), pending0, token, random_hit)
}

/// The history after the turn: the appended (and capacity-evicted) history;
/// under the counter policy a firing turn additionally evicts the oldest
/// entry before the request snapshot is taken.
pub open spec fn turn_history(
    policy: TriggerPolicy,
    h0: Seq<Seq<char>>,
    cap: nat,
    pending0: nat,
    text: Seq<char>,
    token: Seq<char>,
    random_hit: bool,
) -> Seq<Seq<char>> {
    let h1 = append_model(h0, cap, text);
    if policy == TriggerPolicy::CounterThreshold && turn_fires(
        policy,
        h0,
        cap,
        pending0,
        text,
        token,
        random_hit,
    ) {
        h1.skip(1)
    } else {
        h1
    }
}

/// The pending counter after the turn. Only the counter policy maintains
/// it: a firing turn resets it to zero, any other arrival increments it
/// (saturating); the other policies leave it untouched.
pub open spec fn turn_pending(policy: TriggerPolicy, pending0: nat, fires: bool) -> nat {
    if policy == TriggerPolicy::CounterThreshold {
        if fires {
            0
        } else if pending0 < 255 {
            (pending0 + 1) as nat
        } else {
            pending0
        }
    } else {
        pending0
    }
}

/// One turn of the dispatch loop's handler: appends the arriving message
/// text to the store, lets the policy decide, and — when a reply is owed —
/// returns the history snapshot from which the completion request is to be
/// built. The caller performs the completion call and the outbound send;
/// this function does no I/O.
pub fn handle_incoming(
    store: &mut ConversationStore,
    policy: &TriggerPolicy,
    text: String,
    token: &str,
    random_hit: bool,
) -> (to_send: Option<Vec<String>>)
    requires
        old(store).well_formed(),
    ensures
        final(store).well_formed(),
        final(store).cap() == old(store).cap(),
        (to_send is Some) == turn_fires(
            *policy,
            old(store).history(),
            old(store).cap(),
            old(store).pending(),
            text@,
            token@,
            random_hit,
        ),
        final(store).history() == turn_history(
            *policy,
            old(store).history(),
            old(store).cap(),
            old(store).pending(),
            text@,
            token@,
            random_hit,
        ),
        final(store).pending() == turn_pending(
            *policy,
            old(store).pending(),
            to_send is Some,
        ),
        to_send matches Some(snap) ==> texts_of(snap@) == final(store).history(),
{
    store.append(text);
    let snap = store.snapshot();
    let pending = store.pending_count();
    let fire = policy.evaluate(&snap, pending, token, random_hit);
    if fire {
        match policy {
            TriggerPolicy::CounterThreshold => {
                store.evict_oldest();
                store.reset_pending();
                Option::Some(store.snapshot())
            },
            _ => Option::Some(snap),
        }
    } else {
        match policy {
            TriggerPolicy::CounterThreshold => {
                store.increment_pending();
            },
            _ => {},
        }
        Option::None
    }
}

/// Under the counter-threshold policy the turn fires exactly when at least
/// `REPLY_THRESHOLD` messages are pending before the arriving message is
/// appended; a firing turn resets the counter to zero, and a non-firing
/// turn never decreases it.
pub proof fn lemma_counter_policy(
    h0: Seq<Seq<char>>,
    cap: nat,
    pending0: nat,
    text: Seq<char>,
    token: Seq<char>,
    random_hit: bool,
)
    ensures
        ({
            let fires = turn_fires(
                TriggerPolicy::CounterThreshold,
                h0,
                cap,
                pending0,
                text,
                token,
                random_hit,
            );
            &&& fires == (pending0 >= REPLY_THRESHOLD)
            &&& fires ==> turn_pending(TriggerPolicy::CounterThreshold, pending0, fires) == 0
            &&& !fires ==> turn_pending(TriggerPolicy::CounterThreshold, pending0, fires)
                >= pending0
        }),
{
}

} // verus!
