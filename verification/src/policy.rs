use vstd::prelude::*;
use vstd::string::StrSliceExecFns;
use crate::store::texts_of;

verus! {

/// Number of messages that must arrive since the last reply before the
/// counter-threshold policy fires.
pub const REPLY_THRESHOLD: u8 = 3;

/// `needle` occurs contiguously somewhere in `hay`.
pub open spec fn seq_contains(hay: Seq<char>, needle: Seq<char>) -> bool {
    exists|i: int|
        0 <= i && i + needle.len() <= hay.len() && #[trigger] hay.subrange(
            i,
            i + needle.len() as int,
        ) == needle
}

/// The history is non-empty and its most recent entry contains `token`.
pub open spec fn mention_in_last(history: Seq<Seq<char>>, token: Seq<char>) -> bool {
    history.len() > 0 && seq_contains(history.last(), token)
}

/// The probabilistic-or-mention rule: a winning random draw or a mention of
/// the bot in the most recent message fires; an empty history never fires.
pub open spec fn prob_or_mention_triggers(
    history: Seq<Seq<char>>,
    token: Seq<char>,
    random_hit: bool,
) -> bool {
    history.len() > 0 && (random_hit || seq_contains(history.last(), token))
}

/// The counter-threshold rule: enough messages are pending since the last
/// generated reply.
pub open spec fn counter_triggers(pending: nat) -> bool {
    pending >= REPLY_THRESHOLD
}

/// The three reply-trigger strategies. Each is a pure decision over the
/// store's state and the turn's metadata; the random draw is made by the
/// caller and handed in as a plain boolean.
#[derive(Clone, Copy, PartialEq, Eq, Structural, Debug)]
pub enum TriggerPolicy {
    /// Reply on a winning fair random draw, or whenever the most recent
    /// message mentions the bot.
    ProbabilisticOrMention,
    /// Reply once `REPLY_THRESHOLD` messages have arrived since the last
    /// reply.
    CounterThreshold,
    /// Reply exactly when the most recent message mentions the bot.
    MentionAddressing,
}

/// What the chosen policy decides for a history, a pending count, the bot's
/// mention token and the turn's random draw.
pub open spec fn triggers(
    policy: TriggerPolicy,
    history: Seq<Seq<char>>,
    pending: nat,
    token: Seq<char>,
    random_hit: bool,
) -> bool {
    match policy {
        TriggerPolicy::ProbabilisticOrMention => prob_or_mention_triggers(
            history,
            token,
            random_hit,
        ),
        TriggerPolicy::CounterThreshold => counter_triggers(pending),
        TriggerPolicy::MentionAddressing => mention_in_last(history, token),
    }
}

/// Whether `needle`'s characters match `hay` at character offset `at`.
fn matches_at(hay: &str, needle: &str, at: usize) -> (r: bool)
    requires
        at + needle@.len() <= hay@.len(),
    ensures
        r == (hay@.subrange(at as int, at + needle@.len()) == needle@),
{
    let n = hay.unicode_len();
    let m = needle.unicode_len();
    let mut j: usize = 0;
    while j < m
        invariant
            n == hay@.len(),
            at + m <= n,
            m == needle@.len(),
            j <= m,
            forall|l: int| 0 <= l < j ==> hay@[at + l] == needle@[l],
        decreases m - j,
    {
        if hay.get_char(at + j) != needle.get_char(j) {
            proof {
                assert(hay@.subrange(at as int, at + needle@.len())[j as int] == hay@[at + j]);
            }
            return false;
        }
        j = j + 1;
    }
    proof {
        assert(hay@.subrange(at as int, at + needle@.len()) =~= needle@);
    }
    true
}

/// Whether `needle` occurs contiguously in `hay`, comparing by character.
pub fn contains_token(hay: &str, needle: &str) -> (found: bool)
    ensures
        found == seq_contains(hay@, needle@),
{
    let n = hay.unicode_len();
    let m = needle.unicode_len();
    if m > n {
        return false;
    }
    if m == 0 {
        proof {
            assert(hay@.subrange(0, 0 + needle@.len() as int) =~= needle@);
        }
        return true;
    }
    let mut i: usize = 0;
    while i <= n - m
        invariant
            n == hay@.len(),
            m == needle@.len(),
            1 <= m <= n,
            i <= n - m + 1,
            forall|k: int| 0 <= k < i ==> #[trigger] hay@.subrange(k, k + m as int) != needle@,
        decreases n - m + 1 - i,
    {
        if matches_at(hay, needle, i) {
            return true;
        }
        i = i + 1;
    }
    proof {
        assert(!seq_contains(hay@, needle@)) by {
            if seq_contains(hay@, needle@) {
                let k = choose|k: int|
                    0 <= k && k + needle@.len() <= hay@.len() && #[trigger] hay@.subrange(
                        k,
                        k + needle@.len() as int,
                    ) == needle@;
                assert(hay@.subrange(k, k + m as int) != needle@);
            }
        }
    }
    false
}

impl TriggerPolicy {
    /// Decides whether this turn should produce a reply, given a snapshot of
    /// the history (oldest first), the pending-message count, the bot's
    /// mention token, and whether the turn's fair random draw won.
    pub fn evaluate(&self, history: &Vec<String>, pending: u8, token: &str, random_hit: bool) -> (fire:
        bool)
        ensures
            fire == triggers(*self, texts_of(history@), pending as nat, token@, random_hit),
    {
        match self {
            TriggerPolicy::ProbabilisticOrMention => {
                if history.len() == 0 {
                    false
                } else if random_hit {
                    true
                } else {
                    let r = contains_token(&history[history.len() - 1], token);
                    proof {
                        assert(history@[history@.len() - 1]@ == texts_of(history@).last());
                    }
                    r
                }
            },
            TriggerPolicy::CounterThreshold => pending >= REPLY_THRESHOLD,
            TriggerPolicy::MentionAddressing => {
                if history.len() == 0 {
                    false
                } else {
                    let r = contains_token(&history[history.len() - 1], token);
                    proof {
                        assert(history@[history@.len() - 1]@ == texts_of(history@).last());
                    }
                    r
                }
            },
        }
    }
}

/// The mention rule overrides the random draw: whenever the most recent
/// message contains the token, the probabilistic-or-mention policy fires,
/// however the draw came out.
pub proof fn lemma_mention_overrides_random(
    history: Seq<Seq<char>>,
    token: Seq<char>,
    random_hit: bool,
)
    requires
        history.len() > 0,
        seq_contains(history.last(), token),
    ensures
        prob_or_mention_triggers(history, token, random_hit),
{
}

/// A winning random draw overrides the mention rule: on a non-empty history
/// the probabilistic-or-mention policy fires, whatever the messages hold.
pub proof fn lemma_random_hit_triggers(history: Seq<Seq<char>>, token: Seq<char>)
    requires
        history.len() > 0,
    ensures
        prob_or_mention_triggers(history, token, true),
{
}

} // verus!
