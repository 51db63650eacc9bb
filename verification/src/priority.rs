//! Content-based priority classification for outbound messages.
//!
//! A message is assigned to one of four ordered tiers by scanning it for
//! fixed marker substrings, so the classifier works both on fully
//! serialized JSON (tagged-field markers such as `"type":"auth"`) and on
//! lightweight discriminant strings (bare capitalized tokens such as
//! `AuthInit`). Matching is purely textual: a message whose payload happens
//! to contain a marker is classified by that marker, a known limitation of
//! the substring convention.

use core::cmp::Ordering;
use vstd::prelude::*;
use vstd::std_specs::cmp::PartialOrdSpec;

verus! {

/// Whether `pat` occurs in `text` as a contiguous run of characters.
pub open spec fn contains_seq(text: Seq<char>, pat: Seq<char>) -> bool {
    exists|i: int|
        0 <= i && i + pat.len() <= text.len() && #[trigger] text.subrange(i, i + pat.len()) == pat
}

/// Markers of the Critical tier: authentication and key-exchange traffic,
/// in both the tagged-field and the bare-token convention.
pub open spec fn is_critical_text(t: Seq<char>) -> bool {
    ||| contains_seq(t, "\"type\":\"auth\""@)
    ||| contains_seq(t, "\"type\":\"auth_init\""@)
    ||| contains_seq(t, "\"type\":\"auth_response\""@)
    ||| contains_seq(t, "\"type\":\"key_exchange\""@)
    ||| contains_seq(t, "KeyExchange"@)
    ||| contains_seq(t, "AuthInit"@)
    ||| contains_seq(t, "AuthResponse"@)
}

/// Markers of the High tier: entropy contributions and peer membership.
pub open spec fn is_high_text(t: Seq<char>) -> bool {
    ||| contains_seq(t, "\"type\":\"entropy\""@)
    ||| contains_seq(t, "\"type\":\"entropy_commit\""@)
    ||| contains_seq(t, "\"type\":\"entropy_reveal\""@)
    ||| contains_seq(t, "\"type\":\"peer_join\""@)
    ||| contains_seq(t, "\"type\":\"peer_leave\""@)
    ||| contains_seq(t, "PeerJoined"@)
    ||| contains_seq(t, "PeerLeft"@)
}

/// Markers of the Low tier: liveness probes.
pub open spec fn is_low_text(t: Seq<char>) -> bool {
    ||| contains_seq(t, "\"type\":\"ping\""@)
    ||| contains_seq(t, "\"type\":\"pong\""@)
    ||| contains_seq(t, "Pong"@)
}

/// The tier of a message: the marker groups are tried in priority order and
/// the first group with a match wins; an unmatched message is Normal.
pub open spec fn classify(t: Seq<char>) -> MessagePriority {
    if is_critical_text(t) {
        MessagePriority::Critical
    } else if is_high_text(t) {
        MessagePriority::High
    } else if is_low_text(t) {
        MessagePriority::Low
    } else {
        MessagePriority::Normal
    }
}

/// Priority tiers for queue management, ranked by transmission urgency:
/// `Critical` bypasses the queue entirely, `Low` may be deferred.
#[derive(Debug, Clone, Copy, PartialEq, Eq, Structural, Ord)]
pub enum MessagePriority {
    /// Key exchange and authentication: send immediately.
    Critical,
    /// Entropy contributions and peer join/leave: send soon.
    High,
    /// Chat and data packets: send normally.
    Normal,
    /// Liveness probes: can be delayed.
    Low,
}

/// Relies on str::contains: true exactly when the pattern occurs as a
/// contiguous substring of the text.
#[verifier::external_body]
fn str_contains(text: &str, pattern: &str) -> (r: bool)
    ensures
        r == contains_seq(text@, pattern@),
{
    text.contains(pattern)
}

impl MessagePriority {
    /// The numeric rank of a tier; lower rank means more urgent.
    pub open spec fn rank(self) -> nat {
        match self {
            MessagePriority::Critical => 0,
            MessagePriority::High => 1,
            MessagePriority::Normal => 2,
            MessagePriority::Low => 3,
        }
    }

    fn rank_value(&self) -> (r: u8)
        ensures
            r as nat == self.rank(),
    {
        match self {
            MessagePriority::Critical => 0,
            MessagePriority::High => 1,
            MessagePriority::Normal => 2,
            MessagePriority::Low => 3,
        }
    }

    /// Determine the priority of a message from its content.
    pub fn from_message(msg: &str) -> (r: Self)
        ensures
            r == classify(msg@),
    {
        if str_contains(msg, "\"type\":\"auth\"")
            || str_contains(msg, "\"type\":\"auth_init\"")
            || str_contains(msg, "\"type\":\"auth_response\"")
            || str_contains(msg, "\"type\":\"key_exchange\"")
            || str_contains(msg, "KeyExchange")
            || str_contains(msg, "AuthInit")
            || str_contains(msg, "AuthResponse") {
            MessagePriority::Critical
        } else if str_contains(msg, "\"type\":\"entropy\"")
            || str_contains(msg, "\"type\":\"entropy_commit\"")
            || str_contains(msg, "\"type\":\"entropy_reveal\"")
            || str_contains(msg, "\"type\":\"peer_join\"")
            || str_contains(msg, "\"type\":\"peer_leave\"")
            || str_contains(msg, "PeerJoined")
            || str_contains(msg, "PeerLeft") {
            MessagePriority::High
        } else if str_contains(msg, "\"type\":\"ping\"")
            || str_contains(msg, "\"type\":\"pong\"")
            || str_contains(msg, "Pong") {
            MessagePriority::Low
        } else {
            MessagePriority::Normal
        }
    }

    /// Whether a message of this priority should skip the queue entirely.
    pub fn is_critical(&self) -> (r: bool)
        ensures
            r == (*self == MessagePriority::Critical),
    {
        matches!(self, MessagePriority::Critical)
    }
}

impl PartialOrd for MessagePriority {
    fn partial_cmp(&self, other: &Self) -> (r: Option<Ordering>) {
        let a = self.rank_value();
        let b = other.rank_value();
        if a < b {
            Some(Ordering::Less)
        } else if a == b {
            Some(Ordering::Equal)
        } else {
            Some(Ordering::Greater)
        }
    }
}

impl vstd::std_specs::cmp::PartialOrdSpecImpl for MessagePriority {
    open spec fn obeys_partial_cmp_spec() -> bool {
        true
    }

    open spec fn partial_cmp_spec(&self, other: &Self) -> Option<Ordering> {
        if self.rank() < other.rank() {
            Some(Ordering::Less)
        } else if self.rank() == other.rank() {
            Some(Ordering::Equal)
        } else {
            Some(Ordering::Greater)
        }
    }
}

/// The four tiers form the total order `Critical < High < Normal < Low`
/// under the comparison the type exposes.
pub proof fn lemma_priority_order()
    ensures
        MessagePriority::Critical.partial_cmp_spec(&MessagePriority::High) == Some(Ordering::Less),
        MessagePriority::High.partial_cmp_spec(&MessagePriority::Normal) == Some(Ordering::Less),
        MessagePriority::Normal.partial_cmp_spec(&MessagePriority::Low) == Some(Ordering::Less),
        forall|a: MessagePriority, b: MessagePriority|
            #[trigger] a.partial_cmp_spec(&b) == Some(Ordering::Less) <==> a.rank() < b.rank(),
{
}

// The lemmas below establish that no marker literal contains a marker of
// another tier. Each per-marker lemma exhibits, for every marker of the
// other tiers, an offset whose character never matches at any position of
// the literal, which rules the containment out.
proof fn lemma_contains_self(t: Seq<char>)
    ensures
        contains_seq(t, t),
{
    assert(t.subrange(0, 0 + t.len() as int) =~= t);
}

proof fn lemma_absent_at_offset(text: Seq<char>, pat: Seq<char>, k: int)
    requires
        0 <= k < pat.len(),
        forall|i: int| 0 <= i && i + pat.len() <= text.len() ==> #[trigger] text[i + k] != pat[k],
    ensures
        !contains_seq(text, pat),
{
    assert forall|i: int|
        0 <= i && i + pat.len() <= text.len() implies #[trigger] text.subrange(
        i,
        i + pat.len(),
    ) != pat by {
        assert(text.subrange(i, i + pat.len())[k] == text[i + k]);
    }
}

#[verifier::rlimit(60)]
proof fn lemma_marker_auth_tag()
    ensures
        is_critical_text("\"type\":\"auth\""@) && !is_high_text("\"type\":\"auth\""@) && !is_low_text("\"type\":\"auth\""@),
{
    assert(contains_seq("\"type\":\"auth\""@, "\"type\":\"auth\""@)) by {
        lemma_contains_self("\"type\":\"auth\""@);
    }
    assert(!contains_seq("\"type\":\"auth\""@, "\"type\":\"entropy\""@)) by {
        reveal_strlit("\"type\":\"auth\"");
        reveal_strlit("\"type\":\"entropy\"");
        lemma_absent_at_offset("\"type\":\"auth\""@, "\"type\":\"entropy\""@, 0);
    }
    assert(!contains_seq("\"type\":\"auth\""@, "\"type\":\"entropy_commit\""@)) by {
        reveal_strlit("\"type\":\"auth\"");
        reveal_strlit("\"type\":\"entropy_commit\"");
        lemma_absent_at_offset("\"type\":\"auth\""@, "\"type\":\"entropy_commit\""@, 0);
    }
    assert(!contains_seq("\"type\":\"auth\""@, "\"type\":\"entropy_reveal\""@)) by {
        reveal_strlit("\"type\":\"auth\"");
        reveal_strlit("\"type\":\"entropy_reveal\"");
        lemma_absent_at_offset("\"type\":\"auth\""@, "\"type\":\"entropy_reveal\""@, 0);
    }
    assert(!contains_seq("\"type\":\"auth\""@, "\"type\":\"peer_join\""@)) by {
        reveal_strlit("\"type\":\"auth\"");
        reveal_strlit("\"type\":\"peer_join\"");
        lemma_absent_at_offset("\"type\":\"auth\""@, "\"type\":\"peer_join\""@, 0);
    }
    assert(!contains_seq("\"type\":\"auth\""@, "\"type\":\"peer_leave\""@)) by {
        reveal_strlit("\"type\":\"auth\"");
        reveal_strlit("\"type\":\"peer_leave\"");
        lemma_absent_at_offset("\"type\":\"auth\""@, "\"type\":\"peer_leave\""@, 0);
    }
    assert(!contains_seq("\"type\":\"auth\""@, "PeerJoined"@)) by {
        reveal_strlit("\"type\":\"auth\"");
        reveal_strlit("PeerJoined");
        lemma_absent_at_offset("\"type\":\"auth\""@, "PeerJoined"@, 0);
    }
    assert(!contains_seq("\"type\":\"auth\""@, "PeerLeft"@)) by {
        reveal_strlit("\"type\":\"auth\"");
        reveal_strlit("PeerLeft");
        lemma_absent_at_offset("\"type\":\"auth\""@, "PeerLeft"@, 0);
    }
    assert(!contains_seq("\"type\":\"auth\""@, "\"type\":\"ping\""@)) by {
        reveal_strlit("\"type\":\"auth\"");
        reveal_strlit("\"type\":\"ping\"");
        lemma_absent_at_offset("\"type\":\"auth\""@, "\"type\":\"ping\""@, 8);
    }
    assert(!contains_seq("\"type\":\"auth\""@, "\"type\":\"pong\""@)) by {
        reveal_strlit("\"type\":\"auth\"");
        reveal_strlit("\"type\":\"pong\"");
        lemma_absent_at_offset("\"type\":\"auth\""@, "\"type\":\"pong\""@, 8);
    }
    assert(!contains_seq("\"type\":\"auth\""@, "Pong"@)) by {
        reveal_strlit("\"type\":\"auth\"");
        reveal_strlit("Pong");
        lemma_absent_at_offset("\"type\":\"auth\""@, "Pong"@, 0);
    }
}

#[verifier::rlimit(60)]
proof fn lemma_marker_auth_init_tag()
    ensures
        is_critical_text("\"type\":\"auth_init\""@) && !is_high_text("\"type\":\"auth_init\""@) && !is_low_text("\"type\":\"auth_init\""@),
{
    assert(contains_seq("\"type\":\"auth_init\""@, "\"type\":\"auth_init\""@)) by {
        lemma_contains_self("\"type\":\"auth_init\""@);
    }
    assert(!contains_seq("\"type\":\"auth_init\""@, "\"type\":\"entropy\""@)) by {
        reveal_strlit("\"type\":\"auth_init\"");
        reveal_strlit("\"type\":\"entropy\"");
        lemma_absent_at_offset("\"type\":\"auth_init\""@, "\"type\":\"entropy\""@, 8);
    }
    assert(!contains_seq("\"type\":\"auth_init\""@, "\"type\":\"entropy_commit\""@)) by {
        reveal_strlit("\"type\":\"auth_init\"");
        reveal_strlit("\"type\":\"entropy_commit\"");
        lemma_absent_at_offset("\"type\":\"auth_init\""@, "\"type\":\"entropy_commit\""@, 0);
    }
    assert(!contains_seq("\"type\":\"auth_init\""@, "\"type\":\"entropy_reveal\""@)) by {
        reveal_strlit("\"type\":\"auth_init\"");
        reveal_strlit("\"type\":\"entropy_reveal\"");
        lemma_absent_at_offset("\"type\":\"auth_init\""@, "\"type\":\"entropy_reveal\""@, 0);
    }
    assert(!contains_seq("\"type\":\"auth_init\""@, "\"type\":\"peer_join\""@)) by {
        reveal_strlit("\"type\":\"auth_init\"");
        reveal_strlit("\"type\":\"peer_join\"");
        lemma_absent_at_offset("\"type\":\"auth_init\""@, "\"type\":\"peer_join\""@, 8);
    }
    assert(!contains_seq("\"type\":\"auth_init\""@, "\"type\":\"peer_leave\""@)) by {
        reveal_strlit("\"type\":\"auth_init\"");
        reveal_strlit("\"type\":\"peer_leave\"");
        lemma_absent_at_offset("\"type\":\"auth_init\""@, "\"type\":\"peer_leave\""@, 0);
    }
    assert(!contains_seq("\"type\":\"auth_init\""@, "PeerJoined"@)) by {
        reveal_strlit("\"type\":\"auth_init\"");
        reveal_strlit("PeerJoined");
        lemma_absent_at_offset("\"type\":\"auth_init\""@, "PeerJoined"@, 0);
    }
    assert(!contains_seq("\"type\":\"auth_init\""@, "PeerLeft"@)) by {
        reveal_strlit("\"type\":\"auth_init\"");
        reveal_strlit("PeerLeft");
        lemma_absent_at_offset("\"type\":\"auth_init\""@, "PeerLeft"@, 0);
    }
    assert(!contains_seq("\"type\":\"auth_init\""@, "\"type\":\"ping\""@)) by {
        reveal_strlit("\"type\":\"auth_init\"");
        reveal_strlit("\"type\":\"ping\"");
        lemma_absent_at_offset("\"type\":\"auth_init\""@, "\"type\":\"ping\""@, 8);
    }
    assert(!contains_seq("\"type\":\"auth_init\""@, "\"type\":\"pong\""@)) by {
        reveal_strlit("\"type\":\"auth_init\"");
        reveal_strlit("\"type\":\"pong\"");
        lemma_absent_at_offset("\"type\":\"auth_init\""@, "\"type\":\"pong\""@, 8);
    }
    assert(!contains_seq("\"type\":\"auth_init\""@, "Pong"@)) by {
        reveal_strlit("\"type\":\"auth_init\"");
        reveal_strlit("Pong");
        lemma_absent_at_offset("\"type\":\"auth_init\""@, "Pong"@, 0);
    }
}

#[verifier::rlimit(60)]
proof fn lemma_marker_auth_response_tag()
    ensures
        is_critical_text("\"type\":\"auth_response\""@) && !is_high_text("\"type\":\"auth_response\""@) && !is_low_text("\"type\":\"auth_response\""@),
{
    assert(contains_seq("\"type\":\"auth_response\""@, "\"type\":\"auth_response\""@)) by {
        lemma_contains_self("\"type\":\"auth_response\""@);
    }
    assert(!contains_seq("\"type\":\"auth_response\""@, "\"type\":\"entropy\""@)) by {
        reveal_strlit("\"type\":\"auth_response\"");
        reveal_strlit("\"type\":\"entropy\"");
        lemma_absent_at_offset("\"type\":\"auth_response\""@, "\"type\":\"entropy\""@, 9);
    }
    assert(!contains_seq("\"type\":\"auth_response\""@, "\"type\":\"entropy_commit\""@)) by {
        reveal_strlit("\"type\":\"auth_response\"");
        reveal_strlit("\"type\":\"entropy_commit\"");
        lemma_absent_at_offset("\"type\":\"auth_response\""@, "\"type\":\"entropy_commit\""@, 0);
    }
    assert(!contains_seq("\"type\":\"auth_response\""@, "\"type\":\"entropy_reveal\""@)) by {
        reveal_strlit("\"type\":\"auth_response\"");
        reveal_strlit("\"type\":\"entropy_reveal\"");
        lemma_absent_at_offset("\"type\":\"auth_response\""@, "\"type\":\"entropy_reveal\""@, 0);
    }
    assert(!contains_seq("\"type\":\"auth_response\""@, "\"type\":\"peer_join\""@)) by {
        reveal_strlit("\"type\":\"auth_response\"");
        reveal_strlit("\"type\":\"peer_join\"");
        lemma_absent_at_offset("\"type\":\"auth_response\""@, "\"type\":\"peer_join\""@, 8);
    }
    assert(!contains_seq("\"type\":\"auth_response\""@, "\"type\":\"peer_leave\""@)) by {
        reveal_strlit("\"type\":\"auth_response\"");
        reveal_strlit("\"type\":\"peer_leave\"");
        lemma_absent_at_offset("\"type\":\"auth_response\""@, "\"type\":\"peer_leave\""@, 8);
    }
    assert(!contains_seq("\"type\":\"auth_response\""@, "PeerJoined"@)) by {
        reveal_strlit("\"type\":\"auth_response\"");
        reveal_strlit("PeerJoined");
        lemma_absent_at_offset("\"type\":\"auth_response\""@, "PeerJoined"@, 0);
    }
    assert(!contains_seq("\"type\":\"auth_response\""@, "PeerLeft"@)) by {
        reveal_strlit("\"type\":\"auth_response\"");
        reveal_strlit("PeerLeft");
        lemma_absent_at_offset("\"type\":\"auth_response\""@, "PeerLeft"@, 0);
    }
    assert(!contains_seq("\"type\":\"auth_response\""@, "\"type\":\"ping\""@)) by {
        reveal_strlit("\"type\":\"auth_response\"");
        reveal_strlit("\"type\":\"ping\"");
        lemma_absent_at_offset("\"type\":\"auth_response\""@, "\"type\":\"ping\""@, 9);
    }
    assert(!contains_seq("\"type\":\"auth_response\""@, "\"type\":\"pong\""@)) by {
        reveal_strlit("\"type\":\"auth_response\"");
        reveal_strlit("\"type\":\"pong\"");
        lemma_absent_at_offset("\"type\":\"auth_response\""@, "\"type\":\"pong\""@, 11);
    }
    assert(!contains_seq("\"type\":\"auth_response\""@, "Pong"@)) by {
        reveal_strlit("\"type\":\"auth_response\"");
        reveal_strlit("Pong");
        lemma_absent_at_offset("\"type\":\"auth_response\""@, "Pong"@, 0);
    }
}

#[verifier::rlimit(60)]
proof fn lemma_marker_key_exchange_tag()
    ensures
        is_critical_text("\"type\":\"key_exchange\""@) && !is_high_text("\"type\":\"key_exchange\""@) && !is_low_text("\"type\":\"key_exchange\""@),
{
    assert(contains_seq("\"type\":\"key_exchange\""@, "\"type\":\"key_exchange\""@)) by {
        lemma_contains_self("\"type\":\"key_exchange\""@);
    }
    assert(!contains_seq("\"type\":\"key_exchange\""@, "\"type\":\"entropy\""@)) by {
        reveal_strlit("\"type\":\"key_exchange\"");
        reveal_strlit("\"type\":\"entropy\"");
        lemma_absent_at_offset("\"type\":\"key_exchange\""@, "\"type\":\"entropy\""@, 9);
    }
    assert(!contains_seq("\"type\":\"key_exchange\""@, "\"type\":\"entropy_commit\""@)) by {
        reveal_strlit("\"type\":\"key_exchange\"");
        reveal_strlit("\"type\":\"entropy_commit\"");
        lemma_absent_at_offset("\"type\":\"key_exchange\""@, "\"type\":\"entropy_commit\""@, 0);
    }
    assert(!contains_seq("\"type\":\"key_exchange\""@, "\"type\":\"entropy_reveal\""@)) by {
        reveal_strlit("\"type\":\"key_exchange\"");
        reveal_strlit("\"type\":\"entropy_reveal\"");
        lemma_absent_at_offset("\"type\":\"key_exchange\""@, "\"type\":\"entropy_reveal\""@, 0);
    }
    assert(!contains_seq("\"type\":\"key_exchange\""@, "\"type\":\"peer_join\""@)) by {
        reveal_strlit("\"type\":\"key_exchange\"");
        reveal_strlit("\"type\":\"peer_join\"");
        lemma_absent_at_offset("\"type\":\"key_exchange\""@, "\"type\":\"peer_join\""@, 8);
    }
    assert(!contains_seq("\"type\":\"key_exchange\""@, "\"type\":\"peer_leave\""@)) by {
        reveal_strlit("\"type\":\"key_exchange\"");
        reveal_strlit("\"type\":\"peer_leave\"");
        lemma_absent_at_offset("\"type\":\"key_exchange\""@, "\"type\":\"peer_leave\""@, 8);
    }
    assert(!contains_seq("\"type\":\"key_exchange\""@, "PeerJoined"@)) by {
        reveal_strlit("\"type\":\"key_exchange\"");
        reveal_strlit("PeerJoined");
        lemma_absent_at_offset("\"type\":\"key_exchange\""@, "PeerJoined"@, 0);
    }
    assert(!contains_seq("\"type\":\"key_exchange\""@, "PeerLeft"@)) by {
        reveal_strlit("\"type\":\"key_exchange\"");
        reveal_strlit("PeerLeft");
        lemma_absent_at_offset("\"type\":\"key_exchange\""@, "PeerLeft"@, 0);
    }
    assert(!contains_seq("\"type\":\"key_exchange\""@, "\"type\":\"ping\""@)) by {
        reveal_strlit("\"type\":\"key_exchange\"");
        reveal_strlit("\"type\":\"ping\"");
        lemma_absent_at_offset("\"type\":\"key_exchange\""@, "\"type\":\"ping\""@, 8);
    }
    assert(!contains_seq("\"type\":\"key_exchange\""@, "\"type\":\"pong\""@)) by {
        reveal_strlit("\"type\":\"key_exchange\"");
        reveal_strlit("\"type\":\"pong\"");
        lemma_absent_at_offset("\"type\":\"key_exchange\""@, "\"type\":\"pong\""@, 8);
    }
    assert(!contains_seq("\"type\":\"key_exchange\""@, "Pong"@)) by {
        reveal_strlit("\"type\":\"key_exchange\"");
        reveal_strlit("Pong");
        lemma_absent_at_offset("\"type\":\"key_exchange\""@, "Pong"@, 0);
    }
}

#[verifier::rlimit(60)]
proof fn lemma_marker_key_exchange_token()
    ensures
        is_critical_text("KeyExchange"@) && !is_high_text("KeyExchange"@) && !is_low_text("KeyExchange"@),
{
    assert(contains_seq("KeyExchange"@, "KeyExchange"@)) by {
        lemma_contains_self("KeyExchange"@);
    }
    assert(!contains_seq("KeyExchange"@, "\"type\":\"entropy\""@)) by {
        reveal_strlit("KeyExchange");
        reveal_strlit("\"type\":\"entropy\"");
        lemma_absent_at_offset("KeyExchange"@, "\"type\":\"entropy\""@, 0);
    }
    assert(!contains_seq("KeyExchange"@, "\"type\":\"entropy_commit\""@)) by {
        reveal_strlit("KeyExchange");
        reveal_strlit("\"type\":\"entropy_commit\"");
        lemma_absent_at_offset("KeyExchange"@, "\"type\":\"entropy_commit\""@, 0);
    }
    assert(!contains_seq("KeyExchange"@, "\"type\":\"entropy_reveal\""@)) by {
        reveal_strlit("KeyExchange");
        reveal_strlit("\"type\":\"entropy_reveal\"");
        lemma_absent_at_offset("KeyExchange"@, "\"type\":\"entropy_reveal\""@, 0);
    }
    assert(!contains_seq("KeyExchange"@, "\"type\":\"peer_join\""@)) by {
        reveal_strlit("KeyExchange");
        reveal_strlit("\"type\":\"peer_join\"");
        lemma_absent_at_offset("KeyExchange"@, "\"type\":\"peer_join\""@, 0);
    }
    assert(!contains_seq("KeyExchange"@, "\"type\":\"peer_leave\""@)) by {
        reveal_strlit("KeyExchange");
        reveal_strlit("\"type\":\"peer_leave\"");
        lemma_absent_at_offset("KeyExchange"@, "\"type\":\"peer_leave\""@, 0);
    }
    assert(!contains_seq("KeyExchange"@, "PeerJoined"@)) by {
        reveal_strlit("KeyExchange");
        reveal_strlit("PeerJoined");
        lemma_absent_at_offset("KeyExchange"@, "PeerJoined"@, 0);
    }
    assert(!contains_seq("KeyExchange"@, "PeerLeft"@)) by {
        reveal_strlit("KeyExchange");
        reveal_strlit("PeerLeft");
        lemma_absent_at_offset("KeyExchange"@, "PeerLeft"@, 0);
    }
    assert(!contains_seq("KeyExchange"@, "\"type\":\"ping\""@)) by {
        reveal_strlit("KeyExchange");
        reveal_strlit("\"type\":\"ping\"");
        lemma_absent_at_offset("KeyExchange"@, "\"type\":\"ping\""@, 0);
    }
    assert(!contains_seq("KeyExchange"@, "\"type\":\"pong\""@)) by {
        reveal_strlit("KeyExchange");
        reveal_strlit("\"type\":\"pong\"");
        lemma_absent_at_offset("KeyExchange"@, "\"type\":\"pong\""@, 0);
    }
    assert(!contains_seq("KeyExchange"@, "Pong"@)) by {
        reveal_strlit("KeyExchange");
        reveal_strlit("Pong");
        lemma_absent_at_offset("KeyExchange"@, "Pong"@, 0);
    }
}

#[verifier::rlimit(60)]
proof fn lemma_marker_auth_init_token()
    ensures
        is_critical_text("AuthInit"@) && !is_high_text("AuthInit"@) && !is_low_text("AuthInit"@),
{
    assert(contains_seq("AuthInit"@, "AuthInit"@)) by {
        lemma_contains_self("AuthInit"@);
    }
    assert(!contains_seq("AuthInit"@, "\"type\":\"entropy\""@)) by {
        reveal_strlit("AuthInit");
        reveal_strlit("\"type\":\"entropy\"");
        lemma_absent_at_offset("AuthInit"@, "\"type\":\"entropy\""@, 0);
    }
    assert(!contains_seq("AuthInit"@, "\"type\":\"entropy_commit\""@)) by {
        reveal_strlit("AuthInit");
        reveal_strlit("\"type\":\"entropy_commit\"");
        lemma_absent_at_offset("AuthInit"@, "\"type\":\"entropy_commit\""@, 0);
    }
    assert(!contains_seq("AuthInit"@, "\"type\":\"entropy_reveal\""@)) by {
        reveal_strlit("AuthInit");
        reveal_strlit("\"type\":\"entropy_reveal\"");
        lemma_absent_at_offset("AuthInit"@, "\"type\":\"entropy_reveal\""@, 0);
    }
    assert(!contains_seq("AuthInit"@, "\"type\":\"peer_join\""@)) by {
        reveal_strlit("AuthInit");
        reveal_strlit("\"type\":\"peer_join\"");
        lemma_absent_at_offset("AuthInit"@, "\"type\":\"peer_join\""@, 0);
    }
    assert(!contains_seq("AuthInit"@, "\"type\":\"peer_leave\""@)) by {
        reveal_strlit("AuthInit");
        reveal_strlit("\"type\":\"peer_leave\"");
        lemma_absent_at_offset("AuthInit"@, "\"type\":\"peer_leave\""@, 0);
    }
    assert(!contains_seq("AuthInit"@, "PeerJoined"@)) by {
        reveal_strlit("AuthInit");
        reveal_strlit("PeerJoined");
        lemma_absent_at_offset("AuthInit"@, "PeerJoined"@, 0);
    }
    assert(!contains_seq("AuthInit"@, "PeerLeft"@)) by {
        reveal_strlit("AuthInit");
        reveal_strlit("PeerLeft");
        lemma_absent_at_offset("AuthInit"@, "PeerLeft"@, 0);
    }
    assert(!contains_seq("AuthInit"@, "\"type\":\"ping\""@)) by {
        reveal_strlit("AuthInit");
        reveal_strlit("\"type\":\"ping\"");
        lemma_absent_at_offset("AuthInit"@, "\"type\":\"ping\""@, 0);
    }
    assert(!contains_seq("AuthInit"@, "\"type\":\"pong\""@)) by {
        reveal_strlit("AuthInit");
        reveal_strlit("\"type\":\"pong\"");
        lemma_absent_at_offset("AuthInit"@, "\"type\":\"pong\""@, 0);
    }
    assert(!contains_seq("AuthInit"@, "Pong"@)) by {
        reveal_strlit("AuthInit");
        reveal_strlit("Pong");
        lemma_absent_at_offset("AuthInit"@, "Pong"@, 0);
    }
}

#[verifier::rlimit(60)]
proof fn lemma_marker_auth_response_token()
    ensures
        is_critical_text("AuthResponse"@) && !is_high_text("AuthResponse"@) && !is_low_text("AuthResponse"@),
{
    assert(contains_seq("AuthResponse"@, "AuthResponse"@)) by {
        lemma_contains_self("AuthResponse"@);
    }
    assert(!contains_seq("AuthResponse"@, "\"type\":\"entropy\""@)) by {
        reveal_strlit("AuthResponse");
        reveal_strlit("\"type\":\"entropy\"");
        lemma_absent_at_offset("AuthResponse"@, "\"type\":\"entropy\""@, 0);
    }
    assert(!contains_seq("AuthResponse"@, "\"type\":\"entropy_commit\""@)) by {
        reveal_strlit("AuthResponse");
        reveal_strlit("\"type\":\"entropy_commit\"");
        lemma_absent_at_offset("AuthResponse"@, "\"type\":\"entropy_commit\""@, 0);
    }
    assert(!contains_seq("AuthResponse"@, "\"type\":\"entropy_reveal\""@)) by {
        reveal_strlit("AuthResponse");
        reveal_strlit("\"type\":\"entropy_reveal\"");
        lemma_absent_at_offset("AuthResponse"@, "\"type\":\"entropy_reveal\""@, 0);
    }
    assert(!contains_seq("AuthResponse"@, "\"type\":\"peer_join\""@)) by {
        reveal_strlit("AuthResponse");
        reveal_strlit("\"type\":\"peer_join\"");
        lemma_absent_at_offset("AuthResponse"@, "\"type\":\"peer_join\""@, 0);
    }
    assert(!contains_seq("AuthResponse"@, "\"type\":\"peer_leave\""@)) by {
        reveal_strlit("AuthResponse");
        reveal_strlit("\"type\":\"peer_leave\"");
        lemma_absent_at_offset("AuthResponse"@, "\"type\":\"peer_leave\""@, 0);
    }
    assert(!contains_seq("AuthResponse"@, "PeerJoined"@)) by {
        reveal_strlit("AuthResponse");
        reveal_strlit("PeerJoined");
        lemma_absent_at_offset("AuthResponse"@, "PeerJoined"@, 0);
    }
    assert(!contains_seq("AuthResponse"@, "PeerLeft"@)) by {
        reveal_strlit("AuthResponse");
        reveal_strlit("PeerLeft");
        lemma_absent_at_offset("AuthResponse"@, "PeerLeft"@, 0);
    }
    assert(!contains_seq("AuthResponse"@, "\"type\":\"ping\""@)) by {
        reveal_strlit("AuthResponse");
        reveal_strlit("\"type\":\"ping\"");
        lemma_absent_at_offset("AuthResponse"@, "\"type\":\"ping\""@, 0);
    }
    assert(!contains_seq("AuthResponse"@, "\"type\":\"pong\""@)) by {
        reveal_strlit("AuthResponse");
        reveal_strlit("\"type\":\"pong\"");
        lemma_absent_at_offset("AuthResponse"@, "\"type\":\"pong\""@, 0);
    }
    assert(!contains_seq("AuthResponse"@, "Pong"@)) by {
        reveal_strlit("AuthResponse");
        reveal_strlit("Pong");
        lemma_absent_at_offset("AuthResponse"@, "Pong"@, 0);
    }
}

#[verifier::rlimit(60)]
proof fn lemma_marker_entropy_tag()
    ensures
        !is_critical_text("\"type\":\"entropy\""@) && is_high_text("\"type\":\"entropy\""@) && !is_low_text("\"type\":\"entropy\""@),
{
    assert(contains_seq("\"type\":\"entropy\""@, "\"type\":\"entropy\""@)) by {
        lemma_contains_self("\"type\":\"entropy\""@);
    }
    assert(!contains_seq("\"type\":\"entropy\""@, "\"type\":\"auth\""@)) by {
        reveal_strlit("\"type\":\"entropy\"");
        reveal_strlit("\"type\":\"auth\"");
        lemma_absent_at_offset("\"type\":\"entropy\""@, "\"type\":\"auth\""@, 8);
    }
    assert(!contains_seq("\"type\":\"entropy\""@, "\"type\":\"auth_init\""@)) by {
        reveal_strlit("\"type\":\"entropy\"");
        reveal_strlit("\"type\":\"auth_init\"");
        lemma_absent_at_offset("\"type\":\"entropy\""@, "\"type\":\"auth_init\""@, 0);
    }
    assert(!contains_seq("\"type\":\"entropy\""@, "\"type\":\"auth_response\""@)) by {
        reveal_strlit("\"type\":\"entropy\"");
        reveal_strlit("\"type\":\"auth_response\"");
        lemma_absent_at_offset("\"type\":\"entropy\""@, "\"type\":\"auth_response\""@, 0);
    }
    assert(!contains_seq("\"type\":\"entropy\""@, "\"type\":\"key_exchange\""@)) by {
        reveal_strlit("\"type\":\"entropy\"");
        reveal_strlit("\"type\":\"key_exchange\"");
        lemma_absent_at_offset("\"type\":\"entropy\""@, "\"type\":\"key_exchange\""@, 0);
    }
    assert(!contains_seq("\"type\":\"entropy\""@, "KeyExchange"@)) by {
        reveal_strlit("\"type\":\"entropy\"");
        reveal_strlit("KeyExchange");
        lemma_absent_at_offset("\"type\":\"entropy\""@, "KeyExchange"@, 0);
    }
    assert(!contains_seq("\"type\":\"entropy\""@, "AuthInit"@)) by {
        reveal_strlit("\"type\":\"entropy\"");
        reveal_strlit("AuthInit");
        lemma_absent_at_offset("\"type\":\"entropy\""@, "AuthInit"@, 0);
    }
    assert(!contains_seq("\"type\":\"entropy\""@, "AuthResponse"@)) by {
        reveal_strlit("\"type\":\"entropy\"");
        reveal_strlit("AuthResponse");
        lemma_absent_at_offset("\"type\":\"entropy\""@, "AuthResponse"@, 0);
    }
    assert(!contains_seq("\"type\":\"entropy\""@, "\"type\":\"ping\""@)) by {
        reveal_strlit("\"type\":\"entropy\"");
        reveal_strlit("\"type\":\"ping\"");
        lemma_absent_at_offset("\"type\":\"entropy\""@, "\"type\":\"ping\""@, 8);
    }
    assert(!contains_seq("\"type\":\"entropy\""@, "\"type\":\"pong\""@)) by {
        reveal_strlit("\"type\":\"entropy\"");
        reveal_strlit("\"type\":\"pong\"");
        lemma_absent_at_offset("\"type\":\"entropy\""@, "\"type\":\"pong\""@, 8);
    }
    assert(!contains_seq("\"type\":\"entropy\""@, "Pong"@)) by {
        reveal_strlit("\"type\":\"entropy\"");
        reveal_strlit("Pong");
        lemma_absent_at_offset("\"type\":\"entropy\""@, "Pong"@, 0);
    }
}

#[verifier::rlimit(60)]
proof fn lemma_marker_entropy_commit_tag()
    ensures
        !is_critical_text("\"type\":\"entropy_commit\""@) && is_high_text("\"type\":\"entropy_commit\""@) && !is_low_text("\"type\":\"entropy_commit\""@),
{
    assert(contains_seq("\"type\":\"entropy_commit\""@, "\"type\":\"entropy_commit\""@)) by {
        lemma_contains_self("\"type\":\"entropy_commit\""@);
    }
    assert(!contains_seq("\"type\":\"entropy_commit\""@, "\"type\":\"auth\""@)) by {
        reveal_strlit("\"type\":\"entropy_commit\"");
        reveal_strlit("\"type\":\"auth\"");
        lemma_absent_at_offset("\"type\":\"entropy_commit\""@, "\"type\":\"auth\""@, 8);
    }
    assert(!contains_seq("\"type\":\"entropy_commit\""@, "\"type\":\"auth_init\""@)) by {
        reveal_strlit("\"type\":\"entropy_commit\"");
        reveal_strlit("\"type\":\"auth_init\"");
        lemma_absent_at_offset("\"type\":\"entropy_commit\""@, "\"type\":\"auth_init\""@, 8);
    }
    assert(!contains_seq("\"type\":\"entropy_commit\""@, "\"type\":\"auth_response\""@)) by {
        reveal_strlit("\"type\":\"entropy_commit\"");
        reveal_strlit("\"type\":\"auth_response\"");
        lemma_absent_at_offset("\"type\":\"entropy_commit\""@, "\"type\":\"auth_response\""@, 8);
    }
    assert(!contains_seq("\"type\":\"entropy_commit\""@, "\"type\":\"key_exchange\""@)) by {
        reveal_strlit("\"type\":\"entropy_commit\"");
        reveal_strlit("\"type\":\"key_exchange\"");
        lemma_absent_at_offset("\"type\":\"entropy_commit\""@, "\"type\":\"key_exchange\""@, 8);
    }
    assert(!contains_seq("\"type\":\"entropy_commit\""@, "KeyExchange"@)) by {
        reveal_strlit("\"type\":\"entropy_commit\"");
        reveal_strlit("KeyExchange");
        lemma_absent_at_offset("\"type\":\"entropy_commit\""@, "KeyExchange"@, 0);
    }
    assert(!contains_seq("\"type\":\"entropy_commit\""@, "AuthInit"@)) by {
        reveal_strlit("\"type\":\"entropy_commit\"");
        reveal_strlit("AuthInit");
        lemma_absent_at_offset("\"type\":\"entropy_commit\""@, "AuthInit"@, 0);
    }
    assert(!contains_seq("\"type\":\"entropy_commit\""@, "AuthResponse"@)) by {
        reveal_strlit("\"type\":\"entropy_commit\"");
        reveal_strlit("AuthResponse");
        lemma_absent_at_offset("\"type\":\"entropy_commit\""@, "AuthResponse"@, 0);
    }
    assert(!contains_seq("\"type\":\"entropy_commit\""@, "\"type\":\"ping\""@)) by {
        reveal_strlit("\"type\":\"entropy_commit\"");
        reveal_strlit("\"type\":\"ping\"");
        lemma_absent_at_offset("\"type\":\"entropy_commit\""@, "\"type\":\"ping\""@, 9);
    }
    assert(!contains_seq("\"type\":\"entropy_commit\""@, "\"type\":\"pong\""@)) by {
        reveal_strlit("\"type\":\"entropy_commit\"");
        reveal_strlit("\"type\":\"pong\"");
        lemma_absent_at_offset("\"type\":\"entropy_commit\""@, "\"type\":\"pong\""@, 10);
    }
    assert(!contains_seq("\"type\":\"entropy_commit\""@, "Pong"@)) by {
        reveal_strlit("\"type\":\"entropy_commit\"");
        reveal_strlit("Pong");
        lemma_absent_at_offset("\"type\":\"entropy_commit\""@, "Pong"@, 0);
    }
}

#[verifier::rlimit(60)]
proof fn lemma_marker_entropy_reveal_tag()
    ensures
        !is_critical_text("\"type\":\"entropy_reveal\""@) && is_high_text("\"type\":\"entropy_reveal\""@) && !is_low_text("\"type\":\"entropy_reveal\""@),
{
    assert(contains_seq("\"type\":\"entropy_reveal\""@, "\"type\":\"entropy_reveal\""@)) by {
        lemma_contains_self("\"type\":\"entropy_reveal\""@);
    }
    assert(!contains_seq("\"type\":\"entropy_reveal\""@, "\"type\":\"auth\""@)) by {
        reveal_strlit("\"type\":\"entropy_reveal\"");
        reveal_strlit("\"type\":\"auth\"");
        lemma_absent_at_offset("\"type\":\"entropy_reveal\""@, "\"type\":\"auth\""@, 8);
    }
    assert(!contains_seq("\"type\":\"entropy_reveal\""@, "\"type\":\"auth_init\""@)) by {
        reveal_strlit("\"type\":\"entropy_reveal\"");
        reveal_strlit("\"type\":\"auth_init\"");
        lemma_absent_at_offset("\"type\":\"entropy_reveal\""@, "\"type\":\"auth_init\""@, 8);
    }
    assert(!contains_seq("\"type\":\"entropy_reveal\""@, "\"type\":\"auth_response\""@)) by {
        reveal_strlit("\"type\":\"entropy_reveal\"");
        reveal_strlit("\"type\":\"auth_response\"");
        lemma_absent_at_offset("\"type\":\"entropy_reveal\""@, "\"type\":\"auth_response\""@, 8);
    }
    assert(!contains_seq("\"type\":\"entropy_reveal\""@, "\"type\":\"key_exchange\""@)) by {
        reveal_strlit("\"type\":\"entropy_reveal\"");
        reveal_strlit("\"type\":\"key_exchange\"");
        lemma_absent_at_offset("\"type\":\"entropy_reveal\""@, "\"type\":\"key_exchange\""@, 8);
    }
    assert(!contains_seq("\"type\":\"entropy_reveal\""@, "KeyExchange"@)) by {
        reveal_strlit("\"type\":\"entropy_reveal\"");
        reveal_strlit("KeyExchange");
        lemma_absent_at_offset("\"type\":\"entropy_reveal\""@, "KeyExchange"@, 0);
    }
    assert(!contains_seq("\"type\":\"entropy_reveal\""@, "AuthInit"@)) by {
        reveal_strlit("\"type\":\"entropy_reveal\"");
        reveal_strlit("AuthInit");
        lemma_absent_at_offset("\"type\":\"entropy_reveal\""@, "AuthInit"@, 0);
    }
    assert(!contains_seq("\"type\":\"entropy_reveal\""@, "AuthResponse"@)) by {
        reveal_strlit("\"type\":\"entropy_reveal\"");
        reveal_strlit("AuthResponse");
        lemma_absent_at_offset("\"type\":\"entropy_reveal\""@, "AuthResponse"@, 0);
    }
    assert(!contains_seq("\"type\":\"entropy_reveal\""@, "\"type\":\"ping\""@)) by {
        reveal_strlit("\"type\":\"entropy_reveal\"");
        reveal_strlit("\"type\":\"ping\"");
        lemma_absent_at_offset("\"type\":\"entropy_reveal\""@, "\"type\":\"ping\""@, 9);
    }
    assert(!contains_seq("\"type\":\"entropy_reveal\""@, "\"type\":\"pong\""@)) by {
        reveal_strlit("\"type\":\"entropy_reveal\"");
        reveal_strlit("\"type\":\"pong\"");
        lemma_absent_at_offset("\"type\":\"entropy_reveal\""@, "\"type\":\"pong\""@, 10);
    }
    assert(!contains_seq("\"type\":\"entropy_reveal\""@, "Pong"@)) by {
        reveal_strlit("\"type\":\"entropy_reveal\"");
        reveal_strlit("Pong");
        lemma_absent_at_offset("\"type\":\"entropy_reveal\""@, "Pong"@, 0);
    }
}

#[verifier::rlimit(60)]
proof fn lemma_marker_peer_join_tag()
    ensures
        !is_critical_text("\"type\":\"peer_join\""@) && is_high_text("\"type\":\"peer_join\""@) && !is_low_text("\"type\":\"peer_join\""@),
{
    assert(contains_seq("\"type\":\"peer_join\""@, "\"type\":\"peer_join\""@)) by {
        lemma_contains_self("\"type\":\"peer_join\""@);
    }
    assert(!contains_seq("\"type\":\"peer_join\""@, "\"type\":\"auth\""@)) by {
        reveal_strlit("\"type\":\"peer_join\"");
        reveal_strlit("\"type\":\"auth\"");
        lemma_absent_at_offset("\"type\":\"peer_join\""@, "\"type\":\"auth\""@, 8);
    }
    assert(!contains_seq("\"type\":\"peer_join\""@, "\"type\":\"auth_init\""@)) by {
        reveal_strlit("\"type\":\"peer_join\"");
        reveal_strlit("\"type\":\"auth_init\"");
        lemma_absent_at_offset("\"type\":\"peer_join\""@, "\"type\":\"auth_init\""@, 8);
    }
    assert(!contains_seq("\"type\":\"peer_join\""@, "\"type\":\"auth_response\""@)) by {
        reveal_strlit("\"type\":\"peer_join\"");
        reveal_strlit("\"type\":\"auth_response\"");
        lemma_absent_at_offset("\"type\":\"peer_join\""@, "\"type\":\"auth_response\""@, 0);
    }
    assert(!contains_seq("\"type\":\"peer_join\""@, "\"type\":\"key_exchange\""@)) by {
        reveal_strlit("\"type\":\"peer_join\"");
        reveal_strlit("\"type\":\"key_exchange\"");
        lemma_absent_at_offset("\"type\":\"peer_join\""@, "\"type\":\"key_exchange\""@, 0);
    }
    assert(!contains_seq("\"type\":\"peer_join\""@, "KeyExchange"@)) by {
        reveal_strlit("\"type\":\"peer_join\"");
        reveal_strlit("KeyExchange");
        lemma_absent_at_offset("\"type\":\"peer_join\""@, "KeyExchange"@, 0);
    }
    assert(!contains_seq("\"type\":\"peer_join\""@, "AuthInit"@)) by {
        reveal_strlit("\"type\":\"peer_join\"");
        reveal_strlit("AuthInit");
        lemma_absent_at_offset("\"type\":\"peer_join\""@, "AuthInit"@, 0);
    }
    assert(!contains_seq("\"type\":\"peer_join\""@, "AuthResponse"@)) by {
        reveal_strlit("\"type\":\"peer_join\"");
        reveal_strlit("AuthResponse");
        lemma_absent_at_offset("\"type\":\"peer_join\""@, "AuthResponse"@, 0);
    }
    assert(!contains_seq("\"type\":\"peer_join\""@, "\"type\":\"ping\""@)) by {
        reveal_strlit("\"type\":\"peer_join\"");
        reveal_strlit("\"type\":\"ping\"");
        lemma_absent_at_offset("\"type\":\"peer_join\""@, "\"type\":\"ping\""@, 9);
    }
    assert(!contains_seq("\"type\":\"peer_join\""@, "\"type\":\"pong\""@)) by {
        reveal_strlit("\"type\":\"peer_join\"");
        reveal_strlit("\"type\":\"pong\"");
        lemma_absent_at_offset("\"type\":\"peer_join\""@, "\"type\":\"pong\""@, 10);
    }
    assert(!contains_seq("\"type\":\"peer_join\""@, "Pong"@)) by {
        reveal_strlit("\"type\":\"peer_join\"");
        reveal_strlit("Pong");
        lemma_absent_at_offset("\"type\":\"peer_join\""@, "Pong"@, 0);
    }
}

#[verifier::rlimit(60)]
proof fn lemma_marker_peer_leave_tag()
    ensures
        !is_critical_text("\"type\":\"peer_leave\""@) && is_high_text("\"type\":\"peer_leave\""@) && !is_low_text("\"type\":\"peer_leave\""@),
{
    assert(contains_seq("\"type\":\"peer_leave\""@, "\"type\":\"peer_leave\""@)) by {
        lemma_contains_self("\"type\":\"peer_leave\""@);
    }
    assert(!contains_seq("\"type\":\"peer_leave\""@, "\"type\":\"auth\""@)) by {
        reveal_strlit("\"type\":\"peer_leave\"");
        reveal_strlit("\"type\":\"auth\"");
        lemma_absent_at_offset("\"type\":\"peer_leave\""@, "\"type\":\"auth\""@, 8);
    }
    assert(!contains_seq("\"type\":\"peer_leave\""@, "\"type\":\"auth_init\""@)) by {
        reveal_strlit("\"type\":\"peer_leave\"");
        reveal_strlit("\"type\":\"auth_init\"");
        lemma_absent_at_offset("\"type\":\"peer_leave\""@, "\"type\":\"auth_init\""@, 8);
    }
    assert(!contains_seq("\"type\":\"peer_leave\""@, "\"type\":\"auth_response\""@)) by {
        reveal_strlit("\"type\":\"peer_leave\"");
        reveal_strlit("\"type\":\"auth_response\"");
        lemma_absent_at_offset("\"type\":\"peer_leave\""@, "\"type\":\"auth_response\""@, 0);
    }
    assert(!contains_seq("\"type\":\"peer_leave\""@, "\"type\":\"key_exchange\""@)) by {
        reveal_strlit("\"type\":\"peer_leave\"");
        reveal_strlit("\"type\":\"key_exchange\"");
        lemma_absent_at_offset("\"type\":\"peer_leave\""@, "\"type\":\"key_exchange\""@, 0);
    }
    assert(!contains_seq("\"type\":\"peer_leave\""@, "KeyExchange"@)) by {
        reveal_strlit("\"type\":\"peer_leave\"");
        reveal_strlit("KeyExchange");
        lemma_absent_at_offset("\"type\":\"peer_leave\""@, "KeyExchange"@, 0);
    }
    assert(!contains_seq("\"type\":\"peer_leave\""@, "AuthInit"@)) by {
        reveal_strlit("\"type\":\"peer_leave\"");
        reveal_strlit("AuthInit");
        lemma_absent_at_offset("\"type\":\"peer_leave\""@, "AuthInit"@, 0);
    }
    assert(!contains_seq("\"type\":\"peer_leave\""@, "AuthResponse"@)) by {
        reveal_strlit("\"type\":\"peer_leave\"");
        reveal_strlit("AuthResponse");
        lemma_absent_at_offset("\"type\":\"peer_leave\""@, "AuthResponse"@, 0);
    }
    assert(!contains_seq("\"type\":\"peer_leave\""@, "\"type\":\"ping\""@)) by {
        reveal_strlit("\"type\":\"peer_leave\"");
        reveal_strlit("\"type\":\"ping\"");
        lemma_absent_at_offset("\"type\":\"peer_leave\""@, "\"type\":\"ping\""@, 9);
    }
    assert(!contains_seq("\"type\":\"peer_leave\""@, "\"type\":\"pong\""@)) by {
        reveal_strlit("\"type\":\"peer_leave\"");
        reveal_strlit("\"type\":\"pong\"");
        lemma_absent_at_offset("\"type\":\"peer_leave\""@, "\"type\":\"pong\""@, 9);
    }
    assert(!contains_seq("\"type\":\"peer_leave\""@, "Pong"@)) by {
        reveal_strlit("\"type\":\"peer_leave\"");
        reveal_strlit("Pong");
        lemma_absent_at_offset("\"type\":\"peer_leave\""@, "Pong"@, 0);
    }
}

#[verifier::rlimit(60)]
proof fn lemma_marker_peer_joined_token()
    ensures
        !is_critical_text("PeerJoined"@) && is_high_text("PeerJoined"@) && !is_low_text("PeerJoined"@),
{
    assert(contains_seq("PeerJoined"@, "PeerJoined"@)) by {
        lemma_contains_self("PeerJoined"@);
    }
    assert(!contains_seq("PeerJoined"@, "\"type\":\"auth\""@)) by {
        reveal_strlit("PeerJoined");
        reveal_strlit("\"type\":\"auth\"");
        lemma_absent_at_offset("PeerJoined"@, "\"type\":\"auth\""@, 0);
    }
    assert(!contains_seq("PeerJoined"@, "\"type\":\"auth_init\""@)) by {
        reveal_strlit("PeerJoined");
        reveal_strlit("\"type\":\"auth_init\"");
        lemma_absent_at_offset("PeerJoined"@, "\"type\":\"auth_init\""@, 0);
    }
    assert(!contains_seq("PeerJoined"@, "\"type\":\"auth_response\""@)) by {
        reveal_strlit("PeerJoined");
        reveal_strlit("\"type\":\"auth_response\"");
        lemma_absent_at_offset("PeerJoined"@, "\"type\":\"auth_response\""@, 0);
    }
    assert(!contains_seq("PeerJoined"@, "\"type\":\"key_exchange\""@)) by {
        reveal_strlit("PeerJoined");
        reveal_strlit("\"type\":\"key_exchange\"");
        lemma_absent_at_offset("PeerJoined"@, "\"type\":\"key_exchange\""@, 0);
    }
    assert(!contains_seq("PeerJoined"@, "KeyExchange"@)) by {
        reveal_strlit("PeerJoined");
        reveal_strlit("KeyExchange");
        lemma_absent_at_offset("PeerJoined"@, "KeyExchange"@, 0);
    }
    assert(!contains_seq("PeerJoined"@, "AuthInit"@)) by {
        reveal_strlit("PeerJoined");
        reveal_strlit("AuthInit");
        lemma_absent_at_offset("PeerJoined"@, "AuthInit"@, 0);
    }
    assert(!contains_seq("PeerJoined"@, "AuthResponse"@)) by {
        reveal_strlit("PeerJoined");
        reveal_strlit("AuthResponse");
        lemma_absent_at_offset("PeerJoined"@, "AuthResponse"@, 0);
    }
    assert(!contains_seq("PeerJoined"@, "\"type\":\"ping\""@)) by {
        reveal_strlit("PeerJoined");
        reveal_strlit("\"type\":\"ping\"");
        lemma_absent_at_offset("PeerJoined"@, "\"type\":\"ping\""@, 0);
    }
    assert(!contains_seq("PeerJoined"@, "\"type\":\"pong\""@)) by {
        reveal_strlit("PeerJoined");
        reveal_strlit("\"type\":\"pong\"");
        lemma_absent_at_offset("PeerJoined"@, "\"type\":\"pong\""@, 0);
    }
    assert(!contains_seq("PeerJoined"@, "Pong"@)) by {
        reveal_strlit("PeerJoined");
        reveal_strlit("Pong");
        lemma_absent_at_offset("PeerJoined"@, "Pong"@, 3);
    }
}

#[verifier::rlimit(60)]
proof fn lemma_marker_peer_left_token()
    ensures
        !is_critical_text("PeerLeft"@) && is_high_text("PeerLeft"@) && !is_low_text("PeerLeft"@),
{
    assert(contains_seq("PeerLeft"@, "PeerLeft"@)) by {
        lemma_contains_self("PeerLeft"@);
    }
    assert(!contains_seq("PeerLeft"@, "\"type\":\"auth\""@)) by {
        reveal_strlit("PeerLeft");
        reveal_strlit("\"type\":\"auth\"");
        lemma_absent_at_offset("PeerLeft"@, "\"type\":\"auth\""@, 0);
    }
    assert(!contains_seq("PeerLeft"@, "\"type\":\"auth_init\""@)) by {
        reveal_strlit("PeerLeft");
        reveal_strlit("\"type\":\"auth_init\"");
        lemma_absent_at_offset("PeerLeft"@, "\"type\":\"auth_init\""@, 0);
    }
    assert(!contains_seq("PeerLeft"@, "\"type\":\"auth_response\""@)) by {
        reveal_strlit("PeerLeft");
        reveal_strlit("\"type\":\"auth_response\"");
        lemma_absent_at_offset("PeerLeft"@, "\"type\":\"auth_response\""@, 0);
    }
    assert(!contains_seq("PeerLeft"@, "\"type\":\"key_exchange\""@)) by {
        reveal_strlit("PeerLeft");
        reveal_strlit("\"type\":\"key_exchange\"");
        lemma_absent_at_offset("PeerLeft"@, "\"type\":\"key_exchange\""@, 0);
    }
    assert(!contains_seq("PeerLeft"@, "KeyExchange"@)) by {
        reveal_strlit("PeerLeft");
        reveal_strlit("KeyExchange");
        lemma_absent_at_offset("PeerLeft"@, "KeyExchange"@, 0);
    }
    assert(!contains_seq("PeerLeft"@, "AuthInit"@)) by {
        reveal_strlit("PeerLeft");
        reveal_strlit("AuthInit");
        lemma_absent_at_offset("PeerLeft"@, "AuthInit"@, 0);
    }
    assert(!contains_seq("PeerLeft"@, "AuthResponse"@)) by {
        reveal_strlit("PeerLeft");
        reveal_strlit("AuthResponse");
        lemma_absent_at_offset("PeerLeft"@, "AuthResponse"@, 0);
    }
    assert(!contains_seq("PeerLeft"@, "\"type\":\"ping\""@)) by {
        reveal_strlit("PeerLeft");
        reveal_strlit("\"type\":\"ping\"");
        lemma_absent_at_offset("PeerLeft"@, "\"type\":\"ping\""@, 0);
    }
    assert(!contains_seq("PeerLeft"@, "\"type\":\"pong\""@)) by {
        reveal_strlit("PeerLeft");
        reveal_strlit("\"type\":\"pong\"");
        lemma_absent_at_offset("PeerLeft"@, "\"type\":\"pong\""@, 0);
    }
    assert(!contains_seq("PeerLeft"@, "Pong"@)) by {
        reveal_strlit("PeerLeft");
        reveal_strlit("Pong");
        lemma_absent_at_offset("PeerLeft"@, "Pong"@, 1);
    }
}

#[verifier::rlimit(60)]
proof fn lemma_marker_ping_tag()
    ensures
        !is_critical_text("\"type\":\"ping\""@) && !is_high_text("\"type\":\"ping\""@) && is_low_text("\"type\":\"ping\""@),
{
    assert(contains_seq("\"type\":\"ping\""@, "\"type\":\"ping\""@)) by {
        lemma_contains_self("\"type\":\"ping\""@);
    }
    assert(!contains_seq("\"type\":\"ping\""@, "\"type\":\"auth\""@)) by {
        reveal_strlit("\"type\":\"ping\"");
        reveal_strlit("\"type\":\"auth\"");
        lemma_absent_at_offset("\"type\":\"ping\""@, "\"type\":\"auth\""@, 8);
    }
    assert(!contains_seq("\"type\":\"ping\""@, "\"type\":\"auth_init\""@)) by {
        reveal_strlit("\"type\":\"ping\"");
        reveal_strlit("\"type\":\"auth_init\"");
        lemma_absent_at_offset("\"type\":\"ping\""@, "\"type\":\"auth_init\""@, 0);
    }
    assert(!contains_seq("\"type\":\"ping\""@, "\"type\":\"auth_response\""@)) by {
        reveal_strlit("\"type\":\"ping\"");
        reveal_strlit("\"type\":\"auth_response\"");
        lemma_absent_at_offset("\"type\":\"ping\""@, "\"type\":\"auth_response\""@, 0);
    }
    assert(!contains_seq("\"type\":\"ping\""@, "\"type\":\"key_exchange\""@)) by {
        reveal_strlit("\"type\":\"ping\"");
        reveal_strlit("\"type\":\"key_exchange\"");
        lemma_absent_at_offset("\"type\":\"ping\""@, "\"type\":\"key_exchange\""@, 0);
    }
    assert(!contains_seq("\"type\":\"ping\""@, "KeyExchange"@)) by {
        reveal_strlit("\"type\":\"ping\"");
        reveal_strlit("KeyExchange");
        lemma_absent_at_offset("\"type\":\"ping\""@, "KeyExchange"@, 0);
    }
    assert(!contains_seq("\"type\":\"ping\""@, "AuthInit"@)) by {
        reveal_strlit("\"type\":\"ping\"");
        reveal_strlit("AuthInit");
        lemma_absent_at_offset("\"type\":\"ping\""@, "AuthInit"@, 0);
    }
    assert(!contains_seq("\"type\":\"ping\""@, "AuthResponse"@)) by {
        reveal_strlit("\"type\":\"ping\"");
        reveal_strlit("AuthResponse");
        lemma_absent_at_offset("\"type\":\"ping\""@, "AuthResponse"@, 0);
    }
    assert(!contains_seq("\"type\":\"ping\""@, "\"type\":\"entropy\""@)) by {
        reveal_strlit("\"type\":\"ping\"");
        reveal_strlit("\"type\":\"entropy\"");
        lemma_absent_at_offset("\"type\":\"ping\""@, "\"type\":\"entropy\""@, 0);
    }
    assert(!contains_seq("\"type\":\"ping\""@, "\"type\":\"entropy_commit\""@)) by {
        reveal_strlit("\"type\":\"ping\"");
        reveal_strlit("\"type\":\"entropy_commit\"");
        lemma_absent_at_offset("\"type\":\"ping\""@, "\"type\":\"entropy_commit\""@, 0);
    }
    assert(!contains_seq("\"type\":\"ping\""@, "\"type\":\"entropy_reveal\""@)) by {
        reveal_strlit("\"type\":\"ping\"");
        reveal_strlit("\"type\":\"entropy_reveal\"");
        lemma_absent_at_offset("\"type\":\"ping\""@, "\"type\":\"entropy_reveal\""@, 0);
    }
    assert(!contains_seq("\"type\":\"ping\""@, "\"type\":\"peer_join\""@)) by {
        reveal_strlit("\"type\":\"ping\"");
        reveal_strlit("\"type\":\"peer_join\"");
        lemma_absent_at_offset("\"type\":\"ping\""@, "\"type\":\"peer_join\""@, 0);
    }
    assert(!contains_seq("\"type\":\"ping\""@, "\"type\":\"peer_leave\""@)) by {
        reveal_strlit("\"type\":\"ping\"");
        reveal_strlit("\"type\":\"peer_leave\"");
        lemma_absent_at_offset("\"type\":\"ping\""@, "\"type\":\"peer_leave\""@, 0);
    }
    assert(!contains_seq("\"type\":\"ping\""@, "PeerJoined"@)) by {
        reveal_strlit("\"type\":\"ping\"");
        reveal_strlit("PeerJoined");
        lemma_absent_at_offset("\"type\":\"ping\""@, "PeerJoined"@, 0);
    }
    assert(!contains_seq("\"type\":\"ping\""@, "PeerLeft"@)) by {
        reveal_strlit("\"type\":\"ping\"");
        reveal_strlit("PeerLeft");
        lemma_absent_at_offset("\"type\":\"ping\""@, "PeerLeft"@, 0);
    }
}

#[verifier::rlimit(60)]
proof fn lemma_marker_pong_tag()
    ensures
        !is_critical_text("\"type\":\"pong\""@) && !is_high_text("\"type\":\"pong\""@) && is_low_text("\"type\":\"pong\""@),
{
    assert(contains_seq("\"type\":\"pong\""@, "\"type\":\"pong\""@)) by {
        lemma_contains_self("\"type\":\"pong\""@);
    }
    assert(!contains_seq("\"type\":\"pong\""@, "\"type\":\"auth\""@)) by {
        reveal_strlit("\"type\":\"pong\"");
        reveal_strlit("\"type\":\"auth\"");
        lemma_absent_at_offset("\"type\":\"pong\""@, "\"type\":\"auth\""@, 8);
    }
    assert(!contains_seq("\"type\":\"pong\""@, "\"type\":\"auth_init\""@)) by {
        reveal_strlit("\"type\":\"pong\"");
        reveal_strlit("\"type\":\"auth_init\"");
        lemma_absent_at_offset("\"type\":\"pong\""@, "\"type\":\"auth_init\""@, 0);
    }
    assert(!contains_seq("\"type\":\"pong\""@, "\"type\":\"auth_response\""@)) by {
        reveal_strlit("\"type\":\"pong\"");
        reveal_strlit("\"type\":\"auth_response\"");
        lemma_absent_at_offset("\"type\":\"pong\""@, "\"type\":\"auth_response\""@, 0);
    }
    assert(!contains_seq("\"type\":\"pong\""@, "\"type\":\"key_exchange\""@)) by {
        reveal_strlit("\"type\":\"pong\"");
        reveal_strlit("\"type\":\"key_exchange\"");
        lemma_absent_at_offset("\"type\":\"pong\""@, "\"type\":\"key_exchange\""@, 0);
    }
    assert(!contains_seq("\"type\":\"pong\""@, "KeyExchange"@)) by {
        reveal_strlit("\"type\":\"pong\"");
        reveal_strlit("KeyExchange");
        lemma_absent_at_offset("\"type\":\"pong\""@, "KeyExchange"@, 0);
    }
    assert(!contains_seq("\"type\":\"pong\""@, "AuthInit"@)) by {
        reveal_strlit("\"type\":\"pong\"");
        reveal_strlit("AuthInit");
        lemma_absent_at_offset("\"type\":\"pong\""@, "AuthInit"@, 0);
    }
    assert(!contains_seq("\"type\":\"pong\""@, "AuthResponse"@)) by {
        reveal_strlit("\"type\":\"pong\"");
        reveal_strlit("AuthResponse");
        lemma_absent_at_offset("\"type\":\"pong\""@, "AuthResponse"@, 0);
    }
    assert(!contains_seq("\"type\":\"pong\""@, "\"type\":\"entropy\""@)) by {
        reveal_strlit("\"type\":\"pong\"");
        reveal_strlit("\"type\":\"entropy\"");
        lemma_absent_at_offset("\"type\":\"pong\""@, "\"type\":\"entropy\""@, 0);
    }
    assert(!contains_seq("\"type\":\"pong\""@, "\"type\":\"entropy_commit\""@)) by {
        reveal_strlit("\"type\":\"pong\"");
        reveal_strlit("\"type\":\"entropy_commit\"");
        lemma_absent_at_offset("\"type\":\"pong\""@, "\"type\":\"entropy_commit\""@, 0);
    }
    assert(!contains_seq("\"type\":\"pong\""@, "\"type\":\"entropy_reveal\""@)) by {
        reveal_strlit("\"type\":\"pong\"");
        reveal_strlit("\"type\":\"entropy_reveal\"");
        lemma_absent_at_offset("\"type\":\"pong\""@, "\"type\":\"entropy_reveal\""@, 0);
    }
    assert(!contains_seq("\"type\":\"pong\""@, "\"type\":\"peer_join\""@)) by {
        reveal_strlit("\"type\":\"pong\"");
        reveal_strlit("\"type\":\"peer_join\"");
        lemma_absent_at_offset("\"type\":\"pong\""@, "\"type\":\"peer_join\""@, 0);
    }
    assert(!contains_seq("\"type\":\"pong\""@, "\"type\":\"peer_leave\""@)) by {
        reveal_strlit("\"type\":\"pong\"");
        reveal_strlit("\"type\":\"peer_leave\"");
        lemma_absent_at_offset("\"type\":\"pong\""@, "\"type\":\"peer_leave\""@, 0);
    }
    assert(!contains_seq("\"type\":\"pong\""@, "PeerJoined"@)) by {
        reveal_strlit("\"type\":\"pong\"");
        reveal_strlit("PeerJoined");
        lemma_absent_at_offset("\"type\":\"pong\""@, "PeerJoined"@, 0);
    }
    assert(!contains_seq("\"type\":\"pong\""@, "PeerLeft"@)) by {
        reveal_strlit("\"type\":\"pong\"");
        reveal_strlit("PeerLeft");
        lemma_absent_at_offset("\"type\":\"pong\""@, "PeerLeft"@, 0);
    }
}

#[verifier::rlimit(60)]
proof fn lemma_marker_pong_token()
    ensures
        !is_critical_text("Pong"@) && !is_high_text("Pong"@) && is_low_text("Pong"@),
{
    assert(contains_seq("Pong"@, "Pong"@)) by {
        lemma_contains_self("Pong"@);
    }
    assert(!contains_seq("Pong"@, "\"type\":\"auth\""@)) by {
        reveal_strlit("Pong");
        reveal_strlit("\"type\":\"auth\"");
        lemma_absent_at_offset("Pong"@, "\"type\":\"auth\""@, 0);
    }
    assert(!contains_seq("Pong"@, "\"type\":\"auth_init\""@)) by {
        reveal_strlit("Pong");
        reveal_strlit("\"type\":\"auth_init\"");
        lemma_absent_at_offset("Pong"@, "\"type\":\"auth_init\""@, 0);
    }
    assert(!contains_seq("Pong"@, "\"type\":\"auth_response\""@)) by {
        reveal_strlit("Pong");
        reveal_strlit("\"type\":\"auth_response\"");
        lemma_absent_at_offset("Pong"@, "\"type\":\"auth_response\""@, 0);
    }
    assert(!contains_seq("Pong"@, "\"type\":\"key_exchange\""@)) by {
        reveal_strlit("Pong");
        reveal_strlit("\"type\":\"key_exchange\"");
        lemma_absent_at_offset("Pong"@, "\"type\":\"key_exchange\""@, 0);
    }
    assert(!contains_seq("Pong"@, "KeyExchange"@)) by {
        reveal_strlit("Pong");
        reveal_strlit("KeyExchange");
        lemma_absent_at_offset("Pong"@, "KeyExchange"@, 0);
    }
    assert(!contains_seq("Pong"@, "AuthInit"@)) by {
        reveal_strlit("Pong");
        reveal_strlit("AuthInit");
        lemma_absent_at_offset("Pong"@, "AuthInit"@, 0);
    }
    assert(!contains_seq("Pong"@, "AuthResponse"@)) by {
        reveal_strlit("Pong");
        reveal_strlit("AuthResponse");
        lemma_absent_at_offset("Pong"@, "AuthResponse"@, 0);
    }
    assert(!contains_seq("Pong"@, "\"type\":\"entropy\""@)) by {
        reveal_strlit("Pong");
        reveal_strlit("\"type\":\"entropy\"");
        lemma_absent_at_offset("Pong"@, "\"type\":\"entropy\""@, 0);
    }
    assert(!contains_seq("Pong"@, "\"type\":\"entropy_commit\""@)) by {
        reveal_strlit("Pong");
        reveal_strlit("\"type\":\"entropy_commit\"");
        lemma_absent_at_offset("Pong"@, "\"type\":\"entropy_commit\""@, 0);
    }
    assert(!contains_seq("Pong"@, "\"type\":\"entropy_reveal\""@)) by {
        reveal_strlit("Pong");
        reveal_strlit("\"type\":\"entropy_reveal\"");
        lemma_absent_at_offset("Pong"@, "\"type\":\"entropy_reveal\""@, 0);
    }
    assert(!contains_seq("Pong"@, "\"type\":\"peer_join\""@)) by {
        reveal_strlit("Pong");
        reveal_strlit("\"type\":\"peer_join\"");
        lemma_absent_at_offset("Pong"@, "\"type\":\"peer_join\""@, 0);
    }
    assert(!contains_seq("Pong"@, "\"type\":\"peer_leave\""@)) by {
        reveal_strlit("Pong");
        reveal_strlit("\"type\":\"peer_leave\"");
        lemma_absent_at_offset("Pong"@, "\"type\":\"peer_leave\""@, 0);
    }
    assert(!contains_seq("Pong"@, "PeerJoined"@)) by {
        reveal_strlit("Pong");
        reveal_strlit("PeerJoined");
        lemma_absent_at_offset("Pong"@, "PeerJoined"@, 0);
    }
    assert(!contains_seq("Pong"@, "PeerLeft"@)) by {
        reveal_strlit("Pong");
        reveal_strlit("PeerLeft");
        lemma_absent_at_offset("Pong"@, "PeerLeft"@, 0);
    }
}

/// Marker sets are pairwise disjoint: each marker literal, taken as a
/// message, matches the marker set of its own tier and of no other, so no
/// single marker string can drive the classifier toward two different
/// tiers.
pub proof fn lemma_marker_sets_disjoint()
    ensures
        is_critical_text("\"type\":\"auth\""@) && !is_high_text("\"type\":\"auth\""@) && !is_low_text("\"type\":\"auth\""@),
        is_critical_text("\"type\":\"auth_init\""@) && !is_high_text("\"type\":\"auth_init\""@) && !is_low_text("\"type\":\"auth_init\""@),
        is_critical_text("\"type\":\"auth_response\""@) && !is_high_text("\"type\":\"auth_response\""@) && !is_low_text("\"type\":\"auth_response\""@),
        is_critical_text("\"type\":\"key_exchange\""@) && !is_high_text("\"type\":\"key_exchange\""@) && !is_low_text("\"type\":\"key_exchange\""@),
        is_critical_text("KeyExchange"@) && !is_high_text("KeyExchange"@) && !is_low_text("KeyExchange"@),
        is_critical_text("AuthInit"@) && !is_high_text("AuthInit"@) && !is_low_text("AuthInit"@),
        is_critical_text("AuthResponse"@) && !is_high_text("AuthResponse"@) && !is_low_text("AuthResponse"@),
        !is_critical_text("\"type\":\"entropy\""@) && is_high_text("\"type\":\"entropy\""@) && !is_low_text("\"type\":\"entropy\""@),
        !is_critical_text("\"type\":\"entropy_commit\""@) && is_high_text("\"type\":\"entropy_commit\""@) && !is_low_text("\"type\":\"entropy_commit\""@),
        !is_critical_text("\"type\":\"entropy_reveal\""@) && is_high_text("\"type\":\"entropy_reveal\""@) && !is_low_text("\"type\":\"entropy_reveal\""@),
        !is_critical_text("\"type\":\"peer_join\""@) && is_high_text("\"type\":\"peer_join\""@) && !is_low_text("\"type\":\"peer_join\""@),
        !is_critical_text("\"type\":\"peer_leave\""@) && is_high_text("\"type\":\"peer_leave\""@) && !is_low_text("\"type\":\"peer_leave\""@),
        !is_critical_text("PeerJoined"@) && is_high_text("PeerJoined"@) && !is_low_text("PeerJoined"@),
        !is_critical_text("PeerLeft"@) && is_high_text("PeerLeft"@) && !is_low_text("PeerLeft"@),
        !is_critical_text("\"type\":\"ping\""@) && !is_high_text("\"type\":\"ping\""@) && is_low_text("\"type\":\"ping\""@),
        !is_critical_text("\"type\":\"pong\""@) && !is_high_text("\"type\":\"pong\""@) && is_low_text("\"type\":\"pong\""@),
        !is_critical_text("Pong"@) && !is_high_text("Pong"@) && is_low_text("Pong"@),
{
    lemma_marker_auth_tag();
    lemma_marker_auth_init_tag();
    lemma_marker_auth_response_tag();
    lemma_marker_key_exchange_tag();
    lemma_marker_key_exchange_token();
    lemma_marker_auth_init_token();
    lemma_marker_auth_response_token();
    lemma_marker_entropy_tag();
    lemma_marker_entropy_commit_tag();
    lemma_marker_entropy_reveal_tag();
    lemma_marker_peer_join_tag();
    lemma_marker_peer_leave_tag();
    lemma_marker_peer_joined_token();
    lemma_marker_peer_left_token();
    lemma_marker_ping_tag();
    lemma_marker_pong_tag();
    lemma_marker_pong_token();
}

} // verus!
