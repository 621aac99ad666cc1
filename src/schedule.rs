//! The daily broadcast: when it fires, what it sends and to whom, and the
//! best-effort delivery to every subscriber.
use vstd::prelude::*;
use crate::catalog::{Character, FetchError};
use crate::registry::SubscriberId;
use crate::text::{decimal, decimal_string};

verus! {

/// Seconds in one UTC day.
pub const SECONDS_PER_DAY: i64 = 86400;

/// Seconds from midnight UTC to the daily broadcast, 09:00 UTC.
pub const FIRE_OFFSET: i64 = 32400;

/// Earliest clock reading whose day start is representable.
pub const EARLIEST_CLOCK: i64 = -9223372036854689408;

/// Latest clock reading for which the next fire time is representable.
pub const LATEST_CLOCK: i64 = 9223372036854602407;

/// Start of the UTC day holding instant `t` (seconds since the Unix epoch).
pub open spec fn day_start(t: int) -> int {
    t - t % (SECONDS_PER_DAY as int)
}

/// The first 09:00 UTC strictly after `t`: today's if it is still ahead,
/// else tomorrow's.
pub open spec fn next_fire_spec(t: int) -> int {
    let today = day_start(t) + FIRE_OFFSET;
    if today > t {
        today
    } else {
        today + SECONDS_PER_DAY
    }
}

/// Next broadcast instant after clock reading `now` (seconds since the Unix
/// epoch, UTC). Derived from the reading alone, so a clock adjustment or a
/// long pause never accumulates drift.
pub fn next_fire_time(now: i64) -> (r: i64)
    requires
        EARLIEST_CLOCK <= now <= LATEST_CLOCK,
    ensures
        r == next_fire_spec(now as int),
        now < r <= now + SECONDS_PER_DAY,
        r % SECONDS_PER_DAY == FIRE_OFFSET,
{
    let rem = now % SECONDS_PER_DAY;
    let rem = if rem < 0 {
        rem + SECONDS_PER_DAY
    } else {
        rem
    };
    proof {
        assert(rem == (now as int) % (SECONDS_PER_DAY as int));
    }
    let start = now - rem;
    let today = start + FIRE_OFFSET;
    if today > now {
        today
    } else {
        today + SECONDS_PER_DAY
    }
}

/// Before 09:00 UTC the broadcast fires at 09:00 the same day; from 09:00 on,
/// at 09:00 the next day.
pub proof fn lemma_fire_time_by_hour(t: int)
    ensures
        t % (SECONDS_PER_DAY as int) < FIRE_OFFSET ==> next_fire_spec(t) == day_start(t) + FIRE_OFFSET,
        t % (SECONDS_PER_DAY as int) >= FIRE_OFFSET ==> next_fire_spec(t) == day_start(t)
            + SECONDS_PER_DAY + FIRE_OFFSET,
        day_start(t) % (SECONDS_PER_DAY as int) == 0,
{
    assert(day_start(t) % (SECONDS_PER_DAY as int) == 0) by (nonlinear_arith)
        requires t == (t / 86400) * 86400 + t % 86400, 0 <= t % 86400 < 86400;
}

/// The clock reading `now` with the next broadcast instant after it; a
/// reading outside the range where that instant is representable comes back
/// as the error.
pub fn fire_after(now: i64) -> (r: Result<(i64, i64), i64>)
    ensures
        r == (if EARLIEST_CLOCK <= now <= LATEST_CLOCK {
            Ok::<(i64, i64), i64>((now, next_fire_spec(now as int) as i64))
        } else {
            Err::<(i64, i64), i64>(now)
        }),
{
    if EARLIEST_CLOCK <= now && now <= LATEST_CLOCK {
        Ok((now, next_fire_time(now)))
    } else {
        Err(now)
    }
}

/// Text of the daily broadcast about `c`, who appears in `episodes` episodes.
pub open spec fn daily_message_spec(c: Character, episodes: nat) -> Seq<char> {
    "Personaje del día:\n\nNombre: "@ + c.name@ + "\nEstado: "@ + c.status@ + "\nEspecie: "@
        + c.species@ + "\nTipo: "@ + c.character_type@ + "\n"@ + c.image@ + "\n"@ + decimal(
        episodes,
    )
}

/// Text of the daily broadcast about `c`, who appears in `episodes` episodes.
pub fn daily_message(c: &Character, episodes: usize) -> (r: String)
    ensures
        r@ == daily_message_spec(*c, episodes as nat),
{
    let mut m = String::from_str("Personaje del día:\n\nNombre: ");
    m.append(c.name.as_str());
    m.append("\nEstado: ");
    m.append(c.status.as_str());
    m.append("\nEspecie: ");
    m.append(c.species.as_str());
    m.append("\nTipo: ");
    m.append(c.character_type.as_str());
    m.append("\n");
    m.append(c.image.as_str());
    m.append("\n");
    let count = decimal_string(episodes);
    m.append(count.as_str());
    m
}

/// What one firing of the daily broadcast does.
pub enum BroadcastPlan {
    /// No character could be picked: the day is skipped.
    PickFailed(FetchError),
    /// Nobody is subscribed: nothing is sent.
    NoSubscribers,
    /// Send `message` to every chat of `targets`.
    Send { message: String, targets: Vec<SubscriberId> },
}

/// Decides one firing from the outcome of the pick (a character and its
/// episode count) and the subscribers at that moment.
pub fn plan_broadcast(pick: Result<(Character, usize), FetchError>, subscribers: Vec<SubscriberId>) -> (r:
    BroadcastPlan)
    ensures
        match pick {
            Err(e) => r == BroadcastPlan::PickFailed(e),
            Ok((c, n)) => if subscribers@.len() == 0 {
                r == BroadcastPlan::NoSubscribers
            } else {
                match r {
                    BroadcastPlan::Send { message, targets } => {
                        &&& message@ == daily_message_spec(c, n as nat)
                        &&& targets@ == subscribers@
                    },
                    _ => false,
                }
            },
        },
{
    match pick {
        Err(e) => BroadcastPlan::PickFailed(e),
        Ok((c, n)) => {
            if subscribers.len() == 0 {
                BroadcastPlan::NoSubscribers
            } else {
                BroadcastPlan::Send { message: daily_message(&c, n), targets: subscribers }
            }
        },
    }
}

/// The targets whose delivery succeeded (`want`) or failed (`!want`), in
/// order, given one outcome per target.
pub open spec fn with_outcome(targets: Seq<SubscriberId>, outcomes: Seq<bool>, want: bool) -> Seq<
    SubscriberId,
>
    decreases targets.len(),
{
    if targets.len() == 0 || outcomes.len() == 0 {
        Seq::empty()
    } else {
        let rest = with_outcome(targets.drop_last(), outcomes.drop_last(), want);
        if outcomes.last() == want {
            rest.push(targets.last())
        } else {
            rest
        }
    }
}

/// Delivery of one message to a list of chats, one at a time: every chat is
/// tried in turn, whatever happened to the ones before.
pub struct Fanout {
    message: String,
    targets: Vec<SubscriberId>,
    pos: usize,
    outcomes: Ghost<Seq<bool>>,
    delivered: Vec<SubscriberId>,
    failed: Vec<SubscriberId>,
}

impl Fanout {
    pub closed spec fn spec_targets(&self) -> Seq<SubscriberId> {
        self.targets@
    }

    /// Outcomes of the deliveries tried so far, in order.
    pub closed spec fn spec_outcomes(&self) -> Seq<bool> {
        self.outcomes@
    }

    pub closed spec fn spec_message(&self) -> Seq<char> {
        self.message@
    }

    pub closed spec fn wf(&self) -> bool {
        &&& self.pos == self.outcomes@.len()
        &&& self.pos <= self.targets@.len()
        &&& self.delivered@ == with_outcome(
            self.targets@.take(self.pos as int),
            self.outcomes@,
            true,
        )
        &&& self.failed@ == with_outcome(
            self.targets@.take(self.pos as int),
            self.outcomes@,
            false,
        )
    }

    /// A delivery of `message` to `targets`, none tried yet.
    pub fn new(message: String, targets: Vec<SubscriberId>) -> (r: Fanout)
        ensures
            r.wf(),
            r.spec_message() == message@,
            r.spec_targets() == targets@,
            r.spec_outcomes() == Seq::<bool>::empty(),
    {
        Fanout {
            message,
            targets,
            pos: 0,
            outcomes: Ghost(Seq::empty()),
            delivered: Vec::new(),
            failed: Vec::new(),
        }
    }

    /// The message to deliver.
    pub fn message(&self) -> (r: &String)
        ensures
            r@ == self.spec_message(),
    {
        &self.message
    }

    /// The chat to try next, or `None` once every chat was tried.
    pub fn next_target(&self) -> (r: Option<SubscriberId>)
        requires
            self.wf(),
        ensures
            match r {
                None => self.spec_outcomes().len() == self.spec_targets().len(),
                Some(id) => {
                    &&& self.spec_outcomes().len() < self.spec_targets().len()
                    &&& id == self.spec_targets()[self.spec_outcomes().len() as int]
                },
            },
    {
        if self.pos < self.targets.len() {
            Some(self.targets[self.pos])
        } else {
            None
        }
    }

    /// Records whether delivery to the chat of `next_target` succeeded, and
    /// moves on to the following chat either way.
    pub fn record(&mut self, ok: bool)
        requires
            old(self).wf(),
            old(self).spec_outcomes().len() < old(self).spec_targets().len(),
        ensures
            final(self).wf(),
            final(self).spec_targets() == old(self).spec_targets(),
            final(self).spec_message() == old(self).spec_message(),
            final(self).spec_outcomes() == old(self).spec_outcomes().push(ok),
    {
        let len = self.targets.len();
        let id = self.targets[self.pos];
        proof {
            assert(self.pos < len);
        }
        let next = self.pos + 1;
        let ghost prev = self.targets@.take(self.pos as int);
        if ok {
            self.delivered.push(id);
        } else {
            self.failed.push(id);
        }
        self.outcomes = Ghost(self.outcomes@.push(ok));
        self.pos = next;
        proof {
            let now = self.targets@.take(self.pos as int);
            assert(now.drop_last() =~= prev);
            assert(self.outcomes@.drop_last() =~= old(self).outcomes@);
        }
    }

    /// Chats reached so far, in the order tried.
    pub fn delivered(&self) -> (r: &Vec<SubscriberId>)
        requires
            self.wf(),
        ensures
            r@ == with_outcome(
                self.spec_targets().take(self.spec_outcomes().len() as int),
                self.spec_outcomes(),
                true,
            ),
    {
        &self.delivered
    }

    /// Chats whose delivery failed so far, in the order tried.
    pub fn failed(&self) -> (r: &Vec<SubscriberId>)
        requires
            self.wf(),
        ensures
            r@ == with_outcome(
                self.spec_targets().take(self.spec_outcomes().len() as int),
                self.spec_outcomes(),
                false,
            ),
    {
        &self.failed
    }
}

/// Once every chat was tried, each chat is among the delivered ones if its
/// delivery succeeded and among the failed ones otherwise: a failure never
/// keeps the message from the remaining chats.
pub proof fn lemma_failures_spare_other_chats(targets: Seq<SubscriberId>, outcomes: Seq<bool>, i: int)
    requires
        targets.len() == outcomes.len(),
        0 <= i < targets.len(),
    ensures
        with_outcome(targets, outcomes, outcomes[i]).contains(targets[i]),
    decreases targets.len(),
{
    let n = targets.len() - 1;
    let full = with_outcome(targets, outcomes, outcomes[i]);
    if i < n {
        let rest = with_outcome(targets.drop_last(), outcomes.drop_last(), outcomes[i]);
        assert(outcomes.drop_last()[i] == outcomes[i]);
        lemma_failures_spare_other_chats(targets.drop_last(), outcomes.drop_last(), i);
        assert(targets.drop_last()[i] == targets[i]);
        let k = choose|k: int| 0 <= k < rest.len() && rest[k] == targets[i];
        assert(full[k] == targets[i]);
    } else {
        assert(full[full.len() - 1] == targets[i]);
    }
}

} // verus!
