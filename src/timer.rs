use vstd::prelude::*;
use crate::event::{Duration, EventCtx, TimerToken};

verus! {

/// Deadline of a timer requested at `now`; saturates at the end of time.
pub open spec fn deadline(now: u64, d: Duration) -> u64 {
    if now as int + d.millis as int > u64::MAX as int {
        u64::MAX
    } else {
        (now + d.millis) as u64
    }
}

/// Tokens, in order, of the pending timers whose deadline has passed.
pub open spec fn expired(s: Seq<(TimerToken, u64)>, now: u64) -> Seq<TimerToken>
    decreases s.len(),
{
    if s.len() == 0 {
        Seq::empty()
    } else {
        let e = s.last();
        let rest = expired(s.drop_last(), now);
        if e.1 <= now {
            rest.push(e.0)
        } else {
            rest
        }
    }
}

/// The pending timers whose deadline has not passed, in order.
pub open spec fn waiting(s: Seq<(TimerToken, u64)>, now: u64) -> Seq<(TimerToken, u64)>
    decreases s.len(),
{
    if s.len() == 0 {
        Seq::empty()
    } else {
        let e = s.last();
        let rest = waiting(s.drop_last(), now);
        if e.1 <= now {
            rest
        } else {
            rest.push(e)
        }
    }
}

/// The requests of one context, turned into pending timers.
pub open spec fn scheduled(reqs: Seq<(TimerToken, Duration)>, now: u64) -> Seq<(TimerToken, u64)> {
    reqs.map_values(|r: (TimerToken, Duration)| (r.0, deadline(now, r.1)))
}

/// The host loop's timers: it schedules what widgets request and, when it
/// sees a deadline pass, delivers the token as a timer event.
pub struct TimerQueue {
    pub pending: Vec<(TimerToken, u64)>,
    pub next_token: u32,
}

impl TimerQueue {
    pub fn new() -> (q: TimerQueue)
        ensures
            q.pending@.len() == 0,
            q.next_token == 1,
    {
        TimerQueue { pending: Vec::new(), next_token: 1 }
    }

    /// A fresh context for one event, continuing the token sequence.
    pub fn context(&self) -> (c: EventCtx)
        ensures
            !c.paint_requested,
            c.timers@.len() == 0,
            c.next_token == self.next_token,
    {
        EventCtx::new(self.next_token)
    }

    /// Schedules the timers that `ctx` recorded while time was `now`.
    pub fn absorb(&mut self, ctx: &EventCtx, now: u64)
        ensures
            final(self).pending@ == old(self).pending@ + scheduled(ctx.timers@, now),
            final(self).next_token == ctx.next_token,
    {
        let mut i: usize = 0;
        while i < ctx.timers.len()
            invariant
                i <= ctx.timers@.len(),
                self.pending@ == old(self).pending@ + scheduled(ctx.timers@.subrange(0, i as int), now),
            decreases ctx.timers@.len() - i,
        {
            let (t, d) = ctx.timers[i];
            let when: u64 = if now > u64::MAX - d.millis as u64 {
                u64::MAX
            } else {
                now + d.millis as u64
            };
            self.pending.push((t, when));
            proof {
                assert(ctx.timers@.subrange(0, i + 1) =~= ctx.timers@.subrange(0, i as int).push(
                    ctx.timers@[i as int],
                ));
                assert(scheduled(ctx.timers@.subrange(0, i + 1), now) =~= scheduled(
                    ctx.timers@.subrange(0, i as int),
                    now,
                ).push((t, when)));
            }
            i = i + 1;
        }
        assert(ctx.timers@.subrange(0, i as int) =~= ctx.timers@);
        self.next_token = ctx.next_token;
    }

    /// Removes and returns, in order, the tokens whose deadline is at or
    /// before `now`.
    pub fn take_expired(&mut self, now: u64) -> (fired: Vec<TimerToken>)
        ensures
            fired@ == expired(old(self).pending@, now),
            final(self).pending@ == waiting(old(self).pending@, now),
            final(self).next_token == old(self).next_token,
    {
        let mut fired: Vec<TimerToken> = Vec::new();
        let mut kept: Vec<(TimerToken, u64)> = Vec::new();
        let mut i: usize = 0;
        while i < self.pending.len()
            invariant
                i <= self.pending@.len(),
                fired@ == expired(self.pending@.subrange(0, i as int), now),
                kept@ == waiting(self.pending@.subrange(0, i as int), now),
            decreases self.pending@.len() - i,
        {
            let e = self.pending[i];
            proof {
                assert(self.pending@.subrange(0, i + 1).drop_last() =~= self.pending@.subrange(
                    0,
                    i as int,
                ));
            }
            if e.1 <= now {
                fired.push(e.0);
            } else {
                kept.push(e);
            }
            i = i + 1;
        }
        assert(self.pending@.subrange(0, i as int) =~= self.pending@);
        self.pending = kept;
        fired
    }
}

/// A timer requested at `start` for `d` fires at the first check at or
/// after `start + d`, and not before.
pub proof fn lemma_fires_at_deadline(token: TimerToken, d: Duration, start: u64, now: u64)
    requires
        start as int + d.millis as int <= u64::MAX as int,
    ensures
        now < start + d.millis ==> expired(scheduled(seq![(token, d)], start), now) == Seq::<
            TimerToken,
        >::empty(),
        now >= start + d.millis ==> expired(scheduled(seq![(token, d)], start), now) == seq![token],
        now >= start + d.millis ==> waiting(scheduled(seq![(token, d)], start), now) == Seq::<
            (TimerToken, u64),
        >::empty(),
{
    let s = scheduled(seq![(token, d)], start);
    assert(s =~= seq![(token, (start + d.millis) as u64)]);
    assert(s.drop_last() =~= Seq::<(TimerToken, u64)>::empty());
    assert(expired(Seq::<(TimerToken, u64)>::empty(), now) =~= Seq::<TimerToken>::empty());
    assert(waiting(Seq::<(TimerToken, u64)>::empty(), now) =~= Seq::<(TimerToken, u64)>::empty());
    if now >= start + d.millis {
        assert(expired(s, now) =~= seq![token]);
    }
}

} // verus!
