//! What the scheduler does over whole sequences of events: a single fire for an
//! alarm that does not repeat, and identical fires, each after the same wait,
//! for one that does.
use crate::scheduler::{after_delivery, transition, Action, AlarmConfig, Event, Phase};
use vstd::prelude::*;

verus! {

/// The phase reached and the actions returned when `events` are handed to a
/// scheduler in phase `p`, one after the other.
pub open spec fn run(c: AlarmConfig, p: Phase, events: Seq<Event>) -> (Phase, Seq<Action>)
    decreases events.len(),
{
    if events.len() == 0 {
        (p, Seq::empty())
    } else {
        let first = transition(c, p, events[0]);
        let rest = run(c, first.0, events.drop_first());
        (rest.0, seq![first.1] + rest.1)
    }
}

/// `s` written `n` times in a row.
pub open spec fn repeated<A>(s: Seq<A>, n: nat) -> Seq<A>
    decreases n,
{
    if n == 0 {
        Seq::empty()
    } else {
        repeated(s, (n - 1) as nat) + s
    }
}

/// The events of one fire: the timer expires, then each notification is given.
pub open spec fn fire_events(c: AlarmConfig) -> Seq<Event> {
    seq![Event::TimerExpired] + Seq::new(c.times_per_fire as nat, |i: int| Event::Delivered)
}

/// The actions of one fire: a delivery for each notification, then a sleep of
/// the configured wait when the alarm repeats, or the end when it does not.
pub open spec fn fire_actions(c: AlarmConfig) -> Seq<Action> {
    Seq::new(c.times_per_fire as nat, |i: int| Action::Deliver) + seq![
        if c.repeat {
            Action::Sleep { secs: c.wait_secs }
        } else {
            Action::Finish
        },
    ]
}

pub open spec fn phase_after_fire(c: AlarmConfig) -> Phase {
    if c.repeat {
        Phase::Waiting
    } else {
        Phase::Done
    }
}

proof fn lemma_run_append(c: AlarmConfig, p: Phase, a: Seq<Event>, b: Seq<Event>)
    ensures
        run(c, p, a + b) == (run(c, run(c, p, a).0, b).0, run(c, p, a).1 + run(
            c,
            run(c, p, a).0,
            b,
        ).1),
    decreases a.len(),
{
    if a.len() == 0 {
        assert(a + b =~= b);
        assert(run(c, p, a).1 + run(c, p, b).1 =~= run(c, p, b).1);
    } else {
        let first = transition(c, p, a[0]);
        assert((a + b).drop_first() =~= a.drop_first() + b);
        lemma_run_append(c, first.0, a.drop_first(), b);
        let r = run(c, first.0, a.drop_first());
        let t = run(c, r.0, b);
        assert(seq![first.1] + (r.1 + t.1) =~= (seq![first.1] + r.1) + t.1);
    }
}

proof fn lemma_deliveries(c: AlarmConfig, done: nat)
    requires
        c.times_per_fire >= 1,
        done < c.times_per_fire,
    ensures
        run(
            c,
            Phase::Firing { done: done as usize },
            Seq::new((c.times_per_fire - done) as nat, |i: int| Event::Delivered),
        ) == (phase_after_fire(c), Seq::new((c.times_per_fire - done - 1) as nat, |i: int| Action::Deliver)
            + fire_actions(c).subrange(c.times_per_fire as int, c.times_per_fire + 1)),
    decreases c.times_per_fire - done,
{
    let evs = Seq::new((c.times_per_fire - done) as nat, |i: int| Event::Delivered);
    let last = fire_actions(c).subrange(c.times_per_fire as int, c.times_per_fire + 1);
    let first = transition(c, Phase::Firing { done: done as usize }, evs[0]);
    assert(evs[0] == Event::Delivered);
    assert(first == after_delivery(c, done as usize));
    if done + 1 < c.times_per_fire {
        assert(first == (Phase::Firing { done: (done + 1) as usize }, Action::Deliver));
        lemma_deliveries(c, done + 1);
        assert(evs.drop_first() =~= Seq::new(
            (c.times_per_fire - (done + 1)) as nat,
            |i: int| Event::Delivered,
        ));
        assert(seq![Action::Deliver] + (Seq::new(
            (c.times_per_fire - (done + 1) - 1) as nat,
            |i: int| Action::Deliver,
        ) + last) =~= Seq::new((c.times_per_fire - done - 1) as nat, |i: int| Action::Deliver)
            + last);
        let r = run(c, first.0, evs.drop_first());
        assert(run(c, Phase::Firing { done: done as usize }, evs) == (r.0, seq![first.1] + r.1));
    } else {
        assert(evs.drop_first() =~= Seq::<Event>::empty());
        assert(first.0 == phase_after_fire(c));
        assert(last =~= seq![first.1]);
        let r = run(c, first.0, evs.drop_first());
        assert(r == (first.0, Seq::<Action>::empty()));
        assert(run(c, Phase::Firing { done: done as usize }, evs) == (r.0, seq![first.1] + r.1));
        assert(seq![first.1] + Seq::<Action>::empty() =~= Seq::new(
            (c.times_per_fire - done - 1) as nat,
            |i: int| Action::Deliver,
        ) + last);
    }
}

proof fn lemma_one_fire(c: AlarmConfig)
    requires
        c.times_per_fire >= 1,
    ensures
        run(c, Phase::Waiting, fire_events(c)) == (phase_after_fire(c), fire_actions(c)),
{
    let evs = fire_events(c);
    lemma_deliveries(c, 0);
    assert(evs.drop_first() =~= Seq::new(c.times_per_fire as nat, |i: int| Event::Delivered));
    assert(seq![Action::Deliver] + (Seq::new(
        (c.times_per_fire - 1) as nat,
        |i: int| Action::Deliver,
    ) + fire_actions(c).subrange(c.times_per_fire as int, c.times_per_fire + 1))
        =~= fire_actions(c));
}

/// Once done, a scheduler stays done and answers every event by doing nothing.
pub proof fn lemma_done_is_final(c: AlarmConfig, events: Seq<Event>)
    ensures
        run(c, Phase::Done, events).0 == Phase::Done,
        run(c, Phase::Done, events).1 == Seq::new(events.len(), |i: int| Action::Ignore),
    decreases events.len(),
{
    if events.len() > 0 {
        lemma_done_is_final(c, events.drop_first());
        assert(seq![Action::Ignore] + Seq::new(
            (events.len() - 1) as nat,
            |i: int| Action::Ignore,
        ) =~= Seq::new(events.len(), |i: int| Action::Ignore));
    } else {
        assert(run(c, Phase::Done, events).1 =~= Seq::new(events.len(), |i: int| Action::Ignore));
    }
}

/// An alarm that does not repeat, for any wait, sleeps once for its wait,
/// delivers its notifications once, finishes, and after that delivers nothing
/// more whatever it is told.
pub proof fn lemma_single_fire(c: AlarmConfig, later: Seq<Event>)
    requires
        c.times_per_fire >= 1,
        !c.repeat,
    ensures
        run(c, Phase::Idle, seq![Event::Started] + fire_events(c)) == (Phase::Done, seq![
            Action::Sleep { secs: c.wait_secs },
        ] + fire_actions(c)),
        fire_actions(c) == Seq::new(c.times_per_fire as nat, |i: int| Action::Deliver) + seq![
            Action::Finish,
        ],
        run(c, Phase::Done, later).1 == Seq::new(later.len(), |i: int| Action::Ignore),
{
    let evs = seq![Event::Started] + fire_events(c);
    assert(evs.drop_first() =~= fire_events(c));
    lemma_one_fire(c);
    lemma_done_is_final(c, later);
}

/// An alarm that repeats, over `n` fires and for any wait (zero included),
/// delivers its notifications the configured number of times in each and then
/// sleeps for exactly the configured wait: the waits do not grow or drift from
/// one fire to the next, and it is waiting again after each fire.
pub proof fn lemma_repeating_fires(c: AlarmConfig, n: nat)
    requires
        c.times_per_fire >= 1,
        c.repeat,
    ensures
        run(c, Phase::Waiting, repeated(fire_events(c), n)) == (Phase::Waiting, repeated(
            fire_actions(c),
            n,
        )),
        fire_actions(c) == Seq::new(c.times_per_fire as nat, |i: int| Action::Deliver) + seq![
            Action::Sleep { secs: c.wait_secs },
        ],
    decreases n,
{
    if n == 0 {
        assert(run(c, Phase::Waiting, repeated(fire_events(c), n)).1 =~= repeated(
            fire_actions(c),
            n,
        ));
    } else {
        lemma_repeating_fires(c, (n - 1) as nat);
        lemma_run_append(c, Phase::Waiting, repeated(fire_events(c), (n - 1) as nat), fire_events(c));
        lemma_one_fire(c);
    }
}

} // verus!
