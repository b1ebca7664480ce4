//! The decisions of the reactor: which readiness events concern the filesystem
//! bridge, how a drain pass proceeds, and when the loop ends.
use vstd::prelude::*;
use crate::protocol::{TaskResult, result_cont, result_conts};

verus! {

/// Where the reactor stands in its loop.
#[derive(Clone, Copy, Debug, PartialEq, Eq, Structural)]
pub enum Phase {
    /// Blocked in the poll, with the bridge's registration armed.
    Polling,
    /// Taking results from the result queue until it is empty.
    Draining,
    /// A shutdown acknowledgement was seen; the loop is over.
    Stopped,
}

/// Why the reactor cannot be set up.
#[derive(Clone, Copy, Debug, PartialEq, Eq, Structural)]
pub enum ConfigError {
    /// The token is already taken by another source of the same poll.
    TokenReserved,
}

/// What to do for one readiness event.
#[derive(Clone, Copy, Debug, PartialEq, Eq, Structural)]
pub enum Wake {
    /// Start a drain pass: clear the readiness signal, then take results without
    /// blocking until none is left.
    Drain,
    /// The event is not for the bridge, or the loop is over.
    Ignore,
}

/// What to do after one attempt to take a result.
pub enum Step<H, K> {
    /// Call the continuation of this result with its value, then take the next one.
    Invoke(TaskResult<H, K>),
    /// The queue is empty: re-arm the registration for the next edge and poll again.
    Rearm,
    /// Shutdown was acknowledged: leave the loop.
    Stop,
    /// No drain pass is under way; the value is handed back.
    Refused(Option<TaskResult<H, K>>),
}

/// The reactor as its laws see it.
pub struct ReactorView<H, K> {
    pub phase: Phase,
    pub received: Seq<TaskResult<H, K>>,
    pub invoked: Seq<K>,
}

impl<H, K> ReactorView<H, K> {
    /// A readiness event for the bridge's token.
    pub open spec fn fs_event(self) -> Self {
        if self.phase == Phase::Polling {
            ReactorView { phase: Phase::Draining, ..self }
        } else {
            self
        }
    }

    /// One non-blocking attempt to take a result, which found `r`.
    pub open spec fn receive(self, r: Option<TaskResult<H, K>>) -> Self {
        if self.phase != Phase::Draining {
            self
        } else {
            match r {
                None => ReactorView { phase: Phase::Polling, ..self },
                Some(TaskResult::Exit) => ReactorView {
                    phase: Phase::Stopped,
                    received: self.received.push(TaskResult::Exit),
                    ..self
                },
                Some(res) => ReactorView {
                    received: self.received.push(res),
                    invoked: self.invoked.push(result_cont(res)->0),
                    ..self
                },
            }
        }
    }

    /// A drain pass that takes each of `rs` in turn.
    pub open spec fn receive_all(self, rs: Seq<TaskResult<H, K>>) -> Self
        decreases rs.len(),
    {
        if rs.len() == 0 {
            self
        } else {
            self.receive_all(rs.drop_last()).receive(Some(rs.last()))
        }
    }

    pub open spec fn wf(self) -> bool {
        &&& self.invoked == result_conts(self.received)
        &&& self.phase == Phase::Stopped <==> (self.received.len() > 0 && self.received.last() is Exit)
        &&& forall|i: int| 0 <= i < self.received.len() - 1 ==> !(#[trigger] self.received[i] is Exit)
    }
}

/// The reactor's state: its phase, the bridge's token, and what it has counted.
pub struct Reactor<H, K> {
    phase: Phase,
    token: usize,
    polls: u64,
    events: u64,
    token_events: u64,
    results: u64,
    received: Ghost<Seq<TaskResult<H, K>>>,
    invoked: Ghost<Seq<K>>,
}

pub open spec fn bump(n: u64) -> u64 {
    if n == u64::MAX { u64::MAX } else { (n + 1) as u64 }
}

impl<H, K> View for Reactor<H, K> {
    type V = ReactorView<H, K>;

    closed spec fn view(&self) -> ReactorView<H, K> {
        ReactorView { phase: self.phase, received: self.received@, invoked: self.invoked@ }
    }
}

impl<H, K> Reactor<H, K> {
    pub closed spec fn spec_token(&self) -> usize {
        self.token
    }

    pub closed spec fn spec_counts(&self) -> (u64, u64, u64, u64) {
        (self.polls, self.events, self.token_events, self.results)
    }

    /// A reactor for the bridge registered under `token`; a token already in
    /// `reserved` is refused.
    pub fn new(token: usize, reserved: &Vec<usize>) -> (r: Result<Self, ConfigError>)
        ensures
            reserved@.contains(token) <==> r is Err,
            r is Err ==> r->Err_0 == ConfigError::TokenReserved,
            r matches Ok(re) ==> {
                &&& re@.phase == Phase::Polling
                &&& re@.received == Seq::<TaskResult<H, K>>::empty()
                &&& re@.invoked == Seq::<K>::empty()
                &&& re@.wf()
                &&& re.spec_token() == token
                &&& re.spec_counts() == (0u64, 0u64, 0u64, 0u64)
            },
    {
        let mut i: usize = 0;
        while i < reserved.len()
            invariant
                i <= reserved@.len(),
                forall|j: int| 0 <= j < i ==> reserved@[j] != token,
            decreases reserved@.len() - i,
        {
            if reserved[i] == token {
                return Err(ConfigError::TokenReserved);
            }
            i = i + 1;
        }
        proof {
            if reserved@.contains(token) {
                let j = choose|j: int| 0 <= j < reserved@.len() && reserved@[j] == token;
                assert(reserved@[j] != token);
            }
        }
        Ok(Reactor {
            phase: Phase::Polling,
            token,
            polls: 0,
            events: 0,
            token_events: 0,
            results: 0,
            received: Ghost(Seq::empty()),
            invoked: Ghost(Seq::empty()),
        })
    }

    pub fn token(&self) -> (r: usize)
        ensures
            r == self.spec_token(),
    {
        self.token
    }

    pub fn phase(&self) -> (r: Phase)
        ensures
            r == self@.phase,
    {
        self.phase
    }

    /// The counts of polls, events, bridge events and results, in that order.
    pub fn counts(&self) -> (r: (u64, u64, u64, u64))
        ensures
            r == self.spec_counts(),
    {
        (self.polls, self.events, self.token_events, self.results)
    }

    /// The poll returned.
    pub fn on_poll(&mut self)
        ensures
            final(self)@ == old(self)@,
            final(self).spec_token() == old(self).spec_token(),
            final(self).spec_counts() == (bump(old(self).spec_counts().0), old(self).spec_counts().1,
                old(self).spec_counts().2, old(self).spec_counts().3),
    {
        self.polls = self.polls.saturating_add(1);
    }

    /// One readiness event, under `token`.
    pub fn on_event(&mut self, token: usize) -> (r: Wake)
        ensures
            final(self).spec_token() == old(self).spec_token(),
            r == (if token == old(self).spec_token() && old(self)@.phase == Phase::Polling {
                Wake::Drain
            } else {
                Wake::Ignore
            }),
            token == old(self).spec_token() ==> final(self)@ == old(self)@.fs_event(),
            token != old(self).spec_token() ==> final(self)@ == old(self)@,
            final(self).spec_counts() == (old(self).spec_counts().0, bump(old(self).spec_counts().1),
                if token == old(self).spec_token() { bump(old(self).spec_counts().2) } else { old(self).spec_counts().2 },
                old(self).spec_counts().3),
    {
        self.events = self.events.saturating_add(1);
        if token != self.token {
            return Wake::Ignore;
        }
        self.token_events = self.token_events.saturating_add(1);
        if self.phase == Phase::Polling {
            self.phase = Phase::Draining;
            Wake::Drain
        } else {
            Wake::Ignore
        }
    }

    /// One non-blocking attempt to take a result found `r`. Results are handed on
    /// to their continuations in the order they arrive; an empty queue always
    /// ends the pass with a re-arm.
    pub fn on_received(&mut self, r: Option<TaskResult<H, K>>) -> (s: Step<H, K>)
        requires
            old(self)@.wf(),
        ensures
            final(self)@ == old(self)@.receive(r),
            final(self)@.wf(),
            final(self).spec_token() == old(self).spec_token(),
            old(self)@.phase != Phase::Draining ==> s == Step::<H, K>::Refused(r),
            old(self)@.phase == Phase::Draining ==> match r {
                None => s is Rearm,
                Some(TaskResult::Exit) => s is Stop,
                Some(res) => s == Step::<H, K>::Invoke(res),
            },
            final(self).spec_counts() == (old(self).spec_counts().0, old(self).spec_counts().1,
                old(self).spec_counts().2,
                if old(self)@.phase == Phase::Draining && r is Some { bump(old(self).spec_counts().3) } else { old(self).spec_counts().3 }),
    {
        if self.phase != Phase::Draining {
            return Step::Refused(r);
        }
        proof {
            reveal_with_fuel(result_conts, 2);
        }
        match r {
            None => {
                self.phase = Phase::Polling;
                Step::Rearm
            },
            Some(res) => {
                self.results = self.results.saturating_add(1);
                let ghost old_received = self.received@;
                self.received = Ghost(self.received@.push(res));
                assert(self.received@.drop_last() == old_received);
                match res {
                    TaskResult::Exit => {
                        self.phase = Phase::Stopped;
                        Step::Stop
                    },
                    _ => {
                        self.invoked = Ghost(self.invoked@.push(result_cont(res)->0));
                        Step::Invoke(res)
                    },
                }
            },
        }
    }
}

} // verus!
