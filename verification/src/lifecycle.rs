//! The life of one service instance as a state machine.
//!
//! A service is not started, started, idle, active or stopped. The hosting
//! runtime moves it by delivering events; a request that arrives while the
//! service idles cancels the idling first, and the runtime may confirm the
//! activation afterwards. A service that has stopped stays stopped, and
//! nothing is delivered to it any more.

use vstd::prelude::*;

verus! {

/// Where a service instance is in its life.
#[derive(Clone, Copy, Debug, PartialEq, Eq, Structural)]
pub enum ServiceLifecycleState {
    NotStarted,
    Started,
    Idle,
    Active,
    Stopped,
}

/// What moves a service instance from one state to the next.
#[derive(Clone, Copy, Debug, PartialEq, Eq, Structural)]
pub enum LifecycleEvent {
    /// The runtime starts the service.
    Start,
    /// The runtime proposed idling and the service's idle callback returned
    /// this value: zero or a positive number of milliseconds to permit it,
    /// a negative number to refuse.
    IdleAnswer(i32),
    /// The runtime activates the service: it wakes an idle service, or it
    /// confirms, with its reason, that idling was cancelled.
    Activate,
    /// A request arrived or the service itself asked to stay awake.
    CancelIdle,
    /// The runtime stops the service.
    Stop,
}

impl ServiceLifecycleState {
    /// Started and not yet stopped.
    pub open spec fn spec_is_running(self) -> bool {
        self == ServiceLifecycleState::Started || self == ServiceLifecycleState::Idle || self
            == ServiceLifecycleState::Active
    }

    /// Whether `event` means anything in this state. An event that is not
    /// accepted is not delivered to the service and changes nothing.
    pub open spec fn spec_accepts(self, event: LifecycleEvent) -> bool {
        match event {
            LifecycleEvent::Start => self == ServiceLifecycleState::NotStarted,
            LifecycleEvent::IdleAnswer(_) => self == ServiceLifecycleState::Started || self
                == ServiceLifecycleState::Active,
            LifecycleEvent::Activate => self == ServiceLifecycleState::Idle || self
                == ServiceLifecycleState::Active,
            LifecycleEvent::CancelIdle => self.spec_is_running(),
            LifecycleEvent::Stop => self.spec_is_running(),
        }
    }

    /// The state that follows this one on `event`.
    pub open spec fn spec_next(self, event: LifecycleEvent) -> ServiceLifecycleState {
        if !self.spec_accepts(event) {
            self
        } else {
            match event {
                LifecycleEvent::Start => ServiceLifecycleState::Started,
                LifecycleEvent::IdleAnswer(answer) => if answer >= 0 {
                    ServiceLifecycleState::Idle
                } else {
                    self
                },
                LifecycleEvent::Activate => ServiceLifecycleState::Active,
                LifecycleEvent::CancelIdle => if self == ServiceLifecycleState::Idle {
                    ServiceLifecycleState::Active
                } else {
                    self
                },
                LifecycleEvent::Stop => ServiceLifecycleState::Stopped,
            }
        }
    }

    /// Started and not yet stopped.
    #[verifier::when_used_as_spec(spec_is_running)]
    pub fn is_running(self) -> (r: bool)
        ensures
            r == self.spec_is_running(),
    {
        match self {
            ServiceLifecycleState::Started => true,
            ServiceLifecycleState::Idle => true,
            ServiceLifecycleState::Active => true,
            _ => false,
        }
    }

    /// Whether `event` means anything in this state.
    #[verifier::when_used_as_spec(spec_accepts)]
    pub fn accepts(self, event: LifecycleEvent) -> (r: bool)
        ensures
            r == self.spec_accepts(event),
    {
        match event {
            LifecycleEvent::Start => match self {
                ServiceLifecycleState::NotStarted => true,
                _ => false,
            },
            LifecycleEvent::IdleAnswer(_) => match self {
                ServiceLifecycleState::Started => true,
                ServiceLifecycleState::Active => true,
                _ => false,
            },
            LifecycleEvent::Activate => match self {
                ServiceLifecycleState::Idle => true,
                ServiceLifecycleState::Active => true,
                _ => false,
            },
            LifecycleEvent::CancelIdle => self.is_running(),
            LifecycleEvent::Stop => self.is_running(),
        }
    }

    /// The state that follows this one on `event`.
    #[verifier::when_used_as_spec(spec_next)]
    pub fn next(self, event: LifecycleEvent) -> (r: ServiceLifecycleState)
        ensures
            r == self.spec_next(event),
    {
        if !self.accepts(event) {
            return self;
        }
        match event {
            LifecycleEvent::Start => ServiceLifecycleState::Started,
            LifecycleEvent::IdleAnswer(answer) => if answer >= 0 {
                ServiceLifecycleState::Idle
            } else {
                self
            },
            LifecycleEvent::Activate => ServiceLifecycleState::Active,
            LifecycleEvent::CancelIdle => match self {
                ServiceLifecycleState::Idle => ServiceLifecycleState::Active,
                _ => self,
            },
            LifecycleEvent::Stop => ServiceLifecycleState::Stopped,
        }
    }

    /// Idle veto. An idle callback that returns a negative number leaves the
    /// state as it is, whatever the state; one that returns zero or more
    /// moves a started or active service to idle.
    pub proof fn lemma_idle_veto(self, answer: i32)
        ensures
            answer < 0 ==> self.spec_next(LifecycleEvent::IdleAnswer(answer)) == self,
            answer >= 0 && (self == ServiceLifecycleState::Started || self
                == ServiceLifecycleState::Active) ==> self.spec_next(
                LifecycleEvent::IdleAnswer(answer),
            ) == ServiceLifecycleState::Idle,
    {
    }

    /// A stopped service accepts nothing and stays stopped.
    pub proof fn lemma_stopped_is_final(event: LifecycleEvent)
        ensures
            !ServiceLifecycleState::Stopped.spec_accepts(event),
            ServiceLifecycleState::Stopped.spec_next(event) == ServiceLifecycleState::Stopped,
    {
    }

    /// A service never returns to the state before its start, and it leaves
    /// that state only by being started.
    pub proof fn lemma_start_happens_once(self, event: LifecycleEvent)
        ensures
            self != ServiceLifecycleState::NotStarted ==> self.spec_next(event)
                != ServiceLifecycleState::NotStarted,
            self == ServiceLifecycleState::NotStarted && event != LifecycleEvent::Start
                ==> self.spec_next(event) == ServiceLifecycleState::NotStarted,
            self.spec_next(event) == ServiceLifecycleState::Started ==> self
                == ServiceLifecycleState::Started || event == LifecycleEvent::Start,
    {
    }

    /// A request finds the service awake: once idling is cancelled a running
    /// service is not idle, and cancelling again changes nothing.
    pub proof fn lemma_cancel_idle_wakes(self)
        ensures
            self.spec_next(LifecycleEvent::CancelIdle) != ServiceLifecycleState::Idle,
            self.spec_next(LifecycleEvent::CancelIdle).spec_next(LifecycleEvent::CancelIdle)
                == self.spec_next(LifecycleEvent::CancelIdle),
            self.spec_next(LifecycleEvent::CancelIdle).spec_is_running() == self.spec_is_running(),
    {
    }
}

/// The state of a service after the events `events` reached it one after
/// another, starting from `from`.
pub open spec fn run(from: ServiceLifecycleState, events: Seq<LifecycleEvent>) -> ServiceLifecycleState
    decreases events.len(),
{
    if events.len() == 0 {
        from
    } else {
        run(from, events.drop_last()).spec_next(events.last())
    }
}

/// Once stopped, always stopped: whatever reaches a stopped service, it
/// stays stopped.
pub proof fn lemma_stopped_forever(events: Seq<LifecycleEvent>)
    ensures
        run(ServiceLifecycleState::Stopped, events) == ServiceLifecycleState::Stopped,
    decreases events.len(),
{
    if events.len() > 0 {
        lemma_stopped_forever(events.drop_last());
    }
}

/// A service stays before its start until it is started: as long as no
/// start reaches it, nothing moves it.
pub proof fn lemma_nothing_before_start(events: Seq<LifecycleEvent>)
    requires
        forall|i: int| 0 <= i < events.len() ==> events[i] != LifecycleEvent::Start,
    ensures
        run(ServiceLifecycleState::NotStarted, events) == ServiceLifecycleState::NotStarted,
    decreases events.len(),
{
    if events.len() > 0 {
        assert forall|i: int| 0 <= i < events.drop_last().len() implies events.drop_last()[i]
            != LifecycleEvent::Start by {
            assert(events.drop_last()[i] == events[i]);
        }
        lemma_nothing_before_start(events.drop_last());
    }
}

/// A service is idle only by its own permission: where a run ends idle,
/// the run holds an idle answer that is not negative, or began idle.
pub proof fn lemma_idle_only_by_permission(from: ServiceLifecycleState, events: Seq<LifecycleEvent>)
    requires
        run(from, events) == ServiceLifecycleState::Idle,
    ensures
        from == ServiceLifecycleState::Idle || exists|i: int|
            0 <= i < events.len() && (#[trigger] events[i] matches LifecycleEvent::IdleAnswer(answer)
                && answer >= 0),
    decreases events.len(),
{
    if events.len() > 0 {
        let before = run(from, events.drop_last());
        let last = events.last();
        if before == ServiceLifecycleState::Idle {
            lemma_idle_only_by_permission(from, events.drop_last());
            if from != ServiceLifecycleState::Idle {
                let i = choose|i: int|
                    0 <= i < events.drop_last().len() && (#[trigger] events.drop_last()[i] matches LifecycleEvent::IdleAnswer(
                        answer,
                    ) && answer >= 0);
                assert(events[i] == events.drop_last()[i]);
            }
        } else {
            assert(events[events.len() - 1] == last);
        }
    }
}

/// A guard for an effect that must happen at most once, however often its
/// trigger is delivered.
pub struct Once {
    done: bool,
}

impl Once {
    /// Whether the effect has happened.
    pub closed spec fn spec_is_completed(&self) -> bool {
        self.done
    }

    /// A guard whose effect has not happened yet.
    pub fn new() -> (r: Once)
        ensures
            !r.spec_is_completed(),
    {
        Once { done: false }
    }

    /// Whether the effect has happened.
    #[verifier::when_used_as_spec(spec_is_completed)]
    pub fn is_completed(&self) -> (r: bool)
        ensures
            r == self.spec_is_completed(),
    {
        self.done
    }

    /// Claims the effect. Returns `true` to the first caller, who is to
    /// carry the effect out, and `false` to every later one.
    pub fn call_once(&mut self) -> (first: bool)
        ensures
            first == !old(self).spec_is_completed(),
            final(self).spec_is_completed(),
    {
        let first = !self.done;
        self.done = true;
        first
    }
}

} // verus!
