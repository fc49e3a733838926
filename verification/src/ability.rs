//! What a service implements to take part in its lifecycle, and the handle
//! through which it acts on its own registration.

use vstd::prelude::*;
use crate::exts::SystemAbility;
use crate::lifecycle::{LifecycleEvent, ServiceLifecycleState};
use crate::parcel::{MsgParcel, ParcelView};
use crate::reason::{ReasonView, SystemAbilityOnDemandReason};
use crate::remote::{Described, RemoteStub};
use crate::wire::strings_view;
use crate::wrapper::{AbilityStub, AbilityWrapper};

verus! {

/// A call that the bridge delivers to a service, with what is handed over.
pub enum Call {
    /// A start, with its reason if it has one and the handle as it is
    /// handed over.
    Start(Option<ReasonView>, Handler),
    /// A stop, with its reason if it has one.
    Stop(Option<ReasonView>),
    /// The request to describe itself.
    Dump,
    /// A proposal to idle, with its reason.
    Idle(ReasonView),
    /// An activation, with its reason.
    Activate(ReasonView),
    /// The appearing of a service on a device.
    Loaded(i32, Seq<char>),
    /// The disappearing of a service from a device.
    Removed(i32, Seq<char>),
    /// A change of the host's level: kind of change, level and action.
    LevelChanged(i32, i32, Seq<char>),
    /// A verb, with the request and the reply as they are handed over.
    Extension(Seq<char>, ParcelView, ParcelView),
}

/// What a service made of a call.
pub enum Outcome {
    /// The call returned.
    Done,
    /// The start returned and left the handle like this.
    Started(Handler),
    /// The answer to a proposal to idle.
    Answer(i32),
    /// The status of a verb, and the request and the reply as it left them.
    Status(i32, ParcelView, ParcelView),
}

/// The lifecycle callbacks of a service.
///
/// A service says for itself, in `may`, what it may make of each call, and
/// every callback is held to that: what it is handed and what it returns
/// are a call and an outcome that `may` allows. A service that has nothing
/// to say of a call allows every outcome of it.
pub trait Ability {
    /// Whether the service, as it is, may meet `call` with `outcome`.
    spec fn may(&self, call: Call, outcome: Outcome) -> bool;

    /// The service starts. This is where it publishes its dispatch target.
    fn on_start(&mut self, handler: &mut Handler)
        ensures
            old(self).may(Call::Start(None, *old(handler)), Outcome::Started(*final(handler))),
    ;

    /// The service stops. Nothing is delivered to it afterwards.
    fn on_stop(&mut self)
        ensures
            old(self).may(Call::Stop(None), Outcome::Done),
    ;

    /// The service is asked to describe itself.
    fn on_dump(&mut self)
        ensures
            old(self).may(Call::Dump, Outcome::Done),
    ;

    /// The runtime proposes to idle the service. Zero or a positive number
    /// of milliseconds permits it, a negative number refuses.
    fn on_idle(&mut self, reason: SystemAbilityOnDemandReason) -> (answer: i32)
        ensures
            old(self).may(Call::Idle(reason@), Outcome::Answer(answer)),
    ;

    /// The service is activated: it was idle and is woken, or idling was
    /// cancelled and this is why.
    fn on_active(&mut self, reason: SystemAbilityOnDemandReason)
        ensures
            old(self).may(Call::Activate(reason@), Outcome::Done),
    ;

    /// The service starts, and this is why. Unless a service says
    /// otherwise, this is a start without a reason: the reason is dropped
    /// and `on_start` is handed the handle.
    fn on_start_with_reason(&mut self, reason: SystemAbilityOnDemandReason, handler: &mut Handler)
        ensures
            old(self).may(
                Call::Start(Some(reason@), *old(handler)),
                Outcome::Started(*final(handler)),
            ) || old(self).may(Call::Start(None, *old(handler)), Outcome::Started(*final(handler))),
        default_ensures
            old(self).may(Call::Start(None, *old(handler)), Outcome::Started(*final(handler))),
    {
        self.on_start(handler);
    }

    /// The service stops, and this is why. Unless a service says
    /// otherwise, this is a stop without a reason.
    fn on_stop_with_reason(&mut self, reason: SystemAbilityOnDemandReason)
        ensures
            old(self).may(Call::Stop(Some(reason@)), Outcome::Done) || old(self).may(
                Call::Stop(None),
                Outcome::Done,
            ),
        default_ensures
            old(self).may(Call::Stop(None), Outcome::Done),
    {
        self.on_stop();
    }

    /// A service this one listens for has appeared.
    fn on_system_ability_load_event(&mut self, said: i32, device_id: String)
        ensures
            old(self).may(Call::Loaded(said, device_id@), Outcome::Done),
    ;

    /// A service this one listens for has gone.
    fn on_system_ability_remove_event(&mut self, said: i32, device_id: String)
        ensures
            old(self).may(Call::Removed(said, device_id@), Outcome::Done),
    ;

    /// The power or thermal level of the host has changed.
    fn on_device_level_changed(&mut self, change_type: i32, level: i32, action: String)
        ensures
            old(self).may(Call::LevelChanged(change_type, level, action@), Outcome::Done),
    ;

    /// A verb outside the operation codes of the dispatch target arrives
    /// with the request `data` and the reply `reply`.
    fn on_extension(&mut self, extension: String, data: &mut MsgParcel, reply: &mut MsgParcel) -> (status:
        i32)
        ensures
            old(self).may(
                Call::Extension(extension@, old(data)@, old(reply)@),
                Outcome::Status(status, final(data)@, final(reply)@),
            ),
    ;
}

/// The service that does nothing. It leaves its handle as it is, permits
/// idling at once and reports success for every verb without touching a
/// payload. A service that cares about some calls only answers the others
/// as this one does.
pub struct Quiet;

impl Ability for Quiet {
    open spec fn may(&self, call: Call, outcome: Outcome) -> bool {
        match (call, outcome) {
            (Call::Start(_, handed), Outcome::Started(left)) => left == handed,
            (Call::Idle(_), Outcome::Answer(answer)) => answer == 0,
            (Call::Extension(_, data, reply), Outcome::Status(status, data_after, reply_after)) => {
                status == 0 && data_after == data && reply_after == reply
            },
            (Call::Stop(_), Outcome::Done) => true,
            (Call::Dump, Outcome::Done) => true,
            (Call::Activate(_), Outcome::Done) => true,
            (Call::Loaded(_, _), Outcome::Done) => true,
            (Call::Removed(_, _), Outcome::Done) => true,
            (Call::LevelChanged(_, _, _), Outcome::Done) => true,
            _ => false,
        }
    }

    fn on_start(&mut self, handler: &mut Handler) {
    }

    fn on_stop(&mut self) {
    }

    fn on_dump(&mut self) {
    }

    fn on_idle(&mut self, reason: SystemAbilityOnDemandReason) -> (answer: i32) {
        0
    }

    fn on_active(&mut self, reason: SystemAbilityOnDemandReason) {
    }

    fn on_system_ability_load_event(&mut self, said: i32, device_id: String) {
    }

    fn on_system_ability_remove_event(&mut self, said: i32, device_id: String) {
    }

    fn on_device_level_changed(&mut self, change_type: i32, level: i32, action: String) {
    }

    fn on_extension(&mut self, extension: String, data: &mut MsgParcel, reply: &mut MsgParcel) -> (status:
        i32) {
        0
    }
}

/// The quiet service permits idling, and a started or active service that
/// answers as it does is idled.
pub proof fn lemma_quiet_permits_idling(reason: ReasonView, answer: i32)
    requires
        Quiet.may(Call::Idle(reason), Outcome::Answer(answer)),
    ensures
        answer == 0,
        ServiceLifecycleState::Started.spec_next(LifecycleEvent::IdleAnswer(answer))
            == ServiceLifecycleState::Idle,
        ServiceLifecycleState::Active.spec_next(LifecycleEvent::IdleAnswer(answer))
            == ServiceLifecycleState::Idle,
{
}

/// Building a registration out of a service. Every service can be built.
pub trait BuildSystemAbility: Ability + Sized + 'static {
    /// Binds the service to the id `said`. `accepted` is the manager's
    /// answer to the construction: where it refused there is no service,
    /// and nothing of the attempt is left.
    fn build_system_ability(self, said: i32, run_on_create: bool, accepted: bool) -> (r: Option<
        SystemAbility<Self>,
    >)
        ensures
            r is Some <==> accepted,
            r matches Some(sa) ==> sa.service() == self && sa.spec_said() == said
                && sa.spec_run_on_create() == run_on_create && !sa.spec_registered()
                && sa.spec_state() == ServiceLifecycleState::NotStarted
                && sa.spec_handler().target() is None && sa.spec_handler().listeners() == Set::<
                i32,
            >::empty(),
    ;
}

impl<A: Ability + Sized + 'static> BuildSystemAbility for A {
    fn build_system_ability(self, said: i32, run_on_create: bool, accepted: bool) -> (r: Option<
        SystemAbility<Self>,
    >) {
        if accepted {
            let ability = AbilityWrapper::new(self);
            Some(SystemAbility::new(ability, said, run_on_create))
        } else {
            None
        }
    }
}

/// What a sequence holds after one more element was appended.
proof fn lemma_push_contains(s: Seq<i32>, x: i32, y: i32)
    ensures
        s.push(x).contains(y) <==> (s.contains(y) || y == x),
{
    if s.push(x).contains(y) {
        let j = choose|j: int| 0 <= j < s.push(x).len() && s.push(x)[j] == y;
        if j < s.len() {
            assert(s[j] == y);
        }
    }
    if s.contains(y) {
        let j = choose|j: int| 0 <= j < s.len() && s[j] == y;
        assert(s.push(x)[j] == y);
    }
    if y == x {
        assert(s.push(x)[s.len() as int] == y);
    }
}

/// The lifecycle controller of one registered service: its state, its
/// dispatch target and the services it listens for. A service receives it
/// when it starts and acts on its registration through it.
pub struct Handler {
    state: ServiceLifecycleState,
    target: Option<AbilityStub>,
    listeners: Vec<i32>,
}

impl Handler {
    /// The state of the service.
    pub closed spec fn state(&self) -> ServiceLifecycleState {
        self.state
    }

    /// The dispatch target to which requests are routed, if one is published.
    pub closed spec fn target(&self) -> Option<AbilityStub> {
        self.target
    }

    /// The ids of the services whose appearing and disappearing is reported.
    pub closed spec fn listeners(&self) -> Set<i32> {
        Set::new(|x: i32| self.listeners@.contains(x))
    }

    /// The controller of a service that has not started: nothing is
    /// published and nothing is listened for.
    pub(crate) fn new() -> (r: Handler)
        ensures
            r.state() == ServiceLifecycleState::NotStarted,
            r.target() is None,
            r.listeners() == Set::<i32>::empty(),
    {
        let r = Handler { state: ServiceLifecycleState::NotStarted, target: None, listeners: Vec::new() };
        assert(r.listeners() =~= Set::<i32>::empty());
        r
    }

    /// The state of the service.
    pub fn current_state(&self) -> (s: ServiceLifecycleState)
        ensures
            s == self.state(),
    {
        self.state
    }

    /// Whether a dispatch target is published.
    pub fn has_target(&self) -> (b: bool)
        ensures
            b == self.target() is Some,
    {
        self.target.is_some()
    }

    /// Whether the service `said` is listened for.
    pub fn is_listening(&self, said: i32) -> (b: bool)
        ensures
            b == self.listeners().contains(said),
    {
        let mut i: usize = 0;
        while i < self.listeners.len()
            invariant
                i <= self.listeners@.len(),
                forall|j: int| 0 <= j < i ==> self.listeners@[j] != said,
            decreases self.listeners@.len() - i,
        {
            if self.listeners[i] == said {
                return true;
            }
            i = i + 1;
        }
        false
    }

    /// The ids listened for, each once.
    pub fn listener_ids(&self) -> (ids: Vec<i32>)
        ensures
            ids@.no_duplicates(),
            forall|x: i32| ids@.contains(x) <==> self.listeners().contains(x),
    {
        let mut ids: Vec<i32> = Vec::new();
        let mut i: usize = 0;
        while i < self.listeners.len()
            invariant
                i <= self.listeners@.len(),
                ids@.no_duplicates(),
                forall|x: i32| ids@.contains(x) <==> self.listeners@.take(i as int).contains(x),
            decreases self.listeners@.len() - i,
        {
            let x: i32 = self.listeners[i];
            let ghost ids0 = ids@;
            let ghost seen = self.listeners@.take(i as int);
            let mut known = false;
            let mut j: usize = 0;
            while j < ids.len()
                invariant
                    j <= ids@.len(),
                    known == ids@.take(j as int).contains(x),
                decreases ids@.len() - j,
            {
                proof {
                    lemma_push_contains(ids@.take(j as int), ids@[j as int], x);
                    assert(ids@.take(j + 1) =~= ids@.take(j as int).push(ids@[j as int]));
                }
                if ids[j] == x {
                    known = true;
                }
                j = j + 1;
            }
            assert(ids@.take(j as int) =~= ids@);
            if !known {
                ids.push(x);
                assert(ids@.no_duplicates()) by {
                    assert forall|a: int, b: int|
                        0 <= a < ids@.len() && 0 <= b < ids@.len() && a != b implies ids@[a]
                        != ids@[b] by {
                        if a < ids0.len() && b < ids0.len() {
                            assert(ids0[a] != ids0[b]);
                        } else if a < ids0.len() {
                            assert(ids0.contains(ids0[a]));
                        } else {
                            assert(ids0.contains(ids0[b]));
                        }
                    }
                }
            }
            i = i + 1;
            proof {
                assert(self.listeners@.take(i as int) =~= seen.push(x));
                assert forall|y: i32|
                    ids@.contains(y) <==> self.listeners@.take(i as int).contains(y) by {
                    lemma_push_contains(ids0, x, y);
                    lemma_push_contains(seen, x, y);
                    assert(ids0.contains(y) <==> seen.contains(y));
                }
            }
        }
        assert(self.listeners@.take(i as int) =~= self.listeners@);
        ids
    }

    /// Installs `ability` as the dispatch target. A target that was
    /// published before is replaced and dropped: the last one published
    /// wins. A request is handled to its end before anything else happens
    /// to the service, so none is in flight against the target that is
    /// replaced; requests that arrive from now on go to the new one. A
    /// stopped service publishes nothing.
    pub fn publish<A: RemoteStub + 'static>(&mut self, ability: A) -> (ok: bool)
        ensures
            ok == (old(self).state() != ServiceLifecycleState::Stopped),
            ok ==> final(self).target() == Some(AbilityStub::spec_new(ability)),
            !ok ==> final(self).target() == old(self).target(),
            final(self).state() == old(self).state(),
            final(self).listeners() == old(self).listeners(),
    {
        match self.state {
            ServiceLifecycleState::Stopped => false,
            _ => {
                self.target = Some(AbilityStub::new(ability));
                true
            },
        }
    }

    /// Asks that the service stay awake. Succeeds on a running service,
    /// which is not idle afterwards; fails before the start and after the
    /// stop, where there is nothing to keep awake.
    pub fn cancel_idle(&mut self) -> (ok: bool)
        ensures
            ok == old(self).state().spec_is_running(),
            final(self).state() == old(self).state().spec_next(LifecycleEvent::CancelIdle),
            final(self).target() == old(self).target(),
            final(self).listeners() == old(self).listeners(),
    {
        let ok = self.state.is_running();
        self.state = self.state.next(LifecycleEvent::CancelIdle);
        ok
    }

    /// Starts listening for the service `system_ability_id`. Fails where
    /// it is listened for already or this service has stopped.
    pub fn add_system_ability_listen(&mut self, system_ability_id: i32) -> (ok: bool)
        ensures
            ok == (old(self).state() != ServiceLifecycleState::Stopped && !old(self).listeners().contains(system_ability_id)),
            ok ==> final(self).listeners() == old(self).listeners().insert(system_ability_id),
            !ok ==> final(self).listeners() == old(self).listeners(),
            final(self).state() == old(self).state(),
            final(self).target() == old(self).target(),
    {
        match self.state {
            ServiceLifecycleState::Stopped => {
                return false;
            },
            _ => {},
        }
        if self.is_listening(system_ability_id) {
            return false;
        }
        self.listeners.push(system_ability_id);
        proof {
            assert forall|y: i32|
                self.listeners().contains(y) <==> old(self).listeners().insert(
                    system_ability_id,
                ).contains(y) by {
                lemma_push_contains(old(self).listeners@, system_ability_id, y);
            }
            assert(self.listeners() =~= old(self).listeners().insert(system_ability_id));
        }
        true
    }

    /// Stops listening for the service `system_ability_id`. Fails where it
    /// was not listened for.
    pub fn remove_system_ability_listen(&mut self, system_ability_id: i32) -> (ok: bool)
        ensures
            ok == old(self).listeners().contains(system_ability_id),
            final(self).listeners() == old(self).listeners().remove(system_ability_id),
            final(self).state() == old(self).state(),
            final(self).target() == old(self).target(),
    {
        let mut kept: Vec<i32> = Vec::new();
        let mut found = false;
        let mut i: usize = 0;
        while i < self.listeners.len()
            invariant
                i <= self.listeners@.len(),
                *self == *old(self),
                found == self.listeners@.take(i as int).contains(system_ability_id),
                forall|y: i32|
                    kept@.contains(y) <==> (self.listeners@.take(i as int).contains(y) && y
                        != system_ability_id),
            decreases self.listeners@.len() - i,
        {
            let x: i32 = self.listeners[i];
            let ghost kept0 = kept@;
            let ghost seen = self.listeners@.take(i as int);
            if x == system_ability_id {
                found = true;
            } else {
                kept.push(x);
            }
            i = i + 1;
            proof {
                let now = self.listeners@.take(i as int);
                assert(now =~= seen.push(x));
                lemma_push_contains(seen, x, system_ability_id);
                assert forall|y: i32|
                    kept@.contains(y) <==> (self.listeners@.take(i as int).contains(y) && y
                        != system_ability_id) by {
                    lemma_push_contains(kept0, x, y);
                    lemma_push_contains(seen, x, y);
                    assert(kept0.contains(y) <==> (seen.contains(y) && y != system_ability_id));
                }
            }
        }
        assert(self.listeners@.take(i as int) =~= self.listeners@);
        self.listeners = kept;
        assert(self.listeners() =~= old(self).listeners().remove(system_ability_id));
        found
    }

    /// Moves the state as `event` says.
    pub(crate) fn advance(&mut self, event: LifecycleEvent)
        ensures
            final(self).state() == old(self).state().spec_next(event),
            final(self).target() == old(self).target(),
            final(self).listeners() == old(self).listeners(),
    {
        self.state = self.state.next(event);
    }

    /// Sets the state after a callback that was free to use the handle.
    pub(crate) fn settle(&mut self, state: ServiceLifecycleState)
        ensures
            final(self).state() == state,
            final(self).target() == old(self).target(),
            final(self).listeners() == old(self).listeners(),
    {
        self.state = state;
    }

    /// Gives up the dispatch target and every listener.
    pub(crate) fn release(&mut self)
        ensures
            final(self).state() == old(self).state(),
            final(self).target() is None,
            final(self).listeners() == Set::<i32>::empty(),
    {
        self.target = None;
        self.listeners = Vec::new();
        assert(self.listeners() =~= Set::<i32>::empty());
    }

    /// Asks the dispatch target, if there is one, to describe itself.
    pub(crate) fn describe(&mut self, args: Vec<String>) -> (out: Option<(i32, String)>)
        ensures
            final(self).state() == old(self).state(),
            final(self).listeners() == old(self).listeners(),
            out is Some <==> old(self).target() is Some,
            final(self).target() is Some <==> old(self).target() is Some,
            old(self).target() matches Some(t) ==> (forall|c: u32|
                final(self).target()->Some_0.accepts(c) == t.accepts(c)),
            old(self).target() matches Some(t) ==> out matches Some(got) && t.target_may_dump(
                (Described { args: strings_view(args@), status: got.0, text: got.1@ }),
            ),
    {
        match &mut self.target {
            Some(t) => Some(t.dump(args)),
            None => None,
        }
    }

    /// Routes a request to the dispatch target, if there is one.
    pub(crate) fn route(&mut self, code: u32, data: &mut MsgParcel, reply: &mut MsgParcel) -> (status:
        Option<i32>)
        ensures
            final(self).state() == old(self).state(),
            final(self).listeners() == old(self).listeners(),
            status is Some <==> old(self).target() is Some,
            final(self).target() is Some <==> old(self).target() is Some,
            old(self).target() matches Some(t) ==> (forall|c: u32|
                final(self).target()->Some_0.accepts(c) == t.accepts(c)),
            old(self).target() matches Some(t) ==> !t.accepts(code) ==> status == Some(
                crate::status::IpcError::DispatchRejected.spec_status_code(),
            ) && final(data)@ == old(data)@ && final(reply)@ == old(reply)@,
            old(self).target() is None ==> final(data)@ == old(data)@ && final(reply)@ == old(reply)@ && final(self).target() is None,
            old(self).target() matches Some(t) ==> status matches Some(got) && t.target_may_handle(
                code,
                old(data)@,
                old(reply)@,
                got,
                final(data)@,
                final(reply)@,
            ),
    {
        match &mut self.target {
            Some(t) => Some(t.on_remote_request(code, data, reply)),
            None => None,
        }
    }
}

} // verus!
