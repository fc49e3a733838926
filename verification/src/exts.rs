//! The registration bridge: a service bound to its id, as the manager and
//! the hosting runtime see it.
//!
//! The runtime drives a registered service by delivering lifecycle events
//! and requests. An event that the state of the service does not accept is
//! not delivered: the service is left exactly as it was. A request that
//! arrives at a running service with a published dispatch target first
//! cancels idling and is handed to the target.

use vstd::prelude::*;
use crate::ability::{Ability, BuildSystemAbility, Call, Handler, Outcome};
use crate::lifecycle::{LifecycleEvent, ServiceLifecycleState};
use crate::parcel::{MsgParcel, ParcelView};
use crate::reason::{ReasonView, SystemAbilityOnDemandReason};
use crate::remote::{reply_view, Described, IRemoteObj, RemoteStub};
use crate::status::{IpcError, IpcResult, STATUS_OK};
use crate::wire::strings_view;
use crate::wrapper::AbilityWrapper;

verus! {

/// A service bound to its id, ready to be registered and driven.
pub struct SystemAbility<A: Ability> {
    ability: AbilityWrapper<A>,
    handler: Handler,
    said: i32,
    run_on_create: bool,
    registered: bool,
}

impl<A: Ability> SystemAbility<A> {
    /// The id to which the service is bound.
    pub closed spec fn spec_said(&self) -> i32 {
        self.said
    }

    /// Whether the service is to be started as soon as it is created.
    pub closed spec fn spec_run_on_create(&self) -> bool {
        self.run_on_create
    }

    /// Whether the service is registered with the manager.
    pub closed spec fn spec_registered(&self) -> bool {
        self.registered
    }

    /// The lifecycle controller of the service.
    pub closed spec fn spec_handler(&self) -> Handler {
        self.handler
    }

    /// The state of the service.
    pub open spec fn spec_state(&self) -> ServiceLifecycleState {
        self.spec_handler().state()
    }

    /// The service itself.
    pub closed spec fn service(&self) -> A {
        self.ability.service()
    }

    /// Whether the service may meet `call` with `outcome`, as the service
    /// itself says.
    pub open spec fn service_may(&self, call: Call, outcome: Outcome) -> bool {
        self.service().may(call, outcome)
    }

    /// Whether the lifecycle event `event` is delivered to the service.
    pub open spec fn delivers(&self, event: LifecycleEvent) -> bool {
        self.spec_registered() && self.spec_state().spec_accepts(event)
    }

    /// Whether a request is handed to a dispatch target.
    pub open spec fn routes(&self) -> bool {
        self.spec_registered() && self.spec_state().spec_is_running()
            && self.spec_handler().target() is Some
    }

    /// Whether the appearing or disappearing of `said` is reported.
    pub open spec fn listens_for(&self, said: i32) -> bool {
        self.spec_registered() && self.spec_state().spec_is_running()
            && self.spec_handler().listeners().contains(said)
    }

    /// Whether the two are bound alike: the same id, the same start mode,
    /// and both registered or both not.
    pub open spec fn same_binding(&self, other: &SystemAbility<A>) -> bool {
        self.spec_said() == other.spec_said() && self.spec_run_on_create()
            == other.spec_run_on_create() && self.spec_registered() == other.spec_registered()
    }

    /// The service `ability` bound to `said`: not registered, not started, with
    /// nothing published and nothing listened for.
    pub(crate) fn new(ability: AbilityWrapper<A>, said: i32, run_on_create: bool) -> (r: SystemAbility<A>)
        ensures
            r.service() == ability.service(),
            r.spec_said() == said,
            r.spec_run_on_create() == run_on_create,
            !r.spec_registered(),
            r.spec_state() == ServiceLifecycleState::NotStarted,
            r.spec_handler().target() is None,
            r.spec_handler().listeners() == Set::<i32>::empty(),
    {
        SystemAbility { ability, handler: Handler::new(), said, run_on_create, registered: false }
    }

    /// The id to which the service is bound.
    #[verifier::when_used_as_spec(spec_said)]
    pub fn said(&self) -> (r: i32)
        ensures
            r == self.spec_said(),
    {
        self.said
    }

    /// Whether the service is to be started as soon as it is created.
    #[verifier::when_used_as_spec(spec_run_on_create)]
    pub fn run_on_create(&self) -> (r: bool)
        ensures
            r == self.spec_run_on_create(),
    {
        self.run_on_create
    }

    /// Whether the service is registered with the manager.
    #[verifier::when_used_as_spec(spec_registered)]
    pub fn registered(&self) -> (r: bool)
        ensures
            r == self.spec_registered(),
    {
        self.registered
    }

    /// The state of the service.
    #[verifier::when_used_as_spec(spec_state)]
    pub fn state(&self) -> (r: ServiceLifecycleState)
        ensures
            r == self.spec_state(),
    {
        self.handler.current_state()
    }

    /// The lifecycle controller of the service.
    pub fn handler(&self) -> (r: &Handler)
        ensures
            *r == self.spec_handler(),
    {
        &self.handler
    }

    /// The handle of the service: the authority to publish a dispatch
    /// target, to cancel idling and to listen for other services.
    pub fn handle(&mut self) -> (r: &mut Handler)
        ensures
            *r == old(self).spec_handler(),
            final(self).spec_handler() == *final(r),
            final(self).same_binding(old(self)),
    {
        &mut self.handler
    }

    /// Registers the service with the manager. From now on lifecycle
    /// events and requests are delivered to it.
    pub fn register(&mut self)
        ensures
            final(self).spec_registered(),
            final(self).service() == old(self).service(),
            final(self).spec_said() == old(self).spec_said(),
            final(self).spec_run_on_create() == old(self).spec_run_on_create(),
            final(self).spec_handler() == old(self).spec_handler(),
    {
        self.registered = true;
    }

    /// The runtime starts the service. The service is handed the reason
    /// and its handle as it is, through which it publishes its dispatch
    /// target; what it leaves published and listened for is kept.
    pub fn on_start(&mut self, reason: SystemAbilityOnDemandReason)
        ensures
            final(self).same_binding(old(self)),
            old(self).delivers(LifecycleEvent::Start) ==> final(self).spec_state()
                == ServiceLifecycleState::Started,
            old(self).delivers(LifecycleEvent::Start) ==> exists|left: Handler|
                #[trigger] started_as(old(self), Some(reason@), left) && final(self).spec_handler().target() == left.target() && final(self).spec_handler().listeners()
                    == left.listeners(),
            !old(self).delivers(LifecycleEvent::Start) ==> *final(self) == *old(self),
    {
        if self.registered && self.handler.current_state().accepts(LifecycleEvent::Start) {
            self.ability.OnStartWithReason(reason, &mut self.handler);
            let ghost left = self.handler;
            self.handler.settle(ServiceLifecycleState::Started);
            proof {
                assert(started_as(old(self), Some(reason@), left));
            }
        }
    }

    /// The runtime starts the service without giving a reason. The
    /// service is handed its handle as it is; what it leaves published and
    /// listened for is kept.
    pub fn on_start_without_reason(&mut self)
        ensures
            final(self).same_binding(old(self)),
            old(self).delivers(LifecycleEvent::Start) ==> final(self).spec_state()
                == ServiceLifecycleState::Started,
            old(self).delivers(LifecycleEvent::Start) ==> exists|left: Handler|
                #[trigger] started_as(old(self), None, left) && final(self).spec_handler().target()
                    == left.target() && final(self).spec_handler().listeners() == left.listeners(),
            !old(self).delivers(LifecycleEvent::Start) ==> *final(self) == *old(self),
    {
        if self.registered && self.handler.current_state().accepts(LifecycleEvent::Start) {
            self.ability.OnStart(&mut self.handler);
            let ghost left = self.handler;
            self.handler.settle(ServiceLifecycleState::Started);
            proof {
                assert(started_as(old(self), None, left));
            }
        }
    }

    /// The runtime proposes to idle the service and returns the answer.
    /// Where the proposal is delivered the answer is that of the service,
    /// and the service idles exactly if the answer is not negative. Where
    /// it is not delivered, an idle service answers zero and any other
    /// refuses with `-1`.
    pub fn on_idle(&mut self, reason: SystemAbilityOnDemandReason) -> (answer: i32)
        ensures
            final(self).same_binding(old(self)),
            final(self).spec_state() == old(self).spec_state().spec_next(
                LifecycleEvent::IdleAnswer(answer),
            ),
            final(self).spec_handler().target() == old(self).spec_handler().target(),
            final(self).spec_handler().listeners() == old(self).spec_handler().listeners(),
            old(self).delivers(LifecycleEvent::IdleAnswer(0)) ==> old(self).service_may(
                Call::Idle(reason@),
                Outcome::Answer(answer),
            ),
            !old(self).delivers(LifecycleEvent::IdleAnswer(0)) ==> *final(self) == *old(self)
                && answer == (if old(self).spec_state() == ServiceLifecycleState::Idle {
                0i32
            } else {
                -1i32
            }),
    {
        if self.registered && self.handler.current_state().accepts(LifecycleEvent::IdleAnswer(0)) {
            let answer: i32 = self.ability.OnIdle(reason);
            self.handler.advance(LifecycleEvent::IdleAnswer(answer));
            answer
        } else {
            match self.handler.current_state() {
                ServiceLifecycleState::Idle => 0,
                _ => -1,
            }
        }
    }

    /// The runtime activates the service. This is delivered to an idle
    /// service, which it wakes, and to an active one, to which it brings the
    /// reason why idling was cancelled.
    pub fn on_active(&mut self, reason: SystemAbilityOnDemandReason)
        ensures
            final(self).same_binding(old(self)),
            old(self).delivers(LifecycleEvent::Activate) ==> final(self).spec_state()
                == ServiceLifecycleState::Active,
            final(self).spec_handler().target() == old(self).spec_handler().target(),
            final(self).spec_handler().listeners() == old(self).spec_handler().listeners(),
            old(self).delivers(LifecycleEvent::Activate) ==> old(self).service_may(
                Call::Activate(reason@),
                Outcome::Done,
            ),
            !old(self).delivers(LifecycleEvent::Activate) ==> *final(self) == *old(self),
    {
        if self.registered && self.handler.current_state().accepts(LifecycleEvent::Activate) {
            self.ability.OnActive(reason);
            self.handler.advance(LifecycleEvent::Activate);
        }
    }

    /// The runtime stops the service. The service receives the reason;
    /// afterwards its dispatch target and its listeners are released, and
    /// nothing is delivered to it any more.
    pub fn on_stop(&mut self, reason: SystemAbilityOnDemandReason)
        ensures
            final(self).same_binding(old(self)),
            old(self).delivers(LifecycleEvent::Stop) ==> final(self).spec_state()
                == ServiceLifecycleState::Stopped && final(self).spec_handler().target() is None
                && final(self).spec_handler().listeners() == Set::<i32>::empty(),
            old(self).delivers(LifecycleEvent::Stop) ==> old(self).service_may(
                Call::Stop(Some(reason@)),
                Outcome::Done,
            ) || old(self).service_may(Call::Stop(None), Outcome::Done),
            !old(self).delivers(LifecycleEvent::Stop) ==> *final(self) == *old(self),
    {
        if self.registered && self.handler.current_state().accepts(LifecycleEvent::Stop) {
            self.ability.OnStopWithReason(reason);
            self.handler.advance(LifecycleEvent::Stop);
            self.handler.release();
        }
    }

    /// The runtime stops the service without giving a reason.
    pub fn on_stop_without_reason(&mut self)
        ensures
            final(self).same_binding(old(self)),
            old(self).delivers(LifecycleEvent::Stop) ==> final(self).spec_state()
                == ServiceLifecycleState::Stopped && final(self).spec_handler().target() is None
                && final(self).spec_handler().listeners() == Set::<i32>::empty(),
            old(self).delivers(LifecycleEvent::Stop) ==> old(self).service_may(
                Call::Stop(None),
                Outcome::Done,
            ),
            !old(self).delivers(LifecycleEvent::Stop) ==> *final(self) == *old(self),
    {
        if self.registered && self.handler.current_state().accepts(LifecycleEvent::Stop) {
            self.ability.OnStop();
            self.handler.advance(LifecycleEvent::Stop);
            self.handler.release();
        }
    }

    /// The service `said` has appeared on the device `device_id`. This is
    /// reported to a running service that listens for `said`.
    pub fn on_system_ability_load_event(&mut self, said: i32, device_id: String)
        ensures
            final(self).same_binding(old(self)),
            final(self).spec_handler() == old(self).spec_handler(),
            old(self).listens_for(said) ==> old(self).service_may(
                Call::Loaded(said, device_id@),
                Outcome::Done,
            ),
            !old(self).listens_for(said) ==> *final(self) == *old(self),
    {
        if self.registered && self.handler.current_state().is_running() && self.handler.is_listening(
            said,
        ) {
            self.ability.OnAddSystemAbility(said, device_id);
        }
    }

    /// The service `said` has disappeared from the device `device_id`.
    /// This is reported to a running service that listens for `said`.
    pub fn on_system_ability_remove_event(&mut self, said: i32, device_id: String)
        ensures
            final(self).same_binding(old(self)),
            final(self).spec_handler() == old(self).spec_handler(),
            old(self).listens_for(said) ==> old(self).service_may(
                Call::Removed(said, device_id@),
                Outcome::Done,
            ),
            !old(self).listens_for(said) ==> *final(self) == *old(self),
    {
        if self.registered && self.handler.current_state().is_running() && self.handler.is_listening(
            said,
        ) {
            self.ability.OnRemoveSystemAbility(said, device_id);
        }
    }

    /// The power or thermal level of the host has changed. This is reported
    /// to a running service.
    pub fn on_device_level_changed(&mut self, change_type: i32, level: i32, action: String)
        ensures
            final(self).same_binding(old(self)),
            final(self).spec_handler() == old(self).spec_handler(),
            old(self).spec_registered() && old(self).spec_state().spec_is_running() ==> old(self).service_may(Call::LevelChanged(change_type, level, action@), Outcome::Done),
            !(old(self).spec_registered() && old(self).spec_state().spec_is_running()) ==> *final(self) == *old(self),
    {
        if self.registered && self.handler.current_state().is_running() {
            self.ability.OnDeviceLevelChanged(change_type, level, action);
        }
    }

    /// Asks a running service to describe itself.
    pub fn on_dump(&mut self)
        ensures
            final(self).same_binding(old(self)),
            final(self).spec_handler() == old(self).spec_handler(),
            old(self).spec_registered() && old(self).spec_state().spec_is_running() ==> old(self).service_may(Call::Dump, Outcome::Done),
            !(old(self).spec_registered() && old(self).spec_state().spec_is_running()) ==> *final(self) == *old(self),
    {
        if self.registered && self.handler.current_state().is_running() {
            self.ability.OnDump();
        }
    }

    /// Asks the dispatch target of a running service to describe itself,
    /// and returns its status and its text. Where nothing is routed to a
    /// target the request is rejected, with no text, and nothing changes.
    pub fn dump(&mut self, args: Vec<String>) -> (out: (i32, String))
        ensures
            final(self).same_binding(old(self)),
            final(self).spec_state() == old(self).spec_state(),
            final(self).spec_handler().listeners() == old(self).spec_handler().listeners(),
            final(self).routes() == old(self).routes(),
            !old(self).routes() ==> *final(self) == *old(self) && out.0
                == IpcError::DispatchRejected.spec_status_code() && out.1@ == Seq::<char>::empty(),
            old(self).routes() ==> old(self).spec_handler().target()->Some_0.target_may_dump(
                (Described { args: strings_view(args@), status: out.0, text: out.1@ }),
            ),
    {
        if !(self.registered && self.handler.current_state().is_running() && self.handler.has_target()) {
            return (IpcError::DispatchRejected.status_code(), String::new());
        }
        match self.handler.describe(args) {
            Some(out) => out,
            None => (IpcError::DispatchRejected.status_code(), String::new()),
        }
    }

    /// Hands the verb `extension` to the service, with `data` as its
    /// request and `reply` as its reply, and returns the status of the
    /// service. A stopped service receives nothing: the verb is rejected.
    pub fn on_extension(&mut self, extension: String, data: &mut MsgParcel, reply: &mut MsgParcel) -> (status:
        i32)
        ensures
            final(self).same_binding(old(self)),
            final(self).spec_handler() == old(self).spec_handler(),
            old(self).spec_state() == ServiceLifecycleState::Stopped ==> status
                == IpcError::DispatchRejected.spec_status_code() && *final(self) == *old(self)
                && final(data)@ == old(data)@ && final(reply)@ == old(reply)@,
            old(self).spec_state() != ServiceLifecycleState::Stopped ==> old(self).service_may(
                Call::Extension(extension@, old(data)@, old(reply)@),
                Outcome::Status(status, final(data)@, final(reply)@),
            ),
    {
        match self.handler.current_state() {
            ServiceLifecycleState::Stopped => IpcError::DispatchRejected.status_code(),
            _ => self.ability.OnExtension(extension, data, reply),
        }
    }

    /// A request arrives. Where the service is registered and running and
    /// has published a dispatch target, idling is cancelled and the target
    /// handles the request; an operation code outside its mapping is
    /// rejected with the payloads untouched. Otherwise the request is
    /// rejected and nothing changes at all.
    pub fn on_remote_request(&mut self, code: u32, data: &mut MsgParcel, reply: &mut MsgParcel) -> (status:
        i32)
        ensures
            final(self).same_binding(old(self)),
            final(self).spec_handler().listeners() == old(self).spec_handler().listeners(),
            final(self).spec_state() == (if old(self).routes() {
                old(self).spec_state().spec_next(LifecycleEvent::CancelIdle)
            } else {
                old(self).spec_state()
            }),
            final(self).routes() == old(self).routes(),
            old(self).routes() ==> (forall|c: u32|
                final(self).spec_handler().target()->Some_0.accepts(c) == old(self).spec_handler().target()->Some_0.accepts(c)),
            !old(self).routes() ==> *final(self) == *old(self),
            !old(self).routes() || !old(self).spec_handler().target()->Some_0.accepts(code)
                ==> status == IpcError::DispatchRejected.spec_status_code() && final(data)@ == old(data)@ && final(reply)@ == old(reply)@,
            old(self).routes() ==> old(self).spec_handler().target()->Some_0.target_may_handle(
                code,
                old(data)@,
                old(reply)@,
                status,
                final(data)@,
                final(reply)@,
            ),
    {
        if !(self.registered && self.handler.current_state().is_running() && self.handler.has_target()) {
            return IpcError::DispatchRejected.status_code();
        }
        self.handler.cancel_idle();
        match self.handler.route(code, data, reply) {
            Some(status) => status,
            None => IpcError::DispatchRejected.status_code(),
        }
    }
}

/// Whether the service `sa` met a start for `reason` by leaving its handle
/// as `left`: as a start for this reason or, where it has nothing of its
/// own for that, as a start without a reason. It is handed the handle as
/// the bridge holds it.
pub open spec fn started_as<A: Ability>(
    sa: &SystemAbility<A>,
    reason: Option<ReasonView>,
    left: Handler,
) -> bool {
    sa.service_may(Call::Start(reason, sa.spec_handler()), Outcome::Started(left)) || sa.service_may(
        Call::Start(None, sa.spec_handler()),
        Outcome::Started(left),
    )
}

/// Idle veto through the bridge. Given what a service may answer to a
/// proposal to idle, the state after the proposal follows from the answer:
/// a service that may only refuse is left as it is, and a started or
/// active service that may only permit is idled.
pub proof fn lemma_service_decides_idling<A: Ability>(
    sa: SystemAbility<A>,
    reason: ReasonView,
    answer: i32,
)
    requires
        sa.service_may(Call::Idle(reason), Outcome::Answer(answer)),
    ensures
        (forall|a: i32| #[trigger] sa.service_may(Call::Idle(reason), Outcome::Answer(a)) ==> a < 0)
            ==> sa.spec_state().spec_next(LifecycleEvent::IdleAnswer(answer)) == sa.spec_state(),
        (forall|a: i32| #[trigger] sa.service_may(Call::Idle(reason), Outcome::Answer(a)) ==> a >= 0)
            && sa.spec_state().spec_accepts(LifecycleEvent::IdleAnswer(answer))
            ==> sa.spec_state().spec_next(LifecycleEvent::IdleAnswer(answer))
            == ServiceLifecycleState::Idle,
{
}

/// A stopped service receives nothing: no lifecycle event is delivered to
/// it, no request is routed, and no event of another service is reported.
pub proof fn lemma_stopped_receives_nothing<A: Ability>(
    sa: SystemAbility<A>,
    event: LifecycleEvent,
    said: i32,
)
    requires
        sa.spec_state() == ServiceLifecycleState::Stopped,
    ensures
        !sa.delivers(event),
        !sa.routes(),
        !sa.listens_for(said),
{
}

/// Before it is registered a service receives no lifecycle event and no
/// request.
pub proof fn lemma_unregistered_receives_nothing<A: Ability>(
    sa: SystemAbility<A>,
    event: LifecycleEvent,
    said: i32,
)
    requires
        !sa.spec_registered(),
    ensures
        !sa.delivers(event),
        !sa.routes(),
        !sa.listens_for(said),
{
}

/// Binds the service `lifecycle_impl` to the id `id` and registers it, in
/// one step. `accepted` is the manager's answer: where it refused, the
/// registration fails and nothing of the attempt is left.
pub fn register<A: Ability + 'static>(
    lifecycle_impl: A,
    id: i32,
    start_on_create: bool,
    accepted: bool,
) -> (r: IpcResult<SystemAbility<A>>)
    ensures
        r is Ok <==> accepted,
        r matches Err(e) ==> e == IpcError::RegistrationFailed,
        r matches Ok(sa) ==> sa.service() == lifecycle_impl && sa.spec_said() == id
            && sa.spec_run_on_create() == start_on_create
            && sa.spec_registered() && sa.spec_state() == ServiceLifecycleState::NotStarted
            && sa.spec_handler().target() is None && sa.spec_handler().listeners() == Set::<
            i32,
        >::empty(),
{
    match lifecycle_impl.build_system_ability(id, start_on_create, accepted) {
        Some(mut sa) => {
            sa.register();
            Ok(sa)
        },
        None => Err(IpcError::RegistrationFailed),
    }
}

/// A channel that ends in a service of this process: what is sent through
/// it arrives at the service as a request.
pub struct LocalRemote<A: Ability> {
    service: SystemAbility<A>,
}

impl<A: Ability> LocalRemote<A> {
    /// The service at the end of the channel.
    pub closed spec fn spec_service(&self) -> SystemAbility<A> {
        self.service
    }

    /// A channel that ends in `service`.
    pub fn new(service: SystemAbility<A>) -> (r: LocalRemote<A>)
        ensures
            r.spec_service() == service,
    {
        LocalRemote { service }
    }

    /// The service at the end of the channel.
    pub fn service(&self) -> (r: &SystemAbility<A>)
        ensures
            *r == self.spec_service(),
    {
        &self.service
    }

    /// Gives the service back.
    pub fn into_service(self) -> (r: SystemAbility<A>)
        ensures
            r == self.spec_service(),
    {
        self.service
    }
}

/// The reply to a request, given the status with which it was handled:
/// the payload for status zero, the failure the status stands for
/// otherwise, and a transport failure for a status outside the taxonomy.
pub open spec fn spec_reply_of(status: i32, reply: MsgParcel) -> Result<MsgParcel, IpcError> {
    if status == STATUS_OK {
        Ok(reply)
    } else {
        match IpcError::spec_from_status_code(status) {
            Some(e) => Err(e),
            None => Err(IpcError::TransportError),
        }
    }
}

/// The reply to a request, given the status with which it was handled.
#[verifier::when_used_as_spec(spec_reply_of)]
pub fn reply_of(status: i32, reply: MsgParcel) -> (r: IpcResult<MsgParcel>)
    ensures
        r == spec_reply_of(status, reply),
{
    if status == STATUS_OK {
        Ok(reply)
    } else {
        match IpcError::from_status_code(status) {
            Some(e) => Err(e),
            None => Err(IpcError::TransportError),
        }
    }
}

/// A channel that ends at a dispatch target of this process: what is sent
/// through it is handled by the target at once, with an empty reply to
/// write to.
pub struct Direct<T: RemoteStub> {
    target: T,
}

impl<T: RemoteStub> Direct<T> {
    /// The dispatch target at the end of the channel.
    pub closed spec fn target(&self) -> T {
        self.target
    }

    /// A channel that ends at `target`.
    pub fn new(target: T) -> (r: Direct<T>)
        ensures
            r.target() == target,
    {
        Direct { target }
    }

    /// Gives the dispatch target back.
    pub fn into_target(self) -> (r: T)
        ensures
            r == self.target(),
    {
        self.target
    }
}

impl<T: RemoteStub> IRemoteObj for Direct<T> {
    /// The answer is what `reply_view_of` makes of a status and a reply
    /// that the target may give to the request with an empty reply.
    open spec fn may_answer(
        &self,
        code: u32,
        data: ParcelView,
        is_async: bool,
        reply: Result<ParcelView, IpcError>,
    ) -> bool {
        exists|status: i32, data_after: ParcelView, reply_after: ParcelView|
            #[trigger] self.target().may_handle(
                code,
                data,
                ParcelView::empty(),
                status,
                data_after,
                reply_after,
            ) && reply == reply_view_of(status, reply_after)
    }

    fn send_request(&mut self, code: u32, data: &mut MsgParcel, is_async: bool) -> (r: IpcResult<
        MsgParcel,
    >) {
        let mut reply = MsgParcel::new();
        let status: i32 = self.target.on_remote_request(code, data, &mut reply);
        proof {
            assert(old(self).target().may_handle(
                code,
                old(data)@,
                ParcelView::empty(),
                status,
                data@,
                reply@,
            ));
        }
        reply_of(status, reply)
    }
}

/// The reply to a request, given the status with which it was handled and
/// the reply payload as mathematics.
pub open spec fn reply_view_of(status: i32, reply: ParcelView) -> Result<ParcelView, IpcError> {
    if status == STATUS_OK {
        Ok(reply)
    } else {
        match IpcError::spec_from_status_code(status) {
            Some(e) => Err(e),
            None => Err(IpcError::TransportError),
        }
    }
}

impl<A: Ability> IRemoteObj for LocalRemote<A> {
    /// A request that is not routed to a dispatch target is answered with
    /// a rejected dispatch. One that is routed is handled by the target,
    /// with the payload sent as its request and an empty payload as its
    /// reply, and is answered with what `reply_view_of` makes of the
    /// target's status and reply; where the target does not accept the
    /// code, that is a rejected dispatch.
    open spec fn may_answer(
        &self,
        code: u32,
        data: ParcelView,
        is_async: bool,
        reply: Result<ParcelView, IpcError>,
    ) -> bool {
        if !self.spec_service().routes() {
            reply == Err::<ParcelView, IpcError>(IpcError::DispatchRejected)
        } else {
            &&& !self.spec_service().spec_handler().target()->Some_0.accepts(code) ==> reply == Err::<
                ParcelView,
                IpcError,
            >(IpcError::DispatchRejected)
            &&& exists|status: i32, data_after: ParcelView, reply_after: ParcelView|
                #[trigger] self.spec_service().spec_handler().target()->Some_0.target_may_handle(
                    code,
                    data,
                    ParcelView::empty(),
                    status,
                    data_after,
                    reply_after,
                ) && reply == reply_view_of(status, reply_after)
        }
    }

    fn send_request(&mut self, code: u32, data: &mut MsgParcel, is_async: bool) -> (r: IpcResult<
        MsgParcel,
    >)
        ensures
            !old(self).spec_service().routes() || !old(self).spec_service().spec_handler().target()->Some_0.accepts(code) ==> r == Err::<
                MsgParcel,
                IpcError,
            >(IpcError::DispatchRejected) && final(data)@ == old(data)@,
            final(self).spec_service().same_binding(&old(self).spec_service()),
            final(self).spec_service().routes() == old(self).spec_service().routes(),
            old(self).spec_service().routes() ==> final(self).spec_service().spec_state() == old(self).spec_service().spec_state().spec_next(LifecycleEvent::CancelIdle),
    {
        let mut reply = MsgParcel::new();
        let status: i32 = self.service.on_remote_request(code, data, &mut reply);
        proof {
            if old(self).spec_service().routes() {
                assert(old(self).spec_service().spec_handler().target()->Some_0.target_may_handle(
                    code,
                    old(data)@,
                    ParcelView::empty(),
                    status,
                    data@,
                    reply@,
                ));
            }
        }
        reply_of(status, reply)
    }
}

} // verus!
