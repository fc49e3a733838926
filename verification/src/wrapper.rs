//! The two wrappers through which the hosting runtime reaches a service:
//! one around its dispatch target, one around its lifecycle callbacks.

use vstd::prelude::*;
use crate::ability::{Ability, Call, Handler, Outcome};
use crate::parcel::{MsgParcel, ParcelView};
use crate::reason::SystemAbilityOnDemandReason;
use crate::remote::{Described, RemoteStub};
use crate::status::IpcError;
use crate::wire::strings_view;

verus! {

/// Owns the one dispatch target of a published service.
pub struct AbilityStub {
    inner: Box<dyn RemoteStub>,
}

impl AbilityStub {
    /// The wrapper around `remote`.
    pub closed spec fn spec_new<A: RemoteStub + 'static>(remote: A) -> AbilityStub {
        AbilityStub { inner: Box::new(remote) }
    }

    /// Whether `code` is in the mapping of the wrapped service.
    pub closed spec fn accepts(&self, code: u32) -> bool {
        self.inner.accepts(code)
    }

    /// Whether the wrapped target may handle the request `code` with the
    /// request payload `data` and the reply payload `reply` by returning
    /// `status` and leaving the payloads as `data_after` and `reply_after`.
    pub closed spec fn target_may_handle(
        &self,
        code: u32,
        data: ParcelView,
        reply: ParcelView,
        status: i32,
        data_after: ParcelView,
        reply_after: ParcelView,
    ) -> bool {
        self.inner.may_handle(code, data, reply, status, data_after, reply_after)
    }

    /// Whether the wrapped target may give the description `dump` of
    /// itself.
    pub closed spec fn target_may_dump(&self, dump: Described) -> bool {
        self.inner.may_dump(dump)
    }

    /// The wrapper around `remote`.
    pub fn new<A: RemoteStub + 'static>(remote: A) -> (r: Self)
        ensures
            r == Self::spec_new(remote),
    {
        Self { inner: Box::new(remote) }
    }

    /// Hands the request to the dispatch target, the request payload as
    /// its request and the reply payload as its reply, and returns the
    /// status of the target.
    pub fn on_remote_request(&mut self, code: u32, data: &mut MsgParcel, reply: &mut MsgParcel) -> (status:
        i32)
        ensures
            forall|c: u32| final(self).accepts(c) == old(self).accepts(c),
            !old(self).accepts(code) ==> status == IpcError::DispatchRejected.spec_status_code()
                && final(data)@ == old(data)@ && final(reply)@ == old(reply)@,
            old(self).target_may_handle(
                code,
                old(data)@,
                old(reply)@,
                status,
                final(data)@,
                final(reply)@,
            ),
    {
        self.inner.on_remote_request(code, data, reply)
    }

    /// Asks the dispatch target to describe itself to `args`, and returns
    /// its status and its text.
    pub fn dump(&mut self, args: Vec<String>) -> (out: (i32, String))
        ensures
            forall|c: u32| final(self).accepts(c) == old(self).accepts(c),
            old(self).target_may_dump(
                (Described { args: strings_view(args@), status: out.0, text: out.1@ }),
            ),
    {
        self.inner.dump(args)
    }
}

/// Owns the lifecycle callbacks of a service. The registration bridge
/// reaches them through it.
pub struct AbilityWrapper<A: Ability> {
    pub(crate) inner: A,
}

#[allow(non_snake_case)]
impl<A: Ability> AbilityWrapper<A> {
    /// The wrapped service.
    pub closed spec fn service(&self) -> A {
        self.inner
    }

    /// Whether the wrapped service may meet `call` with `outcome`.
    pub open spec fn service_may(&self, call: Call, outcome: Outcome) -> bool {
        self.service().may(call, outcome)
    }

    /// The wrapper around `service`.
    pub fn new(service: A) -> (r: Self)
        ensures
            r.service() == service,
    {
        AbilityWrapper { inner: service }
    }

    /// Asks the service to describe itself.
    pub(crate) fn OnDump(&mut self)
        ensures
            old(self).service_may(Call::Dump, Outcome::Done),
    {
        self.inner.on_dump()
    }

    /// The service starts: it is handed `handler`.
    pub(crate) fn OnStart(&mut self, handler: &mut Handler)
        ensures
            old(self).service_may(
                Call::Start(None, *old(handler)),
                Outcome::Started(*final(handler)),
            ),
    {
        self.inner.on_start(handler)
    }

    /// The service starts for `reason`: it is handed `reason` and
    /// `handler`, and meets them as a start for this reason or, where it
    /// has nothing of its own for that, as a start without a reason.
    pub(crate) fn OnStartWithReason(&mut self, reason: SystemAbilityOnDemandReason, handler: &mut Handler)
        ensures
            old(self).service_may(
                Call::Start(Some(reason@), *old(handler)),
                Outcome::Started(*final(handler)),
            ) || old(self).service_may(
                Call::Start(None, *old(handler)),
                Outcome::Started(*final(handler)),
            ),
    {
        self.inner.on_start_with_reason(reason, handler);
    }

    /// The runtime proposes to idle the service; returns the answer of the
    /// service to `reason`.
    pub(crate) fn OnIdle(&mut self, reason: SystemAbilityOnDemandReason) -> (answer: i32)
        ensures
            old(self).service_may(Call::Idle(reason@), Outcome::Answer(answer)),
    {
        self.inner.on_idle(reason)
    }

    /// The service is activated for `reason`.
    pub(crate) fn OnActive(&mut self, reason: SystemAbilityOnDemandReason)
        ensures
            old(self).service_may(Call::Activate(reason@), Outcome::Done),
    {
        self.inner.on_active(reason)
    }

    /// The service stops.
    pub(crate) fn OnStop(&mut self)
        ensures
            old(self).service_may(Call::Stop(None), Outcome::Done),
    {
        self.inner.on_stop()
    }

    /// The service stops for `reason`, or, where it has nothing of its own
    /// for that, without a reason.
    pub(crate) fn OnStopWithReason(&mut self, reason: SystemAbilityOnDemandReason)
        ensures
            old(self).service_may(Call::Stop(Some(reason@)), Outcome::Done) || old(self).service_may(Call::Stop(None), Outcome::Done),
    {
        self.inner.on_stop_with_reason(reason)
    }

    /// The service `said` has appeared.
    pub(crate) fn OnAddSystemAbility(&mut self, said: i32, device_id: String)
        ensures
            old(self).service_may(Call::Loaded(said, device_id@), Outcome::Done),
    {
        self.inner.on_system_ability_load_event(said, device_id)
    }

    /// The service `said` has disappeared.
    pub(crate) fn OnRemoveSystemAbility(&mut self, said: i32, device_id: String)
        ensures
            old(self).service_may(Call::Removed(said, device_id@), Outcome::Done),
    {
        self.inner.on_system_ability_remove_event(said, device_id)
    }

    /// The power or thermal level of the host has changed.
    pub(crate) fn OnDeviceLevelChanged(&mut self, change_type: i32, level: i32, action: String)
        ensures
            old(self).service_may(Call::LevelChanged(change_type, level, action@), Outcome::Done),
    {
        self.inner.on_device_level_changed(change_type, level, action)
    }

    /// Hands the verb `extension` to the service, the request as its
    /// request and the reply as its reply; returns its status.
    pub(crate) fn OnExtension(&mut self, extension: String, data: &mut MsgParcel, reply: &mut MsgParcel) -> (status:
        i32)
        ensures
            old(self).service_may(
                Call::Extension(extension@, old(data)@, old(reply)@),
                Outcome::Status(status, final(data)@, final(reply)@),
            ),
    {
        self.inner.on_extension(extension, data, reply)
    }
}

} // verus!
