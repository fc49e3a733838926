//! A service that unloads itself when asked: its implementation of the
//! interface and what it does when it starts and stops.

use vstd::prelude::*;
use vstd::string::StringExecFns;
use crate::audio_rust_ipc::{
    dispatch, lemma_unload_texts_len, unload_reply_text, unload_request_text, ITest, ITestCode,
    TestProxy, TestStub,
};
use crate::exts::Direct;
use crate::remote::text_reply;
use crate::parcel::{lemma_write_read_round_trip, ParcelView};
use crate::safwk::{Callbacks, DefinedSystemAbility, IMethod};
use crate::status::{IpcError, IpcResult};
use crate::wire::{Kind, Value};
use crate::wrapper::AbilityStub;

verus! {

/// The id of the service.
pub const TEST_AUDIO_ID: i32 = 1499;

/// The service. An unload that was asked for is noted here until the host
/// passes it on to the manager.
pub struct TestService {
    unload_requested: bool,
}

impl TestService {
    /// Whether an unload of [`TEST_AUDIO_ID`] was asked for and has not been
    /// passed on yet.
    pub closed spec fn spec_unload_requested(&self) -> bool {
        self.unload_requested
    }

    /// The service before anything was asked of it.
    pub open spec fn spec_new() -> TestService {
        TestService::fresh(false)
    }

    /// The service with the given note.
    pub closed spec fn fresh(unload_requested: bool) -> TestService {
        TestService { unload_requested }
    }

    /// The service before anything was asked of it.
    pub fn new() -> (r: TestService)
        ensures
            r == Self::spec_new(),
            !r.spec_unload_requested(),
    {
        TestService { unload_requested: false }
    }

    /// Whether an unload was asked for and has not been passed on yet.
    #[verifier::when_used_as_spec(spec_unload_requested)]
    pub fn unload_requested(&self) -> (r: bool)
        ensures
            r == self.spec_unload_requested(),
    {
        self.unload_requested
    }

    /// Hands the noted unload to the host: returns whether one was asked
    /// for, and forgets it.
    pub fn take_unload_request(&mut self) -> (r: bool)
        ensures
            r == old(self).spec_unload_requested(),
            !final(self).spec_unload_requested(),
    {
        let r = self.unload_requested;
        self.unload_requested = false;
        r
    }
}

/// What the service answers to an unload.
pub open spec fn unload_answer() -> Seq<char> {
    "unload service"@
}

impl ITest for TestService {
    open spec fn unload_spec(&self) -> Result<Seq<char>, IpcError> {
        Ok(unload_answer())
    }

    open spec fn request_concurent_spec(&self, is_async: bool) -> Result<bool, IpcError> {
        Ok(true)
    }

    fn unload(&mut self) -> (r: IpcResult<String>)
        ensures
            final(self).spec_unload_requested(),
    {
        self.unload_requested = true;
        Ok(String::from_str("unload service"))
    }

    fn request_concurent(&mut self, is_async: bool) -> (r: IpcResult<bool>)
        ensures
            final(self).spec_unload_requested() == old(self).spec_unload_requested(),
    {
        Ok(true)
    }
}

/// An unload from end to end. The request that a proxy makes, handled by
/// this service, is consumed whole and gives a reply from which the proxy
/// reads the confirmation, with nothing left over.
pub proof fn lemma_unload_end_to_end(service: TestService, reply: ParcelView)
    requires
        reply.read_pos == reply.bytes.len(),
        reply.fits(Value::Str(unload_reply_text())),
    ensures
        ({
            let request = ParcelView::empty().written(Value::Str(unload_request_text()));
            let done = dispatch(&service, ITestCode::CodeUnLoad.spec_code(), request, reply);
            &&& done.result == Ok::<(), IpcError>(())
            &&& done.data.unread().len() == 0
            &&& done.reply.read(Kind::Str) matches Some((got, rest))
            &&& got == Value::Str(unload_reply_text())
            &&& rest.unread().len() == 0
        }),
{
    lemma_unload_texts_len();
    lemma_write_read_round_trip(ParcelView::empty(), Value::Str(unload_request_text()));
    lemma_write_read_round_trip(reply, Value::Str(unload_reply_text()));
}

/// An unload through a proxy and a channel. Whatever a direct channel to
/// the stub of this service answers to the request that a proxy makes, the
/// proxy reads the confirmation from it.
pub proof fn lemma_unload_through_proxy(
    proxy: TestProxy<Direct<TestStub<TestService>>>,
    reply: Result<ParcelView, IpcError>,
)
    requires
        proxy.channel_may_answer(
            ITestCode::CodeUnLoad.spec_code(),
            ParcelView::empty().written(Value::Str(unload_request_text())),
            false,
            reply,
        ),
    ensures
        text_reply(reply) == Ok::<Seq<char>, IpcError>(unload_reply_text()),
{
    lemma_unload_texts_len();
    lemma_unload_end_to_end(proxy.channel().target().service(), ParcelView::empty());
}

/// The dispatch target that a starting or stopping service publishes.
pub open spec fn service_stub() -> AbilityStub {
    AbilityStub::spec_new(TestStub::spec_new(TestService::spec_new()))
}

/// On start the service publishes its dispatch target under its id.
pub fn on_start<T: IMethod>(ability: &mut T)
    ensures
        final(ability).is_registered() == old(ability).is_registered(),
        final(ability).published() == old(ability).published().push(
            (TEST_AUDIO_ID, service_stub()),
        ),
{
    match TestStub::new_remote_stub(TestService::new()) {
        Some(service) => {
            ability.publish(AbilityStub::new(service), TEST_AUDIO_ID);
        },
        None => {},
    }
}

/// On stop the service publishes a dispatch target under the id `-1`,
/// which names no service.
pub fn on_stop<T: IMethod>(ability: &mut T)
    ensures
        final(ability).is_registered() == old(ability).is_registered(),
        final(ability).published() == old(ability).published().push((-1i32, service_stub())),
{
    match TestStub::new_remote_stub(TestService::new()) {
        Some(service) => {
            ability.publish(AbilityStub::new(service), -1);
        },
        None => {},
    }
}

/// The callbacks of the service.
pub struct Hooks;

impl Callbacks for Hooks {
    open spec fn may_start(&self, added: Seq<(i32, AbilityStub)>, registers: bool) -> bool {
        added == seq![(TEST_AUDIO_ID, service_stub())] && !registers
    }

    open spec fn may_stop(&self, added: Seq<(i32, AbilityStub)>, registers: bool) -> bool {
        added == seq![(-1i32, service_stub())] && !registers
    }

    fn on_start<T: IMethod>(&mut self, ability: &mut T)
        ensures
            final(ability).is_registered() == old(ability).is_registered(),
            final(ability).published() == old(ability).published().push(
                (TEST_AUDIO_ID, service_stub()),
            ),
    {
        on_start(ability);
        proof {
            let added = seq![(TEST_AUDIO_ID, service_stub())];
            assert(ability.published() =~= old(ability).published() + added);
            assert(old(self).may_start(added, false));
        }
    }

    fn on_stop<T: IMethod>(&mut self, ability: &mut T)
        ensures
            final(ability).is_registered() == old(ability).is_registered(),
            final(ability).published() == old(ability).published().push(
                (-1i32, service_stub()),
            ),
    {
        on_stop(ability);
        proof {
            let added = seq![(-1i32, service_stub())];
            assert(ability.published() =~= old(ability).published() + added);
            assert(old(self).may_stop(added, false));
        }
    }
}

/// The service as the runtime registers it.
pub type SystemAbility = DefinedSystemAbility<Hooks>;

/// Defines the service under its id, to be started as soon as it is
/// created. `created` is the answer of the runtime to the creation.
pub fn new_system_ability(created: bool) -> (r: Option<SystemAbility>)
    ensures
        r is Some <==> created,
        r matches Some(sa) ==> !sa.is_registered() && sa.published() == Seq::<
            (i32, AbilityStub),
        >::empty() && sa.registration().native().spec_said() == TEST_AUDIO_ID
            && sa.registration().native().spec_run_on_create(),
{
    DefinedSystemAbility::new_system_ability(Hooks, TEST_AUDIO_ID, true, created)
}

} // verus!
