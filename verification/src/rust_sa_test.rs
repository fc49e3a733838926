//! A service that echoes: its implementation of the interface and what it
//! does when it starts and stops.

use vstd::prelude::*;
use vstd::string::StringExecFns;
use crate::parcel::{lemma_write_read_round_trip, ParcelView};
use crate::safwk::{Callbacks, DefinedSystemAbility, IMethod};
use crate::exts::Direct;
use crate::remote::text_reply;
use crate::sa_test::{dispatch, ITest, ITestCode, TestProxy, TestStub};
use crate::status::{IpcError, IpcResult};
use crate::wire::{Kind, Value};
use crate::wrapper::AbilityStub;

verus! {

/// The id of the service.
pub const TEST_SERVICE_ID: i32 = 1494;

/// The service: it answers with what it was sent.
pub struct TestService;

impl ITest for TestService {
    open spec fn echo_str_spec(&self, value: Seq<char>) -> Result<Seq<char>, IpcError> {
        Ok(value)
    }

    open spec fn request_concurent_spec(&self, is_async: bool) -> Result<bool, IpcError> {
        Ok(true)
    }

    fn echo_str(&mut self, value: &str) -> (r: IpcResult<String>) {
        Ok(String::from_str(value))
    }

    fn request_concurent(&mut self, is_async: bool) -> (r: IpcResult<bool>) {
        Ok(true)
    }
}

/// A call from end to end. The request that a proxy makes of `value`,
/// handled by this service, is consumed whole and gives a reply from which
/// the proxy reads `value` back, with nothing left over.
pub proof fn lemma_echo_end_to_end(value: Seq<char>, reply: ParcelView)
    requires
        ParcelView::empty().fits(Value::Str(value)),
        reply.read_pos == reply.bytes.len(),
        reply.fits(Value::Str(value)),
    ensures
        ({
            let request = ParcelView::empty().written(Value::Str(value));
            let done = dispatch(&TestService, ITestCode::CodeEchoStr.spec_code(), request, reply);
            &&& done.result == Ok::<(), IpcError>(())
            &&& done.data.unread().len() == 0
            &&& done.reply.read(Kind::Str) matches Some((got, rest))
            &&& got == Value::Str(value)
            &&& rest.unread().len() == 0
        }),
{
    lemma_write_read_round_trip(ParcelView::empty(), Value::Str(value));
    lemma_write_read_round_trip(reply, Value::Str(value));
}

/// A call through a proxy and a channel. Whatever a direct channel to the
/// stub of this service answers to the request that a proxy makes of
/// `value`, the proxy reads `value` back from it: the call returns what was
/// sent.
pub proof fn lemma_echo_through_proxy(
    proxy: TestProxy<Direct<TestStub<TestService>>>,
    value: Seq<char>,
    reply: Result<ParcelView, IpcError>,
)
    requires
        ParcelView::empty().fits(Value::Str(value)),
        proxy.channel_may_answer(
            ITestCode::CodeEchoStr.spec_code(),
            ParcelView::empty().written(Value::Str(value)),
            false,
            reply,
        ),
    ensures
        text_reply(reply) == Ok::<Seq<char>, IpcError>(value),
{
    lemma_echo_end_to_end(value, ParcelView::empty());
}

/// The liveness question, from end to end: the empty request gives a reply
/// from which the proxy reads `true`.
pub proof fn lemma_request_concurent_end_to_end(reply: ParcelView)
    requires
        reply.read_pos == reply.bytes.len(),
        reply.fits(Value::Bool(true)),
    ensures
        ({
            let done = dispatch(
                &TestService,
                ITestCode::CodeRequestConcurrent.spec_code(),
                ParcelView::empty(),
                reply,
            );
            &&& done.result == Ok::<(), IpcError>(())
            &&& done.reply.read(Kind::Bool) matches Some((got, rest))
            &&& got == Value::Bool(true)
            &&& rest.unread().len() == 0
        }),
{
    lemma_write_read_round_trip(reply, Value::Bool(true));
}

/// The dispatch target that a starting or stopping service publishes.
pub open spec fn service_stub() -> AbilityStub {
    AbilityStub::spec_new(TestStub::spec_new(TestService))
}

/// On start the service publishes its dispatch target under its id.
pub fn on_start<T: IMethod>(ability: &mut T)
    ensures
        final(ability).is_registered() == old(ability).is_registered(),
        final(ability).published() == old(ability).published().push(
            (TEST_SERVICE_ID, service_stub()),
        ),
{
    match TestStub::new_remote_stub(TestService) {
        Some(service) => {
            ability.publish(AbilityStub::new(service), TEST_SERVICE_ID);
        },
        None => {},
    }
}

/// On stop the service publishes its dispatch target once more.
pub fn on_stop<T: IMethod>(ability: &mut T)
    ensures
        final(ability).is_registered() == old(ability).is_registered(),
        final(ability).published() == old(ability).published().push(
            (TEST_SERVICE_ID, service_stub()),
        ),
{
    match TestStub::new_remote_stub(TestService) {
        Some(service) => {
            ability.publish(AbilityStub::new(service), TEST_SERVICE_ID);
        },
        None => {},
    }
}

/// The callbacks of the service.
pub struct Hooks;

impl Callbacks for Hooks {
    open spec fn may_start(&self, added: Seq<(i32, AbilityStub)>, registers: bool) -> bool {
        added == seq![(TEST_SERVICE_ID, service_stub())] && !registers
    }

    open spec fn may_stop(&self, added: Seq<(i32, AbilityStub)>, registers: bool) -> bool {
        added == seq![(TEST_SERVICE_ID, service_stub())] && !registers
    }

    fn on_start<T: IMethod>(&mut self, ability: &mut T)
        ensures
            final(ability).is_registered() == old(ability).is_registered(),
            final(ability).published() == old(ability).published().push(
                (TEST_SERVICE_ID, service_stub()),
            ),
    {
        on_start(ability);
        proof {
            let added = seq![(TEST_SERVICE_ID, service_stub())];
            assert(ability.published() =~= old(ability).published() + added);
            assert(old(self).may_start(added, false));
        }
    }

    fn on_stop<T: IMethod>(&mut self, ability: &mut T)
        ensures
            final(ability).is_registered() == old(ability).is_registered(),
            final(ability).published() == old(ability).published().push(
                (TEST_SERVICE_ID, service_stub()),
            ),
    {
        on_stop(ability);
        proof {
            let added = seq![(TEST_SERVICE_ID, service_stub())];
            assert(ability.published() =~= old(ability).published() + added);
            assert(old(self).may_stop(added, false));
        }
    }
}

/// The service as the runtime registers it.
pub type SystemAbility = DefinedSystemAbility<Hooks>;

/// Defines the service under its id, to be started as soon as it is
/// created. `created` is the answer of the runtime to the creation.
pub fn new_system_ability(created: bool) -> (r: Option<SystemAbility>)
    ensures
        r is Some <==> created,
        r matches Some(sa) ==> !sa.is_registered() && sa.published() == Seq::<
            (i32, AbilityStub),
        >::empty() && sa.registration().native().spec_said() == TEST_SERVICE_ID
            && sa.registration().native().spec_run_on_create(),
{
    DefinedSystemAbility::new_system_ability(Hooks, TEST_SERVICE_ID, true, created)
}

} // verus!
