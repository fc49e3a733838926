//! A service that, when it starts, asks the audio service to unload and
//! publishes itself afterwards.

use vstd::prelude::*;
use vstd::string::StringExecFns;
use crate::audio_rust_ipc::{unload_request_text, ITestCode, TestProxy};
use crate::parcel::ParcelView;
use crate::remote::{text_reply, IRemoteObj};
use crate::safwk::{Callbacks, DefinedSystemAbility, IMethod};
use crate::sa_test::{ITest, TestStub};
use crate::status::{IpcError, IpcResult};
use crate::wire::Value;
use crate::wrapper::AbilityStub;

verus! {

/// The id of this service.
pub const TEST_LISTEN_ID: i32 = 1494;

/// The id of the audio service.
pub const TEST_AUDIO_ID: i32 = 1499;

/// The service: it answers with what it was sent.
pub struct TestService;

impl ITest for TestService {
    open spec fn echo_str_spec(&self, value: Seq<char>) -> Result<Seq<char>, IpcError> {
        Ok(value)
    }

    open spec fn request_concurent_spec(&self, is_async: bool) -> Result<bool, IpcError> {
        Ok(true)
    }

    fn echo_str(&mut self, value: &str) -> (r: IpcResult<String>) {
        Ok(String::from_str(value))
    }

    fn request_concurent(&mut self, is_async: bool) -> (r: IpcResult<bool>) {
        Ok(true)
    }
}

/// The dispatch target that a starting or stopping service publishes.
pub open spec fn service_stub() -> AbilityStub {
    AbilityStub::spec_new(TestStub::spec_new(TestService))
}

/// What is published after the start, given how the unload went: the
/// dispatch target under the id `-1` where it succeeded, nothing otherwise.
pub open spec fn published_after_start(
    before: Seq<(i32, AbilityStub)>,
    r: Result<(), IpcError>,
) -> Seq<(i32, AbilityStub)> {
    if r is Ok {
        before.push((-1i32, service_stub()))
    } else {
        before
    }
}

/// The rest of the start, once the audio service has answered the unload:
/// a confirmation lets the service publish its dispatch target; a failure
/// is passed on and nothing is published.
pub fn finish_start<T: IMethod>(ability: &mut T, unloaded: IpcResult<String>) -> (r: IpcResult<()>)
    ensures
        r == (match unloaded {
            Ok(_) => Ok::<(), IpcError>(()),
            Err(e) => Err::<(), IpcError>(e),
        }),
        final(ability).is_registered() == old(ability).is_registered(),
        final(ability).published() == published_after_start(old(ability).published(), r),
{
    match unloaded {
        Ok(_) => {
            match TestStub::new_remote_stub(TestService) {
                Some(service) => {
                    ability.publish(AbilityStub::new(service), -1);
                },
                None => {},
            }
            Ok(())
        },
        Err(e) => Err(e),
    }
}

/// How the start went, given what became of the unload: a confirmation,
/// whatever it says, is success; a failure is passed on.
pub open spec fn started_after(unloaded: Result<Seq<char>, IpcError>) -> Result<(), IpcError> {
    match unloaded {
        Ok(_) => Ok(()),
        Err(e) => Err(e),
    }
}

/// On start the service asks the audio service, reached through `audio`,
/// to unload, and publishes its own dispatch target once that is
/// confirmed. Where the audio service could not be found (`audio` is the
/// failure of the lookup) or does not confirm, the failure is returned and
/// nothing is published.
pub fn on_start<T: IMethod, R: IRemoteObj>(ability: &mut T, audio: IpcResult<TestProxy<R>>) -> (r:
    IpcResult<()>)
    ensures
        audio matches Err(e) ==> r == Err::<(), IpcError>(e),
        audio matches Ok(proxy) ==> exists|reply: Result<ParcelView, IpcError>|
            #[trigger] proxy.channel_may_answer(
                ITestCode::CodeUnLoad.spec_code(),
                ParcelView::empty().written(Value::Str(unload_request_text())),
                false,
                reply,
            ) && r == started_after(text_reply(reply)),
        final(ability).is_registered() == old(ability).is_registered(),
        final(ability).published() == published_after_start(old(ability).published(), r),
{
    match audio {
        Ok(mut object) => {
            let unloaded = object.unload();
            finish_start(ability, unloaded)
        },
        Err(e) => Err(e),
    }
}

/// On stop the service publishes a dispatch target under the id `-1`,
/// which names no service.
pub fn on_stop<T: IMethod>(ability: &mut T)
    ensures
        final(ability).is_registered() == old(ability).is_registered(),
        final(ability).published() == old(ability).published().push((-1i32, service_stub())),
{
    match TestStub::new_remote_stub(TestService) {
        Some(service) => {
            ability.publish(AbilityStub::new(service), -1);
        },
        None => {},
    }
}

/// How a start may go, given the channel to the audio service that the
/// host found, if the channel has not been used yet: without a channel the
/// start fails as a channel failure; a failed lookup is passed on; through
/// a channel the audio service is asked to unload, and the start is what
/// `started_after` makes of its answer.
pub open spec fn start_goes<R: IRemoteObj>(
    audio: Option<Result<TestProxy<R>, IpcError>>,
    r: Result<(), IpcError>,
) -> bool {
    match audio {
        None => r == Err::<(), IpcError>(IpcError::TransportError),
        Some(Err(e)) => r == Err::<(), IpcError>(e),
        Some(Ok(proxy)) => exists|reply: Result<ParcelView, IpcError>|
            #[trigger] proxy.channel_may_answer(
                ITestCode::CodeUnLoad.spec_code(),
                ParcelView::empty().written(Value::Str(unload_request_text())),
                false,
                reply,
            ) && r == started_after(text_reply(reply)),
    }
}

/// The callbacks of the service, with the channel to the audio service
/// that the host found for it, and how the start went.
pub struct Hooks<R: IRemoteObj> {
    audio: Option<IpcResult<TestProxy<R>>>,
    started: Option<IpcResult<()>>,
}

impl<R: IRemoteObj> Hooks<R> {
    /// How the start went: `None` before the service was started.
    pub closed spec fn spec_started(&self) -> Option<Result<(), IpcError>> {
        self.started
    }

    /// The channel to the audio service, as the host found it; `None`
    /// once the start has used it.
    pub closed spec fn spec_audio(&self) -> Option<Result<TestProxy<R>, IpcError>> {
        self.audio
    }

    /// The callbacks of a service that reaches the audio service through
    /// `audio`, the result of the host's lookup.
    pub fn new(audio: IpcResult<TestProxy<R>>) -> (r: Self)
        ensures
            r.spec_started() is None,
            r.spec_audio() == Some(audio),
    {
        Hooks { audio: Some(audio), started: None }
    }

    /// How the start went: `None` before the service was started.
    #[verifier::when_used_as_spec(spec_started)]
    pub fn started(&self) -> (r: Option<IpcResult<()>>)
        ensures
            r == self.spec_started(),
    {
        self.started
    }
}

impl<R: IRemoteObj> Callbacks for Hooks<R> {
    /// The start goes as the channel to the audio service lets it, and
    /// publishes the dispatch target under the id `-1` where it succeeds,
    /// and nothing otherwise.
    open spec fn may_start(&self, added: Seq<(i32, AbilityStub)>, registers: bool) -> bool {
        !registers && exists|r: Result<(), IpcError>| #[trigger]
            start_goes(self.spec_audio(), r) && added == published_after_start(
                Seq::<(i32, AbilityStub)>::empty(),
                r,
            )
    }

    open spec fn may_stop(&self, added: Seq<(i32, AbilityStub)>, registers: bool) -> bool {
        added == seq![(-1i32, service_stub())] && !registers
    }

    fn on_start<T: IMethod>(&mut self, ability: &mut T)
        ensures
            final(ability).is_registered() == old(ability).is_registered(),
            final(self).spec_audio() is None,
            final(self).spec_started() matches Some(r) && start_goes(old(self).spec_audio(), r)
                && final(ability).published() == published_after_start(
                old(ability).published(),
                r,
            ),
    {
        let audio = match self.audio.take() {
            Some(found) => found,
            None => Err(IpcError::TransportError),
        };
        let r = on_start(ability, audio);
        self.started = Some(r);
        proof {
            assert(start_goes(old(self).spec_audio(), r));
            let added = published_after_start(Seq::<(i32, AbilityStub)>::empty(), r);
            assert(ability.published() =~= old(ability).published() + added);
            assert(old(self).may_start(added, false));
        }
    }

    fn on_stop<T: IMethod>(&mut self, ability: &mut T)
        ensures
            final(ability).is_registered() == old(ability).is_registered(),
            final(ability).published() == old(ability).published().push((-1i32, service_stub())),
            final(self).spec_audio() == old(self).spec_audio(),
            final(self).spec_started() == old(self).spec_started(),
    {
        on_stop(ability);
        proof {
            let added = seq![(-1i32, service_stub())];
            assert(ability.published() =~= old(ability).published() + added);
            assert(old(self).may_stop(added, false));
        }
    }
}

/// The service as the runtime registers it.
pub type SystemAbility<R> = DefinedSystemAbility<Hooks<R>>;

/// Defines the service under its id, to be started as soon as it is
/// created. `audio` is the result of the host's lookup of the audio
/// service, `created` the answer of the runtime to the creation.
pub fn new_system_ability<R: IRemoteObj>(audio: IpcResult<TestProxy<R>>, created: bool) -> (r: Option<
    SystemAbility<R>,
>)
    ensures
        r is Some <==> created,
        r matches Some(sa) ==> !sa.is_registered() && sa.published() == Seq::<
            (i32, AbilityStub),
        >::empty() && sa.registration().native().spec_said() == TEST_LISTEN_ID
            && sa.registration().native().spec_run_on_create() && sa.callbacks().spec_audio()
            == Some(audio) && sa.callbacks().spec_started() is None,
{
    DefinedSystemAbility::new_system_ability(Hooks::new(audio), TEST_LISTEN_ID, true, created)
}

} // verus!
