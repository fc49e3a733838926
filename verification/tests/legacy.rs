use std::cell::RefCell;
use std::rc::Rc;

use system_ability_fwk::reason::SystemAbilityOnDemandReason;
use system_ability_fwk::ability::{Ability, Call, Handler, Outcome};
use system_ability_fwk::audio::{
    new_system_ability as new_audio, on_start as audio_on_start, on_stop as audio_on_stop,
    TestService as AudioService, TEST_AUDIO_ID,
};
use system_ability_fwk::audio_rust_ipc::{TestProxy as AudioProxy, TestStub as AudioStub};
use system_ability_fwk::exts::{register, reply_of, SystemAbility};
use system_ability_fwk::listen::{
    finish_start, new_system_ability as new_listen, on_start as listen_on_start,
    on_stop as listen_on_stop, TestService as ListenService, TEST_LISTEN_ID,
};
use system_ability_fwk::parcel::{MsgParcel, ParcelView};
use system_ability_fwk::remote::IRemoteObj;
use system_ability_fwk::rust_sa_test::{new_system_ability, on_start, on_stop, TEST_SERVICE_ID};
use system_ability_fwk::sa_test::ITest;
use system_ability_fwk::safwk::{IMethod, ISystemAbility, RSystemAbility};
use system_ability_fwk::status::{IpcError, IpcResult};

#[test]
fn a_refused_creation_gives_no_registration() {
    assert!(RSystemAbility::new(1494, true, false).is_none());
    assert!(new_system_ability(false).is_none());
    assert!(new_audio(false).is_none());
    assert!(new_listen::<Shared>(Err(IpcError::TransportError), false).is_none());
}

#[test]
fn a_registration_starts_unregistered_and_empty() {
    let mut r = RSystemAbility::new(1494, true, true).unwrap();
    assert_eq!(r.c_system_ability().said(), 1494);
    assert!(r.c_system_ability().run_on_create());
    assert!(!r.registered());
    assert_eq!(r.published_count(), 0);
    r.register_ability();
    assert!(r.registered());
    assert_eq!(r.published_count(), 0);
    let other = RSystemAbility::new(-5, false, true).unwrap();
    assert_eq!(other.c_system_ability().said(), -5);
    assert!(!other.c_system_ability().run_on_create());
}

#[test]
fn the_echo_service_publishes_under_its_id() {
    let mut r = RSystemAbility::new(TEST_SERVICE_ID, true, true).unwrap();
    on_start(&mut r);
    assert_eq!(r.published_count(), 1);
    assert_eq!(r.published_said(0), Some(1494));
    on_stop(&mut r);
    assert_eq!(r.published_count(), 2);
    assert_eq!(r.published_said(1), Some(1494));
    assert!(!r.registered());
}

#[test]
fn a_defined_service_runs_its_callbacks() {
    let mut sa = new_system_ability(true).unwrap();
    assert_eq!(sa.r_system_ability().c_system_ability().said(), TEST_SERVICE_ID);
    assert!(sa.r_system_ability().c_system_ability().run_on_create());
    sa.register();
    assert!(sa.r_system_ability().registered());
    sa.on_start();
    assert_eq!(sa.r_system_ability().published_count(), 1);
    assert_eq!(sa.r_system_ability().published_said(0), Some(TEST_SERVICE_ID));
    sa.on_stop();
    assert_eq!(sa.r_system_ability().published_count(), 2);
    assert_eq!(sa.r_system_ability().published_said(2), None);
}

#[test]
fn the_audio_service_publishes_under_its_id_and_under_none() {
    assert_eq!(TEST_AUDIO_ID, 1499);
    let mut r = RSystemAbility::new(TEST_AUDIO_ID, true, true).unwrap();
    audio_on_start(&mut r);
    audio_on_stop(&mut r);
    assert_eq!(r.published_count(), 2);
    assert_eq!(r.published_said(0), Some(1499));
    assert_eq!(r.published_said(1), Some(-1));
    let mut sa = new_audio(true).unwrap();
    sa.on_start();
    sa.on_stop();
    assert_eq!(sa.r_system_ability().published_said(0), Some(1499));
    assert_eq!(sa.r_system_ability().published_said(1), Some(-1));
}

struct UnloadAbility;

impl Ability for UnloadAbility {
    fn may(&self, _call: Call, _outcome: Outcome) -> bool {
        true
    }

    fn on_stop(&mut self) {}

    fn on_dump(&mut self) {}

    fn on_idle(&mut self, _reason: SystemAbilityOnDemandReason) -> i32 {
        0
    }

    fn on_active(&mut self, _reason: SystemAbilityOnDemandReason) {}

    fn on_system_ability_load_event(&mut self, _said: i32, _device_id: String) {}

    fn on_system_ability_remove_event(&mut self, _said: i32, _device_id: String) {}

    fn on_device_level_changed(&mut self, _change_type: i32, _level: i32, _action: String) {}

    fn on_extension(
        &mut self,
        _extension: String,
        _data: &mut MsgParcel,
        _reply: &mut MsgParcel,
    ) -> i32 {
        0
    }

    fn on_start(&mut self, handler: &mut Handler) {
        assert!(handler.publish(AudioStub::new_remote_stub(AudioService::new()).unwrap()));
    }
}

struct Shared(Rc<RefCell<SystemAbility<UnloadAbility>>>);

impl IRemoteObj for Shared {
    fn may_answer(
        &self,
        _code: u32,
        _data: ParcelView,
        _is_async: bool,
        _reply: Result<ParcelView, IpcError>,
    ) -> bool {
        true
    }

    fn send_request(&mut self, code: u32, data: &mut MsgParcel, _is_async: bool) -> IpcResult<MsgParcel> {
        let mut reply = MsgParcel::new();
        let status = self.0.borrow_mut().on_remote_request(code, data, &mut reply);
        reply_of(status, reply)
    }
}

fn audio_proxy(started: bool) -> AudioProxy<Shared> {
    let mut sa = register(UnloadAbility, TEST_AUDIO_ID, true, true).unwrap();
    if started {
        sa.on_start(system_ability_fwk::reason::SystemAbilityOnDemandReason {
            name: "load".to_string(),
            value: String::new(),
            reason_id: system_ability_fwk::reason::OnDemandReasonId::INTERFACE_CALL,
            extra_data: system_ability_fwk::reason::OnDemandReasonExtraData {
                data: String::new(),
                code: 0,
                want: Vec::new(),
            },
            extra_data_id: 0,
        });
    }
    AudioProxy::new(Shared(Rc::new(RefCell::new(sa))))
}

#[test]
fn the_listen_service_unloads_audio_and_publishes() {
    assert_eq!(TEST_LISTEN_ID, 1494);
    let mut r = RSystemAbility::new(TEST_LISTEN_ID, true, true).unwrap();
    assert_eq!(listen_on_start(&mut r, Ok(audio_proxy(true))), Ok(()));
    assert_eq!(r.published_count(), 1);
    assert_eq!(r.published_said(0), Some(-1));
    listen_on_stop(&mut r);
    assert_eq!(r.published_count(), 2);
    assert_eq!(r.published_said(1), Some(-1));
}

#[test]
fn the_listen_service_publishes_nothing_without_audio() {
    let mut r = RSystemAbility::new(TEST_LISTEN_ID, true, true).unwrap();
    assert_eq!(
        listen_on_start::<_, Shared>(&mut r, Err(IpcError::TransportError)),
        Err(IpcError::TransportError)
    );
    assert_eq!(r.published_count(), 0);
    assert_eq!(
        listen_on_start(&mut r, Ok(audio_proxy(false))),
        Err(IpcError::DispatchRejected)
    );
    assert_eq!(r.published_count(), 0);
    assert_eq!(finish_start(&mut r, Err(IpcError::DecodeError)), Err(IpcError::DecodeError));
    assert_eq!(r.published_count(), 0);
    assert_eq!(finish_start(&mut r, Ok("unload success".to_string())), Ok(()));
    assert_eq!(r.published_count(), 1);
}

#[test]
fn the_defined_listen_service_notes_how_its_start_went() {
    let mut sa = new_listen(Ok(audio_proxy(true)), true).unwrap();
    sa.register();
    sa.on_start();
    assert_eq!(sa.r_system_ability().published_count(), 1);
    assert_eq!(sa.r_system_ability().published_said(0), Some(-1));
    let mut lost = new_listen::<Shared>(Err(IpcError::TransportError), true).unwrap();
    lost.on_start();
    assert_eq!(lost.r_system_ability().published_count(), 0);
    lost.on_stop();
    assert_eq!(lost.r_system_ability().published_count(), 1);
}

#[test]
fn the_listen_service_echoes() {
    let mut svc = ListenService;
    assert_eq!(svc.echo_str("request example"), Ok("request example".to_string()));
    assert_eq!(svc.request_concurent(true), Ok(true));
}
