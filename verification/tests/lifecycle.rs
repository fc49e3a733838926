use std::cell::RefCell;
use std::rc::Rc;

use system_ability_fwk::ability::{Ability, BuildSystemAbility, Call, Handler, Outcome, Quiet};
use system_ability_fwk::exts::{register, SystemAbility};
use system_ability_fwk::lifecycle::LifecycleEvent::{Activate, CancelIdle, IdleAnswer, Start, Stop};
use system_ability_fwk::lifecycle::ServiceLifecycleState::{Active, Idle, NotStarted, Started, Stopped};
use system_ability_fwk::lifecycle::{LifecycleEvent, Once, ServiceLifecycleState};
use system_ability_fwk::parcel::{MsgParcel, ParcelView};
use system_ability_fwk::reason::{OnDemandReasonExtraData, OnDemandReasonId, SystemAbilityOnDemandReason};
use system_ability_fwk::remote::{Described, RemoteStub};
use system_ability_fwk::status::IpcError;

fn because(name: &str) -> SystemAbilityOnDemandReason {
    SystemAbilityOnDemandReason {
        name: name.to_string(),
        value: String::new(),
        reason_id: OnDemandReasonId::INTERFACE_CALL,
        extra_data: OnDemandReasonExtraData { data: String::new(), code: 0, want: Vec::new() },
        extra_data_id: 0,
    }
}

struct Fixed(i32);

impl RemoteStub for Fixed {
    fn may_handle(
        &self,
        _code: u32,
        _data: ParcelView,
        _reply: ParcelView,
        _status: i32,
        _data_after: ParcelView,
        _reply_after: ParcelView,
    ) -> bool {
        true
    }

    fn may_dump(&self, _dump: Described) -> bool {
        true
    }

    fn dump(&mut self, _args: Vec<String>) -> (i32, String) {
        (0, String::new())
    }

    fn accepts(&self, code: u32) -> bool {
        code == 1
    }

    fn on_remote_request(&mut self, code: u32, _data: &mut MsgParcel, reply: &mut MsgParcel) -> i32 {
        if code == 1 {
            reply.write_i32(self.0).unwrap();
            0
        } else {
            IpcError::DispatchRejected.status_code()
        }
    }
}

struct Svc {
    idle_answer: i32,
    publish: Option<i32>,
    listen: Option<i32>,
    log: Rc<RefCell<Vec<String>>>,
}

impl Ability for Svc {
    fn may(&self, _call: Call, _outcome: Outcome) -> bool {
        true
    }

    fn on_start(&mut self, _handler: &mut Handler) {}

    fn on_stop(&mut self) {}

    fn on_extension(
        &mut self,
        _extension: String,
        _data: &mut MsgParcel,
        _reply: &mut MsgParcel,
    ) -> i32 {
        0
    }

    fn on_start_with_reason(&mut self, reason: SystemAbilityOnDemandReason, handler: &mut Handler) {
        self.log.borrow_mut().push(format!("start:{}", reason.name));
        if let Some(said) = self.listen {
            assert!(handler.add_system_ability_listen(said));
        }
        if let Some(n) = self.publish {
            assert!(handler.publish(Fixed(n)));
        }
    }

    fn on_idle(&mut self, reason: SystemAbilityOnDemandReason) -> i32 {
        self.log.borrow_mut().push(format!("idle:{}", reason.name));
        self.idle_answer
    }

    fn on_active(&mut self, reason: SystemAbilityOnDemandReason) {
        self.log.borrow_mut().push(format!("active:{}", reason.name));
    }

    fn on_stop_with_reason(&mut self, reason: SystemAbilityOnDemandReason) {
        self.log.borrow_mut().push(format!("stop:{}", reason.name));
    }

    fn on_system_ability_load_event(&mut self, said: i32, device_id: String) {
        self.log.borrow_mut().push(format!("load:{}:{}", said, device_id));
    }

    fn on_system_ability_remove_event(&mut self, said: i32, device_id: String) {
        self.log.borrow_mut().push(format!("remove:{}:{}", said, device_id));
    }

    fn on_device_level_changed(&mut self, change_type: i32, level: i32, action: String) {
        self.log.borrow_mut().push(format!("level:{}:{}:{}", change_type, level, action));
    }

    fn on_dump(&mut self) {
        self.log.borrow_mut().push("dump".to_string());
    }
}

fn service(idle_answer: i32) -> (SystemAbility<Svc>, Rc<RefCell<Vec<String>>>) {
    let log = Rc::new(RefCell::new(Vec::new()));
    let svc = Svc { idle_answer, publish: Some(11), listen: Some(1494), log: log.clone() };
    (register(svc, 1499, true, true).unwrap(), log)
}

#[test]
fn transition_table() {
    let events = [Start, IdleAnswer(0), IdleAnswer(-1), Activate, CancelIdle, Stop];
    let expected = [
        (NotStarted, [Started, NotStarted, NotStarted, NotStarted, NotStarted, NotStarted]),
        (Started, [Started, Idle, Started, Started, Started, Stopped]),
        (Idle, [Idle, Idle, Idle, Active, Active, Stopped]),
        (Active, [Active, Idle, Active, Active, Active, Stopped]),
        (Stopped, [Stopped, Stopped, Stopped, Stopped, Stopped, Stopped]),
    ];
    for (state, row) in expected {
        for (event, next) in events.iter().zip(row) {
            assert_eq!(state.next(*event), next, "{:?} on {:?}", state, event);
        }
    }
    assert!(NotStarted.accepts(Start));
    assert!(!Started.accepts(Start));
    assert!(Idle.accepts(Activate) && Active.accepts(Activate));
    assert!(!Started.accepts(Activate) && !NotStarted.accepts(Activate));
    assert!(!Idle.accepts(IdleAnswer(0)));
    assert!(Active.accepts(IdleAnswer(0)));
    assert!(!Stopped.accepts(Stop));
    assert!(!NotStarted.accepts(Stop));
    assert!(!NotStarted.is_running());
    assert!(Started.is_running() && Idle.is_running() && Active.is_running());
    assert!(!Stopped.is_running());
}

#[test]
fn idle_answers_decide_the_state() {
    assert_eq!(Started.next(IdleAnswer(500)), Idle);
    assert_eq!(Started.next(IdleAnswer(i32::MAX)), Idle);
    assert_eq!(Active.next(IdleAnswer(i32::MIN)), Active);
    assert_eq!(Started.next(IdleAnswer(-2)), Started);
}

#[test]
fn an_idle_veto_keeps_the_service_started() {
    let (mut sa, log) = service(-1);
    sa.on_start(because("load"));
    assert_eq!(sa.state(), ServiceLifecycleState::Started);
    assert_eq!(sa.on_idle(because("unload")), -1);
    assert_eq!(sa.state(), ServiceLifecycleState::Started);
    assert_eq!(*log.borrow(), vec!["start:load", "idle:unload"]);
}

#[test]
fn an_idle_permit_idles_the_service() {
    let (mut sa, _log) = service(0);
    sa.on_start(because("load"));
    assert_eq!(sa.on_idle(because("unload")), 0);
    assert_eq!(sa.state(), ServiceLifecycleState::Idle);
    let (mut later, _log) = service(250);
    later.on_start(because("load"));
    assert_eq!(later.on_idle(because("unload")), 250);
    assert_eq!(later.state(), ServiceLifecycleState::Idle);
}

#[test]
fn idle_and_active_alternate() {
    let (mut sa, log) = service(0);
    sa.on_start(because("load"));
    sa.on_active(because("early"));
    assert_eq!(sa.state(), ServiceLifecycleState::Started);
    sa.on_idle(because("unload"));
    assert_eq!(sa.on_idle(because("again")), 0);
    assert_eq!(sa.state(), ServiceLifecycleState::Idle);
    sa.on_active(because("cancelUnload"));
    assert_eq!(sa.state(), ServiceLifecycleState::Active);
    sa.on_active(because("confirmed"));
    assert_eq!(sa.state(), ServiceLifecycleState::Active);
    sa.on_idle(because("unload"));
    assert_eq!(sa.state(), ServiceLifecycleState::Idle);
    assert_eq!(
        *log.borrow(),
        vec![
            "start:load",
            "idle:unload",
            "active:cancelUnload",
            "active:confirmed",
            "idle:unload"
        ]
    );
}

#[test]
fn nothing_is_delivered_before_registration() {
    let log = Rc::new(RefCell::new(Vec::new()));
    let svc = Svc { idle_answer: 0, publish: Some(1), listen: None, log: log.clone() };
    let mut sa = svc.build_system_ability(1499, false, true).unwrap();
    assert_eq!(sa.said(), 1499);
    assert!(!sa.run_on_create());
    assert!(!sa.registered());
    sa.on_start(because("load"));
    assert_eq!(sa.on_idle(because("unload")), -1);
    sa.on_stop(because("stop"));
    assert_eq!(sa.state(), ServiceLifecycleState::NotStarted);
    assert!(log.borrow().is_empty());
    sa.register();
    assert!(sa.registered());
    sa.on_start(because("load"));
    assert_eq!(sa.state(), ServiceLifecycleState::Started);
    assert_eq!(*log.borrow(), vec!["start:load"]);
}

#[test]
fn a_service_starts_once() {
    let (mut sa, log) = service(0);
    sa.on_start(because("first"));
    sa.on_start(because("second"));
    sa.on_idle(because("unload"));
    sa.on_start(because("third"));
    assert_eq!(sa.state(), ServiceLifecycleState::Idle);
    assert_eq!(*log.borrow(), vec!["start:first", "idle:unload"]);
}

#[test]
fn a_stopped_service_receives_nothing() {
    let (mut sa, log) = service(0);
    sa.on_stop(because("too early"));
    assert_eq!(sa.state(), ServiceLifecycleState::NotStarted);
    sa.on_start(because("load"));
    assert!(sa.handler().has_target());
    assert!(sa.handler().is_listening(1494));
    sa.on_stop(because("done"));
    assert_eq!(sa.state(), ServiceLifecycleState::Stopped);
    assert!(!sa.handler().has_target());
    assert!(!sa.handler().is_listening(1494));
    sa.on_start(because("again"));
    assert_eq!(sa.on_idle(because("unload")), -1);
    sa.on_active(because("wake"));
    sa.on_stop(because("twice"));
    sa.on_system_ability_load_event(1494, "dev".to_string());
    sa.on_device_level_changed(1, 2, "a".to_string());
    sa.on_dump();
    assert_eq!(sa.state(), ServiceLifecycleState::Stopped);
    assert_eq!(*log.borrow(), vec!["start:load", "stop:done"]);
    let mut data = MsgParcel::new();
    let mut reply = MsgParcel::new();
    assert_eq!(sa.on_extension("x".to_string(), &mut data, &mut reply), 3);
    assert_eq!(sa.on_remote_request(1, &mut data, &mut reply), 3);
    assert!(reply.is_empty());
    assert!(!sa.handle().publish(Fixed(5)));
    assert!(!sa.handler().has_target());
    assert!(!sa.handle().cancel_idle());
    assert!(!sa.handle().add_system_ability_listen(7));
}

#[test]
fn stop_is_delivered_from_every_running_state() {
    for steps in 0..3 {
        let (mut sa, log) = service(0);
        sa.on_start(because("load"));
        if steps >= 1 {
            sa.on_idle(because("unload"));
        }
        if steps >= 2 {
            sa.on_active(because("wake"));
        }
        sa.on_stop(because("done"));
        assert_eq!(sa.state(), ServiceLifecycleState::Stopped);
        assert_eq!(log.borrow().last().unwrap(), "stop:done");
    }
}

#[test]
fn a_refused_registration_leaves_nothing() {
    let log = Rc::new(RefCell::new(Vec::new()));
    let svc = Svc { idle_answer: 0, publish: None, listen: None, log: log.clone() };
    assert!(svc.build_system_ability(1499, true, false).is_none());
    let again = Svc { idle_answer: 0, publish: None, listen: None, log: log.clone() };
    match register(again, 1499, true, false) {
        Err(e) => assert_eq!(e, IpcError::RegistrationFailed),
        Ok(_) => panic!("a refused registration gave a service"),
    }
    assert!(log.borrow().is_empty());
}

#[test]
fn an_accepted_registration_starts_empty() {
    let log = Rc::new(RefCell::new(Vec::new()));
    let svc = Svc { idle_answer: 0, publish: None, listen: None, log };
    let sa = register(svc, 3706, true, true).unwrap();
    assert_eq!(sa.said(), 3706);
    assert!(sa.run_on_create());
    assert!(sa.registered());
    assert_eq!(sa.state(), ServiceLifecycleState::NotStarted);
    assert!(!sa.handler().has_target());
    assert!(!sa.handler().is_listening(1494));
}

#[test]
fn the_last_published_target_answers() {
    let (mut sa, _log) = service(0);
    sa.on_start(because("load"));
    let mut data = MsgParcel::new();
    let mut reply = MsgParcel::new();
    assert_eq!(sa.on_remote_request(1, &mut data, &mut reply), 0);
    assert_eq!(reply.read_i32(), Ok(11));
    assert!(sa.handle().publish(Fixed(22)));
    assert!(sa.handle().publish(Fixed(33)));
    let mut reply = MsgParcel::new();
    assert_eq!(sa.on_remote_request(1, &mut data, &mut reply), 0);
    assert_eq!(reply.read_i32(), Ok(33));
    assert_eq!(reply.readable_bytes(), 0);
}

#[test]
fn a_request_wakes_an_idle_service() {
    let (mut sa, _log) = service(0);
    sa.on_start(because("load"));
    sa.on_idle(because("unload"));
    assert_eq!(sa.state(), ServiceLifecycleState::Idle);
    let mut data = MsgParcel::new();
    let mut reply = MsgParcel::new();
    assert_eq!(sa.on_remote_request(1, &mut data, &mut reply), 0);
    assert_eq!(sa.state(), ServiceLifecycleState::Active);
    assert_eq!(sa.on_remote_request(1, &mut data, &mut reply), 0);
    assert_eq!(sa.state(), ServiceLifecycleState::Active);
}

#[test]
fn an_unknown_code_is_rejected_and_touches_nothing() {
    let (mut sa, _log) = service(0);
    sa.on_start(because("load"));
    let mut data = MsgParcel::new();
    data.write_string("payload").unwrap();
    let mut reply = MsgParcel::new();
    reply.write_i32(1).unwrap();
    for code in [0u32, 2, 3, 99, u32::MAX] {
        assert_eq!(sa.on_remote_request(code, &mut data, &mut reply), 3);
        assert_eq!(data.read_position(), 0);
        assert_eq!(reply.to_bytes(), vec![2, 1, 0, 0, 0]);
    }
    assert_eq!(data.read_string(), Ok("payload".to_string()));
}

#[test]
fn a_request_without_a_target_is_rejected() {
    let log = Rc::new(RefCell::new(Vec::new()));
    let svc = Svc { idle_answer: 0, publish: None, listen: None, log };
    let mut sa = register(svc, 1499, true, true).unwrap();
    let mut data = MsgParcel::new();
    let mut reply = MsgParcel::new();
    assert_eq!(sa.on_remote_request(1, &mut data, &mut reply), 3);
    sa.on_start(because("load"));
    sa.on_idle(because("unload"));
    assert_eq!(sa.on_remote_request(1, &mut data, &mut reply), 3);
    assert_eq!(sa.state(), ServiceLifecycleState::Idle);
    assert!(reply.is_empty());
}

#[test]
fn the_handle_cancels_idling() {
    let (mut sa, _log) = service(0);
    assert!(!sa.handle().cancel_idle());
    assert_eq!(sa.state(), ServiceLifecycleState::NotStarted);
    sa.on_start(because("load"));
    assert!(sa.handle().cancel_idle());
    assert_eq!(sa.state(), ServiceLifecycleState::Started);
    sa.on_idle(because("unload"));
    assert!(sa.handle().cancel_idle());
    assert_eq!(sa.state(), ServiceLifecycleState::Active);
    assert!(sa.handle().cancel_idle());
    assert_eq!(sa.state(), ServiceLifecycleState::Active);
    assert_eq!(sa.handle().current_state(), ServiceLifecycleState::Active);
}

#[test]
fn listeners_are_a_set() {
    let (mut sa, _log) = service(0);
    sa.on_start(because("load"));
    assert!(sa.handler().is_listening(1494));
    assert!(!sa.handle().add_system_ability_listen(1494));
    assert!(sa.handle().add_system_ability_listen(7));
    assert!(sa.handle().add_system_ability_listen(8));
    assert!(sa.handle().remove_system_ability_listen(7));
    assert!(!sa.handle().remove_system_ability_listen(7));
    assert!(!sa.handler().is_listening(7));
    assert!(sa.handler().is_listening(8));
    assert!(sa.handler().is_listening(1494));
    assert!(!sa.handle().remove_system_ability_listen(9));
}

#[test]
fn events_of_other_services_reach_listeners_only() {
    let (mut sa, log) = service(0);
    sa.on_system_ability_load_event(1494, "early".to_string());
    sa.on_start(because("load"));
    sa.on_system_ability_load_event(1494, "dev".to_string());
    sa.on_system_ability_load_event(1500, "dev".to_string());
    sa.on_system_ability_remove_event(1494, "dev".to_string());
    sa.on_system_ability_remove_event(1500, "dev".to_string());
    sa.handle().remove_system_ability_listen(1494);
    sa.on_system_ability_load_event(1494, "late".to_string());
    sa.on_device_level_changed(1, 2, "cool".to_string());
    sa.on_dump();
    assert_eq!(
        *log.borrow(),
        vec!["start:load", "load:1494:dev", "remove:1494:dev", "level:1:2:cool", "dump"]
    );
}

#[test]
fn once_is_claimed_by_the_first_caller() {
    let mut once = Once::new();
    assert!(!once.is_completed());
    assert!(once.call_once());
    assert!(once.is_completed());
    assert!(!once.call_once());
    assert!(!once.call_once());
    assert!(once.is_completed());
}

#[test]
fn callbacks_default_to_nothing() {
    let mut sa = register(Quiet, 1, false, true).unwrap();
    sa.on_start(because("load"));
    assert_eq!(sa.state(), ServiceLifecycleState::Started);
    assert!(!sa.handler().has_target());
    assert_eq!(sa.on_idle(because("unload")), 0);
    assert_eq!(sa.state(), ServiceLifecycleState::Idle);
    let mut data = MsgParcel::new();
    let mut reply = MsgParcel::new();
    assert_eq!(sa.on_extension("verb".to_string(), &mut data, &mut reply), 0);
    assert!(data.is_empty() && reply.is_empty());
    sa.on_stop(because("done"));
    assert_eq!(sa.state(), ServiceLifecycleState::Stopped);
}

#[test]
fn a_description_comes_from_the_published_target() {
    let (mut sa, _log) = service(0);
    assert_eq!(sa.dump(vec!["-a".to_string()]), (3, String::new()));
    sa.on_start(because("load"));
    assert_eq!(sa.dump(vec!["-a".to_string()]), (0, String::new()));
    assert_eq!(sa.state(), ServiceLifecycleState::Started);
    sa.on_stop(because("done"));
    assert_eq!(sa.dump(Vec::new()), (3, String::new()));
}

