use std::cell::RefCell;
use std::rc::Rc;

use system_ability_fwk::reason::SystemAbilityOnDemandReason;
use system_ability_fwk::ability::{Ability, BuildSystemAbility, Call, Handler, Outcome};
use system_ability_fwk::parcel::{MsgParcel, ParcelView};
use system_ability_fwk::remote::{Described, RemoteStub};

#[test]
fn stop() {}

struct TestAbility {
    inner: Rc<RefCell<String>>,
}

impl Ability for TestAbility {
    fn may(&self, _call: Call, _outcome: Outcome) -> bool {
        true
    }

    fn on_start(&mut self, _handler: &mut Handler) {}

    fn on_stop(&mut self) {}

    fn on_dump(&mut self) {}

    fn on_idle(&mut self, _reason: SystemAbilityOnDemandReason) -> i32 {
        0
    }

    fn on_active(&mut self, _reason: SystemAbilityOnDemandReason) {}

    fn on_system_ability_load_event(&mut self, _said: i32, _device_id: String) {}

    fn on_system_ability_remove_event(&mut self, _said: i32, _device_id: String) {}

    fn on_device_level_changed(&mut self, _change_type: i32, _level: i32, _action: String) {}

    fn on_extension(&mut self, extension: String, data: &mut MsgParcel, reply: &mut MsgParcel) -> i32 {
        self.inner.borrow_mut().push_str(&extension);
        data.write_string("test").unwrap();
        reply.write_string("test").unwrap();
        0
    }
}

#[test]
fn on_extension_ut() {
    const TEST_EXTENSION: &str = "test";
    const TEST_RETURN: i32 = 0;

    let extension = Rc::new(RefCell::new(String::new()));
    let ability = TestAbility { inner: extension.clone() };
    let mut sys = ability.build_system_ability(3706, true, true).unwrap();
    let mut data = MsgParcel::new();
    let mut reply = MsgParcel::new();
    assert_eq!(sys.on_extension(TEST_EXTENSION.to_string(), &mut data, &mut reply), TEST_RETURN);
    assert_eq!(*extension.borrow_mut(), TEST_EXTENSION);
    assert_eq!(data.read_string().unwrap(), TEST_EXTENSION);
    assert_eq!(reply.read_string().unwrap(), TEST_EXTENSION);
}

struct Seven;

impl RemoteStub for Seven {
    fn may_handle(
        &self,
        _code: u32,
        _data: ParcelView,
        _reply: ParcelView,
        _status: i32,
        _data_after: ParcelView,
        _reply_after: ParcelView,
    ) -> bool {
        true
    }

    fn may_dump(&self, _dump: Described) -> bool {
        true
    }

    fn dump(&mut self, _args: Vec<String>) -> (i32, String) {
        (0, String::new())
    }

    fn accepts(&self, code: u32) -> bool {
        code == 9
    }

    fn on_remote_request(&mut self, code: u32, _data: &mut MsgParcel, reply: &mut MsgParcel) -> i32 {
        if code == 9 {
            reply.write_i32(7).unwrap();
            0
        } else {
            3
        }
    }
}

#[test]
fn a_dispatch_target_written_outside_answers() {
    let mut p = Seven;
    let mut data = MsgParcel::new();
    let mut reply = MsgParcel::new();
    assert_eq!(p.on_remote_request(9, &mut data, &mut reply), 0);
    assert_eq!(reply.read_i32().unwrap(), 7);
}
