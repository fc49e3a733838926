//! A service that keeps watch over its own lifecycle: it remembers why it
//! was started, idled, activated and stopped, and whether the service it
//! listens for has come and gone, and it answers remote questions about
//! what it remembers.
//!
//! The first proposal to idle is refused and its reason is remembered;
//! every later proposal is permitted and changes nothing. However often
//! the proposal is delivered, the reason is recorded once.

use vstd::prelude::*;
use crate::lifecycle::Once;
use crate::parcel::{lemma_read_advances, MsgParcel, ParcelView, MAX_CAPACITY};
use crate::reason::{
    decode_optional_reason, decode_reason, deserialize_optional_reason, encode_optional_reason,
    encode_reason, lift_optional_reason, optional_reason_view, serialize_optional_reason,
    ReasonView, SystemAbilityOnDemandReason,
};
use crate::remote::{Described, flag_reply, reply_view, IRemoteObj, RemoteStub};
use crate::sa_test::{answer, Dispatch};
use crate::status::{spec_status_of, status_of, IpcError, IpcResult};
use crate::wire::{Kind, Value};

verus! {

/// The id of the service that is listened for.
pub const TEST_LISTEN_ID: i32 = 1494;

/// The id of this service.
pub const TEST_AUDIO_ID: i32 = 1499;

/// Asks why the service was started.
pub const START_REASON_TEST: u32 = 0;

/// Asks why the service was first proposed to idle.
pub const IDLE_REASON_TEST: u32 = 1;

/// Asks why the service was activated.
pub const ACTIVE_REASON_TEST: u32 = 2;

/// Asks whether the service that is listened for has appeared.
pub const ADD_TEST: u32 = 3;

/// Asks whether the service that is listened for has disappeared.
pub const REMOVE_TEST: u32 = 4;

/// Tells the service why another one was stopped.
pub const STOP_REASON_TEST: u32 = 5;

/// Asks for the stop reason that the service was told.
pub const STOP_REASON_TEST_GET: u32 = 6;

/// What the service remembers.
pub struct Watch {
    start_reason: Option<SystemAbilityOnDemandReason>,
    idle_reason: Option<SystemAbilityOnDemandReason>,
    active_reason: Option<SystemAbilityOnDemandReason>,
    stop_reason: Option<SystemAbilityOnDemandReason>,
    on_add: bool,
    on_remove: bool,
    idle_once: Once,
}

/// What the service remembers, as mathematics.
pub struct WatchView {
    pub start_reason: Option<ReasonView>,
    pub idle_reason: Option<ReasonView>,
    pub active_reason: Option<ReasonView>,
    pub stop_reason: Option<ReasonView>,
    pub on_add: bool,
    pub on_remove: bool,
    /// Whether a proposal to idle has been delivered.
    pub idle_seen: bool,
}

impl WatchView {
    /// Nothing has happened yet.
    pub open spec fn empty() -> WatchView {
        WatchView {
            start_reason: None,
            idle_reason: None,
            active_reason: None,
            stop_reason: None,
            on_add: false,
            on_remove: false,
            idle_seen: false,
        }
    }

    /// After the service was started for `reason`.
    pub open spec fn started(self, reason: ReasonView) -> WatchView {
        WatchView { start_reason: Some(reason), ..self }
    }

    /// After a proposal to idle for `reason` was delivered, and the answer
    /// to it: the first proposal is refused with `-1` and its reason is
    /// recorded; any later one is permitted with `0` and changes nothing.
    pub open spec fn idle(self, reason: ReasonView) -> (WatchView, i32) {
        if self.idle_seen {
            (self, 0i32)
        } else {
            (WatchView { idle_reason: Some(reason), idle_seen: true, ..self }, -1i32)
        }
    }

    /// After the service was activated for `reason`.
    pub open spec fn activated(self, reason: ReasonView) -> WatchView {
        WatchView { active_reason: Some(reason), ..self }
    }

    /// After the service was told the stop reason `reason`.
    pub open spec fn told_stop(self, reason: ReasonView) -> WatchView {
        WatchView { stop_reason: Some(reason), ..self }
    }

    /// After the service `said` appeared.
    pub open spec fn loaded(self, said: i32) -> WatchView {
        if said == TEST_LISTEN_ID {
            WatchView { on_add: true, ..self }
        } else {
            self
        }
    }

    /// After the service `said` disappeared.
    pub open spec fn removed(self, said: i32) -> WatchView {
        if said == TEST_LISTEN_ID {
            WatchView { on_remove: true, ..self }
        } else {
            self
        }
    }

    /// After proposals to idle were delivered one after another, for the
    /// reasons `reasons`.
    pub open spec fn idle_all(self, reasons: Seq<ReasonView>) -> WatchView
        decreases reasons.len(),
    {
        if reasons.len() == 0 {
            self
        } else {
            self.idle_all(reasons.drop_last()).idle(reasons.last()).0
        }
    }
}

/// At-most-once idle effect, for two deliveries in a row: the second
/// changes nothing and is permitted, and what is recorded is the reason of
/// the first.
pub proof fn lemma_idle_twice(w: WatchView, first: ReasonView, second: ReasonView)
    ensures
        w.idle(first).0.idle(second) == (w.idle(first).0, 0i32),
        !w.idle_seen ==> w.idle(first).0.idle(second).0.idle_reason == Some(first),
        w.idle_seen ==> w.idle(first).0.idle(second).0 == w,
{
}

/// At-most-once idle effect, for any number of deliveries: however many
/// proposals arrive, the outcome is that of the first alone.
pub proof fn lemma_idle_recorded_once(w: WatchView, reasons: Seq<ReasonView>)
    requires
        reasons.len() > 0,
    ensures
        w.idle_all(reasons) == w.idle(reasons[0]).0,
    decreases reasons.len(),
{
    if reasons.len() == 1 {
        assert(reasons.drop_last().len() == 0);
        assert(w.idle_all(reasons.drop_last()) == w);
    } else {
        lemma_idle_recorded_once(w, reasons.drop_last());
        assert(reasons.drop_last()[0] == reasons[0]);
        lemma_idle_twice(w, reasons[0], reasons.last());
    }
}

impl View for Watch {
    type V = WatchView;

    closed spec fn view(&self) -> WatchView {
        WatchView {
            start_reason: optional_reason_view(self.start_reason),
            idle_reason: optional_reason_view(self.idle_reason),
            active_reason: optional_reason_view(self.active_reason),
            stop_reason: optional_reason_view(self.stop_reason),
            on_add: self.on_add,
            on_remove: self.on_remove,
            idle_seen: self.idle_once.spec_is_completed(),
        }
    }
}

impl Watch {
    /// A watch that has seen nothing yet.
    pub fn new() -> (w: Watch)
        ensures
            w@ == WatchView::empty(),
    {
        Watch {
            start_reason: None,
            idle_reason: None,
            active_reason: None,
            stop_reason: None,
            on_add: false,
            on_remove: false,
            idle_once: Once::new(),
        }
    }

    /// Why the service was started.
    pub fn start_reason(&self) -> (r: &Option<SystemAbilityOnDemandReason>)
        ensures
            optional_reason_view(*r) == self@.start_reason,
    {
        &self.start_reason
    }

    /// Why the service was first proposed to idle.
    pub fn idle_reason(&self) -> (r: &Option<SystemAbilityOnDemandReason>)
        ensures
            optional_reason_view(*r) == self@.idle_reason,
    {
        &self.idle_reason
    }

    /// Why the service was last activated.
    pub fn active_reason(&self) -> (r: &Option<SystemAbilityOnDemandReason>)
        ensures
            optional_reason_view(*r) == self@.active_reason,
    {
        &self.active_reason
    }

    /// The stop reason that the service was told.
    pub fn stop_reason(&self) -> (r: &Option<SystemAbilityOnDemandReason>)
        ensures
            optional_reason_view(*r) == self@.stop_reason,
    {
        &self.stop_reason
    }

    /// Whether the service that is listened for has appeared.
    pub fn on_add(&self) -> (r: bool)
        ensures
            r == self@.on_add,
    {
        self.on_add
    }

    /// Whether the service that is listened for has disappeared.
    pub fn on_remove(&self) -> (r: bool)
        ensures
            r == self@.on_remove,
    {
        self.on_remove
    }

    /// The service was started for `reason`.
    pub fn on_start_with_reason(&mut self, reason: SystemAbilityOnDemandReason)
        ensures
            final(self)@ == old(self)@.started(reason@),
    {
        self.start_reason = Some(reason);
    }

    /// The runtime proposes to idle the service for `reason`. The first
    /// proposal is refused and its reason recorded; later ones are
    /// permitted and leave what is remembered as it is.
    pub fn on_idle(&mut self, reason: SystemAbilityOnDemandReason) -> (answer: i32)
        ensures
            (final(self)@, answer) == old(self)@.idle(reason@),
    {
        let answer: i32 = if self.idle_once.is_completed() {
            0
        } else {
            -1
        };
        if self.idle_once.call_once() {
            self.idle_reason = Some(reason);
        }
        answer
    }

    /// The service was activated for `reason`.
    pub fn on_active(&mut self, reason: SystemAbilityOnDemandReason)
        ensures
            final(self)@ == old(self)@.activated(reason@),
    {
        self.active_reason = Some(reason);
    }

    /// The service `said` has appeared.
    pub fn on_system_ability_load_event(&mut self, said: i32)
        ensures
            final(self)@ == old(self)@.loaded(said),
    {
        if said == TEST_LISTEN_ID {
            self.on_add = true;
        }
    }

    /// The service `said` has disappeared.
    pub fn on_system_ability_remove_event(&mut self, said: i32)
        ensures
            final(self)@ == old(self)@.removed(said),
    {
        if said == TEST_LISTEN_ID {
            self.on_remove = true;
        }
    }

    /// The service is told why another one was stopped.
    pub fn recv_stop_reason(&mut self, reason: SystemAbilityOnDemandReason)
        ensures
            final(self)@ == old(self)@.told_stop(reason@),
    {
        self.stop_reason = Some(reason);
    }
}

/// The outcome of answering with the bytes `enc`: they are appended to the
/// reply, unless the capacity does not allow them.
pub open spec fn answer_bytes(data: ParcelView, reply: ParcelView, enc: Seq<u8>) -> Dispatch {
    if reply.bytes.len() + enc.len() <= MAX_CAPACITY {
        Dispatch {
            data,
            reply: ParcelView { bytes: reply.bytes + enc, read_pos: reply.read_pos },
            result: Ok(()),
        }
    } else {
        Dispatch { data, reply, result: Err(IpcError::CapacityExceeded) }
    }
}

/// Whether `code` is one of the questions the service answers.
pub open spec fn accepts(code: u32) -> bool {
    code <= STOP_REASON_TEST_GET
}

/// What the request `code` does to what the service remembers and to the
/// two payloads. The questions read nothing and write what is remembered;
/// [`STOP_REASON_TEST`] reads a reason and remembers it, and is a decode
/// failure that changes nothing where no reason stands in the request. A
/// code outside the mapping is rejected, and nothing changes.
pub open spec fn dispatch(w: WatchView, code: u32, data: ParcelView, reply: ParcelView) -> (
    WatchView,
    Dispatch,
) {
    if code == START_REASON_TEST {
        (w, answer_bytes(data, reply, encode_optional_reason(w.start_reason)))
    } else if code == IDLE_REASON_TEST {
        (w, answer_bytes(data, reply, encode_optional_reason(w.idle_reason)))
    } else if code == ACTIVE_REASON_TEST {
        (w, answer_bytes(data, reply, encode_optional_reason(w.active_reason)))
    } else if code == ADD_TEST {
        (w, answer(data, reply, Ok(Value::Bool(w.on_add))))
    } else if code == REMOVE_TEST {
        (w, answer(data, reply, Ok(Value::Bool(w.on_remove))))
    } else if code == STOP_REASON_TEST {
        match decode_reason(data.unread()) {
            Some((reason, n)) => (
                w.told_stop(reason),
                Dispatch { data: data.at(data.read_pos + n), reply, result: Ok(()) },
            ),
            None => (w, Dispatch { data, reply, result: Err(IpcError::DecodeError) }),
        }
    } else if code == STOP_REASON_TEST_GET {
        (w, answer_bytes(data, reply, encode_optional_reason(w.stop_reason)))
    } else {
        (w, Dispatch { data, reply, result: Err(IpcError::DispatchRejected) })
    }
}

/// An operation code outside the mapping is rejected: the status is that
/// of a rejected dispatch, and neither what the service remembers nor the
/// request nor the reply changes.
pub proof fn lemma_unknown_code_rejected(w: WatchView, code: u32, data: ParcelView, reply: ParcelView)
    requires
        !accepts(code),
    ensures
        dispatch(w, code, data, reply) == (
            w,
            Dispatch { data, reply, result: Err(IpcError::DispatchRejected) },
        ),
{
}

/// Handles the request `code` against what the service remembers, and
/// returns the status.
pub fn on_remote_request(watch: &mut Watch, code: u32, data: &mut MsgParcel, reply: &mut MsgParcel) -> (status:
    i32)
    ensures
        final(watch)@ == dispatch(old(watch)@, code, old(data)@, old(reply)@).0,
        final(data)@ == dispatch(old(watch)@, code, old(data)@, old(reply)@).1.data,
        final(reply)@ == dispatch(old(watch)@, code, old(data)@, old(reply)@).1.reply,
        status == spec_status_of(dispatch(old(watch)@, code, old(data)@, old(reply)@).1.result),
{
    let r = if code == START_REASON_TEST {
        serialize_optional_reason(&watch.start_reason, reply)
    } else if code == IDLE_REASON_TEST {
        serialize_optional_reason(&watch.idle_reason, reply)
    } else if code == ACTIVE_REASON_TEST {
        serialize_optional_reason(&watch.active_reason, reply)
    } else if code == ADD_TEST {
        reply.write_bool(watch.on_add)
    } else if code == REMOVE_TEST {
        reply.write_bool(watch.on_remove)
    } else if code == STOP_REASON_TEST {
        match SystemAbilityOnDemandReason::deserialize(data) {
            Ok(reason) => {
                watch.recv_stop_reason(reason);
                Ok(())
            },
            Err(e) => Err(e),
        }
    } else if code == STOP_REASON_TEST_GET {
        serialize_optional_reason(&watch.stop_reason, reply)
    } else {
        Err(IpcError::DispatchRejected)
    };
    status_of(r)
}

/// The dispatch target of the service: it answers from a watch of its own.
pub struct AudioService {
    watch: Watch,
}

impl AudioService {
    /// What the dispatch target remembers.
    pub closed spec fn spec_watch(&self) -> Watch {
        self.watch
    }

    /// A dispatch target that answers from `watch`.
    pub fn new(watch: Watch) -> (r: AudioService)
        ensures
            r.spec_watch() == watch,
    {
        AudioService { watch }
    }

    /// What the dispatch target remembers.
    pub fn watch(&self) -> (r: &Watch)
        ensures
            *r == self.spec_watch(),
    {
        &self.watch
    }
}

impl RemoteStub for AudioService {
    open spec fn accepts(&self, code: u32) -> bool {
        accepts(code)
    }

    open spec fn may_handle(
        &self,
        code: u32,
        data: ParcelView,
        reply: ParcelView,
        status: i32,
        data_after: ParcelView,
        reply_after: ParcelView,
    ) -> bool {
        let done = dispatch(self.spec_watch()@, code, data, reply).1;
        data_after == done.data && reply_after == done.reply && status == spec_status_of(done.result)
    }

    open spec fn may_dump(&self, dump: Described) -> bool {
        dump.status == 0 && dump.text == Seq::<char>::empty()
    }

    fn on_remote_request(&mut self, code: u32, data: &mut MsgParcel, reply: &mut MsgParcel) -> (status:
        i32)
        ensures
            final(self).spec_watch()@ == dispatch(
                old(self).spec_watch()@,
                code,
                old(data)@,
                old(reply)@,
            ).0,
            final(data)@ == dispatch(old(self).spec_watch()@, code, old(data)@, old(reply)@).1.data,
            final(reply)@ == dispatch(
                old(self).spec_watch()@,
                code,
                old(data)@,
                old(reply)@,
            ).1.reply,
            status == spec_status_of(
                dispatch(old(self).spec_watch()@, code, old(data)@, old(reply)@).1.result,
            ),
    {
        on_remote_request(&mut self.watch, code, data, reply)
    }

    fn dump(&mut self, args: Vec<String>) -> (out: (i32, String))
        ensures
            final(self).spec_watch() == old(self).spec_watch(),
    {
        (0, String::new())
    }
}

/// What a proxy makes of the answer to a question about a reason: a
/// failure of the channel is passed on; a reply must hold, at its read
/// cursor, a reason that may be absent, and is a decode failure if it does
/// not.
pub open spec fn optional_reason_reply(reply: Result<ParcelView, IpcError>) -> Result<
    Option<ReasonView>,
    IpcError,
> {
    match reply {
        Ok(p) => match decode_optional_reason(p.unread()) {
            Some((v, _)) => Ok(v),
            None => Err(IpcError::DecodeError),
        },
        Err(e) => Err(e),
    }
}

/// What a proxy makes of the answer to a call that returns nothing: a
/// failure of the channel is passed on, and any reply is success.
pub open spec fn done_reply(reply: Result<ParcelView, IpcError>) -> Result<(), IpcError> {
    match reply {
        Ok(_) => Ok(()),
        Err(e) => Err(e),
    }
}

/// The client side of the service.
pub struct AudioProxy<R: IRemoteObj> {
    remote: R,
}

impl<R: IRemoteObj> AudioProxy<R> {
    /// The channel through which the proxy sends.
    pub closed spec fn channel(&self) -> R {
        self.remote
    }

    /// A proxy that sends through `remote`.
    pub fn new(remote: R) -> (r: Self)
        ensures
            r.channel() == remote,
    {
        AudioProxy { remote }
    }

    /// Whether the channel of the proxy may give the answer `reply` to the
    /// request `code` with the payload `data`.
    pub open spec fn channel_may_answer(
        &self,
        code: u32,
        data: ParcelView,
        is_async: bool,
        reply: Result<ParcelView, IpcError>,
    ) -> bool {
        self.channel().may_answer(code, data, is_async, reply)
    }

    /// The answer to a question about a reason, given what the channel
    /// returned: a failure of the channel is passed on; a reply must hold a
    /// reason that may be absent, and is a decode failure if it does not.
    pub fn reason_reply(reply: IpcResult<MsgParcel>) -> (r: IpcResult<
        Option<SystemAbilityOnDemandReason>,
    >)
        ensures
            lift_optional_reason(r) == optional_reason_reply(reply_view(reply)),
    {
        match reply {
            Ok(mut p) => deserialize_optional_reason(&mut p),
            Err(e) => Err(e),
        }
    }

    /// The answer to a yes-or-no question, given what the channel returned.
    pub fn flag_reply(reply: IpcResult<MsgParcel>) -> (r: IpcResult<bool>)
        ensures
            r == flag_reply(reply_view(reply)),
    {
        match reply {
            Ok(mut p) => {
                proof {
                    p.lemma_cursor_bound();
                    lemma_read_advances(p@, Kind::Bool);
                }
                p.read_bool()
            },
            Err(e) => Err(e),
        }
    }

    /// The request of `send_stop_reason`: a payload that holds `reason`.
    pub fn stop_reason_request(reason: &SystemAbilityOnDemandReason) -> (r: IpcResult<MsgParcel>)
        ensures
            match r {
                Ok(p) => encode_reason(reason@).len() <= MAX_CAPACITY && p@ == (ParcelView {
                    bytes: encode_reason(reason@),
                    read_pos: 0,
                }),
                Err(e) => encode_reason(reason@).len() > MAX_CAPACITY && e
                    == IpcError::CapacityExceeded,
            },
    {
        let mut data = MsgParcel::new();
        match reason.serialize(&mut data) {
            Ok(_) => {
                assert(data@.bytes =~= encode_reason(reason@));
                Ok(data)
            },
            Err(e) => Err(e),
        }
    }

    /// Asks the question `code`, which takes no argument and is answered
    /// with a reason that may be absent.
    fn ask_reason(&mut self, code: u32) -> (r: IpcResult<Option<SystemAbilityOnDemandReason>>)
        ensures
            exists|reply: Result<ParcelView, IpcError>|
                #[trigger] old(self).channel_may_answer(code, ParcelView::empty(), false, reply)
                    && lift_optional_reason(r) == optional_reason_reply(reply),
    {
        let mut data = MsgParcel::new();
        let reply = self.remote.send_request(code, &mut data, false);
        assert(old(self).channel_may_answer(code, ParcelView::empty(), false, reply_view(reply)));
        Self::reason_reply(reply)
    }

    /// Asks the question `code`, which takes no argument and is answered
    /// with yes or no.
    fn ask_flag(&mut self, code: u32) -> (r: IpcResult<bool>)
        ensures
            exists|reply: Result<ParcelView, IpcError>|
                #[trigger] old(self).channel_may_answer(code, ParcelView::empty(), false, reply)
                    && r == flag_reply(reply),
    {
        let mut data = MsgParcel::new();
        let reply = self.remote.send_request(code, &mut data, false);
        assert(old(self).channel_may_answer(code, ParcelView::empty(), false, reply_view(reply)));
        Self::flag_reply(reply)
    }

    /// Why the service was started. The channel is handed the code
    /// [`START_REASON_TEST`] and an empty payload, a reply being awaited, and the result
    /// is what `optional_reason_reply` makes of its answer.
    pub fn on_start_reason(&mut self) -> (r: IpcResult<Option<SystemAbilityOnDemandReason>>)
        ensures
            exists|reply: Result<ParcelView, IpcError>|
                #[trigger] old(self).channel_may_answer(START_REASON_TEST, ParcelView::empty(), false, reply)
                    && lift_optional_reason(r) == optional_reason_reply(reply),
    {
        self.ask_reason(START_REASON_TEST)
    }

    /// Why the service was first proposed to idle. The channel is handed the code
    /// [`IDLE_REASON_TEST`] and an empty payload, a reply being awaited, and the result
    /// is what `optional_reason_reply` makes of its answer.
    pub fn on_idle_reason(&mut self) -> (r: IpcResult<Option<SystemAbilityOnDemandReason>>)
        ensures
            exists|reply: Result<ParcelView, IpcError>|
                #[trigger] old(self).channel_may_answer(IDLE_REASON_TEST, ParcelView::empty(), false, reply)
                    && lift_optional_reason(r) == optional_reason_reply(reply),
    {
        self.ask_reason(IDLE_REASON_TEST)
    }

    /// Why the service was activated. The channel is handed the code
    /// [`ACTIVE_REASON_TEST`] and an empty payload, a reply being awaited, and the result
    /// is what `optional_reason_reply` makes of its answer.
    pub fn on_active_reason(&mut self) -> (r: IpcResult<Option<SystemAbilityOnDemandReason>>)
        ensures
            exists|reply: Result<ParcelView, IpcError>|
                #[trigger] old(self).channel_may_answer(ACTIVE_REASON_TEST, ParcelView::empty(), false, reply)
                    && lift_optional_reason(r) == optional_reason_reply(reply),
    {
        self.ask_reason(ACTIVE_REASON_TEST)
    }

    /// Whether the service that is listened for has appeared. The channel is handed the code
    /// [`ADD_TEST`] and an empty payload, a reply being awaited, and the result
    /// is what `flag_reply` makes of its answer.
    pub fn on_add(&mut self) -> (r: IpcResult<bool>)
        ensures
            exists|reply: Result<ParcelView, IpcError>|
                #[trigger] old(self).channel_may_answer(ADD_TEST, ParcelView::empty(), false, reply)
                    && r == flag_reply(reply),
    {
        self.ask_flag(ADD_TEST)
    }

    /// Whether the service that is listened for has disappeared. The channel is handed the code
    /// [`REMOVE_TEST`] and an empty payload, a reply being awaited, and the result
    /// is what `flag_reply` makes of its answer.
    pub fn on_remove(&mut self) -> (r: IpcResult<bool>)
        ensures
            exists|reply: Result<ParcelView, IpcError>|
                #[trigger] old(self).channel_may_answer(REMOVE_TEST, ParcelView::empty(), false, reply)
                    && r == flag_reply(reply),
    {
        self.ask_flag(REMOVE_TEST)
    }

    /// Tells the service why another one was stopped. Where the reason
    /// does not fit in a payload nothing is sent and the call fails.
    /// Otherwise the channel is handed the code [`STOP_REASON_TEST`] and a
    /// payload that holds the reason, a reply being awaited; a failure of
    /// the channel is passed on, and any reply is success.
    pub fn send_stop_reason(&mut self, reason: &SystemAbilityOnDemandReason) -> (r: IpcResult<()>)
        ensures
            encode_reason(reason@).len() > MAX_CAPACITY ==> r == Err::<(), IpcError>(
                IpcError::CapacityExceeded,
            ),
            encode_reason(reason@).len() <= MAX_CAPACITY ==> exists|
                reply: Result<ParcelView, IpcError>,
            |
                #[trigger] old(self).channel_may_answer(
                    STOP_REASON_TEST,
                    (ParcelView { bytes: encode_reason(reason@), read_pos: 0 }),
                    false,
                    reply,
                ) && r == done_reply(reply),
    {
        let mut data = match Self::stop_reason_request(reason) {
            Ok(p) => p,
            Err(e) => {
                return Err(e);
            },
        };
        let reply = self.remote.send_request(STOP_REASON_TEST, &mut data, false);
        assert(old(self).channel_may_answer(
            STOP_REASON_TEST,
            (ParcelView { bytes: encode_reason(reason@), read_pos: 0 }),
            false,
            reply_view(reply),
        ));
        match reply {
            Ok(_) => Ok(()),
            Err(e) => Err(e),
        }
    }

    /// The stop reason that the service was told. The channel is handed the code
    /// [`STOP_REASON_TEST_GET`] and an empty payload, a reply being awaited, and the result
    /// is what `optional_reason_reply` makes of its answer.
    pub fn get_stop_reason(&mut self) -> (r: IpcResult<Option<SystemAbilityOnDemandReason>>)
        ensures
            exists|reply: Result<ParcelView, IpcError>|
                #[trigger] old(self).channel_may_answer(STOP_REASON_TEST_GET, ParcelView::empty(), false, reply)
                    && lift_optional_reason(r) == optional_reason_reply(reply),
    {
        self.ask_reason(STOP_REASON_TEST_GET)
    }
}

} // verus!
