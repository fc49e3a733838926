//! A small remote interface with its stub and its proxy: a service that
//! echoes a string and answers a liveness question.

use vstd::prelude::*;
use crate::parcel::{lemma_read_advances, MsgParcel, ParcelView};
use crate::remote::{Described, flag_reply, reply_view, text_reply, IRemoteObj, RemoteStub};
use crate::status::{spec_status_of, status_of, IpcError, IpcResult};
use crate::wire::{Kind, Value};

verus! {

/// The operation code of the first method of an interface.
pub const FIRST_CALL_TRANSACTION: u32 = 1;

/// The operation codes of [`ITest`].
#[derive(Clone, Copy, Debug, PartialEq, Eq, Structural)]
pub enum ITestCode {
    /// `echo_str`
    CodeEchoStr,
    /// `request_concurent`
    CodeRequestConcurrent,
}

impl ITestCode {
    /// The number that stands for the operation on the wire.
    pub open spec fn spec_code(self) -> u32 {
        match self {
            ITestCode::CodeEchoStr => 1,
            ITestCode::CodeRequestConcurrent => 2,
        }
    }

    /// The operation a number stands for, if any.
    pub open spec fn spec_from_code(code: u32) -> Option<ITestCode> {
        if code == 1 {
            Some(ITestCode::CodeEchoStr)
        } else if code == 2 {
            Some(ITestCode::CodeRequestConcurrent)
        } else {
            None
        }
    }

    /// The number that stands for the operation on the wire.
    #[verifier::when_used_as_spec(spec_code)]
    pub fn code(self) -> (c: u32)
        ensures
            c == self.spec_code(),
    {
        match self {
            ITestCode::CodeEchoStr => FIRST_CALL_TRANSACTION,
            ITestCode::CodeRequestConcurrent => FIRST_CALL_TRANSACTION + 1,
        }
    }

    /// The operation a number stands for, if any.
    #[verifier::when_used_as_spec(spec_from_code)]
    pub fn from_code(code: u32) -> (r: Option<ITestCode>)
        ensures
            r == Self::spec_from_code(code),
    {
        if code == FIRST_CALL_TRANSACTION {
            Some(ITestCode::CodeEchoStr)
        } else if code == FIRST_CALL_TRANSACTION + 1 {
            Some(ITestCode::CodeRequestConcurrent)
        } else {
            None
        }
    }

    /// Operations and their codes correspond one to one.
    pub proof fn lemma_code_round_trip(self)
        ensures
            Self::spec_from_code(self.spec_code()) == Some(self),
    {
    }
}

/// A string result as the characters it holds.
pub open spec fn text_of(r: Result<String, IpcError>) -> Result<Seq<char>, IpcError> {
    match r {
        Ok(s) => Ok(s@),
        Err(e) => Err(e),
    }
}

/// The interface of the service. What a method returns is a function of
/// its arguments and of the state of the service.
pub trait ITest {
    /// What `echo_str` returns for `value`.
    spec fn echo_str_spec(&self, value: Seq<char>) -> Result<Seq<char>, IpcError>;

    /// What `request_concurent` returns for `is_async`.
    spec fn request_concurent_spec(&self, is_async: bool) -> Result<bool, IpcError>;

    fn echo_str(&mut self, value: &str) -> (r: IpcResult<String>)
        ensures
            text_of(r) == old(self).echo_str_spec(value@),
    ;

    fn request_concurent(&mut self, is_async: bool) -> (r: IpcResult<bool>)
        ensures
            r == old(self).request_concurent_spec(is_async),
    ;
}

/// The outcome of a request: the request and the reply as they are
/// afterwards, and the result.
pub struct Dispatch {
    pub data: ParcelView,
    pub reply: ParcelView,
    pub result: Result<(), IpcError>,
}

/// The outcome of answering with the result of a handler: a value is
/// written to the reply, unless the capacity does not allow it; a failure
/// is passed on and the reply stays.
pub open spec fn answer(data: ParcelView, reply: ParcelView, result: Result<Value, IpcError>) -> Dispatch {
    match result {
        Ok(v) => if reply.fits(v) {
            Dispatch { data, reply: reply.written(v), result: Ok(()) }
        } else {
            Dispatch { data, reply, result: Err(IpcError::CapacityExceeded) }
        },
        Err(e) => Dispatch { data, reply, result: Err(e) },
    }
}

/// What the request `code` does, given the service that handles it.
///
/// * `echo_str` reads a string from the request, hands it to the service
///   and writes the string that comes back to the reply. Where no string
///   stands in the request, this is a decode failure and nothing changes.
/// * `request_concurent` reads nothing, asks the service and writes the
///   answer to the reply.
/// * Any other code is rejected, and nothing changes.
pub open spec fn dispatch<T: ITest + ?Sized>(
    stub: &T,
    code: u32,
    data: ParcelView,
    reply: ParcelView,
) -> Dispatch {
    if code == 1 {
        match data.read(Kind::Str) {
            Some((Value::Str(s), next)) => answer(
                next,
                reply,
                match stub.echo_str_spec(s) {
                    Ok(t) => Ok(Value::Str(t)),
                    Err(e) => Err(e),
                },
            ),
            _ => Dispatch { data, reply, result: Err(IpcError::DecodeError) },
        }
    } else if code == 2 {
        answer(
            data,
            reply,
            match stub.request_concurent_spec(true) {
                Ok(b) => Ok(Value::Bool(b)),
                Err(e) => Err(e),
            },
        )
    } else {
        Dispatch { data, reply, result: Err(IpcError::DispatchRejected) }
    }
}

/// An operation code outside the mapping is rejected: the result is a
/// rejected dispatch, and neither the request nor the reply changes.
pub proof fn lemma_unknown_code_rejected<T: ITest + ?Sized>(
    stub: &T,
    code: u32,
    data: ParcelView,
    reply: ParcelView,
)
    requires
        ITestCode::spec_from_code(code) is None,
    ensures
        dispatch(stub, code, data, reply) == (Dispatch {
            data,
            reply,
            result: Err(IpcError::DispatchRejected),
        }),
{
}

/// Whether the request `code` with the payload `data` reaches a method of
/// the service: its code is in the mapping and, for `echo_str`, a string
/// stands in the request.
pub open spec fn reaches_service(code: u32, data: ParcelView) -> bool {
    code == 2 || (code == 1 && data.read(Kind::Str) is Some)
}

/// Routes the request `code` to the method of `stub` it stands for. No
/// method of the service is called for a request that does not reach it:
/// the service is then as it was.
pub fn on_remote_request<T: ITest>(
    stub: &mut T,
    code: u32,
    data: &mut MsgParcel,
    reply: &mut MsgParcel,
) -> (r: IpcResult<()>)
    ensures
        final(data)@ == dispatch(old(stub), code, old(data)@, old(reply)@).data,
        final(reply)@ == dispatch(old(stub), code, old(data)@, old(reply)@).reply,
        r == dispatch(old(stub), code, old(data)@, old(reply)@).result,
        !reaches_service(code, old(data)@) ==> *final(stub) == *old(stub),
{
    if code == 1 {
        proof {
            data.lemma_cursor_bound();
            crate::parcel::lemma_read_advances(data@, Kind::Str);
        }
        let value = match data.read_string() {
            Ok(s) => s,
            Err(_) => {
                return Err(IpcError::DecodeError);
            },
        };
        match stub.echo_str(value.as_str()) {
            Ok(t) => reply.write_string(t.as_str()),
            Err(e) => Err(e),
        }
    } else if code == 2 {
        match stub.request_concurent(true) {
            Ok(b) => reply.write_bool(b),
            Err(e) => Err(e),
        }
    } else {
        Err(IpcError::DispatchRejected)
    }
}

/// The dispatch target of a service that implements [`ITest`].
pub struct TestStub<S: ITest> {
    inner: S,
}

impl<S: ITest> TestStub<S> {
    /// The stub around `service`.
    pub closed spec fn spec_new(service: S) -> TestStub<S> {
        TestStub { inner: service }
    }

    /// The service that the stub dispatches to.
    pub closed spec fn service(&self) -> S {
        self.inner
    }

    /// The stub around a service dispatches to that service.
    pub proof fn lemma_service_of_new(service: S)
        ensures
            Self::spec_new(service).service() == service,
    {
    }

    /// Makes the dispatch target of `service`.
    pub fn new_remote_stub(service: S) -> (r: Option<TestStub<S>>)
        ensures
            r == Some(Self::spec_new(service)),
            r matches Some(stub) && stub.service() == service,
    {
        Some(TestStub { inner: service })
    }
}

impl<S: ITest> ITest for TestStub<S> {
    open spec fn echo_str_spec(&self, value: Seq<char>) -> Result<Seq<char>, IpcError> {
        self.service().echo_str_spec(value)
    }

    open spec fn request_concurent_spec(&self, is_async: bool) -> Result<bool, IpcError> {
        self.service().request_concurent_spec(is_async)
    }

    fn echo_str(&mut self, value: &str) -> (r: IpcResult<String>) {
        self.inner.echo_str(value)
    }

    fn request_concurent(&mut self, is_async: bool) -> (r: IpcResult<bool>) {
        self.inner.request_concurent(is_async)
    }
}

impl<S: ITest> RemoteStub for TestStub<S> {
    open spec fn accepts(&self, code: u32) -> bool {
        code == 1 || code == 2
    }

    open spec fn may_handle(
        &self,
        code: u32,
        data: ParcelView,
        reply: ParcelView,
        status: i32,
        data_after: ParcelView,
        reply_after: ParcelView,
    ) -> bool {
        let done = dispatch(self, code, data, reply);
        data_after == done.data && reply_after == done.reply && status == spec_status_of(done.result)
    }

    open spec fn may_dump(&self, dump: Described) -> bool {
        dump.status == 0 && dump.text == Seq::<char>::empty()
    }

    fn on_remote_request(&mut self, code: u32, data: &mut MsgParcel, reply: &mut MsgParcel) -> (status:
        i32)
        ensures
            final(data)@ == dispatch(old(self), code, old(data)@, old(reply)@).data,
            final(reply)@ == dispatch(old(self), code, old(data)@, old(reply)@).reply,
            status == spec_status_of(dispatch(old(self), code, old(data)@, old(reply)@).result),
            !reaches_service(code, old(data)@) ==> *final(self) == *old(self),
    {
        let r = on_remote_request(self, code, data, reply);
        status_of(r)
    }
    fn dump(&mut self, args: Vec<String>) -> (out: (i32, String)) {
        (0, String::new())
    }
}

/// The client side of [`ITest`]: each method encodes its arguments, sends
/// them with the operation code and decodes the reply.
pub struct TestProxy<R: IRemoteObj> {
    remote: R,
}

impl<R: IRemoteObj> TestProxy<R> {
    /// The channel through which the proxy sends.
    pub closed spec fn channel(&self) -> R {
        self.remote
    }

    /// A proxy that sends through `remote`.
    pub fn new(remote: R) -> (r: Self)
        ensures
            r.channel() == remote,
    {
        TestProxy { remote }
    }

    /// Whether the channel of the proxy may give the answer `reply` to the
    /// request `code` with the payload `data`.
    pub open spec fn channel_may_answer(
        &self,
        code: u32,
        data: ParcelView,
        is_async: bool,
        reply: Result<ParcelView, IpcError>,
    ) -> bool {
        self.channel().may_answer(code, data, is_async, reply)
    }

    /// The request of `echo_str`: a payload that holds `value`.
    pub fn echo_str_request(value: &str) -> (r: IpcResult<MsgParcel>)
        ensures
            match r {
                Ok(p) => ParcelView::empty().fits(Value::Str(value@)) && p@
                    == ParcelView::empty().written(Value::Str(value@)),
                Err(e) => !ParcelView::empty().fits(Value::Str(value@)) && e
                    == IpcError::CapacityExceeded,
            },
    {
        let mut data = MsgParcel::new();
        match data.write_string(value) {
            Ok(_) => Ok(data),
            Err(e) => Err(e),
        }
    }

    /// The result of `echo_str`, given what the channel returned: a
    /// failure of the channel is passed on; a reply must hold a string,
    /// and is a decode failure if it does not.
    pub fn echo_str_reply(reply: IpcResult<MsgParcel>) -> (r: IpcResult<String>)
        ensures
            text_of(r) == text_reply(reply_view(reply)),
    {
        match reply {
            Ok(mut p) => {
                proof {
                    p.lemma_cursor_bound();
                    lemma_read_advances(p@, Kind::Str);
                }
                p.read_string()
            },
            Err(e) => Err(e),
        }
    }

    /// The request of `request_concurent`: an empty payload.
    pub fn request_concurent_request() -> (r: MsgParcel)
        ensures
            r@ == ParcelView::empty(),
    {
        MsgParcel::new()
    }

    /// The result of `request_concurent`, given what the channel returned.
    pub fn request_concurent_reply(reply: IpcResult<MsgParcel>) -> (r: IpcResult<bool>)
        ensures
            r == flag_reply(reply_view(reply)),
    {
        match reply {
            Ok(mut p) => {
                proof {
                    p.lemma_cursor_bound();
                    lemma_read_advances(p@, Kind::Bool);
                }
                p.read_bool()
            },
            Err(e) => Err(e),
        }
    }

    /// Sends `value` to the service and returns the string it answers.
    /// Where `value` does not fit in a payload nothing is sent and the
    /// call fails. Otherwise the channel is handed the code of `echo_str`
    /// and a payload that holds `value`, a reply being awaited, and the
    /// result is what `text_reply` makes of its answer.
    pub fn echo_str(&mut self, value: &str) -> (r: IpcResult<String>)
        ensures
            !ParcelView::empty().fits(Value::Str(value@)) ==> r is Err && r->Err_0
                == IpcError::CapacityExceeded,
            ParcelView::empty().fits(Value::Str(value@)) ==> exists|
                reply: Result<ParcelView, IpcError>,
            |
                #[trigger] old(self).channel_may_answer(
                    ITestCode::CodeEchoStr.spec_code(),
                    ParcelView::empty().written(Value::Str(value@)),
                    false,
                    reply,
                ) && text_of(r) == text_reply(reply),
    {
        let mut data = match Self::echo_str_request(value) {
            Ok(p) => p,
            Err(e) => {
                return Err(e);
            },
        };
        let reply = self.remote.send_request(ITestCode::CodeEchoStr.code(), &mut data, false);
        assert(old(self).channel_may_answer(
            ITestCode::CodeEchoStr.spec_code(),
            ParcelView::empty().written(Value::Str(value@)),
            false,
            reply_view(reply),
        ));
        Self::echo_str_reply(reply)
    }

    /// Asks the service whether it answers, and returns its answer. The
    /// channel is handed the code of `request_concurent`, an empty payload
    /// and `is_async`, and the result is what `flag_reply` makes of its
    /// answer.
    pub fn request_concurent(&mut self, is_async: bool) -> (r: IpcResult<bool>)
        ensures
            exists|reply: Result<ParcelView, IpcError>|
                #[trigger] old(self).channel_may_answer(
                    ITestCode::CodeRequestConcurrent.spec_code(),
                    ParcelView::empty(),
                    is_async,
                    reply,
                ) && r == flag_reply(reply),
    {
        let mut data = Self::request_concurent_request();
        let reply = self.remote.send_request(
            ITestCode::CodeRequestConcurrent.code(),
            &mut data,
            is_async,
        );
        assert(old(self).channel_may_answer(
            ITestCode::CodeRequestConcurrent.spec_code(),
            ParcelView::empty(),
            is_async,
            reply_view(reply),
        ));
        Self::request_concurent_reply(reply)
    }
}

} // verus!
