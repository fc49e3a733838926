//! The remote interface of a service that can be asked to unload itself,
//! with its stub and its proxy.

use vstd::prelude::*;
use vstd::utf8::*;
use crate::parcel::{lemma_read_advances, MsgParcel, ParcelView};
use crate::remote::{Described, flag_reply, reply_view, text_reply, IRemoteObj, RemoteStub};
use crate::sa_test::{answer, text_of, Dispatch};
use crate::status::{spec_status_of, status_of, IpcError, IpcResult};
use crate::wire::{encode, lemma_text_len, Kind, Value};

verus! {

/// The operation code of the first method of an interface.
pub const FIRST_CALL_TRANSACTION: u32 = 1;

/// The operation codes of [`ITest`].
#[derive(Clone, Copy, Debug, PartialEq, Eq, Structural)]
pub enum ITestCode {
    /// `unload`
    CodeUnLoad,
    /// `request_concurent`
    CodeRequestConcurrent,
}

impl ITestCode {
    /// The number that stands for the operation on the wire.
    pub open spec fn spec_code(self) -> u32 {
        match self {
            ITestCode::CodeUnLoad => 1,
            ITestCode::CodeRequestConcurrent => 2,
        }
    }

    /// The operation a number stands for, if any.
    pub open spec fn spec_from_code(code: u32) -> Option<ITestCode> {
        if code == 1 {
            Some(ITestCode::CodeUnLoad)
        } else if code == 2 {
            Some(ITestCode::CodeRequestConcurrent)
        } else {
            None
        }
    }

    /// The number that stands for the operation on the wire.
    #[verifier::when_used_as_spec(spec_code)]
    pub fn code(self) -> (c: u32)
        ensures
            c == self.spec_code(),
    {
        match self {
            ITestCode::CodeUnLoad => FIRST_CALL_TRANSACTION,
            ITestCode::CodeRequestConcurrent => FIRST_CALL_TRANSACTION + 1,
        }
    }

    /// The operation a number stands for, if any.
    #[verifier::when_used_as_spec(spec_from_code)]
    pub fn from_code(code: u32) -> (r: Option<ITestCode>)
        ensures
            r == Self::spec_from_code(code),
    {
        if code == FIRST_CALL_TRANSACTION {
            Some(ITestCode::CodeUnLoad)
        } else if code == FIRST_CALL_TRANSACTION + 1 {
            Some(ITestCode::CodeRequestConcurrent)
        } else {
            None
        }
    }

    /// Operations and their codes correspond one to one.
    pub proof fn lemma_code_round_trip(self)
        ensures
            Self::spec_from_code(self.spec_code()) == Some(self),
    {
    }
}

/// The text a request to unload must carry.
pub open spec fn unload_request_text() -> Seq<char> {
    "unload sa"@
}

/// The text with which an unload is confirmed.
pub open spec fn unload_reply_text() -> Seq<char> {
    "unload success"@
}

/// The two texts are short: a request to unload takes 14 bytes in a
/// payload, its confirmation 19.
pub proof fn lemma_unload_texts_len()
    ensures
        encode(Value::Str(unload_request_text())).len() == 14,
        encode(Value::Str(unload_reply_text())).len() == 19,
        unload_request_text() != unload_reply_text(),
{
    reveal(encode);
    reveal_strlit("unload sa");
    reveal_strlit("unload success");
    is_ascii_chars_encode_utf8(unload_request_text());
    is_ascii_chars_encode_utf8(unload_reply_text());
    lemma_text_len(unload_request_text());
    lemma_text_len(unload_reply_text());
}

/// The interface of the service. What a method returns is a function of
/// its arguments and of the state of the service.
pub trait ITest {
    /// What `unload` returns.
    spec fn unload_spec(&self) -> Result<Seq<char>, IpcError>;

    /// What `request_concurent` returns for `is_async`.
    spec fn request_concurent_spec(&self, is_async: bool) -> Result<bool, IpcError>;

    /// Asks the manager to unload the service.
    fn unload(&mut self) -> (r: IpcResult<String>)
        ensures
            text_of(r) == old(self).unload_spec(),
    ;

    fn request_concurent(&mut self, is_async: bool) -> (r: IpcResult<bool>)
        ensures
            r == old(self).request_concurent_spec(is_async),
    ;
}

/// What the request `code` does, given the service that handles it.
///
/// * `unload` reads a string from the request, which must be the text of
///   an unload request; anything else is a decode failure and nothing
///   changes. The service is asked to unload, and its success is
///   confirmed to the reply with the text of the confirmation.
/// * `request_concurent` reads nothing, asks the service and writes the
///   answer to the reply.
/// * Any other code is rejected, and nothing changes.
pub open spec fn dispatch<T: ITest + ?Sized>(
    stub: &T,
    code: u32,
    data: ParcelView,
    reply: ParcelView,
) -> Dispatch {
    if code == 1 {
        match data.read(Kind::Str) {
            Some((Value::Str(s), next)) => if s == unload_request_text() {
                answer(
                    next,
                    reply,
                    match stub.unload_spec() {
                        Ok(_) => Ok(Value::Str(unload_reply_text())),
                        Err(e) => Err(e),
                    },
                )
            } else {
                Dispatch { data, reply, result: Err(IpcError::DecodeError) }
            },
            _ => Dispatch { data, reply, result: Err(IpcError::DecodeError) },
        }
    } else if code == 2 {
        answer(
            data,
            reply,
            match stub.request_concurent_spec(true) {
                Ok(b) => Ok(Value::Bool(b)),
                Err(e) => Err(e),
            },
        )
    } else {
        Dispatch { data, reply, result: Err(IpcError::DispatchRejected) }
    }
}

/// An operation code outside the mapping is rejected: the result is a
/// rejected dispatch, and neither the request nor the reply changes.
pub proof fn lemma_unknown_code_rejected<T: ITest + ?Sized>(
    stub: &T,
    code: u32,
    data: ParcelView,
    reply: ParcelView,
)
    requires
        ITestCode::spec_from_code(code) is None,
    ensures
        dispatch(stub, code, data, reply) == (Dispatch {
            data,
            reply,
            result: Err(IpcError::DispatchRejected),
        }),
{
}

/// A request to unload that carries another text than the expected one is
/// a decode failure, and nothing changes: the service is not asked.
pub proof fn lemma_mismatched_unload_fails<T: ITest + ?Sized>(
    stub: &T,
    data: ParcelView,
    reply: ParcelView,
)
    requires
        data.read(Kind::Str) matches Some((v, _)) ==> v != Value::Str(unload_request_text()),
    ensures
        dispatch(stub, 1, data, reply) == (Dispatch {
            data,
            reply,
            result: Err(IpcError::DecodeError),
        }),
{
}

/// Whether the request `code` with the payload `data` reaches a method of
/// the service: its code is in the mapping and, for `unload`, the text of
/// an unload request stands in the request.
pub open spec fn reaches_service(code: u32, data: ParcelView) -> bool {
    code == 2 || (code == 1 && data.read(Kind::Str) is Some && data.read(Kind::Str)->Some_0.0
        == Value::Str(unload_request_text()))
}

/// Routes the request `code` to the method of `stub` it stands for. No
/// method of the service is called for a request that does not reach it:
/// the service is then as it was, and in particular it is not asked to
/// unload before the text of the request was found right.
pub fn on_remote_request<T: ITest>(
    stub: &mut T,
    code: u32,
    data: &mut MsgParcel,
    reply: &mut MsgParcel,
) -> (r: IpcResult<()>)
    ensures
        final(data)@ == dispatch(old(stub), code, old(data)@, old(reply)@).data,
        final(reply)@ == dispatch(old(stub), code, old(data)@, old(reply)@).reply,
        r == dispatch(old(stub), code, old(data)@, old(reply)@).result,
        !reaches_service(code, old(data)@) ==> *final(stub) == *old(stub),
{
    if code == 1 {
        proof {
            data.lemma_cursor_bound();
            lemma_read_advances(data@, Kind::Str);
        }
        let start: usize = data.read_position();
        let value = match data.read_string() {
            Ok(s) => s,
            Err(_) => {
                return Err(IpcError::DecodeError);
            },
        };
        let expected = "unload sa".to_owned();
        if !(value == expected) {
            data.set_read_position(start);
            return Err(IpcError::DecodeError);
        }
        match stub.unload() {
            Ok(_) => reply.write_string("unload success"),
            Err(e) => Err(e),
        }
    } else if code == 2 {
        match stub.request_concurent(true) {
            Ok(b) => reply.write_bool(b),
            Err(e) => Err(e),
        }
    } else {
        Err(IpcError::DispatchRejected)
    }
}

/// The dispatch target of a service that implements [`ITest`].
pub struct TestStub<S: ITest> {
    inner: S,
}

impl<S: ITest> TestStub<S> {
    /// The stub around `service`.
    pub closed spec fn spec_new(service: S) -> TestStub<S> {
        TestStub { inner: service }
    }

    /// The service that the stub dispatches to.
    pub closed spec fn service(&self) -> S {
        self.inner
    }

    /// The stub around a service dispatches to that service.
    pub proof fn lemma_service_of_new(service: S)
        ensures
            Self::spec_new(service).service() == service,
    {
    }

    /// Makes the dispatch target of `service`.
    pub fn new_remote_stub(service: S) -> (r: Option<TestStub<S>>)
        ensures
            r == Some(Self::spec_new(service)),
            r matches Some(stub) && stub.service() == service,
    {
        Some(TestStub { inner: service })
    }
}

impl<S: ITest> ITest for TestStub<S> {
    open spec fn unload_spec(&self) -> Result<Seq<char>, IpcError> {
        self.service().unload_spec()
    }

    open spec fn request_concurent_spec(&self, is_async: bool) -> Result<bool, IpcError> {
        self.service().request_concurent_spec(is_async)
    }

    fn unload(&mut self) -> (r: IpcResult<String>) {
        self.inner.unload()
    }

    fn request_concurent(&mut self, is_async: bool) -> (r: IpcResult<bool>) {
        self.inner.request_concurent(is_async)
    }
}

impl<S: ITest> RemoteStub for TestStub<S> {
    open spec fn accepts(&self, code: u32) -> bool {
        code == 1 || code == 2
    }

    open spec fn may_handle(
        &self,
        code: u32,
        data: ParcelView,
        reply: ParcelView,
        status: i32,
        data_after: ParcelView,
        reply_after: ParcelView,
    ) -> bool {
        let done = dispatch(self, code, data, reply);
        data_after == done.data && reply_after == done.reply && status == spec_status_of(done.result)
    }

    open spec fn may_dump(&self, dump: Described) -> bool {
        dump.status == 0 && dump.text == Seq::<char>::empty()
    }

    fn on_remote_request(&mut self, code: u32, data: &mut MsgParcel, reply: &mut MsgParcel) -> (status:
        i32)
        ensures
            final(data)@ == dispatch(old(self), code, old(data)@, old(reply)@).data,
            final(reply)@ == dispatch(old(self), code, old(data)@, old(reply)@).reply,
            status == spec_status_of(dispatch(old(self), code, old(data)@, old(reply)@).result),
            !reaches_service(code, old(data)@) ==> *final(self) == *old(self),
    {
        let r = on_remote_request(self, code, data, reply);
        status_of(r)
    }
    fn dump(&mut self, args: Vec<String>) -> (out: (i32, String)) {
        (0, String::new())
    }
}

/// The client side of [`ITest`]: each method encodes its arguments, sends
/// them with the operation code and decodes the reply.
pub struct TestProxy<R: IRemoteObj> {
    remote: R,
}

impl<R: IRemoteObj> TestProxy<R> {
    /// The channel through which the proxy sends.
    pub closed spec fn channel(&self) -> R {
        self.remote
    }

    /// A proxy that sends through `remote`.
    pub fn new(remote: R) -> (r: Self)
        ensures
            r.channel() == remote,
    {
        TestProxy { remote }
    }

    /// Whether the channel of the proxy may give the answer `reply` to the
    /// request `code` with the payload `data`.
    pub open spec fn channel_may_answer(
        &self,
        code: u32,
        data: ParcelView,
        is_async: bool,
        reply: Result<ParcelView, IpcError>,
    ) -> bool {
        self.channel().may_answer(code, data, is_async, reply)
    }

    /// The request of `unload`: a payload that holds the text of an unload
    /// request.
    pub fn unload_request() -> (r: IpcResult<MsgParcel>)
        ensures
            r matches Ok(p) && p@ == ParcelView::empty().written(
                Value::Str(unload_request_text()),
            ),
    {
        proof {
            lemma_unload_texts_len();
        }
        let mut data = MsgParcel::new();
        match data.write_string("unload sa") {
            Ok(_) => Ok(data),
            Err(e) => Err(e),
        }
    }

    /// The result of `unload`, given what the channel returned: a failure
    /// of the channel is passed on; a reply must hold a string, and is a
    /// decode failure if it does not.
    pub fn unload_reply(reply: IpcResult<MsgParcel>) -> (r: IpcResult<String>)
        ensures
            text_of(r) == text_reply(reply_view(reply)),
    {
        match reply {
            Ok(mut p) => {
                proof {
                    p.lemma_cursor_bound();
                    lemma_read_advances(p@, Kind::Str);
                }
                p.read_string()
            },
            Err(e) => Err(e),
        }
    }

    /// The request of `request_concurent`: an empty payload.
    pub fn request_concurent_request() -> (r: MsgParcel)
        ensures
            r@ == ParcelView::empty(),
    {
        MsgParcel::new()
    }

    /// The result of `request_concurent`, given what the channel returned.
    pub fn request_concurent_reply(reply: IpcResult<MsgParcel>) -> (r: IpcResult<bool>)
        ensures
            r == flag_reply(reply_view(reply)),
    {
        match reply {
            Ok(mut p) => {
                proof {
                    p.lemma_cursor_bound();
                    lemma_read_advances(p@, Kind::Bool);
                }
                p.read_bool()
            },
            Err(e) => Err(e),
        }
    }

    /// Asks the service to unload itself and returns its confirmation.
    /// The channel is handed the code of `unload` and a payload that holds
    /// the text of an unload request, a reply being awaited, and the result
    /// is what `text_reply` makes of its answer.
    pub fn unload(&mut self) -> (r: IpcResult<String>)
        ensures
            exists|reply: Result<ParcelView, IpcError>|
                #[trigger] old(self).channel_may_answer(
                    ITestCode::CodeUnLoad.spec_code(),
                    ParcelView::empty().written(Value::Str(unload_request_text())),
                    false,
                    reply,
                ) && text_of(r) == text_reply(reply),
    {
        let mut data = match Self::unload_request() {
            Ok(p) => p,
            Err(e) => {
                return Err(e);
            },
        };
        let reply = self.remote.send_request(ITestCode::CodeUnLoad.code(), &mut data, false);
        assert(old(self).channel_may_answer(
            ITestCode::CodeUnLoad.spec_code(),
            ParcelView::empty().written(Value::Str(unload_request_text())),
            false,
            reply_view(reply),
        ));
        Self::unload_reply(reply)
    }

    /// Asks the service whether it answers, and returns its answer. The
    /// channel is handed the code of `request_concurent`, an empty payload
    /// and `is_async`, and the result is what `flag_reply` makes of its
    /// answer.
    pub fn request_concurent(&mut self, is_async: bool) -> (r: IpcResult<bool>)
        ensures
            exists|reply: Result<ParcelView, IpcError>|
                #[trigger] old(self).channel_may_answer(
                    ITestCode::CodeRequestConcurrent.spec_code(),
                    ParcelView::empty(),
                    is_async,
                    reply,
                ) && r == flag_reply(reply),
    {
        let mut data = Self::request_concurent_request();
        let reply = self.remote.send_request(
            ITestCode::CodeRequestConcurrent.code(),
            &mut data,
            is_async,
        );
        assert(old(self).channel_may_answer(
            ITestCode::CodeRequestConcurrent.spec_code(),
            ParcelView::empty(),
            is_async,
            reply_view(reply),
        ));
        Self::request_concurent_reply(reply)
    }
}

} // verus!
