//! The two ends of a remote call: the stub that receives requests on the
//! side of the service, and the channel through which a proxy sends them.

use vstd::prelude::*;
use crate::parcel::{MsgParcel, ParcelView};
use crate::status::{IpcError, IpcResult};
use crate::wire::{strings_view, Kind, Value};

verus! {

/// A description that a dispatch target gives of itself: the arguments it
/// was asked with, its status and its text.
pub struct Described {
    pub args: Seq<Seq<char>>,
    pub status: i32,
    pub text: Seq<char>,
}

/// A dispatch target: the object to which the requests for one published
/// service are routed.
pub trait RemoteStub {
    /// Whether `code` is in the mapping of this service.
    spec fn accepts(&self, code: u32) -> bool;

    /// Whether the target, as it is, may handle the request `code` with the
    /// request payload `data` and the reply payload `reply` by returning
    /// `status` and leaving the two payloads as `data_after` and
    /// `reply_after`. Each target says for itself what it may do.
    spec fn may_handle(
        &self,
        code: u32,
        data: ParcelView,
        reply: ParcelView,
        status: i32,
        data_after: ParcelView,
        reply_after: ParcelView,
    ) -> bool;

    /// Whether the target, as it is, may give the description `dump` of
    /// itself.
    spec fn may_dump(&self, dump: Described) -> bool;

    /// Handles the request `code` with the payload `data` and writes the
    /// answer to `reply`. Returns zero for success and the status code of a
    /// failure otherwise.
    ///
    /// The mapping of a service is fixed. A code outside it is rejected
    /// before anything is read or written. What is done to a request is
    /// something the target may do to it.
    fn on_remote_request(&mut self, code: u32, data: &mut MsgParcel, reply: &mut MsgParcel) -> (status:
        i32)
        ensures
            forall|c: u32| final(self).accepts(c) == old(self).accepts(c),
            !old(self).accepts(code) ==> status == IpcError::DispatchRejected.spec_status_code()
                && final(data)@ == old(data)@ && final(reply)@ == old(reply)@,
            old(self).may_handle(code, old(data)@, old(reply)@, status, final(data)@, final(reply)@),
    ;

    /// Describes the service for diagnosis: a status and the text to show.
    fn dump(&mut self, args: Vec<String>) -> (out: (i32, String))
        ensures
            forall|c: u32| final(self).accepts(c) == old(self).accepts(c),
            old(self).may_dump(
                (Described { args: strings_view(args@), status: out.0, text: out.1@ }),
            ),
    ;
}

/// What a channel hands back, with the payload as mathematics.
pub open spec fn reply_view(r: Result<MsgParcel, IpcError>) -> Result<ParcelView, IpcError> {
    match r {
        Ok(p) => Ok(p@),
        Err(e) => Err(e),
    }
}

/// What a proxy makes of the answer to a call that returns a string: a
/// failure of the channel is passed on; a reply must hold a string at its
/// read cursor, and is a decode failure if it does not.
pub open spec fn text_reply(reply: Result<ParcelView, IpcError>) -> Result<Seq<char>, IpcError> {
    match reply {
        Ok(p) => match p.read(Kind::Str) {
            Some((Value::Str(s), _)) => Ok(s),
            _ => Err(IpcError::DecodeError),
        },
        Err(e) => Err(e),
    }
}

/// What a proxy makes of the answer to a call that returns a truth value:
/// a failure of the channel is passed on; a reply must hold a truth value
/// at its read cursor, and is a decode failure if it does not.
pub open spec fn flag_reply(reply: Result<ParcelView, IpcError>) -> Result<bool, IpcError> {
    match reply {
        Ok(p) => match p.read(Kind::Bool) {
            Some((Value::Bool(b), _)) => Ok(b),
            _ => Err(IpcError::DecodeError),
        },
        Err(e) => Err(e),
    }
}

/// The channel to a remote object, as a proxy sees it.
pub trait IRemoteObj {
    /// Whether the channel, as it is, may give the answer `reply` to the
    /// request `code` with the payload `data`. Each channel says for itself
    /// what it may answer; one that knows nothing of its far end may answer
    /// anything.
    spec fn may_answer(
        &self,
        code: u32,
        data: ParcelView,
        is_async: bool,
        reply: Result<ParcelView, IpcError>,
    ) -> bool;

    /// Sends the request `code` with the payload `data` and waits for the
    /// reply, unless `is_async` says that none is awaited. What comes back
    /// is an answer that the channel may give to this request.
    fn send_request(&mut self, code: u32, data: &mut MsgParcel, is_async: bool) -> (r: IpcResult<
        MsgParcel,
    >)
        ensures
            old(self).may_answer(code, old(data)@, is_async, reply_view(r)),
    ;
}

} // verus!
