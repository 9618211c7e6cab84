//! The call protocol of the native engine.
//!
//! Every operation is one call: a context is built, handed to the engine for
//! the length of the call, handed back, read and dropped. This module
//! builds the contexts and reads what comes back. The call itself is made
//! by the program: the functions of this crate that want something of the
//! engine return the requests, in the order in which they are to be made.

use crate::conversion::{Property, PropertyModel};
use crate::types::StringProperty;
use vstd::prelude::*;

verus! {

/// Identifies one open session of the engine. It is a number to hand back,
/// never an address.
pub type Handle = i64;

/// What the engine answers to a call.
pub type Status = i32;

/// The one status that reports failure. Every other status is a success, and
/// is passed on as the engine gave it.
pub const STATUS_FAILURE: Status = -1;

/// The status by which the engine reports success as a rule.
pub const STATUS_SUCCESS: Status = 0;

/// The operations of the protocol.
#[derive(Clone, Copy, Debug, PartialEq, Eq, Structural)]
pub enum Operation {
    Open,
    Close,
    Flush,
    Upload,
    Log,
    FlushAndTeardown,
}

/// What a context points the engine to. The payload is borrowed: it stays
/// where it is, unchanged, until the context is dropped.
#[derive(Debug)]
pub enum Payload<'a> {
    /// Nothing.
    Empty,
    /// A terminated configuration string.
    Config(&'a StringProperty),
    /// A contiguous array of property records.
    Properties(&'a [Property]),
}

/// A payload as plain values.
pub enum PayloadModel {
    Empty,
    Config(Seq<u8>),
    Properties(Seq<PropertyModel>),
}

impl<'a> View for Payload<'a> {
    type V = PayloadModel;

    open spec fn view(&self) -> PayloadModel {
        match self {
            Payload::Empty => PayloadModel::Empty,
            Payload::Config(config) => PayloadModel::Config(config@),
            Payload::Properties(properties) => PayloadModel::Properties(properties.deep_view()),
        }
    }
}

/// The envelope of one call.
#[derive(Debug)]
pub struct CallContext<'a> {
    pub call: Operation,
    pub handle: Handle,
    pub data: Payload<'a>,
    pub result: Status,
    pub size: u32,
}

/// A context as plain values.
pub struct ContextModel {
    pub call: Operation,
    pub handle: Handle,
    pub data: PayloadModel,
    pub result: Status,
    pub size: u32,
}

impl<'a> View for CallContext<'a> {
    type V = ContextModel;

    open spec fn view(&self) -> ContextModel {
        ContextModel {
            call: self.call,
            handle: self.handle,
            data: self.data@,
            result: self.result,
            size: self.size,
        }
    }
}

/// The context that opens a session with the configuration `config`.
pub open spec fn open_request(config: Seq<u8>) -> ContextModel {
    ContextModel {
        call: Operation::Open,
        handle: 0,
        data: PayloadModel::Config(config),
        result: 0,
        size: 0,
    }
}

/// The context of an operation on the session `handle` that carries no
/// payload.
pub open spec fn plain_request(call: Operation, handle: Handle) -> ContextModel {
    ContextModel { call, handle, data: PayloadModel::Empty, result: 0, size: 0 }
}

/// The context that logs the event `properties` on the session `handle`. The
/// count is the length of the array, cut to 32 bits.
pub open spec fn log_request(handle: Handle, properties: Seq<PropertyModel>) -> ContextModel {
    ContextModel {
        call: Operation::Log,
        handle,
        data: PayloadModel::Properties(properties),
        result: 0,
        size: properties.len() as u32,
    }
}

/// What an open call yields: the handle that came back, unless the engine
/// reported failure.
pub open spec fn open_result(status: Status, handle: Handle) -> Option<Handle> {
    if status == STATUS_FAILURE {
        None
    } else {
        Some(handle)
    }
}

/// Builds the context that opens a session with the configuration
/// `config`.
pub fn evt_open<'a>(config: &'a StringProperty) -> (context: CallContext<'a>)
    ensures
        context@ == open_request(config@),
{
    CallContext {
        call: Operation::Open,
        handle: 0,
        data: Payload::Config(config),
        result: 0,
        size: 0,
    }
}

/// Builds the context that closes the session `handle`.
pub fn evt_close(handle: &Handle) -> (context: CallContext<'static>)
    ensures
        context@ == plain_request(Operation::Close, *handle),
{
    CallContext { call: Operation::Close, handle: *handle, data: Payload::Empty, result: 0, size: 0 }
}

/// Builds the context that asks the engine to upload what the session
/// `handle` has stored.
pub fn evt_upload(handle: &Handle) -> (context: CallContext<'static>)
    ensures
        context@ == plain_request(Operation::Upload, *handle),
{
    CallContext {
        call: Operation::Upload,
        handle: *handle,
        data: Payload::Empty,
        result: 0,
        size: 0,
    }
}

/// Builds the context that asks the engine to store what the session
/// `handle` holds in memory.
pub fn evt_flush(handle: &Handle) -> (context: CallContext<'static>)
    ensures
        context@ == plain_request(Operation::Flush, *handle),
{
    CallContext { call: Operation::Flush, handle: *handle, data: Payload::Empty, result: 0, size: 0 }
}

/// Builds the context that stores and tears down the session `handle` in a
/// single call.
pub fn evt_flush_and_teardown(handle: &Handle) -> (context: CallContext<'static>)
    ensures
        context@ == plain_request(Operation::FlushAndTeardown, *handle),
{
    CallContext {
        call: Operation::FlushAndTeardown,
        handle: *handle,
        data: Payload::Empty,
        result: 0,
        size: 0,
    }
}

/// Builds the context that logs the event `data` on the session `handle`.
/// The context points to the array as it stands and carries its length.
pub fn evt_log<'a>(handle: &Handle, data: &'a [Property]) -> (context: CallContext<'a>)
    ensures
        context@ == log_request(*handle, data.deep_view()),
{
    let data_len = #[verifier::truncate]
    (data.len() as u32);

    CallContext {
        call: Operation::Log,
        handle: *handle,
        data: Payload::Properties(data),
        result: 0,
        size: data_len,
    }
}

/// Builds the context that logs the event held in the vector `data`, as
/// `evt_log` does for a slice.
pub fn evt_log_vec<'a>(handle: &Handle, data: &'a Box<Vec<Property>>) -> (context: CallContext<
    'a,
>)
    ensures
        context@ == log_request(*handle, data.deep_view()),
{
    evt_log(handle, data.as_slice())
}

/// Whether `status` reports failure.
pub fn is_failure(status: Status) -> (failed: bool)
    ensures
        failed == (status == STATUS_FAILURE),
{
    status == STATUS_FAILURE
}

/// Reads the outcome of an open call from the status and the context that
/// came back.
pub fn opened_handle(status: Status, returned: &CallContext<'_>) -> (handle: Option<Handle>)
    ensures
        handle == open_result(status, returned.handle),
{
    if is_failure(status) {
        None
    } else {
        Some(returned.handle)
    }
}

/// Whether none of `statuses` reports failure.
pub open spec fn succeeded(statuses: Seq<Status>) -> bool {
    forall|i: int| 0 <= i < statuses.len() ==> statuses[i] != STATUS_FAILURE
}

/// Whether none of the statuses that a run of calls was answered with
/// reports failure.
pub fn all_succeeded(statuses: &[Status]) -> (ok: bool)
    ensures
        ok == succeeded(statuses@),
{
    let mut i: usize = 0;
    while i < statuses.len()
        invariant
            i <= statuses.len(),
            forall|j: int| 0 <= j < i ==> statuses@[j] != STATUS_FAILURE,
        decreases statuses.len() - i,
    {
        if is_failure(statuses[i]) {
            return false;
        }
        i += 1;
    }
    true
}

/// One call that is to be made, with what it needs: the configuration of an
/// open call and the property array of a log call are owned by the request,
/// so they live until the call has been made.
#[derive(Debug)]
pub enum Request {
    Open(StringProperty),
    Close(Handle),
    Flush(Handle),
    Upload(Handle),
    Log(Handle, Box<Vec<Property>>),
}

impl View for Request {
    type V = ContextModel;

    /// The context of the call.
    open spec fn view(&self) -> ContextModel {
        match self {
            Request::Open(config) => open_request(config@),
            Request::Close(handle) => plain_request(Operation::Close, *handle),
            Request::Flush(handle) => plain_request(Operation::Flush, *handle),
            Request::Upload(handle) => plain_request(Operation::Upload, *handle),
            Request::Log(handle, properties) => log_request(*handle, properties.deep_view()),
        }
    }
}

impl DeepView for Request {
    type V = ContextModel;

    open spec fn deep_view(&self) -> ContextModel {
        self@
    }
}

impl Request {
    /// Builds the context of the call. It borrows from the request, which
    /// therefore stays where it is until the context is dropped.
    pub fn context(&self) -> (context: CallContext<'_>)
        ensures
            context@ == self@,
    {
        match self {
            Request::Open(config) => evt_open(config),
            Request::Close(handle) => evt_close(handle),
            Request::Flush(handle) => evt_flush(handle),
            Request::Upload(handle) => evt_upload(handle),
            Request::Log(handle, properties) => evt_log_vec(handle, properties),
        }
    }
}

/// The contexts of the call that `request` asks for: one, or none.
pub open spec fn asked(request: Option<Request>) -> Seq<ContextModel> {
    match request {
        Some(request) => seq![request@],
        None => seq![],
    }
}

} // verus!
