//! Client binding for a native telemetry engine.
//!
//! The engine batches, stores and uploads events; this crate holds what
//! stands between a program and the engine: the encoding of typed fields
//! into the records the engine reads, the one-call protocol, and the session
//! that opens, logs, flushes and closes.
//!
//! The crate decides and the program calls: a function that wants something
//! of the engine returns the requests to make, in their order, and the
//! program makes each call and hands back what the session needs of the
//! answer. Nothing in this crate reaches the engine by itself.

#![allow(unused_imports)]

pub mod appender;
pub mod c_string;
pub mod clock;
pub mod conversion;
pub mod gateway;
pub mod types;

use crate::c_string::{c_string, has_nul, lemma_ascii_text};
use crate::conversion::{Property, PropertyModel, ValueModel};
use crate::gateway::{
    asked, evt_log, log_request, open_request, open_result, opened_handle, plain_request,
    CallContext, ContextModel, Handle, Operation, Request, Status, STATUS_FAILURE,
};
use crate::types::{
    item_properties, ItemModel, StringProperty, TelemetryItem, TelemetryProperty,
};
use vstd::prelude::*;
use vstd::string::StringSliceAdditionalSpecFns;

verus! {

/// A session as plain values.
pub struct Session {
    /// Whether the session is open.
    pub started: bool,
    /// The buffer of the configuration, once one was given.
    pub configuration: Option<Seq<u8>>,
    /// The handle of the open session.
    pub handle: Option<Handle>,
}

impl Session {
    /// The session that nothing has happened to yet.
    pub open spec fn fresh() -> Session {
        Session { started: false, configuration: None, handle: None }
    }

    /// A session holds a handle exactly while it is started, and it is
    /// started only with a configuration.
    pub open spec fn consistent(self) -> bool {
        &&& self.started <==> self.handle is Some
        &&& self.started ==> self.configuration is Some
    }

    /// The session with its configuration replaced by the buffer `config`.
    pub open spec fn configured(self, config: Seq<u8>) -> Session {
        Session { configuration: Some(config), ..self }
    }

    /// What `start` asks of the engine: to open, once, unless the session
    /// is started already or has no configuration.
    pub open spec fn start_requests(self) -> Seq<ContextModel> {
        if !self.started && self.configuration is Some {
            seq![open_request(self.configuration->Some_0)]
        } else {
            seq![]
        }
    }

    /// The session after the engine has answered the open call with
    /// `status` and handed back `handle`: started, with that handle, unless
    /// the status is the one of failure. An answer to a call that was not
    /// due changes nothing.
    pub open spec fn opened(self, status: Status, handle: Handle) -> Session {
        if !self.started && self.configuration is Some {
            match open_result(status, handle) {
                Some(handle) => Session { started: true, handle: Some(handle), ..self },
                None => self,
            }
        } else {
            self
        }
    }

    /// What `flush` asks of the engine: to flush, and then, where `upload`
    /// is set, to upload. Nothing while the session is not started.
    pub open spec fn flush_requests(self, upload: bool) -> Seq<ContextModel> {
        if self.started && self.handle is Some {
            let handle = self.handle->Some_0;
            if upload {
                seq![
                    plain_request(Operation::Flush, handle),
                    plain_request(Operation::Upload, handle),
                ]
            } else {
                seq![plain_request(Operation::Flush, handle)]
            }
        } else {
            seq![]
        }
    }

    /// What `stop` asks of the engine: to flush and then to close. Nothing
    /// while the session is not started.
    pub open spec fn stop_requests(self) -> Seq<ContextModel> {
        if self.started && self.handle is Some {
            let handle = self.handle->Some_0;
            seq![plain_request(Operation::Flush, handle), plain_request(Operation::Close, handle)]
        } else {
            seq![]
        }
    }

    /// The session after `stop`: not started and without a handle, whatever
    /// the engine is going to answer.
    pub open spec fn after_stop(self) -> Session {
        if self.started {
            Session { started: false, handle: None, ..self }
        } else {
            self
        }
    }

    /// What logging the event `properties` asks of the engine: one log
    /// call on the handle of the session. Nothing while the session is not
    /// started.
    pub open spec fn log_requests(self, properties: Seq<PropertyModel>) -> Seq<ContextModel> {
        if self.started && self.handle is Some {
            seq![log_request(self.handle->Some_0, properties)]
        } else {
            seq![]
        }
    }
}

/// A session is consistent when it is made, and stays so whatever is done
/// to it and whatever the engine answers.
pub proof fn lemma_session_stays_consistent(
    session: Session,
    config: Seq<u8>,
    status: Status,
    handle: Handle,
)
    requires
        session.consistent(),
    ensures
        Session::fresh().consistent(),
        session.configured(config).consistent(),
        session.opened(status, handle).consistent(),
        session.after_stop().consistent(),
{
}

/// After `configure` and then `start`, whatever the configuration and
/// whatever the engine answers, the session is either started and holds a
/// handle, or is not started and holds none. Where the session was not
/// started before, the engine is asked once, to open with the configuration
/// given, and its answer decides which: the session is started, with the
/// handle that came back, unless the status is the one of failure.
pub proof fn lemma_configure_then_start(
    session: Session,
    config: Seq<u8>,
    status: Status,
    handle: Handle,
)
    requires
        session.consistent(),
    ensures
        ({
            let configured = session.configured(config);
            let ended = configured.opened(status, handle);
            &&& ended.consistent()
            &&& ended.started ==> ended.handle is Some
            &&& !ended.started ==> ended.handle is None
            &&& ended.configuration == Some(config)
            &&& session.started ==> {
                &&& configured.start_requests() == Seq::<ContextModel>::empty()
                &&& ended == configured
            }
            &&& !session.started ==> {
                &&& configured.start_requests() == seq![open_request(config)]
                &&& ended.started == (status != STATUS_FAILURE)
                &&& ended.started ==> ended.handle == Some(handle)
            }
        }),
{
}

/// A `start` on a session that an earlier `start` has started asks nothing
/// of the engine, and the session stays started as it is whatever is
/// handed to it as an answer.
pub proof fn lemma_start_twice(
    session: Session,
    status: Status,
    handle: Handle,
    later_status: Status,
    later_handle: Handle,
)
    requires
        session.consistent(),
        session.opened(status, handle).started,
    ensures
        session.opened(status, handle).start_requests() == Seq::<ContextModel>::empty(),
        session.opened(status, handle).opened(later_status, later_handle) == session.opened(
            status,
            handle,
        ),
{
}

/// `stop` on a session that is not started asks nothing of the engine and
/// changes nothing.
pub proof fn lemma_stop_before_start(session: Session)
    requires
        !session.started,
    ensures
        session.stop_requests() == Seq::<ContextModel>::empty(),
        session.after_stop() == session,
{
}

/// On a started session, a flush without upload followed by a flush with
/// upload asks the engine to flush, to flush again and to upload, in that
/// order and on the session's handle: two flushes and one upload.
pub proof fn lemma_flush_then_upload(session: Session)
    requires
        session.consistent(),
        session.started,
    ensures
        session.flush_requests(false) + session.flush_requests(true) == seq![
            plain_request(Operation::Flush, session.handle->Some_0),
            plain_request(Operation::Flush, session.handle->Some_0),
            plain_request(Operation::Upload, session.handle->Some_0),
        ],
{
    assert(session.flush_requests(false) + session.flush_requests(true) =~= seq![
        plain_request(Operation::Flush, session.handle->Some_0),
        plain_request(Operation::Flush, session.handle->Some_0),
        plain_request(Operation::Upload, session.handle->Some_0),
    ]);
}

/// Logging on a consistent session asks nothing of the engine, or asks it
/// once to log on the very handle that the session holds together with its
/// started flag.
pub proof fn lemma_log_on_the_handle_held(session: Session, properties: Seq<PropertyModel>)
    requires
        session.consistent(),
    ensures
        !session.started ==> session.log_requests(properties) == Seq::<ContextModel>::empty(),
        session.started ==> session.handle is Some && session.log_requests(properties) == seq![
            log_request(session.handle->Some_0, properties),
        ],
{
}

/// The bytes of the text `trace`.
pub open spec fn trace_text() -> Seq<u8> {
    seq![0x74u8, 0x72u8, 0x61u8, 0x63u8, 0x65u8]
}

/// The bytes of the text `message`.
pub open spec fn message_text() -> Seq<u8> {
    seq![0x6du8, 0x65u8, 0x73u8, 0x73u8, 0x61u8, 0x67u8, 0x65u8]
}

/// The event that `trace` makes of the text `message`: it is named `trace`
/// and has the one field `message`.
pub open spec fn trace_item(message: Seq<u8>) -> ItemModel {
    ItemModel {
        name: c_string(trace_text()),
        data: seq![(c_string(message_text()), ValueModel::String(c_string(message)))],
        time: None,
    }
}

/// What is to be done to open a session.
#[derive(Debug)]
pub enum StartStep {
    /// Nothing: the session is started already, so that opening it has
    /// succeeded.
    Started,
    /// Nothing: no configuration was given, so that opening the session
    /// has failed.
    Refused,
    /// The open call is to be made, and its answer handed to `opened`.
    Open(Request),
}

impl StartStep {
    /// The contexts of the calls that the step asks for: one, or none.
    pub open spec fn requests(self) -> Seq<ContextModel> {
        match self {
            StartStep::Open(request) => seq![request@],
            _ => seq![],
        }
    }
}

/// Owns one session with the engine: its state, its configuration and its
/// handle.
#[derive(Debug)]
pub struct LogManager {
    is_started: bool,
    configuration: Option<StringProperty>,
    log_handle: Option<Handle>,
}

impl Clone for LogManager {
    /// A manager in the same state.
    fn clone(&self) -> (copy: Self)
        ensures
            copy@ == self@,
    {
        LogManager {
            is_started: self.is_started,
            configuration: match &self.configuration {
                Some(config) => Some(config.clone()),
                None => None,
            },
            log_handle: self.log_handle,
        }
    }
}

impl View for LogManager {
    type V = Session;

    closed spec fn view(&self) -> Session {
        Session {
            started: self.is_started,
            configuration: match self.configuration {
                Some(config) => Some(config@),
                None => None,
            },
            handle: self.log_handle,
        }
    }
}

impl LogManager {
    /// The state of the manager is consistent.
    pub open spec fn wf(&self) -> bool {
        self@.consistent()
    }

    /// A manager that is not started and has no configuration.
    pub fn new() -> (manager: Self)
        ensures
            manager.wf(),
            manager@ == Session::fresh(),
    {
        LogManager { is_started: false, configuration: None, log_handle: None }
    }

    /// Whether the session is open.
    pub fn is_started(&self) -> (started: bool)
        ensures
            started == self@.started,
    {
        self.is_started
    }

    /// The handle of the open session.
    pub fn log_handle(&self) -> (handle: Option<Handle>)
        ensures
            handle == self@.handle,
    {
        self.log_handle
    }

    /// The configuration that `start` hands to the engine.
    pub fn configuration(&self) -> (config: Option<&StringProperty>)
        ensures
            match config {
                Some(c) => self@.configuration == Some(c@),
                None => self@.configuration is None,
            },
    {
        self.configuration.as_ref()
    }

    /// Begins to open the session. Where it is open already there is
    /// nothing to do, and where no configuration was given nothing can be
    /// done. Otherwise the open call is to be made, once, with the
    /// configuration; its answer goes to `opened`.
    pub fn start(&self) -> (step: StartStep)
        ensures
            step is Started <==> self@.started,
            step is Refused <==> !self@.started && self@.configuration is None,
            step is Open ==> step->Open_0@ == open_request(self@.configuration->Some_0),
            step.requests() == self@.start_requests(),
    {
        if self.is_started {
            return StartStep::Started;
        }
        match &self.configuration {
            None => StartStep::Refused,
            Some(config) => StartStep::Open(Request::Open(config.clone())),
        }
    }

    /// Takes the answer to the open call that `start` asked for: the
    /// status and the context that came back. The session is started, and
    /// holds the handle of that context, unless the status is the one of
    /// failure. Returns whether the session is started.
    pub fn opened(&mut self, status: Status, returned: &CallContext<'_>) -> (ok: bool)
        requires
            old(self).wf(),
        ensures
            final(self).wf(),
            final(self)@ == old(self)@.opened(status, returned.handle),
            ok == final(self)@.started,
    {
        if self.is_started {
            return true;
        }
        if self.configuration.is_none() {
            return false;
        }
        let handle = opened_handle(status, returned);

        if handle.is_none() {
            return false;
        }
        self.log_handle = handle;
        self.is_started = true;

        true
    }

    /// Returns the calls that store what the engine holds and then, where
    /// `upload` is set, upload it: two calls, of which the second is to be
    /// made whatever the first is answered. None while the session is not
    /// started.
    pub fn flush(&self, upload: bool) -> (requests: Vec<Request>)
        ensures
            requests.deep_view() == self@.flush_requests(upload),
    {
        let mut requests: Vec<Request> = Vec::new();
        if self.is_started == false {
            assert(requests.deep_view() =~= self@.flush_requests(upload));
            return requests;
        }
        match self.log_handle {
            Some(handle) => {
                requests.push(Request::Flush(handle));

                if upload {
                    requests.push(Request::Upload(handle));
                }
            },
            None => {},
        }
        assert(requests.deep_view() =~= self@.flush_requests(upload));
        requests
    }

    /// Closes the session: returns the calls that flush and then close it,
    /// and leaves the session not started and without a handle, whatever
    /// the engine is going to answer. Nothing happens while the session is
    /// not started.
    pub fn stop(&mut self) -> (requests: Vec<Request>)
        requires
            old(self).wf(),
        ensures
            final(self).wf(),
            final(self)@ == old(self)@.after_stop(),
            requests.deep_view() == old(self)@.stop_requests(),
    {
        let mut requests = self.flush(false);
        if self.is_started == false {
            return requests;
        }
        let handle = self.log_handle.unwrap();
        let ghost flushes = requests.deep_view();
        assert(flushes.len() == 1);
        assert(requests@[0].deep_view() == flushes[0]);
        requests.push(Request::Close(handle));
        assert(requests.deep_view() =~= flushes.push(plain_request(Operation::Close, handle)));
        assert(requests.deep_view() =~= old(self)@.stop_requests());

        self.log_handle = None;
        self.is_started = false;

        requests
    }

    /// Replaces the configuration. Nothing is asked of the engine.
    pub fn configure(&mut self, config: &str)
        requires
            old(self).wf(),
            !has_nul(config.spec_bytes()),
        ensures
            final(self).wf(),
            final(self)@ == old(self)@.configured(c_string(config.spec_bytes())),
    {
        self.configuration = Some(StringProperty::new(config));
    }

    /// Returns the call that logs the text `message` as an event named
    /// `trace` with the one field `message`. None while the session is not
    /// started.
    pub fn trace(&self, message: &str) -> (request: Option<Request>)
        requires
            !has_nul(message.spec_bytes()),
        ensures
            request is Some <==> self@.started && self@.handle is Some,
            request is Some ==> request->Some_0@ == log_request(
                self@.handle->Some_0,
                item_properties(trace_item(message.spec_bytes())),
            ),
            asked(request) == self@.log_requests(
                item_properties(trace_item(message.spec_bytes())),
            ),
    {
        proof {
            reveal_strlit("trace");
            lemma_ascii_text("trace");
            assert("trace".spec_bytes() =~= trace_text());
            reveal_strlit("message");
            lemma_ascii_text("message");
            assert("message".spec_bytes() =~= message_text());
        }
        let mut item = TelemetryItem::new("trace");

        item.add_property("message", TelemetryProperty::String(StringProperty::new(message)));
        proof {
            assert(item@.data =~= trace_item(message.spec_bytes()).data);
        }

        self.track_item(&item)
    }

    /// Returns the call that logs the event `item`: the item is encoded
    /// into its property array, which the request owns. None while the
    /// session is not started.
    pub fn track_item(&self, item: &TelemetryItem) -> (request: Option<Request>)
        ensures
            request is Some <==> self@.started && self@.handle is Some,
            request is Some ==> request->Some_0@ == log_request(
                self@.handle->Some_0,
                item_properties(item@),
            ),
            asked(request) == self@.log_requests(item_properties(item@)),
    {
        if self.is_started == false {
            return None;
        }
        match self.log_handle {
            Some(handle) => Some(Request::Log(handle, item.to_evt())),
            None => None,
        }
    }

    /// Builds the context of the call that logs the event whose property
    /// array is `event_props`, on the array as it stands. None while the
    /// session is not started.
    pub fn track_evt<'a>(&self, event_props: &'a [Property]) -> (context: Option<CallContext<'a>>)
        ensures
            context is Some <==> self@.started && self@.handle is Some,
            context is Some ==> context->Some_0@ == log_request(
                self@.handle->Some_0,
                event_props.deep_view(),
            ),
    {
        if self.is_started == false {
            return None;
        }
        match self.log_handle {
            Some(handle) => Some(evt_log(&handle, event_props)),
            None => None,
        }
    }
}

/// Begins to bring the session up with the configuration `config`: the
/// configuration is stored and the open call is to be made. Where the
/// session is up already, nothing happens and `config` is not looked at.
pub fn init(log_manager: &mut LogManager, config: &str) -> (step: StartStep)
    requires
        old(log_manager).wf(),
        !old(log_manager)@.started ==> !has_nul(config.spec_bytes()),
    ensures
        final(log_manager).wf(),
        final(log_manager)@ == if old(log_manager)@.started {
            old(log_manager)@
        } else {
            old(log_manager)@.configured(c_string(config.spec_bytes()))
        },
        step is Started <==> old(log_manager)@.started,
        !(step is Refused),
        step is Open ==> step->Open_0@ == open_request(c_string(config.spec_bytes())),
        step.requests() == final(log_manager)@.start_requests(),
{
    if log_manager.is_started() == false {
        log_manager.configure(config);
    }
    log_manager.start()
}

/// Returns the calls that store what the engine holds and upload it.
pub fn flush(log_manager: &LogManager) -> (requests: Vec<Request>)
    ensures
        requests.deep_view() == log_manager@.flush_requests(true),
{
    log_manager.flush(true)
}

/// Returns the call that stores what the engine holds, without uploading.
pub fn offline_flush(log_manager: &LogManager) -> (requests: Vec<Request>)
    ensures
        requests.deep_view() == log_manager@.flush_requests(false),
{
    log_manager.flush(false)
}

} // verus!
