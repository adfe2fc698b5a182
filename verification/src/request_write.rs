//! The exchange of a request whose body is streamed.
//!
//! [`RequestWrite`] is a byte sink for a body of unknown length. Connecting
//! and writing the head are put off until the sink is first used; the body is
//! then sent in chunks, and the response is read once the sink is closed. The
//! driver asks the writer which work a call of the sink needs, does it, and
//! hands what it saw to the poll of that call.

use crate::error::{Failure, HttpError};
use crate::head::{chunked_head, chunked_head_fields};
use crate::headers::header_fields;
use crate::origin::{
    default_port, encryption_for, plain_scheme, resolve_port, scheme_policy, secure_scheme,
    Address, AddressView, Endpoint, EndpointView,
};
use crate::outcome::Outcome;
use crate::transport::Transport;
use http::header::{HeaderMap, HeaderValue};
use std::sync::Arc;
use vstd::pervasive::unreached;
use vstd::prelude::*;

verus! {

/// A call that the driver serves.
#[derive(Debug, Clone, Copy, PartialEq, Eq, Structural)]
pub enum Operation {
    /// Bytes of the body are written.
    Write,
    /// What was written is flushed.
    Flush,
    /// The body is closed: the terminating chunk is sent.
    Close,
    /// The response is asked for.
    Response,
}

/// The work that a call needs from the driver before its poll.
#[derive(Debug)]
pub enum Work<'a> {
    /// None: the writer has failed, and the poll reports the failure.
    Report,
    /// Go on connecting to this endpoint.
    Connect(&'a Endpoint),
    /// Go on writing the head with these fields.
    WriteHead(&'a HeaderMap<HeaderValue>),
    /// Carry the call out on the chunk encoder over the transport; for the
    /// response, close the encoder.
    Encode,
    /// Go on reading the response head.
    ReadHead,
    /// None: the sink is closed, and the poll refuses the call.
    Refuse,
}

/// How far the steps before the body have come.
#[derive(Debug)]
pub enum Preamble {
    /// A step is done; the next work may be another step.
    Continue,
    /// The step in flight has not finished.
    Pending,
    /// No step is outstanding.
    Ready,
    /// The writer has failed.
    Failed(HttpError),
}

/// How a call of the sink went.
#[derive(Debug)]
pub enum Progress {
    /// A step before the body is done: ask for the next work and poll again.
    Continue,
    /// The work in flight has not finished: poll again when woken.
    Pending,
    /// The call is done. For a write the number is how many bytes were
    /// taken, and it is zero for a flush and a close.
    Ready(usize),
    /// The writer has failed, now or before. It will say so from now on.
    Failed(HttpError),
    /// The sink was closed before the call, and nothing was done.
    Closed,
}

/// One exchange of a request with a streamed body.
#[derive(Debug)]
pub struct RequestWrite {
    error: Option<HttpError>,
    pending_connect: Option<Endpoint>,
    pending_head: Option<HeaderMap<HeaderValue>>,
    transport: Option<Transport>,
    closed: bool,
}

/// How asking for the response went.
#[derive(Debug)]
pub enum Responding {
    /// A step is done: ask for the next work and ask again.
    Continue(RequestWrite),
    /// The work in flight has not finished: ask again when woken.
    Pending(RequestWrite),
    /// The response head has arrived: hand it, with the transport, to the
    /// reader of the response body. The exchange is over.
    Respond,
    /// The exchange failed and is over.
    Failed(HttpError),
}

/// What a writer holds.
pub struct WriterView {
    /// The failure that ended the exchange, once there is one.
    pub error: Option<Failure>,
    /// The endpoint of the connect that is still to finish.
    pub pending_connect: Option<EndpointView>,
    /// The fields of the head that is still to be written.
    pub pending_head: Option<Map<Seq<char>, Seq<Seq<u8>>>>,
    /// The transport that the sink writes to.
    pub transport: Option<Transport>,
    /// Whether the body has been closed.
    pub closed: bool,
}

/// What a piece of work is, with the endpoint and the fields in place of
/// the references to them.
pub enum WorkView {
    Report,
    Connect(EndpointView),
    WriteHead(Map<Seq<char>, Seq<Seq<u8>>>),
    Encode,
    ReadHead,
    Refuse,
}

impl<'a> View for Work<'a> {
    type V = WorkView;

    open spec fn view(&self) -> WorkView {
        match *self {
            Work::Report => WorkView::Report,
            Work::Connect(endpoint) => WorkView::Connect(endpoint@),
            Work::WriteHead(head) => WorkView::WriteHead(header_fields(*head)),
            Work::Encode => WorkView::Encode,
            Work::ReadHead => WorkView::ReadHead,
            Work::Refuse => WorkView::Refuse,
        }
    }
}

/// The endpoint of an optional endpoint.
pub open spec fn endpoint_view(endpoint: Option<Endpoint>) -> Option<EndpointView> {
    match endpoint {
        Some(e) => Some(e@),
        None => None,
    }
}

/// The fields of an optional head.
pub open spec fn head_view(head: Option<HeaderMap<HeaderValue>>) -> Option<
    Map<Seq<char>, Seq<Seq<u8>>>,
> {
    match head {
        Some(h) => Some(header_fields(h)),
        None => None,
    }
}

/// What an optional error says.
pub open spec fn failure_of(error: Option<HttpError>) -> Option<Failure> {
    match error {
        Some(e) => Some(e@),
        None => None,
    }
}

/// The stream that a connection to an endpoint yields.
pub open spec fn transport_for(endpoint: EndpointView) -> Transport {
    if endpoint.encrypted {
        Transport::Tls
    } else {
        Transport::Tcp
    }
}

impl WriterView {
    /// The writer that has failed: it holds the failure and nothing else.
    pub open spec fn failed(failure: Failure) -> WriterView {
        WriterView {
            error: Some(failure),
            pending_connect: None,
            pending_head: None,
            transport: None,
            closed: false,
        }
    }

    /// A writer is in exactly one of five conditions: failed; connecting,
    /// without a transport; writing the head, over the transport; streaming
    /// the body, over the transport; or closed, the transport given up.
    pub open spec fn wf(self) -> bool {
        if self.error is Some {
            self == WriterView::failed(self.error->0)
        } else if self.pending_connect is Some {
            self.transport is None && !self.closed
        } else if self.closed {
            self.transport is None && self.pending_head is None
        } else {
            self.transport is Some
        }
    }

    /// Whether a step before the body is outstanding.
    pub open spec fn preparing(self) -> bool {
        self.pending_connect is Some || self.pending_head is Some
    }

    /// The work that a call needs.
    pub open spec fn work(self, operation: Operation) -> WorkView {
        if self.error is Some {
            WorkView::Report
        } else if self.pending_connect is Some {
            WorkView::Connect(self.pending_connect->0)
        } else if self.pending_head is Some {
            WorkView::WriteHead(self.pending_head->0)
        } else if !self.closed {
            WorkView::Encode
        } else if operation is Response {
            WorkView::ReadHead
        } else {
            WorkView::Refuse
        }
    }

    /// What a fault in the work in flight means: a connect error while
    /// connecting, an I/O error after that.
    pub open spec fn failure(self, fault: std::io::Error) -> Failure {
        if self.pending_connect is Some {
            Failure::ConnectError(fault)
        } else {
            Failure::IoError(fault)
        }
    }

    /// The writer after a call of the sink. A failed and a closed writer stay
    /// as they are, and so does any writer while the work is pending. A fault
    /// leaves the failed writer. Finished work completes the step in flight:
    /// the connect, which yields the transport; the writing of the head; or
    /// the call itself, after which a closed sink has given up the transport.
    pub open spec fn after(self, operation: Operation, outcome: Outcome) -> WriterView {
        if self.error is Some || self.closed {
            self
        } else {
            match outcome {
                Outcome::Pending => self,
                Outcome::Failed(fault) => WriterView::failed(self.failure(fault)),
                Outcome::Ready(_) => if self.pending_connect is Some {
                    WriterView {
                        pending_connect: None,
                        transport: Some(transport_for(self.pending_connect->0)),
                        ..self
                    }
                } else if self.pending_head is Some {
                    WriterView { pending_head: None, ..self }
                } else if operation is Close || operation is Response {
                    WriterView { transport: None, closed: true, ..self }
                } else {
                    self
                },
            }
        }
    }

    /// What a call of the sink returns.
    pub open spec fn yields(self, operation: Operation, outcome: Outcome, progress: Progress) -> bool {
        if self.error is Some {
            progress matches Progress::Failed(error) && error@ == self.error->0
        } else if self.closed {
            progress is Closed
        } else {
            match outcome {
                Outcome::Pending => progress is Pending,
                Outcome::Failed(fault) => progress matches Progress::Failed(error) && error@
                    == self.failure(fault),
                Outcome::Ready(taken) => if self.preparing() {
                    progress is Continue
                } else if operation is Write {
                    progress == Progress::Ready(taken)
                } else {
                    progress == Progress::Ready(0)
                },
            }
        }
    }

    /// The writer after a step before the body.
    pub open spec fn prepared(self, outcome: Outcome) -> WriterView {
        if self.preparing() {
            self.after(Operation::Write, outcome)
        } else {
            self
        }
    }

    /// What a step before the body returns.
    pub open spec fn prepares(self, outcome: Outcome, preamble: Preamble) -> bool {
        if self.error is Some {
            preamble matches Preamble::Failed(error) && error@ == self.error->0
        } else if !self.preparing() {
            preamble is Ready
        } else {
            match outcome {
                Outcome::Pending => preamble is Pending,
                Outcome::Failed(fault) => preamble matches Preamble::Failed(error) && error@
                    == self.failure(fault),
                Outcome::Ready(_) => preamble is Continue,
            }
        }
    }

    /// What asking for the response returns. A failed writer reports its
    /// failure. Until the sink is closed its close is driven, and the writer
    /// goes on as after that call. Then the response head is read: when it
    /// has arrived the exchange is over, and a fault is an I/O error.
    pub open spec fn responds(self, outcome: Outcome, responding: Responding) -> bool {
        if self.error is Some {
            responding matches Responding::Failed(error) && error@ == self.error->0
        } else {
            match outcome {
                Outcome::Pending => responding matches Responding::Pending(writer) && writer@ == self,
                Outcome::Failed(fault) => responding matches Responding::Failed(error) && error@
                    == self.failure(fault),
                Outcome::Ready(_) => if self.closed {
                    responding is Respond
                } else {
                    responding matches Responding::Continue(writer) && writer@ == self.after(
                        Operation::Response,
                        outcome,
                    )
                },
            }
        }
    }
}

/// What the URI alone says of the endpoint of a streamed request: the scheme
/// is judged first, then the host must be there.
pub open spec fn streamed_endpoint(address: AddressView) -> Result<EndpointView, Failure> {
    match encryption_for(address.scheme) {
        None => Err(Failure::UnexpectedScheme(address.scheme->0)),
        Some(encrypted) => match address.host {
            None => Err(Failure::MissingHost),
            Some(host) => Ok(
                EndpointView {
                    host,
                    port: match address.port {
                        Some(port) => port,
                        None => default_port(encrypted),
                    },
                    encrypted,
                },
            ),
        },
    }
}

/// The writer that `start` makes of a request. Where the URI names an
/// endpoint, the writer is about to connect to it and to write the head with
/// chunked framing, unless the head could not be built, which is an I/O
/// error. Otherwise the writer has failed as the URI deserves.
pub open spec fn started(
    address: AddressView,
    fields: Map<Seq<char>, Seq<Seq<u8>>>,
    writer: WriterView,
) -> bool {
    match streamed_endpoint(address) {
        Err(failure) => writer == WriterView::failed(failure),
        Ok(endpoint) => {
            ||| writer == (WriterView {
                error: None,
                pending_connect: Some(endpoint),
                pending_head: Some(chunked_head_fields(fields)),
                transport: None,
                closed: false,
            })
            ||| (writer.error matches Some(Failure::IoError(_)) && writer == WriterView::failed(
                writer.error->0,
            ))
        },
    }
}

impl View for RequestWrite {
    type V = WriterView;

    closed spec fn view(&self) -> WriterView {
        WriterView {
            error: failure_of(self.error),
            pending_connect: endpoint_view(self.pending_connect),
            pending_head: head_view(self.pending_head),
            transport: self.transport,
            closed: self.closed,
        }
    }
}

impl RequestWrite {
    #[verifier::type_invariant]
    spec fn well_formed(self) -> bool {
        self@.wf()
    }

    /// The writer that has failed with `err`.
    fn error(err: HttpError) -> (writer: Self)
        ensures
            writer@ == WriterView::failed(err@),
    {
        RequestWrite {
            error: Some(err),
            pending_connect: None,
            pending_head: None,
            transport: None,
            closed: false,
        }
    }

    /// Begins the exchange of a request whose body is streamed.
    ///
    /// Nothing is connected or sent yet. The scheme of the URI is judged
    /// first, then its host must be there; the head is the caller's with
    /// chunked transfer framing, and no `Content-Length` is added. A request
    /// that cannot be begun yields a writer that has failed already.
    pub fn start(address: &Address, headers: &HeaderMap<HeaderValue>) -> (writer: Self)
        ensures
            started(address@, header_fields(*headers), writer@),
            writer@.wf(),
    {
        let encrypted = match scheme_policy(&address.scheme) {
            Ok(encrypted) => encrypted,
            Err(error) => {
                return Self::error(error);
            },
        };
        let host = match &address.host {
            Some(host) => host.clone(),
            None => {
                return Self::error(HttpError::MissingHost);
            },
        };
        let port = resolve_port(address.port, encrypted);
        let head = match chunked_head(headers) {
            Ok(head) => head,
            Err(refusal) => {
                return Self::error(HttpError::IoError(Arc::new(refusal.into_fault())));
            },
        };
        RequestWrite {
            error: None,
            pending_connect: Some(Endpoint { host, port, encrypted }),
            pending_head: Some(head),
            transport: None,
            closed: false,
        }
    }

    /// The length that the encoder of the body is made for: none, whatever
    /// is written later, so that the body is framed in chunks.
    pub fn declared_length(&self) -> (length: Option<u64>)
        ensures
            length is None,
    {
        None
    }

    /// Whether the sink has been closed.
    pub fn is_closed(&self) -> (closed: bool)
        ensures
            closed == self@.closed,
    {
        self.closed
    }

    /// The stream that the sink writes to, while it has one.
    pub fn transport(&self) -> (transport: Option<Transport>)
        ensures
            transport == self@.transport,
    {
        self.transport
    }

    /// The failure that ended the exchange, once there is one.
    pub fn failure(&self) -> (failure: Option<&HttpError>)
        ensures
            failure matches Some(error) ==> self@.error == Some(error@),
            failure is None <==> self@.error is None,
    {
        self.error.as_ref()
    }

    /// The work that a call needs from the driver before its poll.
    ///
    /// A failed writer needs none, whatever the call: its failure is reported
    /// without a further attempt at the network.
    pub fn work(&self, operation: Operation) -> (work: Work<'_>)
        ensures
            work@ == self@.work(operation),
    {
        if self.error.is_some() {
            Work::Report
        } else if let Some(endpoint) = &self.pending_connect {
            Work::Connect(endpoint)
        } else if let Some(head) = &self.pending_head {
            Work::WriteHead(head)
        } else if !self.closed {
            Work::Encode
        } else {
            match operation {
                Operation::Response => Work::ReadHead,
                _ => Work::Refuse,
            }
        }
    }

    /// Takes one call of the sink on by what the driver saw.
    fn drive(&mut self, operation: Operation, outcome: Outcome) -> (progress: Progress)
        ensures
            final(self)@ == old(self)@.after(operation, outcome),
            old(self)@.yields(operation, outcome, progress),
            final(self)@.wf(),
    {
        proof {
            use_type_invariant(&*self);
        }
        if let Some(error) = &self.error {
            return Progress::Failed(error.share());
        }
        if self.closed {
            return Progress::Closed;
        }
        match outcome {
            Outcome::Pending => Progress::Pending,
            Outcome::Failed(fault) => {
                let error = if self.pending_connect.is_some() {
                    HttpError::ConnectError(Arc::new(fault))
                } else {
                    HttpError::IoError(Arc::new(fault))
                };
                let report = error.share();
                *self = Self::error(error);
                Progress::Failed(report)
            },
            Outcome::Ready(taken) => {
                if self.pending_connect.is_some() || self.pending_head.is_some() {
                    self.finish_step();
                    Progress::Continue
                } else {
                    match operation {
                        Operation::Write => Progress::Ready(taken),
                        Operation::Flush => Progress::Ready(0),
                        Operation::Close | Operation::Response => {
                            *self = Self::closed();
                            Progress::Ready(0)
                        },
                    }
                }
            },
        }
    }

    /// The writer whose sink is closed.
    fn closed() -> (writer: Self)
        ensures
            writer@ == (WriterView {
                error: None,
                pending_connect: None,
                pending_head: None,
                transport: None,
                closed: true,
            }),
    {
        RequestWrite {
            error: None,
            pending_connect: None,
            pending_head: None,
            transport: None,
            closed: true,
        }
    }

    /// Completes the step before the body that is in flight: the connect,
    /// which yields the transport, or else the writing of the head.
    fn finish_step(&mut self)
        requires
            old(self)@.error is None,
            old(self)@.preparing(),
        ensures
            final(self)@ == old(self)@.after(Operation::Write, Outcome::Ready(0)),
    {
        proof {
            use_type_invariant(&*self);
        }
        let mut writer = Self::closed();
        core::mem::swap(self, &mut writer);
        let RequestWrite { error, pending_connect, pending_head, transport, closed } = writer;
        *self = match pending_connect {
            Some(endpoint) => {
                let stream = if endpoint.encrypted {
                    Transport::Tls
                } else {
                    Transport::Tcp
                };
                RequestWrite {
                    error,
                    pending_connect: None,
                    pending_head,
                    transport: Some(stream),
                    closed,
                }
            },
            None => RequestWrite {
                error,
                pending_connect: None,
                pending_head: None,
                transport,
                closed,
            },
        };
    }

    /// Takes the steps before the body on by what the driver saw: the
    /// connect, then the writing of the head.
    ///
    /// With no step outstanding the outcome is not read and nothing changes.
    /// A fault fails the writer for good: as a connect error while
    /// connecting, as an I/O error while the head is written.
    pub fn poll_before_body(&mut self, outcome: Outcome) -> (preamble: Preamble)
        ensures
            final(self)@ == old(self)@.prepared(outcome),
            old(self)@.prepares(outcome, preamble),
            final(self)@.wf(),
    {
        proof {
            use_type_invariant(&*self);
        }
        if self.error.is_none() && self.pending_connect.is_none() && self.pending_head.is_none() {
            return Preamble::Ready;
        }
        match self.drive(Operation::Write, outcome) {
            Progress::Continue => Preamble::Continue,
            Progress::Pending => Preamble::Pending,
            Progress::Failed(error) => Preamble::Failed(error),
            Progress::Ready(_) | Progress::Closed => unreached(),
        }
    }

    /// Takes a write of body bytes on by what the driver saw.
    ///
    /// A failed writer reports its failure and a closed sink refuses the
    /// call, in both cases without reading the outcome. Otherwise the outcome
    /// is that of the work the writer asked for: a step before the body, or
    /// the write itself, whose count of bytes is handed on. A fault fails the
    /// writer for good and costs it the transport.
    pub fn poll_write(&mut self, outcome: Outcome) -> (progress: Progress)
        ensures
            final(self)@ == old(self)@.after(Operation::Write, outcome),
            old(self)@.yields(Operation::Write, outcome, progress),
            final(self)@.wf(),
    {
        self.drive(Operation::Write, outcome)
    }

    /// Takes a flush on by what the driver saw, as [`RequestWrite::poll_write`]
    /// does a write.
    pub fn poll_flush(&mut self, outcome: Outcome) -> (progress: Progress)
        ensures
            final(self)@ == old(self)@.after(Operation::Flush, outcome),
            old(self)@.yields(Operation::Flush, outcome, progress),
            final(self)@.wf(),
    {
        self.drive(Operation::Flush, outcome)
    }

    /// Takes a close on by what the driver saw, as [`RequestWrite::poll_write`]
    /// does a write. When the close is done the sink has given up the
    /// transport, which from then on is only read from, for the response.
    pub fn poll_close(&mut self, outcome: Outcome) -> (progress: Progress)
        ensures
            final(self)@ == old(self)@.after(Operation::Close, outcome),
            old(self)@.yields(Operation::Close, outcome, progress),
            final(self)@.wf(),
    {
        self.drive(Operation::Close, outcome)
    }

    /// Takes the asking for the response on by what the driver saw.
    ///
    /// The sink is closed first, if it is not yet; its failure is the
    /// failure of the exchange. The response head is read after that.
    pub fn response(self, outcome: Outcome) -> (responding: Responding)
        ensures
            self@.responds(outcome, responding),
            responding matches Responding::Continue(writer) ==> writer@.wf(),
            responding matches Responding::Pending(writer) ==> writer@.wf(),
    {
        proof {
            use_type_invariant(&self);
        }
        let mut writer = self;
        if writer.closed {
            match outcome {
                Outcome::Pending => Responding::Pending(writer),
                Outcome::Ready(_) => Responding::Respond,
                Outcome::Failed(fault) => Responding::Failed(HttpError::IoError(Arc::new(fault))),
            }
        } else {
            match writer.drive(Operation::Response, outcome) {
                Progress::Pending => Responding::Pending(writer),
                Progress::Continue => Responding::Continue(writer),
                Progress::Ready(_) => Responding::Continue(writer),
                Progress::Failed(error) => Responding::Failed(error),
                Progress::Closed => unreached(),
            }
        }
    }
}

/// Whatever a call of the sink does, the writer stays in one of its five
/// conditions.
pub proof fn lemma_calls_keep_writer_well_formed(
    writer: WriterView,
    operation: Operation,
    outcome: Outcome,
)
    requires
        writer.wf(),
    ensures
        writer.after(operation, outcome).wf(),
        writer.prepared(outcome).wf(),
{
}

/// A failed writer stays failed. Every call reports the failure that was
/// recorded, whatever the driver hands in; the writer does not change; and
/// the work it asks for is none, so the network is not tried again.
pub proof fn lemma_failure_is_sticky(
    writer: WriterView,
    operation: Operation,
    outcome: Outcome,
    progress: Progress,
)
    requires
        writer.error is Some,
        writer.yields(operation, outcome, progress),
    ensures
        progress matches Progress::Failed(error) && error@ == writer.error->0,
        writer.after(operation, outcome) == writer,
        writer.work(operation) is Report,
{
}

/// A call that reports a failure leaves a failed writer that holds this
/// failure and no transport, so that the next call, whichever it is and
/// whatever the driver hands in, reports the same failure and changes
/// nothing.
pub proof fn lemma_failure_is_reported_again(
    writer: WriterView,
    first: Operation,
    first_outcome: Outcome,
    first_progress: Progress,
    next: Operation,
    next_outcome: Outcome,
    next_progress: Progress,
)
    requires
        writer.wf(),
        writer.yields(first, first_outcome, first_progress),
        first_progress is Failed,
        writer.after(first, first_outcome).yields(next, next_outcome, next_progress),
    ensures
        writer.after(first, first_outcome) == WriterView::failed(first_progress->Failed_0@),
        next_progress matches Progress::Failed(error) && error@ == first_progress->Failed_0@,
        writer.after(first, first_outcome).after(next, next_outcome) == writer.after(
            first,
            first_outcome,
        ),
        writer.after(first, first_outcome).work(next) is Report,
{
}

/// The head of a streamed request is fixed when the exchange begins: no call
/// of the sink changes its fields, however many bytes are written. The head
/// only ceases to be outstanding.
pub proof fn lemma_head_is_fixed_at_start(
    writer: WriterView,
    operation: Operation,
    outcome: Outcome,
)
    ensures
        writer.after(operation, outcome).pending_head matches Some(head) ==> writer.pending_head
            == Some(head),
{
}

/// A streamed request under a scheme other than `http` and `https` fails as
/// an unexpected scheme when it is begun: the writer has failed, and no call
/// asks the driver to connect.
pub proof fn lemma_start_refuses_other_schemes(
    address: AddressView,
    fields: Map<Seq<char>, Seq<Seq<u8>>>,
    writer: WriterView,
    operation: Operation,
)
    requires
        started(address, fields, writer),
        address.scheme is Some,
        address.scheme->0 != plain_scheme(),
        address.scheme->0 != secure_scheme(),
    ensures
        writer == WriterView::failed(Failure::UnexpectedScheme(address.scheme->0)),
        writer.work(operation) is Report,
{
}

/// A streamed request that is begun well always carries chunked transfer
/// framing in the head that is to be written, and connects by its scheme:
/// on the port it names, or on port 80 in the clear under `http` and on port
/// 443 encrypted otherwise.
pub proof fn lemma_start_frames_in_chunks(
    address: AddressView,
    fields: Map<Seq<char>, Seq<Seq<u8>>>,
    writer: WriterView,
)
    requires
        started(address, fields, writer),
        writer.error is None,
    ensures
        writer.pending_head == Some(chunked_head_fields(fields)),
        writer.pending_connect matches Some(endpoint) && endpoint.host == address.host->0
            && endpoint.encrypted == encryption_for(address.scheme)->0 && endpoint.port == (
        match address.port {
            Some(port) => port,
            None => default_port(endpoint.encrypted),
        }),
        writer.wf(),
{
}

/// The response is read only after the close of the sink is done: the
/// response head arrives from a closed writer alone, and a writer that is
/// not closed is first taken on as by a close.
pub proof fn lemma_response_follows_close(
    writer: WriterView,
    outcome: Outcome,
    responding: Responding,
)
    requires
        writer.responds(outcome, responding),
    ensures
        responding is Respond ==> writer.closed && writer.error is None,
        responding matches Responding::Continue(next) ==> !writer.closed && next@ == writer.after(
            Operation::Close,
            outcome,
        ),
{
}

/// A closed sink refuses every further write, flush and close without
/// changing, and asks the driver for no work.
pub proof fn lemma_closed_sink_refuses(
    writer: WriterView,
    operation: Operation,
    outcome: Outcome,
    progress: Progress,
)
    requires
        writer.wf(),
        writer.closed,
        !(operation is Response),
        writer.yields(operation, outcome, progress),
    ensures
        progress is Closed,
        writer.after(operation, outcome) == writer,
        writer.work(operation) is Refuse,
{
}

/// A failure tells how far the writer had come: a connect error is the
/// failure of the connect that was outstanding, and an I/O error is met only
/// once the connect is done. Either costs the writer its transport.
pub proof fn lemma_writer_failures_tell_the_step(
    writer: WriterView,
    operation: Operation,
    outcome: Outcome,
    progress: Progress,
)
    requires
        writer.wf(),
        writer.error is None,
        writer.yields(operation, outcome, progress),
    ensures
        progress matches Progress::Failed(error) ==> {
            &&& outcome is Failed
            &&& !writer.closed
            &&& error@ is ConnectError <==> writer.pending_connect is Some
            &&& error@ is IoError <==> writer.pending_connect is None
            &&& writer.after(operation, outcome).transport is None
        },
        outcome is Failed && !writer.closed ==> progress is Failed,
{
}

} // verus!
