//! The exchange of a request whose body is held in memory.
//!
//! [`RequestSend`] is the state of one exchange. The driver performs the
//! outside work that the state calls for (connecting, writing, flushing,
//! reading) and hands what it saw to [`RequestSend::poll`], which decides how
//! the exchange goes on.

use crate::error::{Failure, HttpError};
use crate::head::{
    content_length_name, fixed_head, fixed_head_fields, host_name, host_text, Version,
};
use crate::headers::{header_fields, is_value_text};
use crate::outcome::Outcome;
use crate::origin::{
    connect_target, default_port, encryption_for, endpoint_of, extract_origin, origin_of,
    plain_scheme, secure_scheme, Address, Endpoint, EndpointView, Origin,
};
use http::header::{HeaderMap, HeaderValue};
use std::sync::Arc;
use vstd::prelude::*;
use vstd::slice::slice_subrange;

verus! {

/// What the driver does after a poll.
#[derive(Debug)]
pub enum Step {
    /// The exchange moved on: do the work of the phase it is in now, and poll
    /// again.
    Continue,
    /// Nothing moved: poll again when woken.
    Pending,
    /// The response head has arrived: hand it, with the transport, to the
    /// reader of the response body. The exchange is over.
    Respond,
    /// The exchange has failed and is over. Polled again, it says so again.
    Failed(HttpError),
    /// The exchange was over before the poll, its response handed out:
    /// nothing was done.
    Over,
}

/// One exchange of a request with a body held in memory, in the phase it has
/// reached.
#[derive(Debug)]
pub enum RequestSend<'a> {
    /// Nothing has happened yet.
    Start { body: &'a [u8], address: Address, headers: &'a HeaderMap<HeaderValue> },
    /// The driver is connecting to `target`.
    PendingConnect {
        body: &'a [u8],
        origin: Origin,
        headers: &'a HeaderMap<HeaderValue>,
        target: Endpoint,
    },
    /// The driver is writing the head of the request, which announces
    /// `version` and carries the fields `head`.
    SendingHead { body: &'a [u8], version: Version, head: HeaderMap<HeaderValue> },
    /// The driver is writing `remaining`, the part of `body` not yet taken,
    /// through an encoder made for a body of `length` bytes.
    SendingBody { body: &'a [u8], remaining: &'a [u8], length: u64 },
    /// The driver is flushing the transport.
    Flushing,
    /// The driver is reading the response head.
    ReceivingHead,
    /// The exchange is over: it has failed with `failure`, or else the
    /// response head has been handed out.
    Finished { failure: Option<HttpError> },
}

/// The exchange has ended with this failure: the poll reports it and the
/// exchange keeps it.
pub open spec fn ended_with(post: RequestSend, step: Step, failure: Failure) -> bool {
    &&& post matches RequestSend::Finished { failure: Some(kept) }
    &&& kept@ == failure
    &&& step matches Step::Failed(error)
    &&& error@ == failure
}

/// How one poll takes an exchange from `pre` to `post`, given what the driver
/// saw.
pub open spec fn follows(pre: RequestSend, outcome: Outcome, post: RequestSend, step: Step) -> bool {
    match pre {
        RequestSend::Start { body, address, headers } => match origin_of(
            address@,
            header_fields(*headers),
        ) {
            Err(failure) => ended_with(post, step, failure),
            Ok(origin) => match endpoint_of(origin) {
                Err(failure) => ended_with(post, step, failure),
                Ok(endpoint) => {
                    &&& step is Continue
                    &&& post matches RequestSend::PendingConnect {
                        body: b,
                        origin: o,
                        headers: h,
                        target: t,
                    }
                    &&& b == body
                    &&& o@ == origin
                    &&& h == headers
                    &&& t@ == endpoint
                },
            },
        },
        RequestSend::PendingConnect { body, origin, headers, target } => match outcome {
            Outcome::Pending => step is Pending && post == pre,
            Outcome::Failed(fault) => ended_with(post, step, Failure::ConnectError(fault)),
            Outcome::Ready(_) => {
                let fields = header_fields(*headers);
                &&& {
                    ||| {
                        &&& step is Continue
                        &&& post matches RequestSend::SendingHead { body: b, version, head }
                        &&& b == body
                        &&& version == Version::Http11
                        &&& header_fields(head) == fixed_head_fields(
                            fields,
                            origin@,
                            body@.len(),
                        )
                    }
                    ||| {
                        &&& step matches Step::Failed(error)
                        &&& error@ is IoError
                        &&& ended_with(post, step, error@)
                    }
                }
                &&& fields.contains_key(host_name()) && fields.contains_key(content_length_name())
                    ==> step is Continue
                &&& !fields.contains_key(host_name()) && !is_value_text(
                    host_text(origin@.host, origin@.port),
                ) ==> step is Failed
            },
        },
        RequestSend::SendingHead { body, .. } => match outcome {
            Outcome::Pending => step is Pending && post == pre,
            Outcome::Failed(fault) => ended_with(post, step, Failure::IoError(fault)),
            Outcome::Ready(_) => {
                &&& step is Continue
                &&& post matches RequestSend::SendingBody { body: b, remaining, length }
                &&& b == body
                &&& remaining == body
                &&& length == body@.len()
            },
        },
        RequestSend::SendingBody { body, remaining, length } => match outcome {
            Outcome::Pending => step is Pending && post == pre,
            Outcome::Failed(fault) => ended_with(post, step, Failure::IoError(fault)),
            Outcome::Ready(taken) => {
                &&& step is Continue
                &&& if taken == remaining@.len() {
                    post is Flushing
                } else {
                    &&& post matches RequestSend::SendingBody { body: b, remaining: rest, length: l }
                    &&& b == body
                    &&& rest@ == remaining@.skip(taken as int)
                    &&& l == length
                }
            },
        },
        RequestSend::Flushing => match outcome {
            Outcome::Pending => step is Pending && post == pre,
            Outcome::Failed(fault) => ended_with(post, step, Failure::IoError(fault)),
            Outcome::Ready(_) => step is Continue && post is ReceivingHead,
        },
        RequestSend::ReceivingHead => match outcome {
            Outcome::Pending => step is Pending && post == pre,
            Outcome::Failed(fault) => ended_with(post, step, Failure::IoError(fault)),
            Outcome::Ready(_) => step is Respond && post == (RequestSend::Finished {
                failure: None,
            }),
        },
        RequestSend::Finished { failure } => {
            &&& post == pre
            &&& match failure {
                Some(kept) => step matches Step::Failed(error) && error@ == kept@,
                None => step is Over,
            }
        },
    }
}

impl<'a> RequestSend<'a> {
    /// The place of the phase in the order of an exchange.
    pub open spec fn phase(&self) -> nat {
        match self {
            RequestSend::Start { .. } => 0,
            RequestSend::PendingConnect { .. } => 1,
            RequestSend::SendingHead { .. } => 2,
            RequestSend::SendingBody { .. } => 3,
            RequestSend::Flushing => 4,
            RequestSend::ReceivingHead => 5,
            RequestSend::Finished { .. } => 6,
        }
    }

    /// While the body is sent, what remains is the end of the body, and the
    /// encoder was made for the body's length.
    pub open spec fn wf(&self) -> bool {
        match self {
            RequestSend::SendingBody { body, remaining, length } => {
                &&& remaining@.len() <= body@.len()
                &&& remaining@ == body@.skip(body@.len() - remaining@.len())
                &&& *length == body@.len()
            },
            _ => true,
        }
    }

    /// The bytes of the body that the transport has taken so far.
    pub open spec fn sent(&self) -> Seq<u8> {
        match self {
            RequestSend::SendingBody { body, remaining, .. } => body@.take(
                body@.len() - remaining@.len(),
            ),
            _ => Seq::empty(),
        }
    }

    /// Begins the exchange of a request: nothing is resolved, connected or
    /// sent before the first poll.
    pub fn new(address: Address, headers: &'a HeaderMap<HeaderValue>, body: &'a [u8]) -> (exchange:
        Self)
        ensures
            exchange == (RequestSend::Start { body, address, headers }),
    {
        RequestSend::Start { body, address, headers }
    }

    /// Whether the exchange is over.
    pub fn is_terminated(&self) -> (over: bool)
        ensures
            over == (self is Finished),
    {
        match self {
            RequestSend::Finished { .. } => true,
            _ => false,
        }
    }

    /// Moves the exchange on by what the driver saw.
    ///
    /// In `Start` no work precedes the poll and the outcome is not read: the
    /// origin is resolved and the scheme decides the endpoint, or the
    /// exchange fails before any connection is attempted. In every later
    /// phase a pending outcome leaves the exchange as it is and a fault ends
    /// it: as a `ConnectError` while connecting, as an `IoError` after that.
    /// When the work of a phase is done the exchange enters the next phase;
    /// while the body is sent it stays in that phase, with what remains of
    /// the body, until nothing remains. Once connected, the head is built
    /// for HTTP/1.1, with `Host` and `Content-Length` added where the
    /// caller set none; a
    /// head that the `http` crate refuses ends the exchange as an `IoError`.
    /// An exchange that is over stays as it is: one that failed reports its
    /// failure again, without reading the outcome. A write cannot have taken
    /// more bytes than remained.
    pub fn poll(&mut self, outcome: Outcome) -> (step: Step)
        requires
            *old(self) matches RequestSend::SendingBody { remaining, .. } ==> (outcome matches Outcome::Ready(
                taken,
            ) ==> taken <= remaining@.len()),
        ensures
            follows(*old(self), outcome, *final(self), step),
    {
        let mut state = RequestSend::Finished { failure: None };
        core::mem::swap(self, &mut state);
        match state {
            RequestSend::Start { body, address, headers } => {
                let origin = match extract_origin(&address, headers) {
                    Ok(origin) => origin,
                    Err(error) => {
                        return self.fail(error);
                    },
                };
                let target = match connect_target(&origin) {
                    Ok(target) => target,
                    Err(error) => {
                        return self.fail(error);
                    },
                };
                *self = RequestSend::PendingConnect { body, origin, headers, target };
                Step::Continue
            },
            RequestSend::PendingConnect { body, origin, headers, target } => match outcome {
                Outcome::Ready(_) => match fixed_head(headers, &origin, body.len()) {
                    Ok(head) => {
                        *self = RequestSend::SendingHead { body, version: Version::Http11, head };
                        Step::Continue
                    },
                    Err(refusal) => self.fail(HttpError::IoError(Arc::new(refusal.into_fault()))),
                },
                Outcome::Failed(fault) => self.fail(HttpError::ConnectError(Arc::new(fault))),
                Outcome::Pending => {
                    *self = RequestSend::PendingConnect { body, origin, headers, target };
                    Step::Pending
                },
            },
            RequestSend::SendingHead { body, version, head } => match outcome {
                Outcome::Ready(_) => {
                    *self = RequestSend::SendingBody {
                        body,
                        remaining: body,
                        length: body.len() as u64,
                    };
                    Step::Continue
                },
                Outcome::Failed(fault) => self.fail(HttpError::IoError(Arc::new(fault))),
                Outcome::Pending => {
                    *self = RequestSend::SendingHead { body, version, head };
                    Step::Pending
                },
            },
            RequestSend::SendingBody { body, remaining, length } => match outcome {
                Outcome::Ready(taken) => {
                    let rest = slice_subrange(remaining, taken, remaining.len());
                    if rest.len() == 0 {
                        *self = RequestSend::Flushing;
                    } else {
                        *self = RequestSend::SendingBody { body, remaining: rest, length };
                    }
                    Step::Continue
                },
                Outcome::Failed(fault) => self.fail(HttpError::IoError(Arc::new(fault))),
                Outcome::Pending => {
                    *self = RequestSend::SendingBody { body, remaining, length };
                    Step::Pending
                },
            },
            RequestSend::Flushing => match outcome {
                Outcome::Ready(_) => {
                    *self = RequestSend::ReceivingHead;
                    Step::Continue
                },
                Outcome::Failed(fault) => self.fail(HttpError::IoError(Arc::new(fault))),
                Outcome::Pending => {
                    *self = RequestSend::Flushing;
                    Step::Pending
                },
            },
            RequestSend::ReceivingHead => match outcome {
                Outcome::Ready(_) => Step::Respond,
                Outcome::Failed(fault) => self.fail(HttpError::IoError(Arc::new(fault))),
                Outcome::Pending => {
                    *self = RequestSend::ReceivingHead;
                    Step::Pending
                },
            },
            RequestSend::Finished { failure } => {
                let step = match &failure {
                    Some(kept) => Step::Failed(kept.share()),
                    None => Step::Over,
                };
                *self = RequestSend::Finished { failure };
                step
            },
        }
    }

    /// Ends the exchange with a failure, which the exchange keeps.
    fn fail(&mut self, error: HttpError) -> (step: Step)
        ensures
            ended_with(*final(self), step, error@),
    {
        let report = error.share();
        *self = RequestSend::Finished { failure: Some(error) };
        Step::Failed(report)
    }
}

/// An exchange goes through its phases in order. A poll leaves the phase as
/// it is only while the work is pending or body bytes remain, never goes
/// back, and otherwise enters the next phase or ends the exchange. The
/// exchange is over exactly when the poll says so.
pub proof fn lemma_phases_go_forward(
    pre: RequestSend,
    outcome: Outcome,
    post: RequestSend,
    step: Step,
)
    requires
        follows(pre, outcome, post, step),
    ensures
        post.phase() >= pre.phase(),
        post.phase() == pre.phase() ==> step is Pending || pre is SendingBody || pre is Finished,
        post.phase() > pre.phase() ==> post.phase() == pre.phase() + 1 || post is Finished,
        step is Pending ==> post == pre,
        post is Finished <==> step is Respond || step is Failed || step is Over,
        step is Respond ==> pre is ReceivingHead,
        pre is Finished ==> post == pre,
{
}

/// A failure is reported again and again. The poll that fails an exchange
/// leaves it over, and every later poll reports the same failure, whatever
/// the driver hands in, and changes nothing.
pub proof fn lemma_exchange_failure_is_reported_again(
    pre: RequestSend,
    outcome: Outcome,
    failed: RequestSend,
    step: Step,
    next_outcome: Outcome,
    post: RequestSend,
    next_step: Step,
)
    requires
        follows(pre, outcome, failed, step),
        step is Failed,
        follows(failed, next_outcome, post, next_step),
    ensures
        failed is Finished,
        next_step matches Step::Failed(error) && error@ == step->Failed_0@,
        post == failed,
{
}

/// Body bytes are sent in order and each once. What remains is always the
/// end of the body; bytes that the transport takes are added to those sent
/// before, in the order of the body; and the body is left behind only when
/// all of it has been sent.
pub proof fn lemma_body_is_sent_in_order(
    pre: RequestSend,
    outcome: Outcome,
    post: RequestSend,
    step: Step,
)
    requires
        follows(pre, outcome, post, step),
        pre.wf(),
        pre matches RequestSend::SendingBody { remaining, .. } ==> (outcome matches Outcome::Ready(
            taken,
        ) ==> taken <= remaining@.len()),
    ensures
        post.wf(),
        pre is SendingHead && post is SendingBody ==> post.sent() == Seq::<u8>::empty(),
        pre matches RequestSend::SendingBody { body, remaining, .. } ==> (outcome matches Outcome::Ready(
            taken,
        ) ==> if post is SendingBody {
            &&& post.sent() == pre.sent() + remaining@.take(taken as int)
            &&& post->SendingBody_remaining@.len() == remaining@.len() - taken
            &&& post->SendingBody_remaining@.len() > 0
        } else {
            post is Flushing && pre.sent() + remaining@.take(taken as int) == body@
        }),
{
    match pre {
        RequestSend::SendingBody { body, remaining, .. } => {
            match outcome {
                Outcome::Ready(taken) => {
                    let done = body@.len() - remaining@.len();
                    if taken != remaining@.len() {
                        assert(post matches RequestSend::SendingBody { remaining: rest, .. } && rest@
                            =~= body@.skip(done + taken));
                    }
                },
                _ => {},
            }
        },
        RequestSend::SendingHead { body, .. } => {
            match outcome {
                Outcome::Ready(_) => {
                    assert(body@.skip(0) =~= body@);
                },
                _ => {},
            }
        },
        _ => {},
    }
}

/// A request whose URI names a host and no port is connected to by its
/// scheme: on port 80 in the clear under `http`, on port 443 encrypted under
/// `https` and under no scheme.
pub proof fn lemma_start_connects_by_scheme(
    pre: RequestSend,
    outcome: Outcome,
    post: RequestSend,
    step: Step,
)
    requires
        follows(pre, outcome, post, step),
        pre matches RequestSend::Start { address, .. } && address@.host is Some && address@.port is None
            && encryption_for(address@.scheme) is Some,
    ensures
        step is Continue,
        post matches RequestSend::PendingConnect { target, .. } && target@ == (EndpointView {
            host: pre->Start_address@.host->0,
            port: default_port(encryption_for(pre->Start_address@.scheme)->0),
            encrypted: encryption_for(pre->Start_address@.scheme)->0,
        }),
{
}

/// A request under a scheme other than `http` and `https` fails as an
/// unexpected scheme at the first poll, before any connection is attempted:
/// the exchange is over and was never connecting. The request must name a
/// host, for a request without one fails for that.
pub proof fn lemma_other_scheme_fails_before_connect(
    pre: RequestSend,
    outcome: Outcome,
    post: RequestSend,
    step: Step,
)
    requires
        follows(pre, outcome, post, step),
        pre matches RequestSend::Start { address, headers, .. } && origin_of(
            address@,
            header_fields(*headers),
        ) is Ok && address@.scheme is Some && address@.scheme->0 != plain_scheme()
            && address@.scheme->0 != secure_scheme(),
    ensures
        ended_with(post, step, Failure::UnexpectedScheme(pre->Start_address@.scheme->0)),
        post is Finished,
{
}

/// A failure tells how far the exchange had come. A request without a host
/// or under a scheme that is not served fails at the first poll, before any
/// work on the network; a connect error is the failure of the connect, before
/// any byte is sent; and an I/O error is met after the first poll only.
/// The response, in turn, is read only after the flush is done.
pub proof fn lemma_failures_tell_the_phase(
    pre: RequestSend,
    outcome: Outcome,
    post: RequestSend,
    step: Step,
)
    requires
        follows(pre, outcome, post, step),
    ensures
        !(pre is Finished) ==> (step matches Step::Failed(error) ==> {
            &&& error@ is UnexpectedScheme || error@ is MissingHost <==> pre is Start
            &&& error@ is ConnectError ==> pre is PendingConnect && outcome is Failed
            &&& error@ is IoError ==> pre.phase() >= 1
        }),
        pre is PendingConnect && outcome is Failed ==> (step matches Step::Failed(error) && error@
            is ConnectError),
        post is ReceivingHead && !(pre is ReceivingHead) ==> pre is Flushing && outcome is Ready,
{
}

} // verus!
