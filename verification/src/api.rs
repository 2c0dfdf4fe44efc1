//! Shutting one sidecar down: what is asked of the cluster, and what its
//! answer means.

use crate::actions::{Action, ActionView};
use crate::text::{copy_strings, decimal, occurs_in, to_decimal};
use vstd::prelude::*;
use vstd::string::StringExecFns;
use vstd::utf8::{decode_utf8, valid_utf8};

verus! {

/// The HTTP request that a port-forward recipe sends, and to which pod.
#[derive(Debug)]
pub struct HttpCall {
    pub pod: String,
    pub method: String,
    pub path: String,
    pub port: u16,
}

/// An HTTP call as a plain value.
pub struct HttpCallView {
    pub pod: Seq<char>,
    pub method: Seq<char>,
    pub path: Seq<char>,
    pub port: u16,
}

impl View for HttpCall {
    type V = HttpCallView;

    open spec fn view(&self) -> HttpCallView {
        HttpCallView { pod: self.pod@, method: self.method@, path: self.path@, port: self.port }
    }
}

impl Clone for HttpCall {
    fn clone(&self) -> (copy: HttpCall)
        ensures
            copy@ == self@,
    {
        HttpCall {
            pod: self.pod.clone(),
            method: self.method.clone(),
            path: self.path.clone(),
            port: self.port,
        }
    }
}

/// Why a sidecar could not be shut down.
#[derive(Debug)]
pub enum ExecError {
    /// The command could not be run: pod, container, and what the cluster said.
    ExecFailed(String, String, String),
    /// No tunnel to this port of the pod could be had: it could not be
    /// opened, for the reason given, or it was opened without a stream for
    /// the port.
    PortUnavailable(u16, Option<String>),
    /// No response arrived in time.
    RequestTimeout(HttpCall),
    /// The response's status was not 200: the status, the status in words,
    /// and the response's body.
    UnexpectedStatus(HttpCall, u16, String, String),
    /// The response's status was not 200, and its body is not UTF-8 text:
    /// the status, and what is wrong with the body.
    UndecodableBody(HttpCall, u16, String),
    /// Any other failure, in the words of whoever met it.
    Other(String),
}

/// A shutdown failure as a plain value.
pub enum ExecErrorView {
    ExecFailed(Seq<char>, Seq<char>, Seq<char>),
    PortUnavailable(u16, Option<Seq<char>>),
    RequestTimeout(HttpCallView),
    UnexpectedStatus(HttpCallView, u16, Seq<char>, Seq<char>),
    UndecodableBody(HttpCallView, u16, Seq<char>),
    Other(Seq<char>),
}

impl View for ExecError {
    type V = ExecErrorView;

    open spec fn view(&self) -> ExecErrorView {
        match self {
            ExecError::ExecFailed(pod, container, detail) => ExecErrorView::ExecFailed(
                pod@,
                container@,
                detail@,
            ),
            ExecError::PortUnavailable(port, detail) => ExecErrorView::PortUnavailable(
                *port,
                match detail {
                    Some(detail) => Some(detail@),
                    None => None,
                },
            ),
            ExecError::RequestTimeout(call) => ExecErrorView::RequestTimeout(call@),
            ExecError::UnexpectedStatus(call, status, words, body) => {
                ExecErrorView::UnexpectedStatus(call@, *status, words@, body@)
            },
            ExecError::UndecodableBody(call, status, detail) => ExecErrorView::UndecodableBody(
                call@,
                *status,
                detail@,
            ),
            ExecError::Other(detail) => ExecErrorView::Other(detail@),
        }
    }
}

impl HttpCallView {
    /// How messages refer to the call.
    pub open spec fn describe(self) -> Seq<char> {
        self.pod + ": HTTP request ("@ + self.method + " "@ + self.path + " at port "@ + decimal(
            self.port as nat,
        ) + ") failed: "@
    }
}

impl ExecErrorView {
    /// The failure in words.
    pub open spec fn message(self) -> Seq<char> {
        match self {
            ExecErrorView::ExecFailed(pod, container, detail) => pod + ": exec failed in "@
                + container + ": "@ + detail,
            ExecErrorView::PortUnavailable(port, detail) => "Unable to attach to port: "@
                + decimal(port as nat) + match detail {
                Some(detail) => ": "@ + detail,
                None => Seq::empty(),
            },
            ExecErrorView::RequestTimeout(call) => call.describe() + "request timeout"@,
            ExecErrorView::UnexpectedStatus(call, _, words, body) => call.describe() + "code "@
                + words + ": "@ + body,
            ExecErrorView::UndecodableBody(_, _, detail) => detail,
            ExecErrorView::Other(detail) => detail,
        }
    }
}

impl HttpCall {
    fn describe(&self) -> (text: String)
        ensures
            text@ == self@.describe(),
    {
        let mut text = self.pod.clone();
        text.append(": HTTP request (");
        text.append(self.method.as_str());
        text.append(" ");
        text.append(self.path.as_str());
        text.append(" at port ");
        text.append(to_decimal(self.port as u64).as_str());
        text.append(") failed: ");
        text
    }
}

impl ExecError {
    /// The failure in words.
    pub fn to_string(&self) -> (text: String)
        ensures
            text@ == self@.message(),
    {
        match self {
            ExecError::ExecFailed(pod, container, detail) => {
                let mut text = pod.clone();
                text.append(": exec failed in ");
                text.append(container.as_str());
                text.append(": ");
                text.append(detail.as_str());
                text
            },
            ExecError::PortUnavailable(port, detail) => {
                let mut text = String::from_str("Unable to attach to port: ");
                text.append(to_decimal(*port as u64).as_str());
                match detail {
                    Some(detail) => {
                        text.append(": ");
                        text.append(detail.as_str());
                    },
                    None => {
                        assert(text@ + Seq::<char>::empty() =~= text@);
                    },
                }
                text
            },
            ExecError::RequestTimeout(call) => {
                let mut text = call.describe();
                text.append("request timeout");
                text
            },
            ExecError::UnexpectedStatus(call, _, words, body) => {
                let mut text = call.describe();
                text.append("code ");
                text.append(words.as_str());
                text.append(": ");
                text.append(body.as_str());
                text
            },
            ExecError::UndecodableBody(_, _, detail) => detail.clone(),
            ExecError::Other(detail) => detail.clone(),
        }
    }
}

/// Whoever can shut a container of a pod down with a given recipe.
pub trait Destroyer {
    /// Shuts the container down, or says why it could not.
    fn shutdown(&self, action: &Action, pod_name: &str, container_name: &str) -> Result<
        (),
        ExecError,
    >;
}

/// The seconds that a sidecar is given to answer an HTTP request.
pub const REQUEST_TIMEOUT_SECONDS: u64 = 1;

/// A command to run in a container of a pod, and which of its output
/// streams to attach.
#[derive(Debug)]
pub struct ExecRequest {
    pub pod: String,
    pub container: String,
    pub command: Vec<String>,
    pub stdout: bool,
    pub stderr: bool,
}

/// An HTTP request as plain values.
#[derive(Debug)]
pub struct HttpRequest {
    pub method: String,
    pub uri: String,
    pub headers: Vec<(String, String)>,
    pub body: Vec<u8>,
}

/// An HTTP request to send through a tunnel to one port of a pod, and how
/// long to wait for the response.
#[derive(Debug)]
pub struct TunnelRequest {
    pub call: HttpCall,
    pub request: HttpRequest,
    pub timeout_seconds: u64,
}

/// What to ask of the cluster to carry a recipe out.
#[derive(Debug)]
pub enum Plan {
    Exec(ExecRequest),
    Portforward(TunnelRequest),
}

impl ExecRequest {
    /// Whether this is the request that runs `command` in the container:
    /// standard output is left out, standard error is kept for diagnostics.
    pub open spec fn runs(
        &self,
        command: Seq<Seq<char>>,
        pod: Seq<char>,
        container: Seq<char>,
    ) -> bool {
        &&& self.pod@ == pod
        &&& self.container@ == container
        &&& self.command.deep_view() == command
        &&& !self.stdout
        &&& self.stderr
    }
}

impl HttpRequest {
    /// Whether this is the request that triggers a shutdown: the given
    /// method and path, a connection that closes after the response, the
    /// loopback address as host, and no body.
    pub open spec fn triggers(&self, method: Seq<char>, path: Seq<char>) -> bool {
        &&& self.method@ == method
        &&& self.uri@ == path
        &&& self.headers@.len() == 2
        &&& self.headers@[0].0@ == "Connection"@
        &&& self.headers@[0].1@ == "close"@
        &&& self.headers@[1].0@ == "Host"@
        &&& self.headers@[1].1@ == "127.0.0.1"@
        &&& self.body@.len() == 0
    }
}

impl TunnelRequest {
    /// Whether this is the exchange that a port-forward recipe asks for.
    pub open spec fn forwards(
        &self,
        method: Seq<char>,
        path: Seq<char>,
        port: u16,
        pod: Seq<char>,
    ) -> bool {
        &&& self.call@ == HttpCallView { pod, method, path, port }
        &&& self.request.triggers(method, path)
        &&& self.timeout_seconds == REQUEST_TIMEOUT_SECONDS
    }
}

/// The request that runs a command in a container.
pub fn shutdown_exec(command: &Vec<String>, pod_name: &str, container_name: &str) -> (request:
    ExecRequest)
    ensures
        request.runs(command.deep_view(), pod_name@, container_name@),
{
    ExecRequest {
        pod: String::from_str(pod_name),
        container: String::from_str(container_name),
        command: copy_strings(command),
        stdout: false,
        stderr: true,
    }
}

/// The exchange that sends an HTTP request to a port of a pod.
pub fn shutdown_portforward(method: &String, path: &String, port: u16, pod_name: &str) -> (request:
    TunnelRequest)
    ensures
        request.forwards(method@, path@, port, pod_name@),
{
    let mut headers: Vec<(String, String)> = Vec::new();
    headers.push((String::from_str("Connection"), String::from_str("close")));
    headers.push((String::from_str("Host"), String::from_str("127.0.0.1")));
    TunnelRequest {
        call: HttpCall {
            pod: String::from_str(pod_name),
            method: method.clone(),
            path: path.clone(),
            port,
        },
        request: HttpRequest {
            method: method.clone(),
            uri: path.clone(),
            headers,
            body: Vec::new(),
        },
        timeout_seconds: REQUEST_TIMEOUT_SECONDS,
    }
}

/// Decides by the kind of recipe what to ask of the cluster.
pub fn shutdown_pod(action: &Action, pod_name: &str, container_name: &str) -> (plan: Plan)
    ensures
        match action@ {
            ActionView::Exec(command) => plan matches Plan::Exec(request) && request.runs(
                command,
                pod_name@,
                container_name@,
            ),
            ActionView::Portforward(method, path, port) => plan matches Plan::Portforward(request)
                && request.forwards(method, path, port, pod_name@),
        },
{
    match action {
        Action::Exec(command) => Plan::Exec(shutdown_exec(command, pod_name, container_name)),
        Action::Portforward(method, path, port) => Plan::Portforward(
            shutdown_portforward(method, path, *port, pod_name),
        ),
    }
}

/// A result of a shutdown as a plain value.
pub open spec fn result_view(result: Result<(), ExecError>) -> Result<(), ExecErrorView> {
    match result {
        Ok(_) => Ok(()),
        Err(error) => Err(error@),
    }
}

/// What the cluster's answer to a command means. A command that was
/// started counts as a shutdown: nobody waits for the process to end.
pub fn exec_outcome(request: &ExecRequest, answer: Result<(), String>) -> (result: Result<
    (),
    ExecError,
>)
    ensures
        result_view(result) == match answer {
            Ok(_) => Ok::<(), ExecErrorView>(()),
            Err(detail) => Err::<(), ExecErrorView>(
                ExecErrorView::ExecFailed(request.pod@, request.container@, detail@),
            ),
        },
{
    match answer {
        Ok(_) => Ok(()),
        Err(detail) => Err(
            ExecError::ExecFailed(request.pod.clone(), request.container.clone(), detail),
        ),
    }
}

/// How far an HTTP exchange through a tunnel got.
#[derive(Debug)]
pub enum Delivery {
    /// The tunnel could not be opened.
    AttachFailed(String),
    /// The tunnel was opened, but it has no stream for the port.
    StreamMissing,
    /// No HTTP connection could be set up over the tunnel.
    HandshakeFailed(String),
    /// The request could not be sent, or the response could not be read.
    SendFailed(String),
    /// No response arrived in time.
    TimedOut,
    /// A response arrived, with this status.
    Responded(u16),
}

/// What an exchange means for the shutdown, as far as can be told
/// without the response's body.
#[derive(Debug)]
pub enum Verdict {
    /// The sidecar took the request: it is shut down.
    Success,
    /// The shutdown failed.
    Failed(ExecError),
    /// The sidecar refused with this status; the response's body says why.
    ReadBody(u16),
}

/// The status that a sidecar answers a shutdown request with.
pub open spec fn accepted(status: u16) -> bool {
    status == 200
}

/// The verdict that follows from how far an exchange got.
pub open spec fn verdict_of(call: HttpCallView, delivery: Delivery) -> Option<
    Result<(), ExecErrorView>,
> {
    match delivery {
        Delivery::AttachFailed(detail) => Some(
            Err(ExecErrorView::PortUnavailable(call.port, Some(detail@))),
        ),
        Delivery::StreamMissing => Some(Err(ExecErrorView::PortUnavailable(call.port, None))),
        Delivery::HandshakeFailed(detail) => Some(Err(ExecErrorView::Other(detail@))),
        Delivery::SendFailed(detail) => Some(Err(ExecErrorView::Other(detail@))),
        Delivery::TimedOut => Some(Err(ExecErrorView::RequestTimeout(call))),
        Delivery::Responded(status) => if accepted(status) {
            Some(Ok(()))
        } else {
            None
        },
    }
}

/// Judges an HTTP exchange by how far it got. Only status 200 is a
/// success. Any other status asks for the response's body. A tunnel that
/// cannot be had fails the shutdown at once, and so does a request that
/// no response answers in time; either is a failure of its own kind.
pub fn verdict(call: &HttpCall, delivery: Delivery) -> (verdict: Verdict)
    ensures
        match verdict_of(call@, delivery) {
            Some(Ok(_)) => verdict is Success,
            Some(Err(error)) => verdict matches Verdict::Failed(failure) && failure@ == error,
            None => delivery matches Delivery::Responded(status) && verdict == Verdict::ReadBody(
                status,
            ),
        },
{
    match delivery {
        Delivery::AttachFailed(detail) => Verdict::Failed(
            ExecError::PortUnavailable(call.port, Some(detail)),
        ),
        Delivery::StreamMissing => Verdict::Failed(ExecError::PortUnavailable(call.port, None)),
        Delivery::HandshakeFailed(detail) => Verdict::Failed(ExecError::Other(detail)),
        Delivery::SendFailed(detail) => Verdict::Failed(ExecError::Other(detail)),
        Delivery::TimedOut => Verdict::Failed(ExecError::RequestTimeout(call.clone())),
        Delivery::Responded(status) => if status == 200 {
            Verdict::Success
        } else {
            Verdict::ReadBody(status)
        },
    }
}

/// How `hyper` writes a status: the number and the reason phrase that
/// goes with it. It writes none for a number that it takes for no status.
pub uninterp spec fn status_text(status: u16) -> Option<Seq<char>>;

/// What the standard library says is wrong with bytes that are not UTF-8.
pub uninterp spec fn utf8_error_text(bytes: Seq<u8>) -> Seq<char>;

/// A status in words: as `hyper` writes it where it does, else the bare number.
pub open spec fn status_words(text: Option<Seq<char>>, status: u16) -> Seq<char> {
    match text {
        Some(text) => text,
        None => decimal(status as nat),
    }
}

/// The body of a response, as far as it could be had.
#[derive(Debug)]
pub enum Body {
    /// The body could not be read, for this reason.
    Unreadable(String),
    /// The body was read, but it is not UTF-8 text, for this reason.
    Undecodable(String),
    /// The body as text.
    Text(String),
}

/// A body as a plain value.
pub enum BodyView {
    Unreadable(Seq<char>),
    Undecodable(Seq<char>),
    Text(Seq<char>),
}

impl View for Body {
    type V = BodyView;

    open spec fn view(&self) -> BodyView {
        match self {
            Body::Unreadable(detail) => BodyView::Unreadable(detail@),
            Body::Undecodable(detail) => BodyView::Undecodable(detail@),
            Body::Text(text) => BodyView::Text(text@),
        }
    }
}

/// The body that the bytes read, or the failure to read them, stand for.
pub open spec fn decoded(body: Result<Seq<u8>, Seq<char>>) -> BodyView {
    match body {
        Err(detail) => BodyView::Unreadable(detail),
        Ok(bytes) => if valid_utf8(bytes) {
            BodyView::Text(decode_utf8(bytes))
        } else {
            BodyView::Undecodable(utf8_error_text(bytes))
        },
    }
}

/// What a response means for the shutdown, given its status, the way
/// `hyper` writes that status, and its body.
///
/// Status 200 is a success whatever the body holds. Any other status is a
/// failure: one that carries the status, the status in words and the body
/// where the body is text, and a failure of its own where the body could
/// not be read or is not UTF-8.
pub open spec fn judgement(
    call: HttpCallView,
    status: u16,
    text: Option<Seq<char>>,
    body: BodyView,
) -> Result<(), ExecErrorView> {
    if accepted(status) {
        Ok(())
    } else {
        match body {
            BodyView::Unreadable(detail) => Err(ExecErrorView::Other(detail)),
            BodyView::Undecodable(detail) => Err(
                ExecErrorView::UndecodableBody(call, status, detail),
            ),
            BodyView::Text(body) => Err(
                ExecErrorView::UnexpectedStatus(call, status, status_words(text, status), body),
            ),
        }
    }
}

/// What a response means for the shutdown, given its status and the
/// bytes of its body.
pub open spec fn conclusion(
    call: HttpCallView,
    status: u16,
    body: Result<Seq<u8>, Seq<char>>,
) -> Result<(), ExecErrorView> {
    judgement(call, status, status_text(status), decoded(body))
}

/// Judges a response by its status, the way `hyper` writes that status,
/// and its body.
pub fn judge(call: &HttpCall, status: u16, text: Option<String>, body: Body) -> (result: Result<
    (),
    ExecError,
>)
    ensures
        result_view(result) == judgement(
            call@,
            status,
            match text {
                Some(text) => Some(text@),
                None => None,
            },
            body@,
        ),
{
    if status == 200 {
        return Ok(());
    }
    match body {
        Body::Unreadable(detail) => Err(ExecError::Other(detail)),
        Body::Undecodable(detail) => Err(ExecError::UndecodableBody(call.clone(), status, detail)),
        Body::Text(body) => {
            let words = match text {
                Some(text) => text,
                None => to_decimal(status as u64),
            };
            Err(ExecError::UnexpectedStatus(call.clone(), status, words, body))
        },
    }
}

/// Judges a response by its status and the bytes of its body. Status 200
/// is a success whatever the body holds. Any other status is a failure
/// that carries the body as text; a body that could not be read, or that
/// is not UTF-8, is a failure of its own.
pub fn conclude(call: &HttpCall, status: u16, body: Result<Vec<u8>, String>) -> (result: Result<
    (),
    ExecError,
>)
    ensures
        result_view(result) == conclusion(
            call@,
            status,
            match body {
                Ok(bytes) => Ok(bytes@),
                Err(detail) => Err(detail@),
            },
        ),
{
    let body = match body {
        Err(detail) => Body::Unreadable(detail),
        Ok(bytes) => match text_from_utf8(bytes) {
            Ok(text) => Body::Text(text),
            Err(detail) => Body::Undecodable(detail),
        },
    };
    judge(call, status, status_display(status), body)
}

/// `String::from_utf8` of the standard library: the text that the bytes
/// encode, if and only if they are valid UTF-8; else its error, as the
/// library writes it.
#[verifier::external_body]
fn text_from_utf8(bytes: Vec<u8>) -> (text: Result<String, String>)
    ensures
        text.is_ok() == valid_utf8(bytes@),
        text matches Ok(decoded) ==> decoded@ == decode_utf8(bytes@),
        text matches Err(detail) ==> detail@ == utf8_error_text(bytes@),
{
    match String::from_utf8(bytes) {
        Ok(text) => Ok(text),
        Err(error) => Err(error.to_string()),
    }
}

/// `hyper::StatusCode::from_u16`, and the `Display` of the status that it
/// gives: the status as `hyper` writes it, where it takes the number for
/// a status at all.
#[verifier::external_body]
fn status_display(status: u16) -> (text: Option<String>)
    ensures
        match text {
            Some(text) => Some(text@),
            None => None,
        } == status_text(status),
{
    match hyper::StatusCode::from_u16(status) {
        Ok(code) => Some(code.to_string()),
        Err(_) => None,
    }
}

/// A response shuts the sidecar down exactly when its status is 200,
/// whatever its body holds. A response of any other status fails the
/// shutdown; where its body is UTF-8 text, the failure carries the status,
/// the status in words and that text, and its message holds both.
pub proof fn lemma_only_status_200_succeeds(
    call: HttpCallView,
    status: u16,
    body: Result<Seq<u8>, Seq<char>>,
)
    ensures
        conclusion(call, status, body).is_ok() <==> status == 200,
        verdict_of(call, Delivery::Responded(status)) == Some(Ok::<(), ExecErrorView>(()))
            <==> status == 200,
        status != 200 ==> verdict_of(call, Delivery::Responded(status)).is_none(),
        status != 200 && body.is_ok() && valid_utf8(body->Ok_0) ==> {
            &&& conclusion(call, status, body) == Err::<(), ExecErrorView>(
                ExecErrorView::UnexpectedStatus(
                    call,
                    status,
                    status_words(status_text(status), status),
                    decode_utf8(body->Ok_0),
                ),
            )
            &&& conclusion(call, status, body)->Err_0.message() == call.describe() + "code "@
                + status_words(status_text(status), status) + ": "@ + decode_utf8(body->Ok_0)
            &&& occurs_in(decode_utf8(body->Ok_0), conclusion(call, status, body)->Err_0.message())
            &&& occurs_in(
                status_words(status_text(status), status),
                conclusion(call, status, body)->Err_0.message(),
            )
        },
{
    if status != 200 && body.is_ok() && valid_utf8(body->Ok_0) {
        let words = status_words(status_text(status), status);
        let text = decode_utf8(body->Ok_0);
        let message = conclusion(call, status, body)->Err_0.message();
        let front = (call.describe() + "code "@).len() as int;
        assert(message.subrange(front, front + words.len()) =~= words);
        let back = front + words.len() + ": "@.len();
        assert(message.subrange(back, back + text.len()) =~= text);
    }
}

/// A port-forward recipe whose request is answered with a status other
/// than 200 and a body of UTF-8 text fails the shutdown: the body is asked
/// for, and the failure names the pod and the recipe's method, path and
/// port, and carries the status, the status in words and the body.
pub proof fn lemma_refused_trigger_fails(
    request: TunnelRequest,
    method: Seq<char>,
    path: Seq<char>,
    port: u16,
    pod: Seq<char>,
    status: u16,
    bytes: Seq<u8>,
)
    requires
        request.forwards(method, path, port, pod),
        status != 200,
        valid_utf8(bytes),
    ensures
        verdict_of(request.call@, Delivery::Responded(status)).is_none(),
        conclusion(request.call@, status, Ok(bytes)) == Err::<(), ExecErrorView>(
            ExecErrorView::UnexpectedStatus(
                HttpCallView { pod, method, path, port },
                status,
                status_words(status_text(status), status),
                decode_utf8(bytes),
            ),
        ),
{
}

/// A request that no response answers in time fails with a timeout, which
/// no other course of the exchange ends in.
pub proof fn lemma_timeout_is_told_apart(call: HttpCallView, delivery: Delivery)
    ensures
        verdict_of(call, delivery) == Some(
            Err::<(), ExecErrorView>(ExecErrorView::RequestTimeout(call)),
        ) <==> delivery is TimedOut,
{
}

} // verus!
