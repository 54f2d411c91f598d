//! The bridge server: what is posted to the emulator for a request, and what
//! the outcome of that post means for the RPC call.
//!
//! The server does no I/O of its own. Its caller sends what `post_for`
//! describes, reports how that went, and acts on each decision in turn:
//! `after_post` first, and `after_parse` only if that one asked for the body.

use vstd::prelude::*;
use vstd::string::*;
use crate::codec::{
    decode_hex, encode_hex, hex_decoding, hex_encoding, is_hex, lemma_hex_round_trip,
};
use crate::decimal::{append_decimal, decimal};
use crate::zemu::{ExchangeReply, ExchangeRequest};

verus! {

/// Why an exchange failed on the server's side.
#[derive(Debug, Clone, Copy, PartialEq, Eq, Structural)]
pub enum ServerFault {
    /// The post could not be sent, or no response was received.
    Transport,
    /// The response's status is outside the success range.
    Status,
    /// The response's body does not parse as an emulator response.
    Parse,
    /// The emulator's response carries an error.
    Emulator,
    /// The emulator reported no error, but its data is not hexadecimal.
    MalformedData,
}

/// The body of a post to the emulator: the command as hexadecimal text.
pub struct ZemuRequest {
    apdu_hex: String,
}

/// A body that the emulator answered with, once parsed.
#[derive(Debug)]
pub struct ZemuResponse {
    /// The answer's bytes as hexadecimal text.
    pub data: String,
    /// Present when the emulator reports a failure, whatever the status.
    pub error: Option<String>,
}

/// A parsed emulator response as plain text.
pub struct ZemuResponseView {
    pub data: Seq<char>,
    pub error: Option<Seq<char>>,
}

impl View for ZemuResponse {
    type V = ZemuResponseView;

    open spec fn view(&self) -> ZemuResponseView {
        ZemuResponseView {
            data: self.data@,
            error: match self.error {
                Some(text) => Some(text@),
                None => None,
            },
        }
    }
}

/// One HTTP POST, for the caller to send.
#[derive(Debug)]
pub struct HttpPost {
    pub url: String,
    /// The value of the `Accept` header.
    pub accept: &'static str,
    /// The value of the `Content-Type` header.
    pub content_type: &'static str,
    pub body: String,
}

/// How a post ended, before anything of the body is read.
#[derive(Debug, Clone, Copy, PartialEq, Eq, Structural)]
pub enum PostOutcome {
    /// The post could not be sent, or no response was received.
    SendFailed,
    /// A response arrived, with this status code.
    Status(u16),
}

/// What the caller does once the post has ended.
#[derive(Debug, Clone, Copy, PartialEq, Eq, Structural)]
pub enum NextStep {
    /// Parse the body as an emulator response and report the result.
    ParseBody,
    /// Fail the RPC call; the body is of no interest.
    Fail(ServerFault),
}

/// The address of the emulator at `host` and `port`: the base URL, with no
/// path.
pub open spec fn url_text(host: Seq<char>, port: u16) -> Seq<char> {
    "http://"@ + host + ":"@ + decimal(port as nat)
}

/// The JSON object that carries hexadecimal text `hex` to the emulator.
pub open spec fn request_body(hex: Seq<char>) -> Seq<char> {
    "{\"apduHex\":\""@ + hex + "\"}"@
}

/// The media type of both headers of a post.
pub open spec fn json_media_type() -> Seq<char> {
    "application/json"@
}

/// Whether an HTTP status code is in the success range, 200 to 299.
pub open spec fn is_success(status: u16) -> bool {
    200 <= status <= 299
}

/// The decision on a post that has ended: a failed post is a transport
/// fault, a status outside the success range a status fault, and only a
/// successful status has the body parsed.
pub open spec fn next_step(outcome: PostOutcome) -> NextStep {
    match outcome {
        PostOutcome::SendFailed => NextStep::Fail(ServerFault::Transport),
        PostOutcome::Status(status) => if is_success(status) {
            NextStep::ParseBody
        } else {
            NextStep::Fail(ServerFault::Status)
        },
    }
}

/// The decision on a body: the answer's bytes, or the fault. A body that
/// did not parse is a parse fault. An error in the response is an emulator
/// fault, whatever the data. Without an error the data is decoded, all of it
/// or none.
pub open spec fn body_verdict(parsed: Option<ZemuResponseView>) -> Result<Seq<u8>, ServerFault> {
    match parsed {
        None => Err(ServerFault::Parse),
        Some(response) => if response.error is Some {
            Err(ServerFault::Emulator)
        } else if is_hex(response.data) {
            Ok(hex_decoding(response.data))
        } else {
            Err(ServerFault::MalformedData)
        },
    }
}

/// The whole decision on one exchange: the body counts only if the post
/// asked for it.
pub open spec fn exchange_verdict(outcome: PostOutcome, parsed: Option<ZemuResponseView>) -> Result<
    Seq<u8>,
    ServerFault,
> {
    match next_step(outcome) {
        NextStep::Fail(fault) => Err(fault),
        NextStep::ParseBody => body_verdict(parsed),
    }
}

/// How the emulator deals with one post, as far as the bridge can tell: how
/// the post ends, and what the body parses to.
pub struct EmulatorAnswer {
    pub outcome: PostOutcome,
    pub parsed: Option<ZemuResponseView>,
}

/// What an exchange of `command` ends in, against an emulator that answers
/// each body as `emulator` says.
pub open spec fn exchange_against(
    emulator: spec_fn(Seq<char>) -> EmulatorAnswer,
    command: Seq<u8>,
) -> Result<Seq<u8>, ServerFault> {
    let answer = emulator(request_body(hex_encoding(command)));
    exchange_verdict(answer.outcome, answer.parsed)
}

/// A parsed body, if any, as plain text.
pub open spec fn parsed_view(parsed: Option<ZemuResponse>) -> Option<ZemuResponseView> {
    match parsed {
        Some(response) => Some(response@),
        None => None,
    }
}

impl ServerFault {
    /// The marker that the RPC fault for `self` carries.
    pub open spec fn marker(self) -> Seq<char> {
        match self {
            ServerFault::Transport => "send zemu request error"@,
            ServerFault::Status => "http status error"@,
            ServerFault::Parse => "zemu response error"@,
            ServerFault::Emulator => "http response error"@,
            ServerFault::MalformedData => "decode error"@,
        }
    }

    /// The marker of this fault. It names the kind of fault and nothing of
    /// what the emulator said.
    pub fn message(&self) -> (text: &'static str)
        ensures
            text@ == self.marker(),
    {
        match self {
            ServerFault::Transport => "send zemu request error",
            ServerFault::Status => "http status error",
            ServerFault::Parse => "zemu response error",
            ServerFault::Emulator => "http response error",
            ServerFault::MalformedData => "decode error",
        }
    }
}

impl ZemuRequest {
    /// The hexadecimal text that this request carries.
    pub closed spec fn hex(&self) -> Seq<char> {
        self.apdu_hex@
    }

    /// The request for `command`: its bytes in lower-case hexadecimal.
    pub fn for_command(command: &[u8]) -> (request: ZemuRequest)
        ensures
            request.hex() == hex_encoding(command@),
    {
        ZemuRequest { apdu_hex: encode_hex(command) }
    }

    /// The hexadecimal text that this request carries.
    pub fn apdu_hex(&self) -> (text: &str)
        ensures
            text@ == self.hex(),
    {
        self.apdu_hex.as_str()
    }

    /// The request as a JSON object with the one member `apduHex`.
    pub fn body(&self) -> (text: String)
        ensures
            text@ == request_body(self.hex()),
    {
        let mut text = String::from_str("{\"apduHex\":\"");
        text.append(self.apdu_hex.as_str());
        text.append("\"}");
        text
    }
}

/// Handles the exchanges of an RPC service by asking the emulator at a
/// fixed address. It holds that address and nothing else.
pub struct GrpcServerImpl {
    zemu_host: String,
    zemu_port: u16,
}

impl GrpcServerImpl {
    /// The emulator's host.
    pub closed spec fn host(&self) -> Seq<char> {
        self.zemu_host@
    }

    /// The emulator's port.
    pub closed spec fn port(&self) -> u16 {
        self.zemu_port
    }

    /// A handler that talks to the emulator at `zemu_host` and `zemu_port`.
    pub fn new(zemu_host: String, zemu_port: u16) -> (handler: GrpcServerImpl)
        ensures
            handler.host() == zemu_host@,
            handler.port() == zemu_port,
    {
        GrpcServerImpl { zemu_host, zemu_port }
    }

    /// The emulator's base URL.
    pub fn zemu_url(&self) -> (url: String)
        ensures
            url@ == url_text(self.host(), self.port()),
    {
        let mut url = String::from_str("http://");
        url.append(self.zemu_host.as_str());
        url.append(":");
        append_decimal(&mut url, self.zemu_port);
        url
    }

    /// The post that carries `request` to the emulator: to the base URL,
    /// asking for JSON and sending JSON, with the command as hexadecimal text
    /// in the body.
    pub fn post_for(&self, request: &ExchangeRequest) -> (post: HttpPost)
        ensures
            post.url@ == url_text(self.host(), self.port()),
            post.accept@ == json_media_type(),
            post.content_type@ == json_media_type(),
            post.body@ == request_body(hex_encoding(request.command@)),
    {
        let body = ZemuRequest::for_command(request.command.as_slice()).body();
        HttpPost {
            url: self.zemu_url(),
            accept: "application/json",
            content_type: "application/json",
            body,
        }
    }

    /// Decides on a post that has ended. The body is asked for only after a
    /// status in the success range; any other outcome fails the call at
    /// once.
    pub fn after_post(&self, outcome: PostOutcome) -> (step: NextStep)
        ensures
            step == next_step(outcome),
    {
        match outcome {
            PostOutcome::SendFailed => NextStep::Fail(ServerFault::Transport),
            PostOutcome::Status(status) => {
                if 200 <= status && status <= 299 {
                    NextStep::ParseBody
                } else {
                    NextStep::Fail(ServerFault::Status)
                }
            },
        }
    }

    /// Decides on the body of a successful response: `None` if it did not
    /// parse. The reply holds exactly the bytes that the data stands for;
    /// data that is no hexadecimal text gives a fault and no bytes.
    pub fn after_parse(&self, parsed: Option<ZemuResponse>) -> (reply: Result<
        ExchangeReply,
        ServerFault,
    >)
        ensures
            match body_verdict(parsed_view(parsed)) {
                Ok(bytes) => reply is Ok && reply->Ok_0.reply@ == bytes,
                Err(fault) => reply is Err && reply->Err_0 == fault,
            },
    {
        match parsed {
            None => Err(ServerFault::Parse),
            Some(response) => {
                if response.error.is_some() {
                    Err(ServerFault::Emulator)
                } else {
                    match decode_hex(response.data.as_str()) {
                        Ok(bytes) => Ok(ExchangeReply::new(bytes)),
                        Err(_) => Err(ServerFault::MalformedData),
                    }
                }
            },
        }
    }
}

/// The configuration of a bridge: the port that the RPC service listens on,
/// and the emulator's address.
pub struct ZemuGrpcServer {
    grpc_port: u16,
    zemu_host: String,
    zemu_port: u16,
}

impl ZemuGrpcServer {
    /// The port of the RPC service.
    pub closed spec fn rpc_port(&self) -> u16 {
        self.grpc_port
    }

    /// The emulator's host.
    pub closed spec fn host(&self) -> Seq<char> {
        self.zemu_host@
    }

    /// The emulator's port.
    pub closed spec fn port(&self) -> u16 {
        self.zemu_port
    }

    /// A bridge that listens on `grpc_port` and asks the emulator at
    /// `zemu_host` and `zemu_port`.
    pub fn new(grpc_port: u16, zemu_host: String, zemu_port: u16) -> (server: ZemuGrpcServer)
        ensures
            server.rpc_port() == grpc_port,
            server.host() == zemu_host@,
            server.port() == zemu_port,
    {
        ZemuGrpcServer { grpc_port, zemu_host, zemu_port }
    }

    /// The port that the RPC service is to listen on.
    pub fn grpc_port(&self) -> (port: u16)
        ensures
            port == self.rpc_port(),
    {
        self.grpc_port
    }

    /// The handler for this bridge's exchanges: it asks this bridge's
    /// emulator.
    pub fn handler(&self) -> (handler: GrpcServerImpl)
        ensures
            handler.host() == self.host(),
            handler.port() == self.port(),
    {
        GrpcServerImpl::new(self.zemu_host.clone(), self.zemu_port)
    }
}

/// A status outside the success range fails the exchange with a status
/// fault whatever the body holds, and the body is never asked for.
pub proof fn lemma_failed_status_ignores_body(status: u16, parsed: Option<ZemuResponseView>)
    requires
        !is_success(status),
    ensures
        next_step(PostOutcome::Status(status)) == NextStep::Fail(ServerFault::Status),
        exchange_verdict(PostOutcome::Status(status), parsed) == Err::<Seq<u8>, ServerFault>(
            ServerFault::Status,
        ),
{
}

/// An exchange succeeds exactly when the status is in the success range, the
/// body parses, it carries no error and its data is hexadecimal; the reply is
/// then what the data stands for.
pub proof fn lemma_success_is_decoded_data(outcome: PostOutcome, parsed: Option<ZemuResponseView>)
    ensures
        exchange_verdict(outcome, parsed) is Ok <==> {
            &&& outcome matches PostOutcome::Status(status)
            &&& is_success(status)
            &&& parsed matches Some(response)
            &&& response.error is None
            &&& is_hex(response.data)
        },
        exchange_verdict(outcome, parsed) matches Ok(bytes) ==> bytes == hex_decoding(
            parsed->Some_0.data,
        ),
{
}

/// Commands that differ are posted with bodies that differ: the emulator can
/// always tell which command it was asked.
pub proof fn lemma_request_body_is_injective(a: Seq<u8>, b: Seq<u8>)
    requires
        request_body(hex_encoding(a)) == request_body(hex_encoding(b)),
    ensures
        a == b,
{
    let head = "{\"apduHex\":\""@;
    let tail = "\"}"@;
    let body_a = head + hex_encoding(a) + tail;
    let body_b = head + hex_encoding(b) + tail;
    let from = head.len() as int;
    assert(hex_encoding(a) =~= body_a.subrange(from, from + hex_encoding(a).len()));
    assert(hex_encoding(b) =~= body_b.subrange(from, from + hex_encoding(b).len()));
    assert(body_a.len() == body_b.len());
    lemma_hex_round_trip(a);
    lemma_hex_round_trip(b);
}

/// The same command, exchanged twice against an emulator that answers equal
/// posts alike, ends twice in the same way: nothing of an exchange depends on
/// an earlier one.
pub proof fn lemma_same_command_same_reply(
    emulator: spec_fn(Seq<char>) -> EmulatorAnswer,
    first: Seq<u8>,
    second: Seq<u8>,
)
    requires
        first == second,
    ensures
        exchange_against(emulator, first) == exchange_against(emulator, second),
{
}

/// Against an emulator that answers each command `c` with the hexadecimal
/// text of `echo(c)`, every exchange succeeds with the echo of its own
/// command, whatever other commands are exchanged.
pub proof fn lemma_each_command_gets_its_own_reply(
    emulator: spec_fn(Seq<char>) -> EmulatorAnswer,
    echo: spec_fn(Seq<u8>) -> Seq<u8>,
    status: u16,
    command: Seq<u8>,
)
    requires
        is_success(status),
        forall|c: Seq<u8>| #[trigger]
            emulator(request_body(hex_encoding(c))) == (EmulatorAnswer {
                outcome: PostOutcome::Status(status),
                parsed: Some(ZemuResponseView { data: hex_encoding(echo(c)), error: None }),
            }),
    ensures
        exchange_against(emulator, command) == Ok::<Seq<u8>, ServerFault>(echo(command)),
{
    lemma_hex_round_trip(echo(command));
    assert(emulator(request_body(hex_encoding(command))).parsed->Some_0.data == hex_encoding(
        echo(command),
    ));
}

} // verus!
