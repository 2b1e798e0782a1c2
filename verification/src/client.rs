//! The client: the request that it sends for a message, and what it makes of
//! the gateway's reply. The exchange itself is the caller's: the client holds
//! no connection.

use vstd::prelude::*;
use vstd::string::StringExecFns;

use crate::json::{Json, JsonModel};
use crate::notification::{Notification, NotificationModel};
use crate::ticket::{
    Misfit, PushTicket, PushTicketModel, PushTicketResponse, PushTicketResponseModel,
    ServerTicketError, ServerTicketErrorModel,
};

verus! {

/// Where the gateway is, and how to sign in.
#[derive(Debug, Clone, PartialEq, Eq)]
pub struct ExpoConfig {
    /// Scheme and host, such as `https://exp.host`.
    pub host: String,
    /// The path that takes push messages, starting with `/`.
    pub push_path: String,
    /// The access token, where the project asks for one.
    pub access_token: Option<String>,
}

/// What an [`ExpoConfig`] stands for.
pub ghost struct ExpoConfigModel {
    pub host: Seq<char>,
    pub push_path: Seq<char>,
    pub access_token: Option<Seq<char>>,
}

impl View for ExpoConfig {
    type V = ExpoConfigModel;

    open spec fn view(&self) -> ExpoConfigModel {
        ExpoConfigModel {
            host: self.host@,
            push_path: self.push_path@,
            access_token: self.access_token.deep_view(),
        }
    }
}

/// One header of a request.
#[derive(Debug, Clone, PartialEq, Eq)]
pub struct Header {
    pub name: String,
    pub value: String,
}

/// What a [`Header`] stands for.
pub ghost struct HeaderModel {
    pub name: Seq<char>,
    pub value: Seq<char>,
}

impl View for Header {
    type V = HeaderModel;

    open spec fn view(&self) -> HeaderModel {
        HeaderModel { name: self.name@, value: self.value@ }
    }
}

impl DeepView for Header {
    type V = HeaderModel;

    open spec fn deep_view(&self) -> HeaderModel {
        self@
    }
}

/// A request to the gateway.
#[derive(Debug, Clone, PartialEq, Eq)]
pub struct PushRequest {
    /// The method of the request: always `POST`.
    pub method: String,
    pub url: String,
    pub headers: Vec<Header>,
    /// The body, to be written as JSON text.
    pub body: Json,
}

/// What a [`PushRequest`] stands for.
pub ghost struct PushRequestModel {
    pub method: Seq<char>,
    pub url: Seq<char>,
    pub headers: Seq<HeaderModel>,
    pub body: JsonModel,
}

impl View for PushRequest {
    type V = PushRequestModel;

    open spec fn view(&self) -> PushRequestModel {
        PushRequestModel {
            method: self.method@,
            url: self.url@,
            headers: self.headers.deep_view(),
            body: self.body@,
        }
    }
}

/// What came of sending a request.
#[derive(Debug, Clone, PartialEq, Eq)]
pub enum Reply {
    /// No answer arrived: the connection, TLS or a timeout failed. Holds the
    /// cause.
    Failed(String),
    /// An answer arrived whose body is not JSON. Holds what the reader of
    /// the text said of it.
    Unreadable(String),
    /// An answer arrived with this body.
    Body(Json),
}

/// Why the body of an answer could not be used.
#[derive(Debug, Clone, PartialEq, Eq)]
pub enum DecodeError {
    /// The body is not JSON. Holds what the reader of the text said of it.
    Syntax(String),
    /// The body is JSON, but not an answer of the gateway. Holds where it
    /// first departs from one.
    Shape(Misfit),
}

/// Why a push failed as a whole.
#[derive(Debug, Clone, PartialEq, Eq)]
pub enum PushError {
    /// No answer arrived. Holds the cause.
    TransportError(String),
    /// An answer arrived that could not be read.
    DecodeError(DecodeError),
    /// The gateway refused the request. Holds the first of its errors.
    GatewayError(ServerTicketError),
}

impl ExpoConfigModel {
    /// The address that requests go to: host and path, put together as they
    /// are.
    pub open spec fn push_url(self) -> Seq<char> {
        self.host + self.push_path
    }

    /// The headers of every request: three that are always sent, then the
    /// access token where there is one.
    pub open spec fn headers(self) -> Seq<HeaderModel> {
        seq![
            HeaderModel { name: "Accept"@, value: "application/json"@ },
            HeaderModel { name: "Accept-Encoding"@, value: "gzip, deflate"@ },
            HeaderModel { name: "Content-Type"@, value: "application/json"@ },
        ] + match self.access_token {
            Some(token) => seq![HeaderModel { name: "Authorization"@, value: "Bearer "@ + token }],
            None => Seq::empty(),
        }
    }

    /// The request sent for a message: a `POST` to the push address, with the
    /// headers of every request and the message as its body.
    pub open spec fn push_request(self, notification: NotificationModel) -> PushRequestModel {
        PushRequestModel {
            method: "POST"@,
            url: self.push_url(),
            headers: self.headers(),
            body: notification.wire(),
        }
    }
}

/// What a push comes to, given the answer that the gateway sent: its first
/// error where it sent any, else its tickets.
pub open spec fn outcome_of(response: PushTicketResponseModel) -> Result<
    Seq<PushTicketModel>,
    ServerTicketErrorModel,
> {
    if response.errors.len() > 0 {
        Err(response.errors[0])
    } else {
        Ok(response.data)
    }
}

/// Whether `result` is what a push comes to, given what came of sending its
/// request:
/// - where no answer arrived, a transport error with the cause;
/// - where the body is not JSON, a decode error with what was said of it;
/// - where the body is JSON but no answer of the gateway, a decode error
///   with the place where it first departs from one;
/// - where the answer holds errors, a gateway error with the first of them;
/// - else the tickets of the answer, as many and in the same order.
pub open spec fn settles(reply: Reply, result: Result<Vec<PushTicket>, PushError>) -> bool {
    match reply {
        Reply::Failed(cause) => result matches Err(PushError::TransportError(c)) && c@ == cause@,
        Reply::Unreadable(detail) => result matches Err(
            PushError::DecodeError(DecodeError::Syntax(d)),
        ) && d@ == detail@,
        Reply::Body(body) => match PushTicketResponseModel::of_wire(body@) {
            None => result matches Err(PushError::DecodeError(DecodeError::Shape(misfit)))
                && PushTicketResponseModel::misfit(body@) == Some(misfit),
            Some(response) => match outcome_of(response) {
                Ok(tickets) => result matches Ok(t) && t.deep_view() == tickets,
                Err(first) => result matches Err(PushError::GatewayError(e)) && e@ == first,
            },
        },
    }
}

/// A client of the gateway. Its configuration is fixed when it is made.
#[derive(Debug, Clone)]
pub struct ExpoClient {
    host: String,
    push_path: String,
    access_token: Option<String>,
}

impl View for ExpoClient {
    type V = ExpoConfigModel;

    closed spec fn view(&self) -> ExpoConfigModel {
        ExpoConfigModel {
            host: self.host@,
            push_path: self.push_path@,
            access_token: self.access_token.deep_view(),
        }
    }
}

impl ExpoClient {
    /// A client with the given configuration.
    pub fn new(config: ExpoConfig) -> (client: ExpoClient)
        ensures
            client@ == config@,
    {
        ExpoClient {
            host: config.host,
            push_path: config.push_path,
            access_token: config.access_token,
        }
    }

    /// The address that requests go to.
    pub fn push_url(&self) -> (url: String)
        ensures
            url@ == self@.push_url(),
    {
        self.host.clone().concat(self.push_path.as_str())
    }

    /// The headers of every request.
    pub fn headers(&self) -> (headers: Vec<Header>)
        ensures
            headers.deep_view() == self@.headers(),
    {
        let mut headers: Vec<Header> = Vec::new();
        headers.push(Header { name: "Accept".to_owned(), value: "application/json".to_owned() });
        headers.push(
            Header { name: "Accept-Encoding".to_owned(), value: "gzip, deflate".to_owned() },
        );
        headers.push(
            Header { name: "Content-Type".to_owned(), value: "application/json".to_owned() },
        );
        match &self.access_token {
            Some(token) => {
                let value = "Bearer ".to_owned().concat(token.as_str());
                headers.push(Header { name: "Authorization".to_owned(), value });
            },
            None => {},
        }
        assert(headers.deep_view() =~= self@.headers());
        headers
    }

    /// The request to send for `notification`: one request for all its
    /// recipients, however many they are.
    pub fn push_request(&self, notification: &Notification) -> (request: PushRequest)
        ensures
            request@ == self@.push_request(notification@),
    {
        PushRequest {
            method: "POST".to_owned(),
            url: self.push_url(),
            headers: self.headers(),
            body: notification.to_json(),
        }
    }

    /// What a push comes to, given what came of sending its request.
    ///
    /// The tickets come back in the gateway's order, which is that of the
    /// recipients. A ticket that reports an error is a ticket like any
    /// other: the push fails only where no answer arrived, where the answer
    /// could not be read, or where the gateway reported an error of the
    /// whole request. No tickets are given then.
    pub fn push_result(&self, reply: Reply) -> (result: Result<Vec<PushTicket>, PushError>)
        ensures
            settles(reply, result),
    {
        match reply {
            Reply::Failed(cause) => Err(PushError::TransportError(cause)),
            Reply::Unreadable(detail) => Err(PushError::DecodeError(DecodeError::Syntax(detail))),
            Reply::Body(body) => match PushTicketResponse::from_json(&body) {
                Err(misfit) => Err(PushError::DecodeError(DecodeError::Shape(misfit))),
                Ok(response) => {
                    let PushTicketResponse { data, mut errors } = response;
                    if errors.len() > 0 {
                        Err(PushError::GatewayError(errors.swap_remove(0)))
                    } else {
                        Ok(data)
                    }
                },
            },
        }
    }

    /// Pushes `notification` through `transport`, which is handed the request
    /// once and says what came of sending it.
    ///
    /// There is one exchange for each call: nothing is sent again, whatever
    /// came of it, and nothing is kept from one call to the next.
    pub fn send_push_notification<T: FnOnce(PushRequest) -> Reply>(
        &self,
        notification: &Notification,
        transport: T,
    ) -> (result: Result<Vec<PushTicket>, PushError>)
        requires
            forall|request: PushRequest|
                request@ == self@.push_request(notification@) ==> #[trigger] transport.requires(
                    (request,),
                ),
        ensures
            exists|request: PushRequest, reply: Reply|
                request@ == self@.push_request(notification@) && #[trigger] transport.ensures(
                    (request,),
                    reply,
                ) && settles(reply, result),
    {
        let request = self.push_request(notification);
        let ghost sent = request;
        let reply = transport(request);
        let ghost got = reply;
        let result = self.push_result(reply);
        assert(transport.ensures((sent,), got) && settles(got, result));
        result
    }
}

} // verus!
