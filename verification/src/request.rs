//! Request descriptors: what an operation hands to the transport, and the
//! addresses of the operations.

use crate::error::{AzureRequestError, BuildError};
use crate::message::BrokeredMessage;
use crate::text::{append_decimal, decimal_text};
use vstd::prelude::*;
use vstd::string::StringExecFns;
use vstd::utf8::encode_utf8;

verus! {

/// The HTTP methods that the operations use.
#[derive(Clone, Copy, Debug, PartialEq, Eq, Structural)]
pub enum Method {
    Post,
    Put,
    Delete,
}

/// A request that has not been sent.
#[derive(Debug)]
pub struct RequestDescriptor {
    pub method: Method,
    pub uri: String,
    /// The `Authorization` header: a shared-access-signature token.
    pub authorization: String,
    /// The `Content-Type` header, where the request has a body.
    pub content_type: Option<String>,
    /// The `BrokerProperties` header, where the request carries a message.
    pub broker_properties: Option<String>,
    pub body: Option<String>,
}

/// A `RequestDescriptor` as plain values.
pub struct RequestView {
    pub method: Method,
    pub uri: Seq<char>,
    pub authorization: Seq<char>,
    pub content_type: Option<Seq<char>>,
    pub broker_properties: Option<Seq<char>>,
    pub body: Option<Seq<char>>,
}

impl View for RequestDescriptor {
    type V = RequestView;

    open spec fn view(&self) -> RequestView {
        RequestView {
            method: self.method,
            uri: self.uri@,
            authorization: self.authorization@,
            content_type: crate::connection::text_of(self.content_type),
            broker_properties: crate::connection::text_of(self.broker_properties),
            body: crate::connection::text_of(self.body),
        }
    }
}

/// The outcome of an assembly, with the descriptor as plain values.
pub open spec fn outcome_view(outcome: Result<RequestDescriptor, BuildError>) -> Result<
    RequestView,
    BuildError,
> {
    match outcome {
        Ok(request) => Ok(request@),
        Err(e) => Err(e),
    }
}

/// Whether `text` parses as a URI.
pub uninterp spec fn is_uri(text: Seq<char>) -> bool;

/// The URI that has the scheme and the authority of `endpoint` and
/// `path_and_query` in place of its own path and query; nothing where
/// either does not parse or the parts do not make a URI.
pub uninterp spec fn uri_with_path(endpoint: Seq<char>, path_and_query: Seq<char>) -> Option<
    Seq<char>,
>;

/// Whether a header value may hold the byte: anything from the space on but
/// DEL, and the tab.
pub open spec fn header_byte_valid(b: u8) -> bool {
    (b >= 32 && b != 127) || b == 9
}

/// Whether every byte of the UTF-8 form of `text` may stand in a header value.
pub open spec fn header_value_valid(text: Seq<char>) -> bool {
    forall|i: int|
        0 <= i < encode_utf8(text).len() ==> header_byte_valid(#[trigger] encode_utf8(text)[i])
}

/// Parses `text` with `hyper::Uri`'s `FromStr` and says whether that
/// succeeded; the answer depends on the text alone.
#[verifier::external_body]
pub(crate) fn parses_as_uri(text: &str) -> (ok: bool)
    ensures
        ok == is_uri(text@),
{
    text.parse::<hyper::Uri>().is_ok()
}

/// Parses the endpoint as a `hyper::Uri`, replaces the path and query among
/// its parts by the parsed `path_and_query`, and prints the URI that
/// `Uri::from_parts` makes of them. Any of the three steps may fail; the
/// result depends on the two texts alone.
#[verifier::external_body]
fn rebase_uri(endpoint: &str, path_and_query: &str) -> (uri: Option<String>)
    ensures
        crate::connection::text_of(uri) == uri_with_path(endpoint@, path_and_query@),
{
    let mut parts = endpoint.parse::<hyper::Uri>().ok()?.into_parts();
    parts.path_and_query = Some(path_and_query.parse().ok()?);
    Some(hyper::Uri::from_parts(parts).ok()?.to_string())
}

/// Asks `hyper::header::HeaderValue::from_str` whether it accepts the text.
/// It does unless a byte of the text is a control character other than tab.
#[verifier::external_body]
fn header_value_accepts(text: &str) -> (ok: bool)
    ensures
        ok == header_value_valid(text@),
{
    hyper::header::HeaderValue::from_str(text).is_ok()
}

/// The content type of a message that is sent.
pub const CONTENT_TYPE_VAL: &'static str = "application/atom+xml;type=entry;charset=utf-8";

/// The name of the header that carries the broker's properties.
pub const BROKER_PROPERTIES_HEADER: &'static str = "BrokerProperties";

/// The content type of a message that is sent, as characters.
pub open spec fn content_type_text() -> Seq<char> {
    CONTENT_TYPE_VAL@
}

/// The path and query for sending to an entity.
pub open spec fn send_path(entity: Seq<char>, timeout: u64) -> Seq<char> {
    entity + "/messages?timeout="@ + decimal_text(timeout as nat)
}

/// The path and query for receiving the message at the head of an entity.
pub open spec fn head_path(entity: Seq<char>, timeout: u64) -> Seq<char> {
    entity + "/messages/head?timeout="@ + decimal_text(timeout as nat)
}

/// The path of a locked message of an entity.
pub open spec fn lock_path(entity: Seq<char>, id: Seq<char>, lock: Seq<char>) -> Seq<char> {
    entity + "/messages/"@ + id + "/"@ + lock
}

/// The path of the locked message, for a message that the server holds.
pub open spec fn message_lock_path(entity: Seq<char>, message: &BrokeredMessage) -> Option<
    Seq<char>,
> {
    match message.props.lock_address() {
        Some((id, lock)) => Some(lock_path(entity, id, lock)),
        None => None,
    }
}

/// The address of the locked message on the endpoint, or `LocalMessage`
/// where the message has no identifier or no lock token, or where the
/// address is not a URI.
pub open spec fn message_update_target(
    endpoint: Seq<char>,
    entity: Seq<char>,
    message: &BrokeredMessage,
) -> Result<Seq<char>, AzureRequestError> {
    match message_lock_path(entity, message) {
        Some(path) => match uri_with_path(endpoint, path) {
            Some(uri) => Ok(uri),
            None => Err(AzureRequestError::LocalMessage),
        },
        None => Err(AzureRequestError::LocalMessage),
    }
}

/// A request without a body.
pub open spec fn plain_request(method: Method, uri: Seq<char>, token: Seq<char>) -> RequestView {
    RequestView {
        method,
        uri,
        authorization: token,
        content_type: None,
        broker_properties: None,
        body: None,
    }
}

/// What a receive of either kind is assembled to.
pub open spec fn receive_outcome(
    method: Method,
    endpoint: Seq<char>,
    entity: Seq<char>,
    timeout: u64,
    token: Seq<char>,
) -> Result<RequestView, BuildError> {
    if !header_value_valid(token) {
        Err(BuildError::InvalidHeader)
    } else {
        match uri_with_path(endpoint, head_path(entity, timeout)) {
            Some(uri) => Ok(plain_request(method, uri, token)),
            None => Err(BuildError::InvalidUri),
        }
    }
}

/// What an operation on the lock of a message is assembled to. A message
/// that the server cannot address is refused before anything else is looked
/// at.
pub open spec fn lock_outcome(
    method: Method,
    endpoint: Seq<char>,
    entity: Seq<char>,
    message: &BrokeredMessage,
    token: Seq<char>,
) -> Result<RequestView, BuildError> {
    match message_update_target(endpoint, entity, message) {
        Err(e) => Err(BuildError::Request(e)),
        Ok(uri) => if header_value_valid(token) {
            Ok(plain_request(method, uri, token))
        } else {
            Err(BuildError::InvalidHeader)
        },
    }
}

/// What a send is assembled to.
pub open spec fn send_outcome(
    endpoint: Seq<char>,
    entity: Seq<char>,
    body: Seq<char>,
    properties: Seq<char>,
    timeout: u64,
    token: Seq<char>,
) -> Result<RequestView, BuildError> {
    if !header_value_valid(token) || !header_value_valid(properties) {
        Err(BuildError::InvalidHeader)
    } else {
        match uri_with_path(endpoint, send_path(entity, timeout)) {
            Some(uri) => Ok(
                RequestView {
                    method: Method::Post,
                    uri,
                    authorization: token,
                    content_type: Some(content_type_text()),
                    broker_properties: Some(properties),
                    body: Some(body),
                },
            ),
            None => Err(BuildError::InvalidUri),
        }
    }
}

/// The path of the locked message on an entity.
pub fn message_update_path(entity: &str, message: &BrokeredMessage) -> (path: Option<String>)
    ensures
        crate::connection::text_of(path) == message_lock_path(entity@, message),
{
    match message.props.lock_parts() {
        Some((id, lock)) => {
            let mut path = String::from_str(entity);
            path.append("/messages/");
            path.append(id.as_str());
            path.append("/");
            path.append(lock.as_str());
            Some(path)
        },
        None => None,
    }
}

/// The address that completing, abandoning and renewing a message share.
pub fn message_update_uri(endpoint: &str, entity: &str, message: &BrokeredMessage) -> (target:
    Result<String, AzureRequestError>)
    ensures
        match target {
            Ok(uri) => message_update_target(endpoint@, entity@, message) == Ok::<
                Seq<char>,
                AzureRequestError,
            >(uri@),
            Err(e) => message_update_target(endpoint@, entity@, message) == Err::<
                Seq<char>,
                AzureRequestError,
            >(e),
        },
{
    match message_update_path(entity, message) {
        Some(path) => match rebase_uri(endpoint, path.as_str()) {
            Some(uri) => Ok(uri),
            None => Err(AzureRequestError::LocalMessage),
        },
        None => Err(AzureRequestError::LocalMessage),
    }
}

/// Assembles a receive: `Post` to lock the message at the head of the
/// entity, `Delete` to take it off.
pub fn receive_request(method: Method, endpoint: &str, entity: &str, timeout: u64, token: String) -> (outcome:
    Result<RequestDescriptor, BuildError>)
    ensures
        outcome_view(outcome) == receive_outcome(method, endpoint@, entity@, timeout, token@),
{
    if !header_value_accepts(token.as_str()) {
        return Err(BuildError::InvalidHeader);
    }
    let mut path = String::from_str(entity);
    path.append("/messages/head?timeout=");
    append_decimal(&mut path, timeout);
    match rebase_uri(endpoint, path.as_str()) {
        Some(uri) => Ok(
            RequestDescriptor {
                method,
                uri,
                authorization: token,
                content_type: None,
                broker_properties: None,
                body: None,
            },
        ),
        None => Err(BuildError::InvalidUri),
    }
}

/// Assembles an operation on the lock of a message: `Delete` to complete
/// it, `Put` to abandon it, `Post` to renew the lock.
pub fn lock_request(
    method: Method,
    endpoint: &str,
    entity: &str,
    message: &BrokeredMessage,
    token: String,
) -> (outcome: Result<RequestDescriptor, BuildError>)
    ensures
        outcome_view(outcome) == lock_outcome(method, endpoint@, entity@, message, token@),
{
    match message_update_uri(endpoint, entity, message) {
        Ok(uri) => if header_value_accepts(token.as_str()) {
            Ok(
                RequestDescriptor {
                    method,
                    uri,
                    authorization: token,
                    content_type: None,
                    broker_properties: None,
                    body: None,
                },
            )
        } else {
            Err(BuildError::InvalidHeader)
        },
        Err(e) => Err(BuildError::Request(e)),
    }
}

/// Assembles a send of `body`, with the broker's properties in their wire
/// form.
pub fn send_request(
    endpoint: &str,
    entity: &str,
    body: String,
    properties: String,
    timeout: u64,
    token: String,
) -> (outcome: Result<RequestDescriptor, BuildError>)
    ensures
        outcome_view(outcome) == send_outcome(
            endpoint@,
            entity@,
            body@,
            properties@,
            timeout,
            token@,
        ),
{
    if !header_value_accepts(token.as_str()) || !header_value_accepts(properties.as_str()) {
        return Err(BuildError::InvalidHeader);
    }
    let mut path = String::from_str(entity);
    path.append("/messages?timeout=");
    append_decimal(&mut path, timeout);
    match rebase_uri(endpoint, path.as_str()) {
        Some(uri) => Ok(
            RequestDescriptor {
                method: Method::Post,
                uri,
                authorization: token,
                content_type: Some(String::from_str(CONTENT_TYPE_VAL)),
                broker_properties: Some(properties),
                body: Some(body),
            },
        ),
        None => Err(BuildError::InvalidUri),
    }
}

/// A message without a lock token, such as one that a producer has made and
/// that never came back from the server, is refused with `LocalMessage` by
/// every operation on a lock: no address is made for it.
pub proof fn lemma_message_without_lock_is_local(
    method: Method,
    endpoint: Seq<char>,
    entity: Seq<char>,
    message: &BrokeredMessage,
    token: Seq<char>,
)
    requires
        message.props.LockToken is None,
    ensures
        message_lock_path(entity, message) is None,
        message_update_target(endpoint, entity, message) == Err::<Seq<char>, AzureRequestError>(
            AzureRequestError::LocalMessage,
        ),
        lock_outcome(method, endpoint, entity, message, token) == Err::<RequestView, BuildError>(
            BuildError::Request(AzureRequestError::LocalMessage),
        ),
{
}

/// A message with neither a sequence number nor a message identifier is
/// refused in the same way, lock token or not.
pub proof fn lemma_message_without_id_is_local(
    method: Method,
    endpoint: Seq<char>,
    entity: Seq<char>,
    message: &BrokeredMessage,
    token: Seq<char>,
)
    requires
        message.props.SequenceNumber is None,
        message.props.MessageId is None,
    ensures
        lock_outcome(method, endpoint, entity, message, token) == Err::<RequestView, BuildError>(
            BuildError::Request(AzureRequestError::LocalMessage),
        ),
{
}

/// The address of a locked message names the sequence number where the
/// message has one, and the message identifier only where it has none.
pub proof fn lemma_lock_path_names_the_message(entity: Seq<char>, message: &BrokeredMessage)
    requires
        message.props.LockToken is Some,
    ensures
        message.props.SequenceNumber is Some ==> message_lock_path(entity, message) == Some(
            lock_path(
                entity,
                decimal_text(message.props.SequenceNumber->0 as nat),
                message.props.LockToken->0@,
            ),
        ),
        message.props.SequenceNumber is None && message.props.MessageId is Some
            ==> message_lock_path(entity, message) == Some(
            lock_path(entity, message.props.MessageId->0@, message.props.LockToken->0@),
        ),
{
}

} // verus!
