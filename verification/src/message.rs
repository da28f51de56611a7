//! Messages and the broker's properties that travel with them.

use crate::connection::text_of;
use crate::text::{append_decimal, decimal_text};
use vstd::prelude::*;
use vstd::string::StringExecFns;

verus! {

/// The properties of a message that addressing depends on.
#[allow(non_snake_case)]
#[derive(Debug)]
pub struct BrokerProperties {
    /// The identifier that the producer or the server gave the message.
    pub MessageId: Option<String>,
    /// The number that the server gave the message.
    pub SequenceNumber: Option<u64>,
    /// The token of the lock, present while a peek-lock is held.
    pub LockToken: Option<String>,
}

impl Default for BrokerProperties {
    fn default() -> (props: BrokerProperties)
        ensures
            props.MessageId is None,
            props.SequenceNumber is None,
            props.LockToken is None,
    {
        BrokerProperties { MessageId: None, SequenceNumber: None, LockToken: None }
    }
}

impl BrokerProperties {
    /// The name under which the server knows the message: its sequence
    /// number where it has one, else its message identifier.
    pub open spec fn server_id(&self) -> Option<Seq<char>> {
        match self.SequenceNumber {
            Some(n) => Some(decimal_text(n as nat)),
            None => text_of(self.MessageId),
        }
    }

    /// The identifier and the lock token that address the message for
    /// operations on its lock. A message has them if and only if it carries
    /// a lock token and a sequence number or a message identifier.
    pub open spec fn lock_address(&self) -> Option<(Seq<char>, Seq<char>)> {
        match (self.server_id(), self.LockToken) {
            (Some(id), Some(lock)) => Some((id, lock@)),
            _ => None,
        }
    }

    /// The identifier and the lock token of a message that the server holds.
    pub fn lock_parts(&self) -> (parts: Option<(String, String)>)
        ensures
            match parts {
                Some((id, lock)) => self.lock_address() == Some((id@, lock@)),
                None => self.lock_address() is None,
            },
    {
        let id = match self.SequenceNumber {
            Some(n) => {
                let mut text = String::new();
                append_decimal(&mut text, n);
                proof {
                    assert(text@ =~= decimal_text(n as nat));
                }
                Some(text)
            },
            None => match &self.MessageId {
                Some(id) => Some(id.clone()),
                None => None,
            },
        };
        match (id, &self.LockToken) {
            (Some(id), Some(lock)) => Some((id, lock.clone())),
            _ => None,
        }
    }
}

/// A message: a body and the broker's properties.
#[derive(Debug)]
pub struct BrokeredMessage {
    pub body: String,
    pub props: BrokerProperties,
}

impl BrokeredMessage {
    /// A message as a producer makes it: with a body, unknown to the server.
    pub fn with_body(body: &str) -> (message: BrokeredMessage)
        ensures
            message.body@ == body@,
            message.props.MessageId is None,
            message.props.SequenceNumber is None,
            message.props.LockToken is None,
            !message.is_server_addressable(),
    {
        BrokeredMessage {
            body: String::from_str(body),
            props: BrokerProperties { MessageId: None, SequenceNumber: None, LockToken: None },
        }
    }

    /// A message with the properties given, as read from a response.
    pub fn with_body_and_props(body: &str, props: BrokerProperties) -> (message: BrokeredMessage)
        ensures
            message.body@ == body@,
            message.props == props,
    {
        BrokeredMessage { body: String::from_str(body), props }
    }

    /// Whether operations on a lock can address the message.
    pub open spec fn is_server_addressable(&self) -> bool {
        self.props.lock_address() is Some
    }

    /// Gives the body, and drops the rest.
    pub fn into_body(self) -> (body: String)
        ensures
            body == self.body,
    {
        self.body
    }
}

/// A message can be addressed for operations on its lock if and only if it
/// carries a lock token and a sequence number or a message identifier.
pub proof fn lemma_server_addressable(message: &BrokeredMessage)
    ensures
        message.is_server_addressable() <==> (message.props.LockToken is Some && (
            message.props.SequenceNumber is Some || message.props.MessageId is Some)),
{
}

} // verus!
