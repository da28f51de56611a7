//! The client of a Service Bus queue.
//!
//! All producers and consumers of a queue read from and write to the same
//! queue. Every operation assembles a request and leaves sending it to the
//! caller.

use crate::connection::{connection_field, connection_value, replace_sb_scheme, sb_replaced};
use crate::error::{AzureRequestError, BuildError};
use crate::message::BrokeredMessage;
use crate::request::{
    is_uri, lock_outcome, lock_request, message_update_target, message_update_uri, outcome_view,
    parses_as_uri, receive_outcome, receive_request, send_outcome, send_request, Method,
    RequestDescriptor,
};
use crate::sas::{lemma_after_preserves_wf, CredentialCache, CredentialView};
use vstd::prelude::*;
use vstd::string::StringExecFns;

verus! {

/// The timeout of the operations that take none, in seconds.
pub const DEFAULT_TIMEOUT_SECS: u64 = 30;

/// Client for a Service Bus queue.
pub struct QueueClient {
    endpoint: String,
    queue_name: String,
    sas_info: CredentialCache,
}

/// A `QueueClient` as plain values.
pub struct QueueClientView {
    pub endpoint: Seq<char>,
    pub queue_name: Seq<char>,
    pub credential: CredentialView,
}

impl QueueClientView {
    /// The path of the queue on the endpoint.
    pub open spec fn entity_path(self) -> Seq<char> {
        "/"@ + self.queue_name
    }

    /// The endpoint is a URI and the cached token is the one of the
    /// connection string.
    pub open spec fn wf(self) -> bool {
        is_uri(self.endpoint) && self.credential.wf()
    }

    /// Whether `self` is `earlier` after a token has been asked for: the
    /// same queue on the same endpoint, with the token kept or replaced.
    pub open spec fn refreshed_from(self, earlier: QueueClientView) -> bool {
        &&& self.endpoint == earlier.endpoint
        &&& self.queue_name == earlier.queue_name
        &&& self.credential.refreshed_from(earlier.credential)
        &&& earlier.wf() ==> self.wf()
    }
}

/// The endpoint that a queue client takes from a connection string: the
/// value of `Endpoint` with the scheme of the service rewritten to HTTPS.
pub open spec fn queue_endpoint(conn: Seq<char>) -> Result<Seq<char>, BuildError> {
    match connection_field(conn, "Endpoint"@) {
        None => Err(BuildError::EndpointMissing),
        Some(endpoint) => if is_uri(sb_replaced(endpoint)) {
            Ok(sb_replaced(endpoint))
        } else {
            Err(BuildError::InvalidUri)
        },
    }
}

impl View for QueueClient {
    type V = QueueClientView;

    closed spec fn view(&self) -> QueueClientView {
        QueueClientView {
            endpoint: self.endpoint@,
            queue_name: self.queue_name@,
            credential: self.sas_info@,
        }
    }
}

impl QueueClient {
    /// A client for the queue `queue` of the namespace that the connection
    /// string names. Fails where the connection string has no endpoint, or
    /// one that is not a URI.
    pub fn with_conn_and_queue(connection_string: &str, queue: &str) -> (client: Result<
        QueueClient,
        BuildError,
    >)
        ensures
            match client {
                Ok(c) => {
                    &&& queue_endpoint(connection_string@) == Ok::<Seq<char>, BuildError>(
                        c@.endpoint,
                    )
                    &&& c@.queue_name == queue@
                    &&& c@.credential.is_fresh_for(connection_string@)
                    &&& c@.wf()
                },
                Err(e) => queue_endpoint(connection_string@) == Err::<Seq<char>, BuildError>(e),
            },
    {
        let endpoint = match connection_value(connection_string, "Endpoint") {
            Some(value) => replace_sb_scheme(value.as_str()),
            None => { return Err(BuildError::EndpointMissing); },
        };
        if !parses_as_uri(endpoint.as_str()) {
            return Err(BuildError::InvalidUri);
        }
        Ok(
            QueueClient {
                endpoint,
                queue_name: String::from_str(queue),
                sas_info: CredentialCache::new(connection_string),
            },
        )
    }

    /// The name of the queue.
    pub fn queue(&self) -> (name: &str)
        ensures
            name@ == self@.queue_name,
    {
        self.queue_name.as_str()
    }

    /// The endpoint of the namespace, `https://{namespace}.servicebus.windows.net/`.
    pub fn endpoint(&self) -> (endpoint: &str)
        ensures
            endpoint@ == self@.endpoint,
    {
        self.endpoint.as_str()
    }

    fn entity(&self) -> (path: String)
        ensures
            path@ == self@.entity_path(),
    {
        let mut path = String::from_str("/");
        path.append(self.queue_name.as_str());
        path
    }

    /// Sends a message to the queue, with the default timeout.
    /// `properties` is the wire form of the broker's properties.
    pub fn send(&mut self, message: BrokeredMessage, properties: &str) -> (outcome: Result<
        RequestDescriptor,
        BuildError,
    >)
        ensures
            final(self)@.refreshed_from(old(self)@),
            outcome_view(outcome) == send_outcome(
                old(self)@.endpoint,
                old(self)@.entity_path(),
                message.body@,
                properties@,
                DEFAULT_TIMEOUT_SECS,
                final(self)@.credential.token,
            ),
    {
        self.send_with_timeout(message, properties, DEFAULT_TIMEOUT_SECS)
    }

    /// Receives a message from the queue under a lock, with the default
    /// timeout. The message stays on the server until it is completed.
    pub fn receive(&mut self) -> (outcome: Result<RequestDescriptor, BuildError>)
        ensures
            final(self)@.refreshed_from(old(self)@),
            outcome_view(outcome) == receive_outcome(
                Method::Post,
                old(self)@.endpoint,
                old(self)@.entity_path(),
                DEFAULT_TIMEOUT_SECS,
                final(self)@.credential.token,
            ),
    {
        self.receive_with_timeout(DEFAULT_TIMEOUT_SECS)
    }

    /// Receives a message from the queue and deletes it there, with the
    /// default timeout.
    pub fn receive_and_delete(&mut self) -> (outcome: Result<RequestDescriptor, BuildError>)
        ensures
            final(self)@.refreshed_from(old(self)@),
            outcome_view(outcome) == receive_outcome(
                Method::Delete,
                old(self)@.endpoint,
                old(self)@.entity_path(),
                DEFAULT_TIMEOUT_SECS,
                final(self)@.credential.token,
            ),
    {
        self.receive_and_delete_with_timeout(DEFAULT_TIMEOUT_SECS)
    }

    /// Sends a message to the queue with a timeout in seconds.
    pub fn send_with_timeout(
        &mut self,
        message: BrokeredMessage,
        properties: &str,
        timeout_secs: u64,
    ) -> (outcome: Result<RequestDescriptor, BuildError>)
        ensures
            final(self)@.refreshed_from(old(self)@),
            outcome_view(outcome) == send_outcome(
                old(self)@.endpoint,
                old(self)@.entity_path(),
                message.body@,
                properties@,
                timeout_secs,
                final(self)@.credential.token,
            ),
    {
        let sas = self.refresh_sas();
        let entity = self.entity();
        send_request(
            self.endpoint.as_str(),
            entity.as_str(),
            message.into_body(),
            String::from_str(properties),
            timeout_secs,
            sas,
        )
    }

    /// Receives a message from the queue and deletes it there.
    pub fn receive_and_delete_with_timeout(&mut self, timeout_secs: u64) -> (outcome: Result<
        RequestDescriptor,
        BuildError,
    >)
        ensures
            final(self)@.refreshed_from(old(self)@),
            outcome_view(outcome) == receive_outcome(
                Method::Delete,
                old(self)@.endpoint,
                old(self)@.entity_path(),
                timeout_secs,
                final(self)@.credential.token,
            ),
    {
        let sas = self.refresh_sas();
        let entity = self.entity();
        receive_request(Method::Delete, self.endpoint.as_str(), entity.as_str(), timeout_secs, sas)
    }

    /// Receives a message from the queue under a lock.
    pub fn receive_with_timeout(&mut self, timeout_secs: u64) -> (outcome: Result<
        RequestDescriptor,
        BuildError,
    >)
        ensures
            final(self)@.refreshed_from(old(self)@),
            outcome_view(outcome) == receive_outcome(
                Method::Post,
                old(self)@.endpoint,
                old(self)@.entity_path(),
                timeout_secs,
                final(self)@.credential.token,
            ),
    {
        let sas = self.refresh_sas();
        let entity = self.entity();
        receive_request(Method::Post, self.endpoint.as_str(), entity.as_str(), timeout_secs, sas)
    }

    /// Completes a message that was received under a lock: the server
    /// deletes it. Fails with `LocalMessage` for a message made locally.
    pub fn complete_message(&mut self, message: BrokeredMessage) -> (outcome: Result<
        RequestDescriptor,
        BuildError,
    >)
        ensures
            final(self)@.refreshed_from(old(self)@),
            outcome_view(outcome) == lock_outcome(
                Method::Delete,
                old(self)@.endpoint,
                old(self)@.entity_path(),
                &message,
                final(self)@.credential.token,
            ),
    {
        let sas = self.refresh_sas();
        let entity = self.entity();
        lock_request(Method::Delete, self.endpoint.as_str(), entity.as_str(), &message, sas)
    }

    /// Releases the lock on a message and puts it back into the queue.
    pub fn abandon_message(&mut self, message: BrokeredMessage) -> (outcome: Result<
        RequestDescriptor,
        BuildError,
    >)
        ensures
            final(self)@.refreshed_from(old(self)@),
            outcome_view(outcome) == lock_outcome(
                Method::Put,
                old(self)@.endpoint,
                old(self)@.entity_path(),
                &message,
                final(self)@.credential.token,
            ),
    {
        let sas = self.refresh_sas();
        let entity = self.entity();
        lock_request(Method::Put, self.endpoint.as_str(), entity.as_str(), &message, sas)
    }

    /// Renews the lock on a message, where more time is needed to process it.
    pub fn renew_message(&mut self, message: &BrokeredMessage) -> (outcome: Result<
        RequestDescriptor,
        BuildError,
    >)
        ensures
            final(self)@.refreshed_from(old(self)@),
            outcome_view(outcome) == lock_outcome(
                Method::Post,
                old(self)@.endpoint,
                old(self)@.entity_path(),
                message,
                final(self)@.credential.token,
            ),
    {
        let sas = self.refresh_sas();
        let entity = self.entity();
        lock_request(Method::Post, self.endpoint.as_str(), entity.as_str(), message, sas)
    }

    /// The address that completing, abandoning and renewing a message share.
    pub fn get_message_update_path(&self, message: &BrokeredMessage) -> (target: Result<
        String,
        AzureRequestError,
    >)
        ensures
            match target {
                Ok(uri) => message_update_target(self@.endpoint, self@.entity_path(), message)
                    == Ok::<Seq<char>, AzureRequestError>(uri@),
                Err(e) => message_update_target(self@.endpoint, self@.entity_path(), message)
                    == Err::<Seq<char>, AzureRequestError>(e),
            },
    {
        let entity = self.entity();
        message_update_uri(self.endpoint.as_str(), entity.as_str(), message)
    }

    /// The token to authorize a request with at `now`.
    pub fn refresh_sas_at(&mut self, now: u64) -> (token: String)
        ensures
            final(self)@ == (QueueClientView {
                credential: old(self)@.credential.after(now),
                ..old(self)@
            }),
            final(self)@.refreshed_from(old(self)@),
            token@ == final(self)@.credential.token,
    {
        proof {
            if old(self)@.credential.wf() {
                lemma_after_preserves_wf(old(self)@.credential, now);
            }
        }
        self.sas_info.get_valid_at(now)
    }

    /// The token to authorize a request with now.
    pub fn refresh_sas(&mut self) -> (token: String)
        ensures
            final(self)@.refreshed_from(old(self)@),
            token@ == final(self)@.credential.token,
    {
        self.refresh_sas_at(crate::sas::now_secs())
    }
}

} // verus!
