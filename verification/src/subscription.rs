//! The client of a subscription to a Service Bus topic.
//!
//! Producers send to the topic; each subscription to it receives every
//! message and works as a queue of its own.

use crate::connection::{connection_value, https_scheme, replace_scheme};
use crate::error::{AzureRequestError, BuildError};
use crate::message::BrokeredMessage;
use crate::request::{
    is_uri, lock_outcome, lock_request, message_update_target, message_update_uri, outcome_view,
    parses_as_uri, receive_outcome, receive_request, Method, RequestDescriptor,
};
use crate::queue::DEFAULT_TIMEOUT_SECS;
use crate::sas::{field_or_empty, lemma_after_preserves_wf, CredentialCache, CredentialView};
use vstd::prelude::*;
use vstd::string::StringExecFns;

verus! {

/// Client for a subscription to a Service Bus topic.
pub struct SubscriptionClient {
    topic_name: String,
    subscription_name: String,
    endpoint: String,
    sas_info: CredentialCache,
}

/// A `SubscriptionClient` as plain values.
pub struct SubscriptionClientView {
    pub endpoint: Seq<char>,
    pub topic_name: Seq<char>,
    pub subscription_name: Seq<char>,
    pub credential: CredentialView,
}

impl SubscriptionClientView {
    /// The path of the subscription on the endpoint.
    pub open spec fn entity_path(self) -> Seq<char> {
        "/"@ + self.topic_name + "/subscriptions/"@ + self.subscription_name
    }

    /// The endpoint is a URI and the cached token is the one of the
    /// connection string.
    pub open spec fn wf(self) -> bool {
        is_uri(self.endpoint) && self.credential.wf()
    }

    /// Whether `self` is `earlier` after a token has been asked for: the
    /// same subscription on the same endpoint, with the token kept or
    /// replaced.
    pub open spec fn refreshed_from(self, earlier: SubscriptionClientView) -> bool {
        &&& self.endpoint == earlier.endpoint
        &&& self.topic_name == earlier.topic_name
        &&& self.subscription_name == earlier.subscription_name
        &&& self.credential.refreshed_from(earlier.credential)
        &&& earlier.wf() ==> self.wf()
    }
}

/// The endpoint that a subscription client takes from a connection string:
/// the value of `Endpoint`, empty where there is none, with HTTPS for its
/// scheme.
pub open spec fn subscription_endpoint(conn: Seq<char>) -> Result<Seq<char>, BuildError> {
    let endpoint = https_scheme(field_or_empty(conn, "Endpoint"@));
    if is_uri(endpoint) {
        Ok(endpoint)
    } else {
        Err(BuildError::InvalidUri)
    }
}

impl View for SubscriptionClient {
    type V = SubscriptionClientView;

    closed spec fn view(&self) -> SubscriptionClientView {
        SubscriptionClientView {
            endpoint: self.endpoint@,
            topic_name: self.topic_name@,
            subscription_name: self.subscription_name@,
            credential: self.sas_info@,
        }
    }
}

impl SubscriptionClient {
    /// A client for the subscription `subscription` to the topic `topic` of
    /// the namespace that the connection string names. Fails where the
    /// endpoint is not a URI.
    pub fn with_conn_topic_and_subscr(connection_string: &str, topic: &str, subscription: &str) -> (client:
        Result<SubscriptionClient, BuildError>)
        ensures
            match client {
                Ok(c) => {
                    &&& subscription_endpoint(connection_string@) == Ok::<Seq<char>, BuildError>(
                        c@.endpoint,
                    )
                    &&& c@.topic_name == topic@
                    &&& c@.subscription_name == subscription@
                    &&& c@.credential.is_fresh_for(connection_string@)
                    &&& c@.wf()
                },
                Err(e) => subscription_endpoint(connection_string@) == Err::<
                    Seq<char>,
                    BuildError,
                >(e),
            },
    {
        let value = match connection_value(connection_string, "Endpoint") {
            Some(value) => value,
            None => String::new(),
        };
        let endpoint = replace_scheme(value.as_str());
        if !parses_as_uri(endpoint.as_str()) {
            return Err(BuildError::InvalidUri);
        }
        Ok(
            SubscriptionClient {
                topic_name: String::from_str(topic),
                subscription_name: String::from_str(subscription),
                endpoint,
                sas_info: CredentialCache::new(connection_string),
            },
        )
    }

    /// The name of the subscription.
    pub fn subscription(&self) -> (name: &str)
        ensures
            name@ == self@.subscription_name,
    {
        self.subscription_name.as_str()
    }

    /// The name of the topic.
    pub fn topic(&self) -> (name: &str)
        ensures
            name@ == self@.topic_name,
    {
        self.topic_name.as_str()
    }

    /// The endpoint of the namespace, `https://{namespace}.servicebus.windows.net/`.
    pub fn endpoint(&self) -> (endpoint: &str)
        ensures
            endpoint@ == self@.endpoint,
    {
        self.endpoint.as_str()
    }

    fn entity(&self) -> (path: String)
        ensures
            path@ == self@.entity_path(),
    {
        let mut path = String::from_str("/");
        path.append(self.topic_name.as_str());
        path.append("/subscriptions/");
        path.append(self.subscription_name.as_str());
        path
    }

    /// Receives a message from the subscription under a lock, with the default
    /// timeout. The message stays on the server until it is completed.
    pub fn receive(&mut self) -> (outcome: Result<RequestDescriptor, BuildError>)
        ensures
            final(self)@.refreshed_from(old(self)@),
            outcome_view(outcome) == receive_outcome(
                Method::Post,
                old(self)@.endpoint,
                old(self)@.entity_path(),
                DEFAULT_TIMEOUT_SECS,
                final(self)@.credential.token,
            ),
    {
        self.receive_with_timeout(DEFAULT_TIMEOUT_SECS)
    }

    /// Receives a message from the subscription and deletes it there, with the
    /// default timeout.
    pub fn receive_and_delete(&mut self) -> (outcome: Result<RequestDescriptor, BuildError>)
        ensures
            final(self)@.refreshed_from(old(self)@),
            outcome_view(outcome) == receive_outcome(
                Method::Delete,
                old(self)@.endpoint,
                old(self)@.entity_path(),
                DEFAULT_TIMEOUT_SECS,
                final(self)@.credential.token,
            ),
    {
        self.receive_and_delete_with_timeout(DEFAULT_TIMEOUT_SECS)
    }

    /// Receives a message from the subscription and deletes it there.
    pub fn receive_and_delete_with_timeout(&mut self, timeout_secs: u64) -> (outcome: Result<
        RequestDescriptor,
        BuildError,
    >)
        ensures
            final(self)@.refreshed_from(old(self)@),
            outcome_view(outcome) == receive_outcome(
                Method::Delete,
                old(self)@.endpoint,
                old(self)@.entity_path(),
                timeout_secs,
                final(self)@.credential.token,
            ),
    {
        let sas = self.refresh_sas();
        let entity = self.entity();
        receive_request(Method::Delete, self.endpoint.as_str(), entity.as_str(), timeout_secs, sas)
    }

    /// Receives a message from the subscription under a lock.
    pub fn receive_with_timeout(&mut self, timeout_secs: u64) -> (outcome: Result<
        RequestDescriptor,
        BuildError,
    >)
        ensures
            final(self)@.refreshed_from(old(self)@),
            outcome_view(outcome) == receive_outcome(
                Method::Post,
                old(self)@.endpoint,
                old(self)@.entity_path(),
                timeout_secs,
                final(self)@.credential.token,
            ),
    {
        let sas = self.refresh_sas();
        let entity = self.entity();
        receive_request(Method::Post, self.endpoint.as_str(), entity.as_str(), timeout_secs, sas)
    }

    /// Completes a message that was received under a lock: the server
    /// deletes it. Fails with `LocalMessage` for a message made locally.
    pub fn complete_message(&mut self, message: BrokeredMessage) -> (outcome: Result<
        RequestDescriptor,
        BuildError,
    >)
        ensures
            final(self)@.refreshed_from(old(self)@),
            outcome_view(outcome) == lock_outcome(
                Method::Delete,
                old(self)@.endpoint,
                old(self)@.entity_path(),
                &message,
                final(self)@.credential.token,
            ),
    {
        let sas = self.refresh_sas();
        let entity = self.entity();
        lock_request(Method::Delete, self.endpoint.as_str(), entity.as_str(), &message, sas)
    }

    /// Releases the lock on a message and puts it back into the subscription.
    pub fn abandon_message(&mut self, message: BrokeredMessage) -> (outcome: Result<
        RequestDescriptor,
        BuildError,
    >)
        ensures
            final(self)@.refreshed_from(old(self)@),
            outcome_view(outcome) == lock_outcome(
                Method::Put,
                old(self)@.endpoint,
                old(self)@.entity_path(),
                &message,
                final(self)@.credential.token,
            ),
    {
        let sas = self.refresh_sas();
        let entity = self.entity();
        lock_request(Method::Put, self.endpoint.as_str(), entity.as_str(), &message, sas)
    }

    /// Renews the lock on a message, where more time is needed to process it.
    pub fn renew_message(&mut self, message: &BrokeredMessage) -> (outcome: Result<
        RequestDescriptor,
        BuildError,
    >)
        ensures
            final(self)@.refreshed_from(old(self)@),
            outcome_view(outcome) == lock_outcome(
                Method::Post,
                old(self)@.endpoint,
                old(self)@.entity_path(),
                message,
                final(self)@.credential.token,
            ),
    {
        let sas = self.refresh_sas();
        let entity = self.entity();
        lock_request(Method::Post, self.endpoint.as_str(), entity.as_str(), message, sas)
    }

    /// The address that completing, abandoning and renewing a message share.
    pub fn get_message_update_path(&self, message: &BrokeredMessage) -> (target: Result<
        String,
        AzureRequestError,
    >)
        ensures
            match target {
                Ok(uri) => message_update_target(self@.endpoint, self@.entity_path(), message)
                    == Ok::<Seq<char>, AzureRequestError>(uri@),
                Err(e) => message_update_target(self@.endpoint, self@.entity_path(), message)
                    == Err::<Seq<char>, AzureRequestError>(e),
            },
    {
        let entity = self.entity();
        message_update_uri(self.endpoint.as_str(), entity.as_str(), message)
    }

    /// The token to authorize a request with at `now`.
    pub fn refresh_sas_at(&mut self, now: u64) -> (token: String)
        ensures
            final(self)@ == (SubscriptionClientView {
                credential: old(self)@.credential.after(now),
                ..old(self)@
            }),
            final(self)@.refreshed_from(old(self)@),
            token@ == final(self)@.credential.token,
    {
        proof {
            if old(self)@.credential.wf() {
                lemma_after_preserves_wf(old(self)@.credential, now);
            }
        }
        self.sas_info.get_valid_at(now)
    }

    /// The token to authorize a request with now.
    pub fn refresh_sas(&mut self) -> (token: String)
        ensures
            final(self)@.refreshed_from(old(self)@),
            token@ == final(self)@.credential.token,
    {
        self.refresh_sas_at(crate::sas::now_secs())
    }
}

} // verus!
