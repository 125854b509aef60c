//! The transport capability the controller publishes through.
//!
//! `Client` abstracts a publish/subscribe connection as two growing logs: the
//! publish requests and the subscription requests made so far. The engine's
//! contracts are stated over those logs, so what the controller sends — and
//! nothing else — is pinned for every implementation. `RecordingClient` is a
//! verified in-memory implementation that keeps the logs as plain vectors;
//! tests read them back directly.

use vstd::prelude::*;

verus! {

/// Spec-level image of one publish request: topic, payload bytes and
/// quality-of-service level, in the order they were handed to the transport.
pub struct MessageView {
    pub topic: Seq<char>,
    pub payload: Seq<u8>,
    pub qos: u8,
}

/// Spec-level image of one subscription request: the topics in the order they
/// were given, and the quality-of-service level asked for each.
pub struct SubscribeView {
    pub topics: Seq<Seq<char>>,
    pub qos: Seq<u8>,
}

/// Failure of a transport operation. The engine never reads any detail of a
/// failure, so the type carries none.
#[derive(Clone, Copy, Debug, PartialEq, Eq, Structural)]
pub struct TransportError;

/// A publish/subscribe connection, modelled by the log of publish requests,
/// the log of subscription requests made through it, and whether it
/// currently confirms each kind of request.
///
/// Both operations record the request whether or not the transport accepts
/// it: the logs are logs of attempts, and an `Err` result only reports that
/// the transport did not confirm. A request's outcome is exactly what the
/// acceptance state says, and a request never changes that state, so a
/// caller can carry success of one call across another.
pub trait Client: Sized {
    /// All publish requests made so far, oldest first.
    spec fn published(&self) -> Seq<MessageView>;

    /// All subscription requests made so far, oldest first.
    spec fn subscribed(&self) -> Seq<SubscribeView>;

    /// Whether the transport confirms publish requests.
    spec fn accepts_publish(&self) -> bool;

    /// Whether the transport confirms subscription requests.
    spec fn accepts_subscribe(&self) -> bool;

    /// Request delivery of `payload` under `topic` at the given
    /// quality-of-service level.
    fn publish(&mut self, topic: &str, payload: &[u8], qos: u8) -> (r: Result<
        (),
        TransportError,
    >)
        ensures
            final(self).published() == old(self).published().push(
                MessageView { topic: topic@, payload: payload@, qos: qos },
            ),
            final(self).subscribed() == old(self).subscribed(),
            r is Ok <==> old(self).accepts_publish(),
            final(self).accepts_publish() == old(self).accepts_publish(),
            final(self).accepts_subscribe() == old(self).accepts_subscribe(),
    ;

    /// Request a subscription to each topic in `topics`, with `qos[i]` asked
    /// for `topics[i]`.
    fn subscribe_many(&mut self, topics: &[&str], qos: &[u8]) -> (r: Result<(), TransportError>)
        ensures
            final(self).subscribed() == old(self).subscribed().push(
                SubscribeView { topics: topics.deep_view(), qos: qos@ },
            ),
            final(self).published() == old(self).published(),
            r is Ok <==> old(self).accepts_subscribe(),
            final(self).accepts_publish() == old(self).accepts_publish(),
            final(self).accepts_subscribe() == old(self).accepts_subscribe(),
    ;
}

/// One recorded publish request.
pub struct PublishRecord {
    pub topic: String,
    pub payload: Vec<u8>,
    pub qos: u8,
}

/// One recorded subscription request.
pub struct SubscribeRecord {
    pub topics: Vec<String>,
    pub qos: Vec<u8>,
}

/// An in-memory transport that records every request and confirms or refuses
/// them as the two `accept_*` switches say. It backs the tests, where the
/// recorded logs are compared against the engine's contracts.
pub struct RecordingClient {
    pub publishes: Vec<PublishRecord>,
    pub subscribes: Vec<SubscribeRecord>,
    pub accept_publish: bool,
    pub accept_subscribe: bool,
}

/// View of one recorded publish request.
pub open spec fn publish_record_view(r: PublishRecord) -> MessageView {
    MessageView { topic: r.topic@, payload: r.payload@, qos: r.qos }
}

/// View of one recorded subscription request.
pub open spec fn subscribe_record_view(r: SubscribeRecord) -> SubscribeView {
    SubscribeView { topics: r.topics.deep_view(), qos: r.qos@ }
}

impl RecordingClient {
    /// A fresh recorder with empty logs that confirms every request.
    pub fn new() -> (r: RecordingClient)
        ensures
            r.published() == Seq::<MessageView>::empty(),
            r.subscribed() == Seq::<SubscribeView>::empty(),
            r.accept_publish,
            r.accept_subscribe,
    {
        let r = RecordingClient {
            publishes: Vec::new(),
            subscribes: Vec::new(),
            accept_publish: true,
            accept_subscribe: true,
        };
        proof {
            assert(r.published() =~= Seq::<MessageView>::empty());
            assert(r.subscribed() =~= Seq::<SubscribeView>::empty());
        }
        r
    }
}

impl Client for RecordingClient {
    open spec fn published(&self) -> Seq<MessageView> {
        self.publishes@.map_values(|r: PublishRecord| publish_record_view(r))
    }

    open spec fn subscribed(&self) -> Seq<SubscribeView> {
        self.subscribes@.map_values(|r: SubscribeRecord| subscribe_record_view(r))
    }

    open spec fn accepts_publish(&self) -> bool {
        self.accept_publish
    }

    open spec fn accepts_subscribe(&self) -> bool {
        self.accept_subscribe
    }

    fn publish(&mut self, topic: &str, payload: &[u8], qos: u8) -> (r: Result<
        (),
        TransportError,
    >) {
        let record = PublishRecord {
            topic: topic.to_owned(),
            payload: vstd::slice::slice_to_vec(payload),
            qos: qos,
        };
        self.publishes.push(record);
        proof {
            assert(self.published() =~= old(self).published().push(
                MessageView { topic: topic@, payload: payload@, qos: qos },
            ));
            assert(self.subscribed() =~= old(self).subscribed());
        }
        if self.accept_publish {
            Ok(())
        } else {
            Err(TransportError)
        }
    }

    fn subscribe_many(&mut self, topics: &[&str], qos: &[u8]) -> (r: Result<(), TransportError>) {
        let mut owned: Vec<String> = Vec::new();
        let mut i: usize = 0;
        while i < topics.len()
            invariant
                i <= topics@.len(),
                owned@.len() == i,
                forall|j: int| 0 <= j < i ==> owned@[j]@ == topics@[j]@,
            decreases topics@.len() - i,
        {
            owned.push(topics[i].to_owned());
            i = i + 1;
        }
        proof {
            assert(owned.deep_view() =~= topics.deep_view());
        }
        let record = SubscribeRecord { topics: owned, qos: vstd::slice::slice_to_vec(qos) };
        self.subscribes.push(record);
        proof {
            assert(self.subscribed() =~= old(self).subscribed().push(
                SubscribeView { topics: topics.deep_view(), qos: qos@ },
            ));
            assert(self.published() =~= old(self).published());
        }
        if self.accept_subscribe {
            Ok(())
        } else {
            Err(TransportError)
        }
    }
}

} // verus!
