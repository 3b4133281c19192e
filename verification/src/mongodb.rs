//! The document sink: credential resolution at construction, the bounded
//! ingestion queue, frame classification on the producer side, and the
//! consumer-side conversion of queued values into store documents.
//!
//! Network traffic to the store (connecting, the reachability probe's round
//! trip, the document writes themselves) is the caller's concern; this module
//! holds every decision those exchanges feed: which credential to present,
//! whether a probe reply counts as success, which frames enter the queue,
//! and which documents each queued value yields.

use vstd::prelude::*;

verus! {

use vstd::string::StringExecFns;
use crate::config::Config;
use crate::frame::Frame;
use crate::json::{
    accepted_item,
    convert_item,
    item_documents,
    parse_json_bytes,
    parse_json_text,
    parsed_bytes_of,
    parsed_text_of,
    to_queue_item,
    Document,
    Parsed,
    QueueItem,
};
use crate::str_eq;

/// Errors raised by the document sink.
#[derive(Debug, Clone, PartialEq, Eq)]
pub enum SinkError {
    /// The configured authentication mechanism name is not in the supported
    /// set; carries the offending name.
    UnsupportedAuthMechanism(String),
    /// A frame kind outside the supported vocabulary was offered to the sink.
    UnsupportedMessageFormat,
    /// The store reachability probe did not report success at construction.
    StoreUnreachable,
    /// A store-level failure, carrying its message.
    Store(String),
}

impl SinkError {
    /// The human-readable description of this error.
    pub open spec fn message_spec(&self) -> Seq<char> {
        match self {
            SinkError::UnsupportedAuthMechanism(name) => "Unsupported auth mechanism: "@ + name@,
            SinkError::UnsupportedMessageFormat => "Unsupported message format"@,
            SinkError::StoreUnreachable => "Error connecting to MongoDB"@,
            SinkError::Store(m) => m@,
        }
    }

    /// Renders the error as text, for logging.
    pub fn message(&self) -> (r: String)
        ensures
            r@ == self.message_spec(),
    {
        match self {
            SinkError::UnsupportedAuthMechanism(name) => {
                let prefix: String = "Unsupported auth mechanism: ".to_owned();
                prefix.concat(name.as_str())
            },
            SinkError::UnsupportedMessageFormat => "Unsupported message format".to_owned(),
            SinkError::StoreUnreachable => "Error connecting to MongoDB".to_owned(),
            SinkError::Store(m) => m.clone(),
        }
    }
}

/// Builds a store-level error carrying the given message.
pub fn generate_mongo_error(message: &str) -> (r: SinkError)
    ensures
        r matches SinkError::Store(m) && m@ == message@,
{
    SinkError::Store(message.to_owned())
}

/// The supported authentication mechanisms, as typed variants.
#[derive(Debug, Clone, Copy, PartialEq, Eq, Structural)]
pub enum AuthMechanism {
    ScramSha1,
    ScramSha256,
    MongoDbCr,
    MongoDbX509,
    Plain,
}

/// The variant a declared mechanism name resolves to, if any: supported
/// names map one to one onto the variants; every other name is refused.
pub open spec fn mechanism_of(name: Seq<char>) -> Option<AuthMechanism> {
    if name == "SCRAM-SHA-1"@ {
        Some(AuthMechanism::ScramSha1)
    } else if name == "SCRAM-SHA-256"@ {
        Some(AuthMechanism::ScramSha256)
    } else if name == "MONGODB-CR"@ {
        Some(AuthMechanism::MongoDbCr)
    } else if name == "MONGODB-X509"@ {
        Some(AuthMechanism::MongoDbX509)
    } else if name == "PLAIN"@ {
        Some(AuthMechanism::Plain)
    } else {
        None
    }
}

/// Resolves a declared mechanism name to its typed variant, failing fast on
/// any unrecognized name.
pub fn resolve_auth_mechanism(name: &str) -> (r: Result<AuthMechanism, SinkError>)
    ensures
        (match mechanism_of(name@) {
            Some(mech) => r == Ok::<AuthMechanism, SinkError>(mech),
            None => r matches Err(SinkError::UnsupportedAuthMechanism(n)) && n@ == name@,
        }),
{
    if str_eq(name, "SCRAM-SHA-1") {
        Ok(AuthMechanism::ScramSha1)
    } else if str_eq(name, "SCRAM-SHA-256") {
        Ok(AuthMechanism::ScramSha256)
    } else if str_eq(name, "MONGODB-CR") {
        Ok(AuthMechanism::MongoDbCr)
    } else if str_eq(name, "MONGODB-X509") {
        Ok(AuthMechanism::MongoDbX509)
    } else if str_eq(name, "PLAIN") {
        Ok(AuthMechanism::Plain)
    } else {
        Err(SinkError::UnsupportedAuthMechanism(name.to_owned()))
    }
}

/// The resolved, typed credential presented to the store: principal,
/// optional password, authentication source, and optional mechanism.
#[derive(Debug, Clone, PartialEq, Eq)]
pub struct Credential {
    pub username: String,
    pub password: Option<String>,
    pub source: String,
    pub mechanism: Option<AuthMechanism>,
}

/// The authentication source to present: the configured one, or "admin"
/// when none is configured.
pub open spec fn source_or_default(source: Option<String>) -> Seq<char> {
    match source {
        Some(s) => s@,
        None => "admin"@,
    }
}

/// What resolving a credential from the configured values must yield:
/// no username means no credential; a username yields a credential carrying
/// it, the password as given, the defaulted source, and the resolved
/// mechanism; an unresolvable mechanism name fails the whole resolution.
pub open spec fn credential_outcome(
    user: Option<String>,
    password: Option<String>,
    source: Option<String>,
    mechanism: Option<String>,
    r: Result<Option<Credential>, SinkError>,
) -> bool {
    match user {
        None => r == Ok::<Option<Credential>, SinkError>(None),
        Some(u) => (match mechanism {
            None => r matches Ok(Some(c)) && c.username == u && c.password == password
                && c.source@ == source_or_default(source) && c.mechanism is None,
            Some(m) => (match mechanism_of(m@) {
                Some(mech) => r matches Ok(Some(c)) && c.username == u && c.password == password
                    && c.source@ == source_or_default(source) && c.mechanism == Some(mech),
                None => r == Err::<Option<Credential>, SinkError>(
                    SinkError::UnsupportedAuthMechanism(m),
                ),
            }),
        }),
    }
}

/// Resolves the credential to present to the store from the configured
/// values, failing fast when the mechanism name is unsupported.
pub fn build_credential(
    user: Option<String>,
    password: Option<String>,
    source: Option<String>,
    mechanism: Option<String>,
) -> (r: Result<Option<Credential>, SinkError>)
    ensures
        credential_outcome(user, password, source, mechanism, r),
{
    let username = match user {
        None => {
            return Ok(None);
        },
        Some(u) => u,
    };
    let resolved: Option<AuthMechanism> = match mechanism {
        None => None,
        Some(m) => {
            match resolve_auth_mechanism(m.as_str()) {
                Ok(mech) => Some(mech),
                Err(_) => {
                    return Err(SinkError::UnsupportedAuthMechanism(m));
                },
            }
        },
    };
    let source = match source {
        Some(s) => s,
        None => "admin".to_owned(),
    };
    Ok(Some(Credential { username, password, source, mechanism: resolved }))
}

/// Judges the store reachability probe's round trip: the probe succeeds
/// exactly when the reply carried an "ok" field equal to one; a reply whose
/// "ok" field is anything else is an unexpected response, and a reply the
/// "ok" field could not be read from fails with that reader's message.
pub fn test_mongo_connection(ping_ok: Result<bool, String>) -> (r: Result<(), SinkError>)
    ensures
        r is Ok <==> ping_ok == Ok::<bool, String>(true),
        ping_ok == Ok::<bool, String>(false) ==> (r matches Err(SinkError::Store(m)) && m@
            == "Unexpected response to ping"@),
        (match ping_ok {
            Err(e) => r matches Err(SinkError::Store(m)) && m@ == e@,
            Ok(_) => true,
        }),
{
    match ping_ok {
        Ok(true) => Ok(()),
        Ok(false) => Err(generate_mongo_error("Unexpected response to ping")),
        Err(e) => Err(generate_mongo_error(e.as_str())),
    }
}

/// The queue capacity a sink is constructed with unless a caller chooses
/// another.
pub const DEFAULT_QUEUE_CAPACITY: usize = 100;

/// How an offered frame fared at the queue.
#[derive(Debug, Clone, Copy, PartialEq, Eq, Structural)]
pub enum EnqueueOutcome {
    /// The frame's parsed value entered the queue.
    Enqueued,
    /// The frame carried nothing for the queue: a control frame, an
    /// unparseable payload, or a payload of an unsupported top-level shape.
    /// All three are absorbed without error.
    Ignored,
    /// The queue is full; the caller suspends until a dequeue frees capacity
    /// and offers the frame again.
    WouldBlock,
}

/// The queue item an inbound frame contributes, or the error it raises:
/// text and binary payloads parse and are screened by shape, control frames
/// contribute nothing, and any other frame kind is unsupported.
pub open spec fn frame_item_spec(f: Frame) -> Result<Option<QueueItem>, SinkError> {
    match f {
        Frame::Text(t) => Ok(accepted_item(parsed_text_of(t@))),
        Frame::Binary(b) => Ok(accepted_item(parsed_bytes_of(b@))),
        Frame::Ping(_) => Ok(None),
        Frame::Pong(_) => Ok(None),
        Frame::Close(_) => Ok(None),
        Frame::Other => Err(SinkError::UnsupportedMessageFormat),
    }
}

/// Classifies one inbound frame into the queue item it contributes, if any.
/// Control frames (ping, pong, close) are observed only; payload frames are
/// parsed, and values that are neither an object nor an array are rejected
/// here, before the queue.
pub fn queue_item_of_frame(message: Frame) -> (r: Result<Option<QueueItem>, SinkError>)
    ensures
        r == frame_item_spec(message),
{
    match message {
        Frame::Text(t) => Ok(to_queue_item(parse_json_text(t.as_str()))),
        Frame::Binary(b) => Ok(to_queue_item(parse_json_bytes(b.as_slice()))),
        Frame::Ping(_) => Ok(None),
        Frame::Pong(_) => Ok(None),
        Frame::Close(_) => Ok(None),
        Frame::Other => Err(SinkError::UnsupportedMessageFormat),
    }
}

/// The documents a whole queue yields when drained front to back.
pub open spec fn drain_documents(q: Seq<QueueItem>) -> Seq<Document>
    decreases q.len(),
{
    if q.len() == 0 {
        Seq::empty()
    } else {
        item_documents(q.first()) + drain_documents(q.drop_first())
    }
}

/// Draining distributes over concatenation: what a queue segment yields is
/// unaffected by the items queued after it, so items are persisted in
/// first-in-first-out order and one item's failures never touch another's
/// documents.
pub proof fn lemma_drain_documents_concat(q1: Seq<QueueItem>, q2: Seq<QueueItem>)
    ensures
        drain_documents(q1 + q2) == drain_documents(q1) + drain_documents(q2),
    decreases q1.len(),
{
    if q1.len() == 0 {
        assert(q1 + q2 =~= q2);
        assert(drain_documents(q1) + drain_documents(q2) =~= drain_documents(q2));
    } else {
        lemma_drain_documents_concat(q1.drop_first(), q2);
        assert((q1 + q2).first() == q1.first());
        assert((q1 + q2).drop_first() =~= q1.drop_first() + q2);
        assert(item_documents(q1.first()) + (drain_documents(q1.drop_first()) + drain_documents(
            q2,
        )) =~= (item_documents(q1.first()) + drain_documents(q1.drop_first())) + drain_documents(
            q2,
        ));
    }
}

/// Appending one item to the queue appends exactly that item's documents.
pub proof fn lemma_drain_documents_push(q: Seq<QueueItem>, item: QueueItem)
    ensures
        drain_documents(q.push(item)) == drain_documents(q) + item_documents(item),
{
    assert(q.push(item) =~= q + seq![item]);
    lemma_drain_documents_concat(q, seq![item]);
    assert(drain_documents(Seq::<QueueItem>::empty()) =~= Seq::<Document>::empty());
    assert(seq![item].drop_first() =~= Seq::<QueueItem>::empty());
    assert(seq![item].first() == item);
    assert(drain_documents(seq![item]) == item_documents(item) + drain_documents(
        seq![item].drop_first(),
    ));
    assert(drain_documents(seq![item]) =~= item_documents(item));
}

/// Judges the reachability probe at sink construction: any probe failure,
/// whatever its detail, aborts the whole construction as the single fatal
/// startup check, with the store marked unreachable.
pub fn check_store_reachable(ping_ok: Result<bool, String>) -> (r: Result<(), SinkError>)
    ensures
        r is Ok <==> ping_ok == Ok::<bool, String>(true),
        r is Err ==> r == Err::<(), SinkError>(SinkError::StoreUnreachable),
{
    match test_mongo_connection(ping_ok) {
        Ok(()) => Ok(()),
        Err(_) => Err(SinkError::StoreUnreachable),
    }
}

/// One offer of an admitted value to the bounded queue: the value enters
/// when the queue is below capacity; a full queue keeps its contents and
/// reports that the caller would block.
pub open spec fn offer_spec(q: Seq<QueueItem>, cap: nat, item: QueueItem) -> (
    Seq<QueueItem>,
    EnqueueOutcome,
) {
    if q.len() < cap {
        (q.push(item), EnqueueOutcome::Enqueued)
    } else {
        (q, EnqueueOutcome::WouldBlock)
    }
}

/// With queue capacity C, the offer that would exceed C does not complete:
/// it leaves the queue unchanged and suspends the caller. As soon as one
/// dequeue frees capacity, the same offer is accepted and appends the item.
pub proof fn lemma_backpressure(q: Seq<QueueItem>, cap: nat, item: QueueItem)
    requires
        q.len() == cap,
        cap >= 1,
    ensures
        offer_spec(q, cap, item).1 == EnqueueOutcome::WouldBlock,
        offer_spec(q, cap, item).0 == q,
        offer_spec(q.drop_first(), cap, item).1 == EnqueueOutcome::Enqueued,
        offer_spec(q.drop_first(), cap, item).0 == q.drop_first().push(item),
{
}

/// The documents a frame eventually contributes to the store, assuming
/// every storage write succeeds: the documents of the queue item it is
/// admitted as, and none otherwise.
pub open spec fn frame_documents(f: Frame) -> Seq<Document> {
    match frame_item_spec(f) {
        Ok(Some(item)) => item_documents(item),
        _ => Seq::empty(),
    }
}

/// A frame whose payload parses to an object yields, once its queue item is
/// drained, exactly one persisted document, carrying exactly the parsed
/// field set — no duplication, whatever else is pending in the queue.
pub proof fn lemma_object_frame_exactly_one_document(f: Frame, d: Document, q: Seq<QueueItem>)
    requires
        (match f {
            Frame::Text(t) => parsed_text_of(t@) == Some(Parsed::Object(d)),
            Frame::Binary(b) => parsed_bytes_of(b@) == Some(Parsed::Object(d)),
            _ => false,
        }),
    ensures
        frame_item_spec(f) == Ok::<Option<QueueItem>, SinkError>(Some(QueueItem::Object(d))),
        frame_documents(f).len() == 1,
        frame_documents(f)[0] == d,
        drain_documents(q.push(QueueItem::Object(d))) == drain_documents(q) + seq![d],
{
    lemma_drain_documents_push(q, QueueItem::Object(d));
}

/// The document sink: the resolved credential and target names, and the
/// bounded first-in-first-out queue between the frame handler and the
/// single consumer that writes documents to the store.
pub struct MongoClient {
    credential: Option<Credential>,
    database_name: String,
    collection_name: String,
    queue: Vec<QueueItem>,
    capacity: usize,
}

impl MongoClient {
    /// The credential this sink presents to the store, if any.
    pub closed spec fn credential_spec(&self) -> Option<Credential> {
        self.credential
    }

    /// The configured database name.
    pub closed spec fn database_name_spec(&self) -> Seq<char> {
        self.database_name@
    }

    /// The configured collection name.
    pub closed spec fn collection_name_spec(&self) -> Seq<char> {
        self.collection_name@
    }

    /// The queued items, front first.
    pub closed spec fn queue_model(&self) -> Seq<QueueItem> {
        self.queue@
    }

    /// The fixed capacity of the queue.
    pub closed spec fn capacity_spec(&self) -> nat {
        self.capacity as nat
    }

    /// The queue never holds more than its capacity.
    pub open spec fn inv(&self) -> bool {
        self.queue_model().len() <= self.capacity_spec() && self.capacity_spec() >= 1
    }

    /// Everything the queue operations leave unchanged: the credential, the
    /// target names, and the capacity.
    pub open spec fn same_identity(&self, other: &MongoClient) -> bool {
        self.credential_spec() == other.credential_spec() && self.database_name_spec()
            == other.database_name_spec() && self.collection_name_spec()
            == other.collection_name_spec() && self.capacity_spec() == other.capacity_spec()
    }

    /// The credential this sink presents to the store, if any.
    pub fn credential(&self) -> (r: &Option<Credential>)
        ensures
            *r == self.credential_spec(),
    {
        &self.credential
    }

    /// The configured database name.
    pub fn database_name(&self) -> (r: &String)
        ensures
            r@ == self.database_name_spec(),
    {
        &self.database_name
    }

    /// The configured collection name.
    pub fn collection_name(&self) -> (r: &String)
        ensures
            r@ == self.collection_name_spec(),
    {
        &self.collection_name
    }

    /// How many values are queued.
    pub fn queue_len(&self) -> (r: usize)
        ensures
            r == self.queue_model().len(),
    {
        self.queue.len()
    }

    /// The fixed queue capacity.
    pub fn capacity(&self) -> (r: usize)
        ensures
            r == self.capacity_spec(),
    {
        self.capacity
    }

    /// Constructs a sink from the configuration with the given queue
    /// capacity: resolves the credential (failing fast on an unsupported
    /// mechanism name) and starts with an empty queue.
    pub fn with_capacity(config: Config, capacity: usize) -> (r: Result<MongoClient, SinkError>)
        requires
            capacity >= 1,
        ensures
            (match r {
                Ok(c) => credential_outcome(
                    config.mongodb_user,
                    config.mongodb_password,
                    config.mongodb_auth_source,
                    config.mongodb_auth_mechanism,
                    Ok(c.credential_spec()),
                ) && c.database_name_spec() == config.database_name@ && c.collection_name_spec()
                    == config.collection_name@ && c.queue_model() == Seq::<QueueItem>::empty()
                    && c.capacity_spec() == capacity && c.inv(),
                Err(e) => credential_outcome(
                    config.mongodb_user,
                    config.mongodb_password,
                    config.mongodb_auth_source,
                    config.mongodb_auth_mechanism,
                    Err(e),
                ),
            }),
            r is Err <==> (config.mongodb_user is Some && (match config.mongodb_auth_mechanism {
                Some(m) => mechanism_of(m@) is None,
                None => false,
            })),
    {
        let credential = match build_credential(
            config.mongodb_user,
            config.mongodb_password,
            config.mongodb_auth_source,
            config.mongodb_auth_mechanism,
        ) {
            Ok(c) => c,
            Err(e) => {
                return Err(e);
            },
        };
        Ok(
            MongoClient {
                credential,
                database_name: config.database_name,
                collection_name: config.collection_name,
                queue: Vec::new(),
                capacity,
            },
        )
    }

    /// Constructs a sink from the configuration with the default queue
    /// capacity.
    pub fn new(config: Config) -> (r: Result<MongoClient, SinkError>)
        ensures
            (match r {
                Ok(c) => credential_outcome(
                    config.mongodb_user,
                    config.mongodb_password,
                    config.mongodb_auth_source,
                    config.mongodb_auth_mechanism,
                    Ok(c.credential_spec()),
                ) && c.database_name_spec() == config.database_name@ && c.collection_name_spec()
                    == config.collection_name@ && c.queue_model() == Seq::<QueueItem>::empty()
                    && c.capacity_spec() == DEFAULT_QUEUE_CAPACITY && c.inv(),
                Err(e) => credential_outcome(
                    config.mongodb_user,
                    config.mongodb_password,
                    config.mongodb_auth_source,
                    config.mongodb_auth_mechanism,
                    Err(e),
                ),
            }),
            r is Err <==> (config.mongodb_user is Some && (match config.mongodb_auth_mechanism {
                Some(m) => mechanism_of(m@) is None,
                None => false,
            })),
    {
        MongoClient::with_capacity(config, DEFAULT_QUEUE_CAPACITY)
    }

    /// Offers one inbound frame to the sink. Control frames are observed
    /// only; payloads that fail to parse or have an unsupported shape are
    /// absorbed silently; an admitted value enters the queue if it has room
    /// and otherwise leaves the caller to suspend and retry; frame kinds
    /// outside the vocabulary fail.
    pub fn enqueue(&mut self, message: Frame) -> (r: Result<EnqueueOutcome, SinkError>)
        ensures
            final(self).same_identity(old(self)),
            old(self).inv() ==> final(self).inv(),
            (match frame_item_spec(message) {
                Err(e) => r == Err::<EnqueueOutcome, SinkError>(e) && final(self).queue_model()
                    == old(self).queue_model(),
                Ok(None) => r == Ok::<EnqueueOutcome, SinkError>(EnqueueOutcome::Ignored)
                    && final(self).queue_model() == old(self).queue_model(),
                Ok(Some(item)) => r == Ok::<EnqueueOutcome, SinkError>(
                    offer_spec(old(self).queue_model(), old(self).capacity_spec(), item).1,
                ) && final(self).queue_model() == offer_spec(
                    old(self).queue_model(),
                    old(self).capacity_spec(),
                    item,
                ).0,
            }),
    {
        match queue_item_of_frame(message) {
            Err(e) => Err(e),
            Ok(None) => Ok(EnqueueOutcome::Ignored),
            Ok(Some(item)) => {
                if self.queue.len() < self.capacity {
                    self.queue.push(item);
                    Ok(EnqueueOutcome::Enqueued)
                } else {
                    Ok(EnqueueOutcome::WouldBlock)
                }
            },
        }
    }

    /// Takes the next queued value, front first, as the consumer's receive
    /// step; `None` when the queue is empty and the consumer would wait.
    pub fn take_next(&mut self) -> (r: Option<QueueItem>)
        ensures
            final(self).same_identity(old(self)),
            old(self).inv() ==> final(self).inv(),
            (if old(self).queue_model().len() == 0 {
                r is None && final(self).queue_model() == old(self).queue_model()
            } else {
                r == Some(old(self).queue_model().first())
                    && final(self).queue_model() == old(self).queue_model().drop_first()
            }),
    {
        if self.queue.len() == 0 {
            None
        } else {
            let item = self.queue.remove(0);
            proof {
                assert(self.queue@ =~= old(self).queue@.drop_first());
            }
            Some(item)
        }
    }

    /// Drains the queue front to back, converting every queued value and
    /// collecting the documents to write, in order. The consumer loop ends
    /// only when the queue is exhausted.
    pub fn start(&mut self) -> (docs: Vec<Document>)
        ensures
            final(self).same_identity(old(self)),
            old(self).inv() ==> final(self).inv(),
            docs@ == drain_documents(old(self).queue_model()),
            final(self).queue_model() == Seq::<QueueItem>::empty(),
    {
        let mut docs: Vec<Document> = Vec::new();
        let ghost orig: Seq<QueueItem> = self.queue@;
        while self.queue.len() > 0
            invariant
                self.credential == old(self).credential,
                self.database_name == old(self).database_name,
                self.collection_name == old(self).collection_name,
                self.capacity == old(self).capacity,
                drain_documents(orig) == docs@ + drain_documents(self.queue@),
                orig == old(self).queue@,
            decreases self.queue.len(),
        {
            let ghost before: Seq<QueueItem> = self.queue@;
            let item = self.queue.remove(0);
            let mut more = convert_item(item);
            proof {
                assert(self.queue@ =~= before.drop_first());
                assert(drain_documents(before) == item_documents(item) + drain_documents(
                    self.queue@,
                ));
            }
            let ghost docs_before: Seq<Document> = docs@;
            docs.append(&mut more);
            proof {
                assert(docs@ =~= docs_before + item_documents(item));
                assert(docs_before + item_documents(item) + drain_documents(self.queue@)
                    =~= docs_before + (item_documents(item) + drain_documents(self.queue@)));
            }
        }
        proof {
            assert(drain_documents(self.queue@) =~= Seq::<Document>::empty());
            assert(docs@ + Seq::<Document>::empty() =~= docs@);
            assert(self.queue@ =~= Seq::<QueueItem>::empty());
        }
        docs
    }
}

} // verus!

