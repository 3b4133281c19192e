//! The structured-value model of the ingestion pipeline: payloads parse to a
//! top-level shape (an object, an array of items, or some other value), the
//! accepted shapes become queue items, and queue items convert to the
//! documents written to the store.
//!
//! Parsing itself is delegated to the `serde_json` crate behind trusted
//! wrappers; everything downstream of the parse is verified.

use vstd::prelude::*;

verus! {

use crate::str_eq;

/// One store document: a flat sequence of fields, each a key paired with the
/// canonical text rendering of its value. Field order is the order the
/// parser yields the keys in.
#[derive(Debug, Clone, PartialEq, Eq)]
pub struct Document {
    pub fields: Vec<(String, String)>,
}

/// One element of an array-shaped payload: an object, which converts to a
/// document, or any other value, whose conversion fails and is skipped.
#[derive(Debug, Clone, PartialEq, Eq)]
pub enum ArrayItem {
    Object(Document),
    NonObject,
}

/// The top-level shape of a successfully parsed payload.
#[derive(Debug, Clone, PartialEq, Eq)]
pub enum Parsed {
    Object(Document),
    Array(Vec<ArrayItem>),
    Other,
}

/// A parsed structured value admitted to the queue: an object or an array.
/// Every other shape is rejected before enqueue.
#[derive(Debug, Clone, PartialEq, Eq)]
pub enum QueueItem {
    Object(Document),
    Array(Vec<ArrayItem>),
}

/// The result of parsing a text payload: `None` when the text is not valid
/// JSON, and otherwise its top-level shape. The result is a function of the
/// text alone.
pub uninterp spec fn parsed_text_of(s: Seq<char>) -> Option<Parsed>;

/// The result of parsing a binary payload, as `parsed_text_of` but over
/// bytes. The result is a function of the bytes alone.
pub uninterp spec fn parsed_bytes_of(b: Seq<u8>) -> Option<Parsed>;

/// Relies on `serde_json::from_str`: parses the text as a JSON value, or
/// fails; the outcome depends on the text alone. Object fields and array
/// elements are carried over one for one, with each field value rendered to
/// its canonical text by `serde_json`'s `Value` display.
#[verifier::external_body]
pub(crate) fn parse_json_text(s: &str) -> (r: Option<Parsed>)
    ensures
        r == parsed_text_of(s@),
{
    let doc = |m: serde_json::Map<String, serde_json::Value>| Document {
        fields: m.into_iter().map(|(k, w)| (k, w.to_string())).collect(),
    };
    match serde_json::from_str::<serde_json::Value>(s) {
        Err(_) => None,
        Ok(serde_json::Value::Object(m)) => Some(Parsed::Object(doc(m))),
        Ok(serde_json::Value::Array(a)) => Some(Parsed::Array(a.into_iter().map(|x| match x {
            serde_json::Value::Object(m) => ArrayItem::Object(doc(m)),
            _ => ArrayItem::NonObject,
        }).collect())),
        Ok(_) => Some(Parsed::Other),
    }
}

/// Relies on `serde_json::from_slice`: as `parse_json_text`, over bytes.
#[verifier::external_body]
pub(crate) fn parse_json_bytes(b: &[u8]) -> (r: Option<Parsed>)
    ensures
        r == parsed_bytes_of(b@),
{
    let doc = |m: serde_json::Map<String, serde_json::Value>| Document {
        fields: m.into_iter().map(|(k, w)| (k, w.to_string())).collect(),
    };
    match serde_json::from_slice::<serde_json::Value>(b) {
        Err(_) => None,
        Ok(serde_json::Value::Object(m)) => Some(Parsed::Object(doc(m))),
        Ok(serde_json::Value::Array(a)) => Some(Parsed::Array(a.into_iter().map(|x| match x {
            serde_json::Value::Object(m) => ArrayItem::Object(doc(m)),
            _ => ArrayItem::NonObject,
        }).collect())),
        Ok(_) => Some(Parsed::Other),
    }
}

/// The value stored under the first field with the given key, if any.
pub open spec fn lookup_field(fields: Seq<(String, String)>, key: Seq<char>) -> Option<String>
    decreases fields.len(),
{
    if fields.len() == 0 {
        None
    } else if fields.first().0@ == key {
        Some(fields.first().1)
    } else {
        lookup_field(fields.drop_first(), key)
    }
}

impl Document {
    /// Looks a field up by key, returning the first match's value.
    pub fn get<'a>(&'a self, key: &str) -> (r: Option<&'a String>)
        ensures
            (match r {
                Some(v) => lookup_field(self.fields@, key@) == Some(*v),
                None => lookup_field(self.fields@, key@) is None,
            }),
    {
        let mut i: usize = 0;
        proof {
            assert(self.fields@.skip(0) =~= self.fields@);
        }
        while i < self.fields.len()
            invariant
                i <= self.fields@.len(),
                lookup_field(self.fields@, key@) == lookup_field(
                    self.fields@.skip(i as int),
                    key@,
                ),
            decreases self.fields@.len() - i,
        {
            proof {
                assert(self.fields@.skip(i as int).first() == self.fields@[i as int]);
            }
            if str_eq(self.fields[i].0.as_str(), key) {
                return Some(&self.fields[i].1);
            }
            proof {
                assert(self.fields@.skip(i as int).drop_first() =~= self.fields@.skip(
                    i as int + 1,
                ));
            }
            i = i + 1;
        }
        proof {
            assert(self.fields@.skip(i as int).len() == 0);
        }
        None
    }
}

/// The document an array element converts to, if any: objects convert,
/// everything else fails.
pub open spec fn item_to_doc(x: ArrayItem) -> Option<Document> {
    match x {
        ArrayItem::Object(d) => Some(d),
        ArrayItem::NonObject => None,
    }
}

/// The documents an array-shaped payload yields: each object element in
/// order, with failing elements skipped.
pub open spec fn array_documents(items: Seq<ArrayItem>) -> Seq<Document>
    decreases items.len(),
{
    if items.len() == 0 {
        Seq::empty()
    } else {
        array_documents(items.drop_last()) + (match items.last() {
            ArrayItem::Object(d) => seq![d],
            ArrayItem::NonObject => Seq::empty(),
        })
    }
}

/// The documents one queue item yields: exactly one for an object, and the
/// object elements in order for an array.
pub open spec fn item_documents(item: QueueItem) -> Seq<Document> {
    match item {
        QueueItem::Object(d) => seq![d],
        QueueItem::Array(items) => array_documents(items@),
    }
}

/// Which parse outcomes are admitted to the queue: an object or an array;
/// parse failures and other shapes are not.
pub open spec fn accepted_item(p: Option<Parsed>) -> Option<QueueItem> {
    match p {
        Some(Parsed::Object(d)) => Some(QueueItem::Object(d)),
        Some(Parsed::Array(items)) => Some(QueueItem::Array(items)),
        _ => None,
    }
}

/// Screens a parse outcome down to the queue item it is admitted as, if any.
pub fn to_queue_item(p: Option<Parsed>) -> (r: Option<QueueItem>)
    ensures
        r == accepted_item(p),
{
    match p {
        Some(Parsed::Object(d)) => Some(QueueItem::Object(d)),
        Some(Parsed::Array(items)) => Some(QueueItem::Array(items)),
        _ => None,
    }
}

/// Appending one element appends its converted document, or nothing.
proof fn lemma_array_documents_take_succ(items: Seq<ArrayItem>, i: int)
    requires
        0 <= i < items.len(),
    ensures
        array_documents(items.take(i + 1)) == array_documents(items.take(i)) + (match items[i] {
            ArrayItem::Object(d) => seq![d],
            ArrayItem::NonObject => Seq::<Document>::empty(),
        }),
{
    assert(items.take(i + 1).drop_last() =~= items.take(i));
    assert(items.take(i + 1).last() == items[i]);
}

/// An array of N elements yields at most N documents: each element is
/// attempted at most once.
pub proof fn lemma_array_attempts_bounded(items: Seq<ArrayItem>)
    ensures
        array_documents(items).len() <= items.len(),
    decreases items.len(),
{
    if items.len() > 0 {
        lemma_array_attempts_bounded(items.drop_last());
    }
}

/// An element that fails conversion is skipped without affecting the others:
/// the documents of the array are exactly the documents of the array with
/// the failing element left out.
pub proof fn lemma_failed_item_skipped(items: Seq<ArrayItem>, i: int)
    requires
        0 <= i < items.len(),
        items[i] is NonObject,
    ensures
        array_documents(items) == array_documents(items.remove(i)),
    decreases items.len(),
{
    if i == items.len() - 1 {
        assert(items.remove(i) =~= items.drop_last());
    } else {
        lemma_failed_item_skipped(items.drop_last(), i);
        assert(items.remove(i).drop_last() =~= items.drop_last().remove(i));
        assert(items.remove(i).last() == items.last());
        assert(items.remove(i).len() > 0);
    }
}

/// Converts one queue item into the documents to write, in order: one
/// document for an object, and one per object element for an array, with
/// failing elements skipped.
pub fn convert_item(item: QueueItem) -> (docs: Vec<Document>)
    ensures
        docs@ == item_documents(item),
{
    match item {
        QueueItem::Object(d) => {
            let mut docs: Vec<Document> = Vec::new();
            docs.push(d);
            proof {
                assert(docs@ =~= item_documents(item));
            }
            docs
        },
        QueueItem::Array(mut items) => {
            let mut docs: Vec<Document> = Vec::new();
            let ghost orig: Seq<ArrayItem> = items@;
            let ghost mut done: int = 0;
            proof {
                assert(item_documents(item) == array_documents(orig));
                assert(items@ =~= orig.skip(0));
                assert(array_documents(orig.take(0)) =~= Seq::<Document>::empty());
            }
            while items.len() > 0
                invariant
                    0 <= done <= orig.len(),
                    items@ == orig.skip(done),
                    docs@ == array_documents(orig.take(done)),
                decreases items.len(),
            {
                let x = items.remove(0);
                proof {
                    assert(x == orig[done]);
                    assert(items@ =~= orig.skip(done + 1)) by {
                        assert(orig.skip(done).remove(0) =~= orig.skip(done + 1));
                    }
                    lemma_array_documents_take_succ(orig, done);
                }
                match x {
                    ArrayItem::Object(d) => {
                        docs.push(d);
                        proof {
                            assert(docs@ =~= array_documents(orig.take(done + 1)));
                        }
                    },
                    ArrayItem::NonObject => {
                        proof {
                            assert(docs@ =~= array_documents(orig.take(done + 1)));
                        }
                    },
                }
                proof {
                    done = done + 1;
                }
            }
            proof {
                assert(orig.skip(done).len() == 0);
                assert(done == orig.len());
                assert(orig.take(done) =~= orig);
            }
            docs
        },
    }
}

} // verus!
