//! The document layout of products: one self-contained document per
//! product, keyed by the canonical text of its identifier, and the
//! operations that read and write the collection.

use vstd::prelude::*;
use vstd::string::*;

verus! {

/// The fields of a product document besides its key. Times are whole
/// seconds since the Unix epoch.
#[derive(Debug, PartialEq, Eq)]
pub struct ProductFields {
    pub name: String,
    pub description: String,
    pub price: i64,
    pub sku: String,
    pub category: String,
    pub in_stock: bool,
    pub created_at: i64,
    pub updated_at: i64,
}

/// The mathematical value of [`ProductFields`].
pub struct ProductFieldsView {
    pub name: Seq<char>,
    pub description: Seq<char>,
    pub price: i64,
    pub sku: Seq<char>,
    pub category: Seq<char>,
    pub in_stock: bool,
    pub created_at: i64,
    pub updated_at: i64,
}

/// A product document: the key under which the collection keeps it, and its
/// fields.
#[derive(Debug, PartialEq, Eq)]
pub struct ProductDocument {
    pub key: String,
    pub fields: ProductFields,
}

/// The mathematical value of a [`ProductDocument`].
pub struct ProductDocumentView {
    pub key: Seq<char>,
    pub fields: ProductFieldsView,
}

/// What the product store asks of the engine in one step.
#[derive(Debug, PartialEq, Eq)]
pub enum ProductQuery {
    /// The document with the given key, if there is one.
    FindOne(String),
    /// Every document of the collection.
    FindMany,
    /// Adds a document.
    InsertOne(ProductDocument),
    /// Sets the fields of the document with the given key. The key itself is
    /// not part of what is set.
    UpdateOne(String, ProductFields),
    /// Removes the document with the given key.
    DeleteOne(String),
}

/// The mathematical value of a [`ProductQuery`].
pub enum ProductQueryView {
    FindOne(Seq<char>),
    FindMany,
    InsertOne(ProductDocumentView),
    UpdateOne(Seq<char>, ProductFieldsView),
    DeleteOne(Seq<char>),
}

/// What the engine answers.
#[derive(Debug, PartialEq, Eq)]
pub enum ProductReply {
    /// The answer to `FindOne`.
    Document(Option<ProductDocument>),
    /// The answer to `FindMany`: for each document of the collection, the
    /// document, or the message of the failure to read it.
    Documents(Vec<Result<ProductDocument, String>>),
    /// The document was added.
    Inserted,
    /// The answer to `UpdateOne`: how many documents had the key.
    Updated(u64),
    /// The answer to `DeleteOne`: how many documents were removed.
    Deleted(u64),
    /// The step failed; nothing was changed. The text is the engine's message.
    Failed(String),
}

/// The mathematical value of a [`ProductReply`].
pub enum ProductReplyView {
    Document(Option<ProductDocumentView>),
    Documents(Seq<Result<ProductDocumentView, Seq<char>>>),
    Inserted,
    Updated(u64),
    Deleted(u64),
    Failed(Seq<char>),
}

impl View for ProductFields {
    type V = ProductFieldsView;

    open spec fn view(&self) -> ProductFieldsView {
        ProductFieldsView {
            name: self.name@,
            description: self.description@,
            price: self.price,
            sku: self.sku@,
            category: self.category@,
            in_stock: self.in_stock,
            created_at: self.created_at,
            updated_at: self.updated_at,
        }
    }
}

impl View for ProductDocument {
    type V = ProductDocumentView;

    open spec fn view(&self) -> ProductDocumentView {
        ProductDocumentView { key: self.key@, fields: self.fields@ }
    }
}

/// The value of a document or of the failure to read one.
pub open spec fn read_view(read: Result<ProductDocument, String>) -> Result<
    ProductDocumentView,
    Seq<char>,
> {
    match read {
        Ok(document) => Ok(document@),
        Err(message) => Err(message@),
    }
}

/// The values of a list of documents, each read or not.
pub open spec fn read_views(reads: Seq<Result<ProductDocument, String>>) -> Seq<
    Result<ProductDocumentView, Seq<char>>,
> {
    reads.map_values(|read: Result<ProductDocument, String>| read_view(read))
}

/// The values of a list of documents.
pub open spec fn document_views(documents: Seq<ProductDocument>) -> Seq<ProductDocumentView> {
    documents.map_values(|document: ProductDocument| document@)
}

impl View for ProductQuery {
    type V = ProductQueryView;

    open spec fn view(&self) -> ProductQueryView {
        match self {
            ProductQuery::FindOne(key) => ProductQueryView::FindOne(key@),
            ProductQuery::FindMany => ProductQueryView::FindMany,
            ProductQuery::InsertOne(document) => ProductQueryView::InsertOne(document@),
            ProductQuery::UpdateOne(key, fields) => ProductQueryView::UpdateOne(key@, fields@),
            ProductQuery::DeleteOne(key) => ProductQueryView::DeleteOne(key@),
        }
    }
}

impl View for ProductReply {
    type V = ProductReplyView;

    open spec fn view(&self) -> ProductReplyView {
        match self {
            ProductReply::Document(document) => ProductReplyView::Document(
                match document {
                    Some(document) => Some(document@),
                    None => None,
                },
            ),
            ProductReply::Documents(reads) => ProductReplyView::Documents(read_views(reads@)),
            ProductReply::Inserted => ProductReplyView::Inserted,
            ProductReply::Updated(matched) => ProductReplyView::Updated(*matched),
            ProductReply::Deleted(removed) => ProductReplyView::Deleted(*removed),
            ProductReply::Failed(message) => ProductReplyView::Failed(message@),
        }
    }
}

impl ProductFields {
    /// A copy of the fields.
    pub fn duplicate(&self) -> (copy: ProductFields)
        ensures
            copy@ == self@,
    {
        ProductFields {
            name: self.name.clone(),
            description: self.description.clone(),
            price: self.price,
            sku: self.sku.clone(),
            category: self.category.clone(),
            in_stock: self.in_stock,
            created_at: self.created_at,
            updated_at: self.updated_at,
        }
    }
}

impl ProductDocument {
    /// A copy of the document.
    pub fn duplicate(&self) -> (copy: ProductDocument)
        ensures
            copy@ == self@,
    {
        ProductDocument { key: self.key.clone(), fields: self.fields.duplicate() }
    }
}

/// Whether some document has the key.
pub open spec fn has_key(documents: Seq<ProductDocumentView>, key: Seq<char>) -> bool {
    exists|i: int| 0 <= i < documents.len() && (#[trigger] documents[i]).key == key
}

/// Where the document with the key stands.
pub open spec fn key_position(documents: Seq<ProductDocumentView>, key: Seq<char>) -> int {
    choose|i: int| 0 <= i < documents.len() && (#[trigger] documents[i]).key == key
}

/// Whether no two documents share a key.
pub open spec fn distinct_keys(documents: Seq<ProductDocumentView>) -> bool {
    forall|i: int, j: int|
        0 <= i < j < documents.len() ==> (#[trigger] documents[i]).key != (
        #[trigger] documents[j]).key
}

/// The document with the key, if there is one.
pub open spec fn document_at(documents: Seq<ProductDocumentView>, key: Seq<char>) -> Option<
    ProductDocumentView,
> {
    if has_key(documents, key) {
        Some(documents[key_position(documents, key)])
    } else {
        None
    }
}

/// The message with which the engine refuses a document whose key is taken.
pub open spec fn duplicate_key() -> Seq<char> {
    "E11000 duplicate key error collection: products index: _id_"@
}

/// The collection after one step, and the engine's answer.
pub open spec fn answer_in(documents: Seq<ProductDocumentView>, query: ProductQueryView) -> (
    Seq<ProductDocumentView>,
    ProductReplyView,
) {
    match query {
        ProductQueryView::FindOne(key) => (
            documents,
            ProductReplyView::Document(document_at(documents, key)),
        ),
        ProductQueryView::FindMany => (
            documents,
            ProductReplyView::Documents(
                documents.map_values(
                    |document: ProductDocumentView|
                        Ok::<ProductDocumentView, Seq<char>>(document),
                ),
            ),
        ),
        ProductQueryView::InsertOne(document) => {
            if has_key(documents, document.key) {
                (documents, ProductReplyView::Failed(duplicate_key()))
            } else {
                (documents.push(document), ProductReplyView::Inserted)
            }
        },
        ProductQueryView::UpdateOne(key, fields) => {
            if has_key(documents, key) {
                (
                    documents.update(
                        key_position(documents, key),
                        ProductDocumentView { key, fields },
                    ),
                    ProductReplyView::Updated(1),
                )
            } else {
                (documents, ProductReplyView::Updated(0))
            }
        },
        ProductQueryView::DeleteOne(key) => {
            if has_key(documents, key) {
                (documents.remove(key_position(documents, key)), ProductReplyView::Deleted(1))
            } else {
                (documents, ProductReplyView::Deleted(0))
            }
        },
    }
}

/// Among documents with distinct keys, the document with a key stands where
/// `key_position` says.
pub proof fn lemma_key_position(documents: Seq<ProductDocumentView>, key: Seq<char>, p: int)
    requires
        distinct_keys(documents),
        0 <= p < documents.len(),
        documents[p].key == key,
    ensures
        has_key(documents, key),
        key_position(documents, key) == p,
        document_at(documents, key) == Some(documents[p]),
{
    let q = key_position(documents, key);
    assert(0 <= q < documents.len() && documents[q].key == key);
    if p < q {
        assert(documents[p].key != documents[q].key);
    } else if q < p {
        assert(documents[q].key != documents[p].key);
    }
}

/// A step leaves the keys distinct, changes no document under another key,
/// and leaves under its own key what it wrote there.
pub proof fn lemma_answer_in(documents: Seq<ProductDocumentView>, query: ProductQueryView)
    requires
        distinct_keys(documents),
    ensures
        distinct_keys(answer_in(documents, query).0),
        query matches ProductQueryView::InsertOne(document) ==> {
            &&& forall|key: Seq<char>| key != document.key ==> #[trigger] document_at(answer_in(documents, query).0, key) == document_at(documents, key)
            &&& !has_key(documents, document.key) ==> document_at(answer_in(documents, query).0, document.key) == Some(document)
        },
        query matches ProductQueryView::UpdateOne(key, fields) ==> {
            &&& forall|other: Seq<char>| other != key ==> #[trigger] document_at(answer_in(documents, query).0, other) == document_at(documents, other)
            &&& has_key(documents, key) ==> document_at(answer_in(documents, query).0, key) == Some(ProductDocumentView { key, fields })
        },
        query matches ProductQueryView::DeleteOne(key) ==> {
            &&& forall|other: Seq<char>| other != key ==> #[trigger] document_at(answer_in(documents, query).0, other) == document_at(documents, other)
            &&& document_at(answer_in(documents, query).0, key) is None
        },
{
    let after = answer_in(documents, query).0;
    match query {
        ProductQueryView::InsertOne(document) => {
            if !has_key(documents, document.key) {
                assert forall|i: int, j: int| 0 <= i < j < after.len() implies (
                #[trigger] after[i]).key != (#[trigger] after[j]).key by {
                    if j == documents.len() {
                        assert(documents[i].key != document.key);
                    } else {
                        assert(after[i] == documents[i] && after[j] == documents[j]);
                    }
                }
                lemma_key_position(after, document.key, documents.len() as int);
                assert forall|key: Seq<char>| key != document.key implies #[trigger] document_at(
                    after,
                    key,
                ) == document_at(documents, key) by {
                    if has_key(documents, key) {
                        let q = key_position(documents, key);
                        assert(after[q] == documents[q]);
                        lemma_key_position(after, key, q);
                    } else if has_key(after, key) {
                        let q = key_position(after, key);
                        assert(documents[q].key == key);
                    }
                }
            }
        },
        ProductQueryView::UpdateOne(key, fields) => {
            if has_key(documents, key) {
                let p = key_position(documents, key);
                assert forall|i: int| 0 <= i < after.len() implies (#[trigger] after[i]).key
                    == documents[i].key by {}
                assert(after[p].key == key);
                lemma_key_position(after, key, p);
                assert forall|other: Seq<char>| other != key implies #[trigger] document_at(
                    after,
                    other,
                ) == document_at(documents, other) by {
                    if has_key(documents, other) {
                        let q = key_position(documents, other);
                        assert(after[q] == documents[q]);
                        lemma_key_position(after, other, q);
                    } else if has_key(after, other) {
                        let q = key_position(after, other);
                        assert(documents[q].key == other);
                    }
                }
            }
        },
        ProductQueryView::DeleteOne(key) => {
            if has_key(documents, key) {
                let p = key_position(documents, key);
                assert forall|i: int| 0 <= i < after.len() implies (#[trigger] after[i])
                    == documents[if i < p { i } else { i + 1 }] by {}
                assert(!has_key(after, key)) by {
                    if has_key(after, key) {
                        let q = key_position(after, key);
                        let back = if q < p { q } else { q + 1 };
                        assert(after[q] == documents[back]);
                        assert(documents[back].key != documents[p].key);
                    }
                }
                assert forall|other: Seq<char>| other != key implies #[trigger] document_at(
                    after,
                    other,
                ) == document_at(documents, other) by {
                    if has_key(documents, other) {
                        let q = key_position(documents, other);
                        let shifted = if q < p { q } else { q - 1 };
                        assert(after[shifted] == documents[q]);
                        lemma_key_position(after, other, shifted);
                    } else if has_key(after, other) {
                        let q = key_position(after, other);
                        let back = if q < p { q } else { q + 1 };
                        assert(after[q] == documents[back]);
                        assert(documents[back].key == other);
                    }
                }
            }
        },
        _ => {},
    }
}

} // verus!
