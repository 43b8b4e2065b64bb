//! An engine for the product store that keeps the collection in memory and
//! answers each step as a document store does.

use crate::repositories::document::{
    answer_in, distinct_keys, document_views, has_key, key_position, lemma_answer_in,
    lemma_key_position, read_view, read_views, ProductDocument, ProductDocumentView, ProductQuery,
    ProductReply,
};
use vstd::prelude::*;
use vstd::string::*;

verus! {

/// The collection of product documents, in memory.
#[derive(Debug, PartialEq, Eq)]
pub struct ProductCollection {
    documents: Vec<ProductDocument>,
}

impl View for ProductCollection {
    type V = Seq<ProductDocumentView>;

    closed spec fn view(&self) -> Seq<ProductDocumentView> {
        document_views(self.documents@)
    }
}

impl ProductCollection {
    /// Whether no two documents share a key.
    pub open spec fn wf(&self) -> bool {
        distinct_keys(self@)
    }

    /// A collection without documents.
    pub fn new() -> (collection: ProductCollection)
        ensures
            collection@ == Seq::<ProductDocumentView>::empty(),
            collection.wf(),
    {
        let collection = ProductCollection { documents: Vec::new() };
        assert(collection@ =~= Seq::empty());
        collection
    }

    /// How many documents the collection holds.
    pub fn len(&self) -> (n: usize)
        ensures
            n == self@.len(),
    {
        self.documents.len()
    }

    /// Where the document with the key stands, if there is one.
    fn position(&self, key: &String) -> (found: Option<usize>)
        requires
            self.wf(),
        ensures
            found is Some <==> has_key(self@, key@),
            found matches Some(p) ==> p < self@.len() && p == key_position(self@, key@),
    {
        let mut i: usize = 0;
        while i < self.documents.len()
            invariant
                self.wf(),
                0 <= i <= self.documents.len(),
                forall|k: int| 0 <= k < i ==> (#[trigger] self@[k]).key != key@,
            decreases self.documents.len() - i,
        {
            if self.documents[i].key == *key {
                proof {
                    assert(self@[i as int].key == key@);
                    lemma_key_position(self@, key@, i as int);
                }
                return Some(i);
            }
            assert(self@[i as int].key == self.documents[i as int].key@);
            i = i + 1;
        }
        None
    }

    /// Every document, each read without failure.
    fn read_all(&self) -> (reads: Vec<Result<ProductDocument, String>>)
        ensures
            read_views(reads@) == self@.map_values(
                |document: ProductDocumentView| Ok::<ProductDocumentView, Seq<char>>(document),
            ),
    {
        let mut reads: Vec<Result<ProductDocument, String>> = Vec::with_capacity(
            self.documents.len(),
        );
        let mut i: usize = 0;
        while i < self.documents.len()
            invariant
                0 <= i <= self.documents.len(),
                reads.len() == i,
                forall|k: int|
                    0 <= k < i ==> read_view(#[trigger] reads[k]) == Ok::<
                        ProductDocumentView,
                        Seq<char>,
                    >(self.documents[k]@),
            decreases self.documents.len() - i,
        {
            reads.push(Ok(self.documents[i].duplicate()));
            i = i + 1;
        }
        assert(read_views(reads@) =~= self@.map_values(
            |document: ProductDocumentView| Ok::<ProductDocumentView, Seq<char>>(document),
        ));
        reads
    }

    /// Answers a step that only reads. A step that writes gets no answer
    /// here.
    pub fn read(&self, query: &ProductQuery) -> (reply: Option<ProductReply>)
        requires
            self.wf(),
        ensures
            match reply {
                Some(reply) => (query@ is FindOne || query@ is FindMany) && (self@, reply@)
                    == answer_in(self@, query@),
                None => !(query@ is FindOne || query@ is FindMany),
            },
    {
        match query {
            ProductQuery::FindOne(key) => {
                match self.position(key) {
                    Some(p) => {
                        assert(self@[p as int] == self.documents[p as int]@);
                        Some(ProductReply::Document(Some(self.documents[p].duplicate())))
                    },
                    None => Some(ProductReply::Document(None)),
                }
            },
            ProductQuery::FindMany => Some(ProductReply::Documents(self.read_all())),
            _ => None,
        }
    }

    /// Answers one step of the store.
    pub fn answer(&mut self, query: ProductQuery) -> (reply: ProductReply)
        requires
            old(self).wf(),
        ensures
            (final(self)@, reply@) == answer_in(old(self)@, query@),
            final(self).wf(),
    {
        proof {
            lemma_answer_in(self@, query@);
        }
        match query {
            ProductQuery::FindOne(key) => {
                match self.position(&key) {
                    Some(p) => {
                        assert(self@[p as int] == self.documents[p as int]@);
                        ProductReply::Document(Some(self.documents[p].duplicate()))
                    },
                    None => ProductReply::Document(None),
                }
            },
            ProductQuery::FindMany => ProductReply::Documents(self.read_all()),
            ProductQuery::InsertOne(document) => {
                match self.position(&document.key) {
                    Some(_) => ProductReply::Failed(
                        String::from_str(
                            "E11000 duplicate key error collection: products index: _id_",
                        ),
                    ),
                    None => {
                        self.documents.push(document);
                        assert(self@ =~= old(self)@.push(document@));
                        ProductReply::Inserted
                    },
                }
            },
            ProductQuery::UpdateOne(key, fields) => {
                match self.position(&key) {
                    Some(p) => {
                        let ghost replaced = ProductDocumentView { key: key@, fields: fields@ };
                        self.documents[p] = ProductDocument { key, fields };
                        assert(self@ =~= old(self)@.update(p as int, replaced));
                        ProductReply::Updated(1)
                    },
                    None => ProductReply::Updated(0),
                }
            },
            ProductQuery::DeleteOne(key) => {
                match self.position(&key) {
                    Some(p) => {
                        self.documents.remove(p);
                        assert(self@ =~= old(self)@.remove(p as int));
                        ProductReply::Deleted(1)
                    },
                    None => ProductReply::Deleted(0),
                }
            },
        }
    }
}

} // verus!
