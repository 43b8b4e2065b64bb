//! The document product store: one document per product, found, written and
//! removed by the canonical text of the product's identifier.

use crate::errors::{ErrorKind, ServiceError, ServiceErrorView, ServiceResult};
use crate::ident::{lemma_text_injective, EntityId};
use crate::models::product::{Product, ProductView};
use crate::repositories::document::{
    answer_in, distinct_keys, document_at, duplicate_key, has_key, key_position, lemma_answer_in,
    ProductDocumentView, ProductQueryView,
};
use crate::repositories::product_engine::ProductCollection;
use crate::repositories::product_session::{
    advance_spec, begin_spec, create_id, decoded_all, document_of, fields_of, found_product_view,
    product_not_found, product_of, product_outcome_view, product_views, products_result_view,
    ProductOutcome, ProductOutcomeView, ProductRequest, ProductRequestView, ProductSession,
    ProductStep, ProductStepView,
};
use crate::repositories::repository::Repository;
use vstd::prelude::*;
use vstd::string::*;

verus! {

/// The document product store. It keeps its collection in memory.
#[derive(Debug, PartialEq, Eq)]
pub struct ProductRepository {
    pub collection: ProductCollection,
    pub collection_name: String,
}

/// The result of a call on the store, as a value.
pub type ProductOutcomeResult = Result<ProductOutcomeView, ServiceErrorView>;

/// The product that the collection stores under an identifier, if it stores
/// one: the fields of the document whose key is the identifier's text.
pub open spec fn find_product(documents: Seq<ProductDocumentView>, id: EntityId) -> Option<
    ProductView,
> {
    match document_at(documents, id.text()) {
        Some(document) => Some(product_of(document.fields, id)),
        None => None,
    }
}

/// The product as it is read back after it was stored: with its times cut
/// down to whole seconds.
pub open spec fn as_stored(product: ProductView, id: EntityId) -> ProductView {
    product_of(fields_of(product), id)
}

/// Every product that the collection stores, or the error of the first
/// document that cannot be decoded.
pub open spec fn list_products(documents: Seq<ProductDocumentView>) -> Result<
    Seq<ProductView>,
    ServiceErrorView,
> {
    decoded_all(
        documents.map_values(
            |document: ProductDocumentView| Ok::<ProductDocumentView, Seq<char>>(document),
        ),
    )
}

/// What a call on the store does to the collection, and what it returns.
pub open spec fn product_effect(
    documents: Seq<ProductDocumentView>,
    request: ProductRequestView,
    fresh: EntityId,
) -> (Seq<ProductDocumentView>, ProductOutcomeResult) {
    match request {
        ProductRequestView::FindById(id) => (
            documents,
            Ok(ProductOutcomeView::Found(find_product(documents, id))),
        ),
        ProductRequestView::FindAll => (
            documents,
            match list_products(documents) {
                Ok(products) => Ok(ProductOutcomeView::Listed(products)),
                Err(error) => Err(error),
            },
        ),
        ProductRequestView::Create(product) => {
            let id = create_id(product, fresh);
            if has_key(documents, id.text()) {
                (documents, Err(ServiceErrorView::database(duplicate_key())))
            } else {
                (
                    documents.push(document_of(product, id)),
                    Ok(ProductOutcomeView::Stored(product.with_id(id))),
                )
            }
        },
        ProductRequestView::Update(id, product) => {
            if has_key(documents, id.text()) {
                (
                    documents.update(
                        key_position(documents, id.text()),
                        document_of(product, id),
                    ),
                    Ok(ProductOutcomeView::Stored(product.with_id(id))),
                )
            } else {
                (documents, Err(ServiceErrorView::not_found(product_not_found(id))))
            }
        },
        ProductRequestView::Delete(id) => {
            if has_key(documents, id.text()) {
                (
                    documents.remove(key_position(documents, id.text())),
                    Ok(ProductOutcomeView::Deleted),
                )
            } else {
                (documents, Err(ServiceErrorView::not_found(product_not_found(id))))
            }
        },
    }
}

/// The effect of a call is what its session makes of the engine's answer to
/// its step.
pub proof fn lemma_session_has_effect(
    documents: Seq<ProductDocumentView>,
    request: ProductRequestView,
    fresh: EntityId,
)
    ensures
        begin_spec(request, fresh).1 matches ProductStepView::Ask(
            query,
        ) && product_effect(documents, request, fresh) == (
            answer_in(documents, query).0,
            advance_spec(begin_spec(request, fresh).0, answer_in(documents, query).1),
        ),
{
}

/// Every product of a list that was decoded carries an identifier, and a
/// list that could not be decoded fails with a database error.
pub proof fn lemma_decoded_all(reads: Seq<Result<ProductDocumentView, Seq<char>>>)
    ensures
        decoded_all(reads) matches Ok(products) ==> products.len() == reads.len() && forall|i: int|
            0 <= i < products.len() ==> (#[trigger] products[i]).id is Some,
        decoded_all(reads) matches Err(error) ==> error.kind == ErrorKind::Database,
    decreases reads.len(),
{
    if reads.len() > 0 {
        lemma_decoded_all(reads.drop_last());
    }
}

/// The value of the result of a call that returns the stored product.
pub open spec fn stored_product_view(result: ServiceResult<Product>) -> ProductOutcomeResult {
    match result {
        Ok(product) => Ok(ProductOutcomeView::Stored(product@)),
        Err(error) => Err(error@),
    }
}

/// The value of the result of a call that returns nothing.
pub open spec fn deleted_product_view(result: ServiceResult<()>) -> ProductOutcomeResult {
    match result {
        Ok(_) => Ok(ProductOutcomeView::Deleted),
        Err(error) => Err(error@),
    }
}

/// The error of a call that ends in a way that its course rules out, of
/// unknown kind. The contracts below show that it is never returned.
fn out_of_course() -> (error: ServiceError)
    ensures
        error@ == ServiceErrorView::unknown("the call left its course"@),
{
    ServiceError::UnknownError(String::from_str("the call left its course"))
}

impl ProductRepository {
    /// Whether no two documents of the collection share a key.
    pub open spec fn wf(&self) -> bool {
        self.collection.wf()
    }

    /// A store over the given collection, which it calls `products`.
    pub fn new(collection: ProductCollection) -> (repository: ProductRepository)
        ensures
            repository.collection == collection,
            repository.collection_name@ == "products"@,
    {
        ProductRepository { collection, collection_name: String::from_str("products") }
    }

    /// The collection that the store works on.
    pub fn collection(&self) -> (collection: &ProductCollection)
        ensures
            collection == self.collection,
    {
        &self.collection
    }

    /// Carries out a call: asks the collection the one step of its session
    /// and ends the session with the answer. The fresh identifier is used
    /// where a new product carries none.
    pub fn run(&mut self, request: ProductRequest, fresh: EntityId) -> (result: ServiceResult<
        ProductOutcome,
    >)
        requires
            old(self).wf(),
        ensures
            final(self).wf(),
            final(self).collection_name == old(self).collection_name,
            (final(self).collection@, product_outcome_view(result)) == product_effect(
                old(self).collection@,
                request@,
                fresh,
            ),
    {
        proof {
            lemma_session_has_effect(self.collection@, request@, fresh);
        }
        let begun = ProductSession::begin(request, fresh);
        match begun.1 {
            ProductStep::Ask(query) => {
                let reply = self.collection.answer(query);
                begun.0.advance(reply)
            },
            ProductStep::Done(result) => result,
        }
    }

    /// Carries out a call that only reads.
    fn inspect(&self, request: ProductRequest) -> (result: ServiceResult<ProductOutcome>)
        requires
            self.wf(),
            request is FindById || request is FindAll,
        ensures
            request@ matches ProductRequestView::FindById(id) ==> product_outcome_view(result)
                == Ok::<ProductOutcomeView, ServiceErrorView>(
                ProductOutcomeView::Found(find_product(self.collection@, id)),
            ),
            request@ is FindAll ==> product_outcome_view(result) == match list_products(
                self.collection@,
            ) {
                Ok(products) => Ok::<ProductOutcomeView, ServiceErrorView>(
                    ProductOutcomeView::Listed(products),
                ),
                Err(error) => Err(error),
            },
    {
        let fresh = EntityId { value: 0 };
        proof {
            lemma_session_has_effect(self.collection@, request@, fresh);
        }
        let begun = ProductSession::begin(request, fresh);
        match begun.1 {
            ProductStep::Ask(query) => {
                match self.collection.read(&query) {
                    Some(reply) => begun.0.advance(reply),
                    None => Err(out_of_course()),
                }
            },
            ProductStep::Done(result) => result,
        }
    }
}

impl Repository<Product, EntityId> for ProductRepository {
    open spec fn wf(&self) -> bool {
        self.collection.wf()
    }

    open spec fn holds(&self, id: EntityId) -> bool {
        has_key(self.collection@, id.text())
    }

    open spec fn id_of(item: &Product) -> Option<EntityId> {
        item.id
    }

    /// The product with the identifier. Whatever its document says, the
    /// product that is returned carries the identifier that was asked for.
    /// In memory this never fails.
    fn find_by_id(&self, id: EntityId) -> (result: ServiceResult<Option<Product>>)
        ensures
            result matches Ok(found) && found_product_view(found) == find_product(
                self.collection@,
                id,
            ),
    {
        let outcome = self.inspect(ProductRequest::FindById(id));
        match outcome {
            Ok(ProductOutcome::Found(found)) => Ok(found),
            Ok(_) => Err(out_of_course()),
            Err(error) => Err(error),
        }
    }

    /// Every product, in the order of the collection. One document that
    /// cannot be decoded fails the whole call.
    fn find_all(&self) -> (result: ServiceResult<Vec<Product>>)
        ensures
            products_result_view(result) == list_products(
                self.collection@,
            ),
    {
        let outcome = self.inspect(ProductRequest::FindAll);
        proof {
            lemma_decoded_all(
                self.collection@.map_values(
                    |document: ProductDocumentView|
                        Ok::<ProductDocumentView, Seq<char>>(document),
                ),
            );
        }
        match outcome {
            Ok(ProductOutcome::Listed(products)) => {
                assert forall|i: int| 0 <= i < products.len() implies Self::id_of(
                    #[trigger] &products[i],
                ) is Some by {
                    assert(product_views(products@).len() == products.len());
                    assert(product_views(products@)[i] == products[i]@);
                }
                Ok(products)
            },
            Ok(_) => Err(out_of_course()),
            Err(error) => Err(error),
        }
    }

    /// Stores a new product as one document. Its identifier, where it
    /// carries none, is minted here. A product whose identifier is taken is
    /// refused by the engine and nothing is overwritten.
    fn create(&mut self, item: Product) -> (result: ServiceResult<Product>)
        ensures
            final(self).collection_name == old(self).collection_name,
            exists|fresh: EntityId| #[trigger]
                product_effect(old(self).collection@, ProductRequestView::Create(item@), fresh) == (
                    final(self).collection@,
                    stored_product_view(result),
                ),
    {
        let fresh = EntityId::mint();
        let ghost before = self.collection@;
        let ghost product = item@;
        let outcome = self.run(ProductRequest::Create(item), fresh);
        let result = match outcome {
            Ok(ProductOutcome::Stored(product)) => Ok(product),
            Ok(_) => Err(out_of_course()),
            Err(error) => Err(error),
        };
        proof {
            let id = create_id(product, fresh);
            assert(product_effect(before, ProductRequestView::Create(product), fresh) == (
                self.collection@,
                stored_product_view(result),
            ));
            if result is Ok {
                lemma_answer_in(before, ProductQueryView::InsertOne(document_of(product, id)));
                assert forall|other: EntityId| other != id implies has_key(
                    self.collection@,
                    other.text(),
                ) == has_key(before, other.text()) by {
                    if other.text() == id.text() {
                        lemma_text_injective(other, id);
                    }
                    assert(document_at(self.collection@, other.text()) == document_at(
                        before,
                        other.text(),
                    ));
                }
                assert(document_at(self.collection@, id.text()) is Some);
            }
        }
        result
    }

    /// Sets the fields of the document of the product. The key is not part
    /// of what is set. Where no document has the key the call fails with a
    /// not-found error.
    fn update(&mut self, id: EntityId, item: Product) -> (result: ServiceResult<Product>)
        ensures
            final(self).collection_name == old(self).collection_name,
            forall|fresh: EntityId|
                #[trigger] product_effect(
                    old(self).collection@,
                    ProductRequestView::Update(id, item@),
                    fresh,
                ) == (final(self).collection@, stored_product_view(result)),
    {
        let ghost before = self.collection@;
        let ghost product = item@;
        let outcome = self.run(ProductRequest::Update(id, item), id);
        let result = match outcome {
            Ok(ProductOutcome::Stored(product)) => Ok(product),
            Ok(_) => Err(out_of_course()),
            Err(error) => Err(error),
        };
        proof {
            lemma_answer_in(before, ProductQueryView::UpdateOne(id.text(), fields_of(product)));
            assert forall|other: EntityId| has_key(self.collection@, other.text()) == has_key(
                before,
                other.text(),
            ) by {
                if other.text() != id.text() {
                    assert(document_at(self.collection@, other.text()) == document_at(
                        before,
                        other.text(),
                    ));
                } else if has_key(before, id.text()) {
                    assert(document_at(self.collection@, id.text()) is Some);
                }
            }
        }
        result
    }

    /// Removes the document of the product. Where no document has the key
    /// the call fails with a not-found error.
    fn delete(&mut self, id: EntityId) -> (result: ServiceResult<()>)
        ensures
            final(self).collection_name == old(self).collection_name,
            forall|fresh: EntityId|
                #[trigger] product_effect(
                    old(self).collection@,
                    ProductRequestView::Delete(id),
                    fresh,
                ) == (final(self).collection@, deleted_product_view(result)),
    {
        let ghost before = self.collection@;
        let outcome = self.run(ProductRequest::Delete(id), id);
        let result = match outcome {
            Ok(_) => Ok(()),
            Err(error) => Err(error),
        };
        proof {
            lemma_answer_in(before, ProductQueryView::DeleteOne(id.text()));
            assert forall|other: EntityId| other != id implies has_key(
                self.collection@,
                other.text(),
            ) == has_key(before, other.text()) by {
                if other.text() == id.text() {
                    lemma_text_injective(other, id);
                }
                assert(document_at(self.collection@, other.text()) == document_at(
                    before,
                    other.text(),
                ));
            }
            assert(document_at(self.collection@, id.text()) is None);
        }
        result
    }
}

/// A product that was stored is found under its identifier with the fields
/// that it was stored with, its times cut down to whole seconds; and no
/// other document changes.
pub proof fn law_create_then_find_product(
    documents: Seq<ProductDocumentView>,
    product: ProductView,
    fresh: EntityId,
)
    requires
        distinct_keys(documents),
        product_effect(documents, ProductRequestView::Create(product), fresh).1 is Ok,
    ensures
        ({
            let id = create_id(product, fresh);
            let after = product_effect(documents, ProductRequestView::Create(product), fresh).0;
            &&& distinct_keys(after)
            &&& find_product(documents, id) is None
            &&& find_product(after, id) == Some(as_stored(product, id))
            &&& forall|key: Seq<char>| key != id.text() ==> #[trigger] document_at(after, key) == document_at(documents, key)
        }),
{
    let id = create_id(product, fresh);
    lemma_answer_in(documents, ProductQueryView::InsertOne(document_of(product, id)));
}

/// A new product whose identifier is taken is refused with a database error,
/// and the document that is there is not overwritten.
pub proof fn law_create_never_overwrites(
    documents: Seq<ProductDocumentView>,
    product: ProductView,
    fresh: EntityId,
)
    requires
        find_product(documents, create_id(product, fresh)) is Some,
    ensures
        product_effect(documents, ProductRequestView::Create(product), fresh) == (
            documents,
            Err::<ProductOutcomeView, ServiceErrorView>(
                ServiceErrorView::database(duplicate_key()),
            ),
        ),
{
}

/// After an update the product is found with the fields of the update, its
/// times cut down to whole seconds; and no other document changes.
pub proof fn law_update_then_find_product(
    documents: Seq<ProductDocumentView>,
    id: EntityId,
    product: ProductView,
    fresh: EntityId,
)
    requires
        distinct_keys(documents),
        product_effect(documents, ProductRequestView::Update(id, product), fresh).1 is Ok,
    ensures
        ({
            let after = product_effect(documents, ProductRequestView::Update(id, product), fresh).0;
            &&& distinct_keys(after)
            &&& find_product(documents, id) is Some
            &&& find_product(after, id) == Some(as_stored(product, id))
            &&& forall|key: Seq<char>| key != id.text() ==> #[trigger] document_at(after, key) == document_at(documents, key)
        }),
{
    lemma_answer_in(documents, ProductQueryView::UpdateOne(id.text(), fields_of(product)));
}

/// An update or a delete of a product that is not stored fails with a
/// not-found error and writes nothing.
pub proof fn law_missing_product_is_not_written(
    documents: Seq<ProductDocumentView>,
    id: EntityId,
    product: ProductView,
    fresh: EntityId,
)
    requires
        find_product(documents, id) is None,
    ensures
        product_effect(documents, ProductRequestView::Update(id, product), fresh) == (
            documents,
            Err::<ProductOutcomeView, ServiceErrorView>(
                ServiceErrorView::not_found(product_not_found(id)),
            ),
        ),
        product_effect(documents, ProductRequestView::Delete(id), fresh) == (
            documents,
            Err::<ProductOutcomeView, ServiceErrorView>(
                ServiceErrorView::not_found(product_not_found(id)),
            ),
        ),
{
}

/// After a delete the product is no longer found; and no other document
/// changes.
pub proof fn law_delete_then_find_product(
    documents: Seq<ProductDocumentView>,
    id: EntityId,
    fresh: EntityId,
)
    requires
        distinct_keys(documents),
        product_effect(documents, ProductRequestView::Delete(id), fresh).1 is Ok,
    ensures
        ({
            let after = product_effect(documents, ProductRequestView::Delete(id), fresh).0;
            &&& distinct_keys(after)
            &&& find_product(documents, id) is Some
            &&& find_product(after, id) is None
            &&& forall|key: Seq<char>| key != id.text() ==> #[trigger] document_at(after, key) == document_at(documents, key)
        }),
{
    lemma_answer_in(documents, ProductQueryView::DeleteOne(id.text()));
}

} // verus!
