//! A call on the document product store: the one step that it asks of the
//! engine, and what it makes of the answer.
//!
//! The key of a document is the canonical text of the product's identifier.
//! The key is written when a document is inserted and never set afterwards;
//! a product that is read by its identifier gets that identifier back,
//! whatever the document says.

use crate::clock::Timestamp;
use crate::errors::{ServiceError, ServiceErrorView, ServiceResult};
use crate::ident::EntityId;
use crate::models::product::{Product, ProductView};
use crate::repositories::document::{
    read_view, read_views, ProductDocument, ProductDocumentView, ProductFields,
    ProductFieldsView, ProductQuery, ProductQueryView, ProductReply, ProductReplyView,
};
use vstd::prelude::*;
use vstd::string::*;

verus! {

/// A call on the product store.
#[derive(Debug, PartialEq, Eq)]
pub enum ProductRequest {
    /// The product with the identifier, if there is one.
    FindById(EntityId),
    /// Every product.
    FindAll,
    /// Stores a new product. A product without an identifier is given one.
    Create(Product),
    /// Replaces the fields of the product with the identifier.
    Update(EntityId, Product),
    /// Removes the product with the identifier.
    Delete(EntityId),
}

/// The mathematical value of a [`ProductRequest`].
pub enum ProductRequestView {
    FindById(EntityId),
    FindAll,
    Create(ProductView),
    Update(EntityId, ProductView),
    Delete(EntityId),
}

/// What a call on the product store returns when it succeeds.
#[derive(Debug, PartialEq, Eq)]
pub enum ProductOutcome {
    /// The answer to `FindById`.
    Found(Option<Product>),
    /// The answer to `FindAll`.
    Listed(Vec<Product>),
    /// The answer to `Create` and `Update`: the product as it was handed
    /// in, under its identifier.
    Stored(Product),
    /// The answer to `Delete`.
    Deleted,
}

/// The mathematical value of a [`ProductOutcome`].
pub enum ProductOutcomeView {
    Found(Option<ProductView>),
    Listed(Seq<ProductView>),
    Stored(ProductView),
    Deleted,
}

/// What a session wants next: a step of the engine, or nothing more.
#[derive(Debug, PartialEq, Eq)]
pub enum ProductStep {
    /// Ask the engine this and come back with its answer.
    Ask(ProductQuery),
    /// The call is over, with this result.
    Done(ServiceResult<ProductOutcome>),
}

/// The mathematical value of a [`ProductStep`].
pub enum ProductStepView {
    Ask(ProductQueryView),
    Done(Result<ProductOutcomeView, ServiceErrorView>),
}

/// Where a call on the product store stands while the engine works.
#[derive(Debug, PartialEq, Eq)]
pub enum ProductSession {
    /// The document of this product was asked for.
    AwaitDocument(EntityId),
    /// Every document was asked for.
    AwaitDocuments,
    /// A document was sent to be inserted; this is the product it stores.
    AwaitInsert(Product),
    /// The fields of the document of this product were sent to be set.
    AwaitUpdate(EntityId, Product),
    /// The document of this product was sent to be removed.
    AwaitDelete(EntityId),
    /// The call is over.
    Closed,
}

/// The mathematical value of a [`ProductSession`].
pub enum ProductSessionView {
    AwaitDocument(EntityId),
    AwaitDocuments,
    AwaitInsert(ProductView),
    AwaitUpdate(EntityId, ProductView),
    AwaitDelete(EntityId),
    Closed,
}

/// The values of a list of products.
pub open spec fn product_views(products: Seq<Product>) -> Seq<ProductView> {
    products.map_values(|product: Product| product@)
}

/// The value of a product that may be absent.
pub open spec fn found_product_view(product: Option<Product>) -> Option<ProductView> {
    match product {
        Some(product) => Some(product@),
        None => None,
    }
}

/// The value of a product or an error.
pub open spec fn product_result_view(result: ServiceResult<Product>) -> Result<
    ProductView,
    ServiceErrorView,
> {
    match result {
        Ok(product) => Ok(product@),
        Err(error) => Err(error@),
    }
}

/// The value of a list of products or an error.
pub open spec fn products_result_view(result: ServiceResult<Vec<Product>>) -> Result<
    Seq<ProductView>,
    ServiceErrorView,
> {
    match result {
        Ok(products) => Ok(product_views(products@)),
        Err(error) => Err(error@),
    }
}

/// The value of the result of a call.
pub open spec fn product_outcome_view(result: ServiceResult<ProductOutcome>) -> Result<
    ProductOutcomeView,
    ServiceErrorView,
> {
    match result {
        Ok(outcome) => Ok(outcome@),
        Err(error) => Err(error@),
    }
}

impl View for ProductRequest {
    type V = ProductRequestView;

    open spec fn view(&self) -> ProductRequestView {
        match self {
            ProductRequest::FindById(id) => ProductRequestView::FindById(*id),
            ProductRequest::FindAll => ProductRequestView::FindAll,
            ProductRequest::Create(product) => ProductRequestView::Create(product@),
            ProductRequest::Update(id, product) => ProductRequestView::Update(*id, product@),
            ProductRequest::Delete(id) => ProductRequestView::Delete(*id),
        }
    }
}

impl View for ProductOutcome {
    type V = ProductOutcomeView;

    open spec fn view(&self) -> ProductOutcomeView {
        match self {
            ProductOutcome::Found(product) => ProductOutcomeView::Found(
                found_product_view(*product),
            ),
            ProductOutcome::Listed(products) => ProductOutcomeView::Listed(
                product_views(products@),
            ),
            ProductOutcome::Stored(product) => ProductOutcomeView::Stored(product@),
            ProductOutcome::Deleted => ProductOutcomeView::Deleted,
        }
    }
}

impl View for ProductStep {
    type V = ProductStepView;

    open spec fn view(&self) -> ProductStepView {
        match self {
            ProductStep::Ask(query) => ProductStepView::Ask(query@),
            ProductStep::Done(result) => ProductStepView::Done(product_outcome_view(*result)),
        }
    }
}

impl View for ProductSession {
    type V = ProductSessionView;

    open spec fn view(&self) -> ProductSessionView {
        match self {
            ProductSession::AwaitDocument(id) => ProductSessionView::AwaitDocument(*id),
            ProductSession::AwaitDocuments => ProductSessionView::AwaitDocuments,
            ProductSession::AwaitInsert(product) => ProductSessionView::AwaitInsert(product@),
            ProductSession::AwaitUpdate(id, product) => ProductSessionView::AwaitUpdate(
                *id,
                product@,
            ),
            ProductSession::AwaitDelete(id) => ProductSessionView::AwaitDelete(*id),
            ProductSession::Closed => ProductSessionView::Closed,
        }
    }
}

/// The fields under which a product is stored. Times are cut down to whole
/// seconds.
pub open spec fn fields_of(product: ProductView) -> ProductFieldsView {
    ProductFieldsView {
        name: product.name,
        description: product.description,
        price: product.price,
        sku: product.sku,
        category: product.category,
        in_stock: product.in_stock,
        created_at: product.created_at.seconds,
        updated_at: product.updated_at.seconds,
    }
}

/// The document that stores a product under an identifier.
pub open spec fn document_of(product: ProductView, id: EntityId) -> ProductDocumentView {
    ProductDocumentView { key: id.text(), fields: fields_of(product) }
}

/// The product that stored fields stand for, under an identifier.
pub open spec fn product_of(fields: ProductFieldsView, id: EntityId) -> ProductView {
    ProductView {
        id: Some(id),
        name: fields.name,
        description: fields.description,
        price: fields.price,
        sku: fields.sku,
        category: fields.category,
        in_stock: fields.in_stock,
        created_at: Timestamp { seconds: fields.created_at, nanos: 0 },
        updated_at: Timestamp { seconds: fields.updated_at, nanos: 0 },
    }
}

/// The message of the error for a document whose key spells no identifier.
pub open spec fn invalid_key(key: Seq<char>) -> Seq<char> {
    "invalid product identifier: "@ + key
}

/// The message of the error for a product that is not there.
pub open spec fn product_not_found(id: EntityId) -> Seq<char> {
    "Product with ID "@ + id.text() + " not found"@
}

/// The message of the error for an answer that does not fit the step that
/// was asked.
pub open spec fn unexpected_reply() -> Seq<char> {
    "unexpected reply from the storage engine"@
}

/// The product that a document stores, given the identifier that its key
/// spells, or a database error where it spells none.
pub open spec fn decoded_with(document: ProductDocumentView, parsed: Option<EntityId>) -> Result<
    ProductView,
    ServiceErrorView,
> {
    match parsed {
        Some(id) => Ok(product_of(document.fields, id)),
        None => Err(ServiceErrorView::database(invalid_key(document.key))),
    }
}

/// The product that a document stores.
pub open spec fn decoded(document: ProductDocumentView) -> Result<ProductView, ServiceErrorView> {
    decoded_with(document, EntityId::parse_spec(document.key))
}

/// The product that was read, or a database error where the document could
/// not be read or decoded.
pub open spec fn decoded_read(read: Result<ProductDocumentView, Seq<char>>) -> Result<
    ProductView,
    ServiceErrorView,
> {
    match read {
        Ok(document) => decoded(document),
        Err(message) => Err(ServiceErrorView::database(message)),
    }
}

/// The products that were read, in their order, or the error of the first
/// document that could not be read or decoded. One bad document fails the
/// whole list.
pub open spec fn decoded_all(reads: Seq<Result<ProductDocumentView, Seq<char>>>) -> Result<
    Seq<ProductView>,
    ServiceErrorView,
>
    decreases reads.len(),
{
    if reads.len() == 0 {
        Ok(Seq::empty())
    } else {
        match decoded_all(reads.drop_last()) {
            Err(error) => Err(error),
            Ok(products) => match decoded_read(reads.last()) {
                Ok(product) => Ok(products.push(product)),
                Err(error) => Err(error),
            },
        }
    }
}

/// The identifier under which a new product is stored: its own, or the
/// fresh one where it has none.
pub open spec fn create_id(product: ProductView, fresh: EntityId) -> EntityId {
    match product.id {
        Some(id) => id,
        None => fresh,
    }
}

/// The session that a call opens, and its one step.
pub open spec fn begin_spec(request: ProductRequestView, fresh: EntityId) -> (
    ProductSessionView,
    ProductStepView,
) {
    match request {
        ProductRequestView::FindById(id) => (
            ProductSessionView::AwaitDocument(id),
            ProductStepView::Ask(ProductQueryView::FindOne(id.text())),
        ),
        ProductRequestView::FindAll => (
            ProductSessionView::AwaitDocuments,
            ProductStepView::Ask(ProductQueryView::FindMany),
        ),
        ProductRequestView::Create(product) => {
            let id = create_id(product, fresh);
            (
                ProductSessionView::AwaitInsert(product.with_id(id)),
                ProductStepView::Ask(ProductQueryView::InsertOne(document_of(product, id))),
            )
        },
        ProductRequestView::Update(id, product) => (
            ProductSessionView::AwaitUpdate(id, product.with_id(id)),
            ProductStepView::Ask(ProductQueryView::UpdateOne(id.text(), fields_of(product))),
        ),
        ProductRequestView::Delete(id) => (
            ProductSessionView::AwaitDelete(id),
            ProductStepView::Ask(ProductQueryView::DeleteOne(id.text())),
        ),
    }
}

/// The result of a call, given the engine's answer to its step.
///
/// A failure of the engine is a database error that carries the engine's
/// message. An update or a delete that matched no document is a not-found
/// error.
pub open spec fn advance_spec(session: ProductSessionView, reply: ProductReplyView) -> Result<
    ProductOutcomeView,
    ServiceErrorView,
> {
    match (session, reply) {
        (ProductSessionView::Closed, _) => Err(ServiceErrorView::database(unexpected_reply())),
        (_, ProductReplyView::Failed(message)) => Err(ServiceErrorView::database(message)),
        (ProductSessionView::AwaitDocument(id), ProductReplyView::Document(None)) => Ok(
            ProductOutcomeView::Found(None),
        ),
        (ProductSessionView::AwaitDocument(id), ProductReplyView::Document(Some(document))) => Ok(
            ProductOutcomeView::Found(Some(product_of(document.fields, id))),
        ),
        (ProductSessionView::AwaitDocuments, ProductReplyView::Documents(reads)) => match decoded_all(
            reads,
        ) {
            Ok(products) => Ok(ProductOutcomeView::Listed(products)),
            Err(error) => Err(error),
        },
        (ProductSessionView::AwaitInsert(product), ProductReplyView::Inserted) => Ok(
            ProductOutcomeView::Stored(product),
        ),
        (ProductSessionView::AwaitUpdate(id, product), ProductReplyView::Updated(matched)) => {
            if matched == 0 {
                Err(ServiceErrorView::not_found(product_not_found(id)))
            } else {
                Ok(ProductOutcomeView::Stored(product))
            }
        },
        (ProductSessionView::AwaitDelete(id), ProductReplyView::Deleted(removed)) => {
            if removed == 0 {
                Err(ServiceErrorView::not_found(product_not_found(id)))
            } else {
                Ok(ProductOutcomeView::Deleted)
            }
        },
        _ => Err(ServiceErrorView::database(unexpected_reply())),
    }
}

/// Where the first part of a list of reads fails, the whole list fails in
/// the same way.
pub proof fn lemma_first_failure_decides(
    reads: Seq<Result<ProductDocumentView, Seq<char>>>,
    n: int,
)
    requires
        0 <= n <= reads.len(),
        decoded_all(reads.take(n)) is Err,
    ensures
        decoded_all(reads) == decoded_all(reads.take(n)),
    decreases reads.len() - n,
{
    if n < reads.len() {
        assert(reads.take(n + 1).drop_last() =~= reads.take(n));
        lemma_first_failure_decides(reads, n + 1);
    } else {
        assert(reads.take(n) =~= reads);
    }
}

/// The fields under which a product is stored.
pub fn to_fields(product: &Product) -> (fields: ProductFields)
    ensures
        fields@ == fields_of(product@),
{
    ProductFields {
        name: product.name.clone(),
        description: product.description.clone(),
        price: product.price,
        sku: product.sku.clone(),
        category: product.category.clone(),
        in_stock: product.in_stock,
        created_at: product.created_at.seconds,
        updated_at: product.updated_at.seconds,
    }
}

/// The product that stored fields stand for, under an identifier.
pub fn from_fields(fields: &ProductFields, id: EntityId) -> (product: Product)
    ensures
        product@ == product_of(fields@, id),
{
    Product {
        id: Some(id),
        name: fields.name.clone(),
        description: fields.description.clone(),
        price: fields.price,
        sku: fields.sku.clone(),
        category: fields.category.clone(),
        in_stock: fields.in_stock,
        created_at: Timestamp { seconds: fields.created_at, nanos: 0 },
        updated_at: Timestamp { seconds: fields.updated_at, nanos: 0 },
    }
}

/// The product that a document stores, given what its key was read as.
pub fn decode_with(document: &ProductDocument, parsed: Option<EntityId>) -> (result:
    ServiceResult<Product>)
    ensures
        product_result_view(result) == decoded_with(document@, parsed),
{
    match parsed {
        Some(id) => Ok(from_fields(&document.fields, id)),
        None => {
            let mut text = String::from_str("invalid product identifier: ");
            text.append(document.key.as_str());
            Err(ServiceError::DatabaseError(text))
        },
    }
}

/// The product that a document stores: its fields, under the identifier
/// that its key spells. A document whose key is the canonical text of an
/// identifier decodes to a product with that identifier.
pub fn decode(document: &ProductDocument) -> (result: ServiceResult<Product>)
    ensures
        product_result_view(result) == decoded(document@),
        forall|id: EntityId|
            document@.key == #[trigger] id.text() ==> product_result_view(result) == Ok::<
                ProductView,
                ServiceErrorView,
            >(product_of(document@.fields, id)),
{
    let parsed = EntityId::parse(document.key.as_str());
    decode_with(document, parsed)
}

/// The products that were read, or the error of the first document that
/// could not be read or decoded.
pub fn decode_all(reads: &Vec<Result<ProductDocument, String>>) -> (result: ServiceResult<
    Vec<Product>,
>)
    ensures
        products_result_view(result) == decoded_all(read_views(reads@)),
{
    let ghost all = read_views(reads@);
    let mut products: Vec<Product> = Vec::with_capacity(reads.len());
    let mut i: usize = 0;
    assert(product_views(products@) =~= Seq::empty());
    while i < reads.len()
        invariant
            0 <= i <= reads.len(),
            all == read_views(reads@),
            decoded_all(all.take(i as int)) == Ok::<Seq<ProductView>, ServiceErrorView>(
                product_views(products@),
            ),
        decreases reads.len() - i,
    {
        proof {
            assert(all.take(i as int + 1).drop_last() =~= all.take(i as int));
            assert(all.take(i as int + 1).last() == read_view(reads[i as int]));
        }
        match &reads[i] {
            Ok(document) => match decode(document) {
                Ok(product) => {
                    let ghost before = product_views(products@);
                    products.push(product);
                    assert(product_views(products@) =~= before.push(product@));
                },
                Err(error) => {
                    proof {
                        lemma_first_failure_decides(all, i as int + 1);
                    }
                    return Err(error);
                },
            },
            Err(message) => {
                proof {
                    lemma_first_failure_decides(all, i as int + 1);
                }
                return Err(ServiceError::DatabaseError(message.clone()));
            },
        }
        i = i + 1;
    }
    assert(all.take(i as int) =~= all);
    Ok(products)
}

/// The text that says that no product has the identifier.
fn not_found_text(id: EntityId) -> (text: String)
    ensures
        text@ == product_not_found(id),
{
    let mut text = String::from_str("Product with ID ");
    text.append(id.to_text().as_str());
    text.append(" not found");
    text
}

/// The error for an answer that does not fit the step.
fn unexpected() -> (error: ServiceError)
    ensures
        error@ == ServiceErrorView::database(unexpected_reply()),
{
    ServiceError::DatabaseError(String::from_str("unexpected reply from the storage engine"))
}

impl ProductSession {
    /// Opens the session of a call and names its step. The fresh identifier
    /// is used where a new product carries none.
    pub fn begin(request: ProductRequest, fresh: EntityId) -> (next: (ProductSession, ProductStep))
        ensures
            (next.0@, next.1@) == begin_spec(request@, fresh),
    {
        match request {
            ProductRequest::FindById(id) => (
                ProductSession::AwaitDocument(id),
                ProductStep::Ask(ProductQuery::FindOne(id.to_text())),
            ),
            ProductRequest::FindAll => (
                ProductSession::AwaitDocuments,
                ProductStep::Ask(ProductQuery::FindMany),
            ),
            ProductRequest::Create(product) => {
                let id = match product.id {
                    Some(id) => id,
                    None => fresh,
                };
                let document = ProductDocument { key: id.to_text(), fields: to_fields(&product) };
                let mut stored = product;
                stored.id = Some(id);
                (
                    ProductSession::AwaitInsert(stored),
                    ProductStep::Ask(ProductQuery::InsertOne(document)),
                )
            },
            ProductRequest::Update(id, product) => {
                let fields = to_fields(&product);
                let mut stored = product;
                stored.id = Some(id);
                (
                    ProductSession::AwaitUpdate(id, stored),
                    ProductStep::Ask(ProductQuery::UpdateOne(id.to_text(), fields)),
                )
            },
            ProductRequest::Delete(id) => (
                ProductSession::AwaitDelete(id),
                ProductStep::Ask(ProductQuery::DeleteOne(id.to_text())),
            ),
        }
    }

    /// Takes the engine's answer to the step and ends the call.
    pub fn advance(self, reply: ProductReply) -> (result: ServiceResult<ProductOutcome>)
        ensures
            product_outcome_view(result) == advance_spec(self@, reply@),
    {
        match self {
            ProductSession::Closed => Err(unexpected()),
            ProductSession::AwaitDocument(id) => match reply {
                ProductReply::Failed(message) => Err(ServiceError::DatabaseError(message)),
                ProductReply::Document(None) => Ok(ProductOutcome::Found(None)),
                ProductReply::Document(Some(document)) => Ok(
                    ProductOutcome::Found(Some(from_fields(&document.fields, id))),
                ),
                _ => Err(unexpected()),
            },
            ProductSession::AwaitDocuments => match reply {
                ProductReply::Failed(message) => Err(ServiceError::DatabaseError(message)),
                ProductReply::Documents(reads) => match decode_all(&reads) {
                    Ok(products) => Ok(ProductOutcome::Listed(products)),
                    Err(error) => Err(error),
                },
                _ => Err(unexpected()),
            },
            ProductSession::AwaitInsert(product) => match reply {
                ProductReply::Failed(message) => Err(ServiceError::DatabaseError(message)),
                ProductReply::Inserted => Ok(ProductOutcome::Stored(product)),
                _ => Err(unexpected()),
            },
            ProductSession::AwaitUpdate(id, product) => match reply {
                ProductReply::Failed(message) => Err(ServiceError::DatabaseError(message)),
                ProductReply::Updated(matched) => {
                    if matched == 0 {
                        Err(ServiceError::NotFoundError(not_found_text(id)))
                    } else {
                        Ok(ProductOutcome::Stored(product))
                    }
                },
                _ => Err(unexpected()),
            },
            ProductSession::AwaitDelete(id) => match reply {
                ProductReply::Failed(message) => Err(ServiceError::DatabaseError(message)),
                ProductReply::Deleted(removed) => {
                    if removed == 0 {
                        Err(ServiceError::NotFoundError(not_found_text(id)))
                    } else {
                        Ok(ProductOutcome::Deleted)
                    }
                },
                _ => Err(unexpected()),
            },
        }
    }
}

} // verus!
