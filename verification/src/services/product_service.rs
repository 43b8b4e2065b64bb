//! The product service: adds products, merges changes into them, and hands
//! the rest through to the store.

use crate::clock::Timestamp;
use crate::errors::{ServiceError, ServiceErrorView, ServiceResult};
use crate::ident::EntityId;
use crate::models::product::{
    CreateProductDto, Product, ProductView, UpdateProductDto, UpdateProductView,
};
use crate::repositories::document::ProductDocumentView;
use crate::repositories::product_repository::{
    as_stored, deleted_product_view, find_product, law_create_then_find_product,
    law_update_then_find_product, list_products, product_effect, stored_product_view,
    ProductOutcomeResult, ProductRepository,
};
use crate::repositories::product_session::{
    found_product_view, product_result_view, products_result_view, ProductRequestView,
};
use crate::repositories::repository::Repository;
use vstd::prelude::*;
use vstd::string::*;

verus! {

/// The product service over its store.
#[derive(Debug, PartialEq, Eq)]
pub struct ProductService {
    pub repository: ProductRepository,
}

/// The message of the error for a change of a product that is not there.
pub open spec fn product_missing(id: EntityId) -> Seq<char> {
    "Product with id "@ + id.text() + " not found"@
}

/// The product that replaces a stored product when a change is merged into
/// it, or the error where no product was found.
pub open spec fn planned_update(
    id: EntityId,
    found: Option<ProductView>,
    change: UpdateProductView,
    now: Timestamp,
) -> Result<ProductView, ServiceErrorView> {
    match found {
        Some(product) => Ok(product.merged(change, now)),
        None => Err(ServiceErrorView::not_found(product_missing(id))),
    }
}

/// What changing a product does to the collection, and what it returns.
pub open spec fn product_changed(
    documents: Seq<ProductDocumentView>,
    id: EntityId,
    change: UpdateProductView,
    now: Timestamp,
) -> (Seq<ProductDocumentView>, ProductOutcomeResult) {
    match planned_update(id, find_product(documents, id), change, now) {
        Ok(product) => product_effect(documents, ProductRequestView::Update(id, product), id),
        Err(error) => (documents, Err(error)),
    }
}

impl ProductService {
    /// Whether no two documents of the store's collection share a key.
    pub open spec fn wf(&self) -> bool {
        self.repository.collection.wf()
    }

    /// The documents of the store's collection.
    pub open spec fn documents(&self) -> Seq<ProductDocumentView> {
        self.repository.collection@
    }

    pub fn new(repository: ProductRepository) -> (service: ProductService)
        ensures
            service.repository == repository,
    {
        ProductService { repository }
    }

    /// Builds the product for a request to add one, under the identifier
    /// and at the time given: in stock, with the fields of the request.
    pub fn plan_product(dto: CreateProductDto, id: EntityId, now: Timestamp) -> (product: Product)
        ensures
            product@ == ProductView::fresh(
                id,
                now,
                dto.name@,
                dto.description@,
                dto.price,
                dto.sku@,
                dto.category@,
            ),
    {
        Product::assemble(id, now, dto.name, dto.description, dto.price, dto.sku, dto.category)
    }

    /// Builds the product that replaces a stored one when a change is
    /// merged into it at the given time: each field that the change supplies
    /// is overridden, every other field keeps its value, and the time of
    /// update is refreshed.
    pub fn plan_update(
        id: EntityId,
        found: Option<Product>,
        dto: UpdateProductDto,
        now: Timestamp,
    ) -> (result: ServiceResult<Product>)
        ensures
            product_result_view(result) == planned_update(id, found_product_view(found), dto@, now),
    {
        match found {
            Some(existing) => Ok(existing.merge(dto, now)),
            None => {
                let mut text = String::from_str("Product with id ");
                text.append(id.to_text().as_str());
                text.append(" not found");
                Err(ServiceError::NotFoundError(text))
            },
        }
    }

    /// The product with the identifier, if there is one.
    pub fn get_product(&self, id: EntityId) -> (result: ServiceResult<Option<Product>>)
        requires
            self.wf(),
        ensures
            result matches Ok(found) && found_product_view(found) == find_product(
                self.documents(),
                id,
            ),
    {
        self.repository.find_by_id(id)
    }

    /// Every product. One document that cannot be decoded fails the whole
    /// call.
    pub fn get_all_products(&self) -> (result: ServiceResult<Vec<Product>>)
        requires
            self.wf(),
        ensures
            products_result_view(result) == list_products(self.documents()),
    {
        self.repository.find_all()
    }

    /// Adds a product: in stock, with a fresh identifier, stamped with the
    /// current time, and stores it.
    pub fn create_product(&mut self, dto: CreateProductDto) -> (result: ServiceResult<Product>)
        requires
            old(self).wf(),
        ensures
            final(self).wf(),
            exists|id: EntityId, now: Timestamp| #[trigger]
                product_effect(
                    old(self).documents(),
                    ProductRequestView::Create(
                        ProductView::fresh(
                            id,
                            now,
                            dto.name@,
                            dto.description@,
                            dto.price,
                            dto.sku@,
                            dto.category@,
                        ),
                    ),
                    id,
                ) == (final(self).documents(), stored_product_view(result)),
            result matches Ok(product) ==> {
                &&& product@.id is Some
                &&& product@ == ProductView::fresh(
                    product@.id->0,
                    product@.created_at,
                    dto.name@,
                    dto.description@,
                    dto.price,
                    dto.sku@,
                    dto.category@,
                )
                &&& find_product(final(self).documents(), product@.id->0) == Some(
                    as_stored(product@, product@.id->0),
                )
            },
            result is Err ==> final(self).documents() == old(self).documents(),
    {
        let ghost before = self.documents();
        let product = Product::new(dto.name, dto.description, dto.price, dto.sku, dto.category);
        let ghost planned = product@;
        let result = self.repository.create(product);
        proof {
            let id = planned.id->0;
            let fresh = choose|fresh: EntityId| #[trigger]
                product_effect(before, ProductRequestView::Create(planned), fresh) == (
                    self.documents(),
                    stored_product_view(result),
                );
            assert(product_effect(before, ProductRequestView::Create(planned), fresh)
                == product_effect(before, ProductRequestView::Create(planned), id));
            if result is Ok {
                law_create_then_find_product(before, planned, id);
            }
        }
        result
    }

    /// Changes a product: loads it, overrides each field that the change
    /// supplies, refreshes the time of update, and stores it again. Where
    /// no product has the identifier, the call fails with a not-found error
    /// and writes nothing.
    pub fn update_product(&mut self, id: EntityId, dto: UpdateProductDto) -> (result:
        ServiceResult<Product>)
        requires
            old(self).wf(),
        ensures
            final(self).wf(),
            exists|now: Timestamp| #[trigger]
                product_changed(old(self).documents(), id, dto@, now) == (
                    final(self).documents(),
                    stored_product_view(result),
                ),
            find_product(old(self).documents(), id) is None ==> {
                &&& final(self).documents() == old(self).documents()
                &&& product_result_view(result) == Err::<ProductView, ServiceErrorView>(
                    ServiceErrorView::not_found(product_missing(id)),
                )
            },
            result matches Ok(product) ==> {
                &&& find_product(old(self).documents(), id) matches Some(stored)
                &&& product@ == stored.merged(dto@, product@.updated_at)
                &&& find_product(final(self).documents(), id) == Some(as_stored(product@, id))
            },
            result is Err ==> final(self).documents() == old(self).documents(),
    {
        let ghost before = self.documents();
        let ghost change = dto@;
        let now = Timestamp::now();
        let found = match self.repository.find_by_id(id) {
            Ok(found) => found,
            Err(error) => {
                return Err(error);
            },
        };
        match ProductService::plan_update(id, found, dto, now) {
            Err(error) => {
                let result = Err(error);
                assert(product_changed(before, id, change, now) == (
                    self.documents(),
                    stored_product_view(result),
                ));
                result
            },
            Ok(updated) => {
                let ghost planned = updated@;
                let result = self.repository.update(id, updated);
                proof {
                    assert(product_effect(before, ProductRequestView::Update(id, planned), id) == (
                        self.documents(),
                        stored_product_view(result),
                    ));
                    assert(product_changed(before, id, change, now) == (
                        self.documents(),
                        stored_product_view(result),
                    ));
                    if result is Ok {
                        law_update_then_find_product(before, id, planned, id);
                    }
                }
                result
            },
        }
    }

    /// Removes the product with the identifier.
    pub fn delete_product(&mut self, id: EntityId) -> (result: ServiceResult<()>)
        requires
            old(self).wf(),
        ensures
            final(self).wf(),
            forall|fresh: EntityId|
                #[trigger] product_effect(
                    old(self).documents(),
                    ProductRequestView::Delete(id),
                    fresh,
                ) == (final(self).documents(), deleted_product_view(result)),
    {
        self.repository.delete(id)
    }
}

} // verus!
