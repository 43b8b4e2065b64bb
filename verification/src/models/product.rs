//! Products.

use crate::clock::Timestamp;
use crate::ident::EntityId;
use vstd::prelude::*;
use vstd::string::*;

verus! {

/// A product. The price is in hundredths of the currency unit.
#[derive(Debug, Clone, PartialEq, Eq)]
pub struct Product {
    pub id: Option<EntityId>,
    pub name: String,
    pub description: String,
    pub price: i64,
    pub sku: String,
    pub category: String,
    pub in_stock: bool,
    pub created_at: Timestamp,
    pub updated_at: Timestamp,
}

/// The mathematical value of a [`Product`].
pub struct ProductView {
    pub id: Option<EntityId>,
    pub name: Seq<char>,
    pub description: Seq<char>,
    pub price: i64,
    pub sku: Seq<char>,
    pub category: Seq<char>,
    pub in_stock: bool,
    pub created_at: Timestamp,
    pub updated_at: Timestamp,
}

/// What a caller supplies to add a product.
#[derive(Debug, Clone, PartialEq, Eq)]
pub struct CreateProductDto {
    pub name: String,
    pub description: String,
    pub price: i64,
    pub sku: String,
    pub category: String,
}

/// What a caller supplies to change a product: a value for each field that
/// changes, nothing for a field that stays.
#[derive(Debug, Clone, PartialEq, Eq)]
pub struct UpdateProductDto {
    pub name: Option<String>,
    pub description: Option<String>,
    pub price: Option<i64>,
    pub sku: Option<String>,
    pub category: Option<String>,
    pub in_stock: Option<bool>,
}

/// The mathematical value of an [`UpdateProductDto`].
pub struct UpdateProductView {
    pub name: Option<Seq<char>>,
    pub description: Option<Seq<char>>,
    pub price: Option<i64>,
    pub sku: Option<Seq<char>>,
    pub category: Option<Seq<char>>,
    pub in_stock: Option<bool>,
}

/// The value of a text that may be absent.
pub open spec fn text_view(text: Option<String>) -> Option<Seq<char>> {
    match text {
        Some(text) => Some(text@),
        None => None,
    }
}

/// The supplied value, or the stored one where none was supplied.
pub open spec fn supplied_or<T>(supplied: Option<T>, stored: T) -> T {
    match supplied {
        Some(value) => value,
        None => stored,
    }
}

impl View for Product {
    type V = ProductView;

    open spec fn view(&self) -> ProductView {
        ProductView {
            id: self.id,
            name: self.name@,
            description: self.description@,
            price: self.price,
            sku: self.sku@,
            category: self.category@,
            in_stock: self.in_stock,
            created_at: self.created_at,
            updated_at: self.updated_at,
        }
    }
}

impl View for UpdateProductDto {
    type V = UpdateProductView;

    open spec fn view(&self) -> UpdateProductView {
        UpdateProductView {
            name: text_view(self.name),
            description: text_view(self.description),
            price: self.price,
            sku: text_view(self.sku),
            category: text_view(self.category),
            in_stock: self.in_stock,
        }
    }
}

impl ProductView {
    /// A new product: in stock, with one time for both of its timestamps.
    pub open spec fn fresh(
        id: EntityId,
        now: Timestamp,
        name: Seq<char>,
        description: Seq<char>,
        price: i64,
        sku: Seq<char>,
        category: Seq<char>,
    ) -> ProductView {
        ProductView {
            id: Some(id),
            name,
            description,
            price,
            sku,
            category,
            in_stock: true,
            created_at: now,
            updated_at: now,
        }
    }

    /// The product under the given identifier. Nothing else changes.
    pub open spec fn with_id(self, id: EntityId) -> ProductView {
        ProductView { id: Some(id), ..self }
    }

    /// The product after a change at the given time: each field that the
    /// change supplies takes the supplied value, every other field keeps its
    /// own. The identifier and the time of creation stay, and the time of
    /// update is the time of the change.
    pub open spec fn merged(self, change: UpdateProductView, now: Timestamp) -> ProductView {
        ProductView {
            id: self.id,
            name: supplied_or(change.name, self.name),
            description: supplied_or(change.description, self.description),
            price: supplied_or(change.price, self.price),
            sku: supplied_or(change.sku, self.sku),
            category: supplied_or(change.category, self.category),
            in_stock: supplied_or(change.in_stock, self.in_stock),
            created_at: self.created_at,
            updated_at: now,
        }
    }
}

impl UpdateProductView {
    /// A change of the price alone.
    pub open spec fn price_only(price: i64) -> UpdateProductView {
        UpdateProductView {
            name: None,
            description: None,
            price: Some(price),
            sku: None,
            category: None,
            in_stock: None,
        }
    }
}

impl Product {
    /// Builds a new product from an identifier and a time that the caller
    /// obtained.
    pub fn assemble(
        id: EntityId,
        now: Timestamp,
        name: String,
        description: String,
        price: i64,
        sku: String,
        category: String,
    ) -> (product: Product)
        ensures
            product@ == ProductView::fresh(id, now, name@, description@, price, sku@, category@),
    {
        Product {
            id: Some(id),
            name,
            description,
            price,
            sku,
            category,
            in_stock: true,
            created_at: now,
            updated_at: now,
        }
    }

    /// Builds a new product with a fresh identifier, stamped with the current
    /// time. Whatever identifier and time come back, the product is the one
    /// that [`Product::assemble`] builds from them.
    pub fn new(name: String, description: String, price: i64, sku: String, category: String) -> (product:
        Product)
        ensures
            product@.id is Some,
            product@ == ProductView::fresh(
                product@.id->0,
                product@.created_at,
                name@,
                description@,
                price,
                sku@,
                category@,
            ),
            crate::ident::is_random_id(product@.id->0.value),
            product@.created_at.wf(),
    {
        let now = Timestamp::now();
        let id = EntityId::mint();
        Product::assemble(id, now, name, description, price, sku, category)
    }

    /// A copy of the product.
    pub fn duplicate(&self) -> (copy: Product)
        ensures
            copy@ == self@,
    {
        Product {
            id: self.id,
            name: self.name.clone(),
            description: self.description.clone(),
            price: self.price,
            sku: self.sku.clone(),
            category: self.category.clone(),
            in_stock: self.in_stock,
            created_at: self.created_at,
            updated_at: self.updated_at,
        }
    }

    /// Applies a change to the product at the given time.
    pub fn merge(self, change: UpdateProductDto, now: Timestamp) -> (product: Product)
        ensures
            product@ == self@.merged(change@, now),
    {
        Product {
            id: self.id,
            name: match change.name {
                Some(name) => name,
                None => self.name,
            },
            description: match change.description {
                Some(description) => description,
                None => self.description,
            },
            price: match change.price {
                Some(price) => price,
                None => self.price,
            },
            sku: match change.sku {
                Some(sku) => sku,
                None => self.sku,
            },
            category: match change.category {
                Some(category) => category,
                None => self.category,
            },
            in_stock: match change.in_stock {
                Some(in_stock) => in_stock,
                None => self.in_stock,
            },
            created_at: self.created_at,
            updated_at: now,
        }
    }
}

/// A change that supplies only a price leaves the name, the description,
/// the SKU, the category and the stock flag as they were, sets the price,
/// and refreshes the time of update.
pub proof fn law_price_only_update(product: ProductView, price: i64, now: Timestamp)
    ensures
        product.merged(UpdateProductView::price_only(price), now) == (ProductView {
            price,
            updated_at: now,
            ..product
        }),
{
}

/// A change leaves every field that it does not supply as it was, and never
/// touches the identifier or the time of creation.
pub proof fn law_merge_keeps_unsupplied(product: ProductView, change: UpdateProductView, now: Timestamp)
    ensures
        ({
            let after = product.merged(change, now);
            &&& after.id == product.id
            &&& after.created_at == product.created_at
            &&& after.updated_at == now
            &&& change.name is None ==> after.name == product.name
            &&& change.description is None ==> after.description == product.description
            &&& change.price is None ==> after.price == product.price
            &&& change.sku is None ==> after.sku == product.sku
            &&& change.category is None ==> after.category == product.category
            &&& change.in_stock is None ==> after.in_stock == product.in_stock
            &&& change.name matches Some(name) ==> after.name == name
            &&& change.description matches Some(description) ==> after.description == description
            &&& change.price matches Some(price) ==> after.price == price
            &&& change.sku matches Some(sku) ==> after.sku == sku
            &&& change.category matches Some(category) ==> after.category == category
            &&& change.in_stock matches Some(in_stock) ==> after.in_stock == in_stock
        }),
{
}

} // verus!
