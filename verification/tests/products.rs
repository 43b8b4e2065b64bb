use business_service::clock::Timestamp;
use business_service::errors::{ErrorKind, ServiceError};
use business_service::ident::EntityId;
use business_service::models::product::{CreateProductDto, Product, UpdateProductDto};
use business_service::repositories::document::{
    ProductDocument, ProductFields, ProductQuery, ProductReply,
};
use business_service::repositories::product_engine::ProductCollection;
use business_service::repositories::product_repository::ProductRepository;
use business_service::repositories::product_session::{
    decode, decode_all, decode_with, ProductOutcome, ProductRequest, ProductSession, ProductStep,
};
use business_service::repositories::repository::Repository;
use business_service::services::product_service::ProductService;

fn service() -> ProductService {
    ProductService::new(ProductRepository::new(ProductCollection::new()))
}

fn widget() -> CreateProductDto {
    CreateProductDto {
        name: "Widget".to_string(),
        description: "A widget".to_string(),
        price: 999,
        sku: "W-1".to_string(),
        category: "tools".to_string(),
    }
}

fn no_change() -> UpdateProductDto {
    UpdateProductDto { name: None, description: None, price: None, sku: None, category: None, in_stock: None }
}

fn product(id: u128, name: &str) -> Product {
    Product::assemble(
        EntityId::new(id),
        Timestamp::new(100, 5),
        name.to_string(),
        "d".to_string(),
        10,
        "s".to_string(),
        "c".to_string(),
    )
}

fn fields(name: &str) -> ProductFields {
    ProductFields {
        name: name.to_string(),
        description: "d".to_string(),
        price: 10,
        sku: "s".to_string(),
        category: "c".to_string(),
        in_stock: true,
        created_at: 100,
        updated_at: 100,
    }
}

#[test]
fn new_product_is_in_stock_with_one_time() {
    let product = Product::new("Widget".to_string(), "A widget".to_string(), 999, "W-1".to_string(), "tools".to_string());
    assert!(product.in_stock);
    assert!(product.id.is_some());
    assert_eq!(product.created_at, product.updated_at);
    assert_eq!(product.name, "Widget");
    assert_eq!(product.price, 999);
}

#[test]
fn price_only_update_leaves_the_other_fields() {
    let mut service = service();
    let created = service.create_product(widget()).unwrap();
    let id = created.id.unwrap();
    let mut change = no_change();
    change.price = Some(1250);
    let updated = service.update_product(id, change).unwrap();
    assert_eq!(updated.price, 1250);
    assert_eq!(updated.name, "Widget");
    assert_eq!(updated.description, "A widget");
    assert_eq!(updated.sku, "W-1");
    assert_eq!(updated.category, "tools");
    assert!(updated.in_stock);
    assert_eq!(updated.id, Some(id));
    assert!(updated.updated_at.is_at_or_after(&created.updated_at.truncated()));
    let found = service.get_product(id).unwrap().unwrap();
    assert_eq!(found.price, 1250);
    assert_eq!(found.name, "Widget");
    assert_eq!(found.sku, "W-1");
}

#[test]
fn merge_overrides_exactly_the_supplied_fields() {
    let stored = product(1, "old");
    let change = UpdateProductDto {
        name: Some("new".to_string()),
        description: None,
        price: None,
        sku: Some("S-2".to_string()),
        category: None,
        in_stock: Some(false),
    };
    let merged = stored.duplicate().merge(change, Timestamp::new(900, 1));
    let mut expected = stored;
    expected.name = "new".to_string();
    expected.sku = "S-2".to_string();
    expected.in_stock = false;
    expected.updated_at = Timestamp::new(900, 1);
    assert_eq!(merged, expected);
}

#[test]
fn merge_of_no_change_refreshes_the_time_only() {
    let stored = product(1, "old");
    let merged = stored.duplicate().merge(no_change(), Timestamp::new(900, 1));
    let mut expected = stored;
    expected.updated_at = Timestamp::new(900, 1);
    assert_eq!(merged, expected);
}

#[test]
fn product_scenario_create_get_update_delete() {
    let mut service = service();
    let created = service.create_product(widget()).unwrap();
    let id = created.id.unwrap();
    assert_eq!(id.value & 0xf000_c000_0000_0000_0000, 0x4000_8000_0000_0000_0000);
    assert!(created.in_stock);
    let found = service.get_product(id).unwrap().unwrap();
    assert_eq!(found.id, Some(id));
    assert_eq!(found.name, "Widget");
    assert_eq!(found.description, "A widget");
    assert_eq!(found.price, 999);
    assert_eq!(found.sku, "W-1");
    assert_eq!(found.category, "tools");
    assert!(found.in_stock);
    assert_eq!(found.created_at, created.created_at.truncated());
    let mut change = no_change();
    change.price = Some(1250);
    service.update_product(id, change).unwrap();
    let found = service.get_product(id).unwrap().unwrap();
    assert_eq!(found.price, 1250);
    assert_eq!(found.name, "Widget");
    assert_eq!(found.description, "A widget");
    assert_eq!(found.sku, "W-1");
    assert_eq!(found.category, "tools");
    assert!(found.in_stock);
    service.delete_product(id).unwrap();
    assert_eq!(service.get_product(id).unwrap(), None);
}

#[test]
fn update_of_missing_product_fails_and_writes_nothing() {
    let mut service = service();
    service.create_product(widget()).unwrap();
    let before = service.get_all_products().unwrap();
    let mut change = no_change();
    change.price = Some(1);
    let error = service.update_product(EntityId::new(0x12), change).unwrap_err();
    assert_eq!(
        error,
        ServiceError::NotFoundError(
            "Product with id 00000000-0000-0000-0000-000000000012 not found".to_string()
        )
    );
    assert_eq!(service.get_all_products().unwrap(), before);
}

#[test]
fn store_update_and_delete_of_missing_product_are_not_found() {
    let mut repository = ProductRepository::new(ProductCollection::new());
    let error = repository.update(EntityId::new(0x12), product(0x12, "x")).unwrap_err();
    assert_eq!(
        error,
        ServiceError::NotFoundError(
            "Product with ID 00000000-0000-0000-0000-000000000012 not found".to_string()
        )
    );
    let error = repository.delete(EntityId::new(0x12)).unwrap_err();
    assert_eq!(error.kind(), ErrorKind::NotFound);
    assert_eq!(error.message(), "Product with ID 00000000-0000-0000-0000-000000000012 not found");
    assert_eq!(repository.collection().len(), 0);
}

#[test]
fn create_does_not_overwrite_a_taken_identifier() {
    let mut repository = ProductRepository::new(ProductCollection::new());
    repository.create(product(1, "first")).unwrap();
    let error = repository.create(product(1, "second")).unwrap_err();
    assert_eq!(
        error,
        ServiceError::DatabaseError(
            "E11000 duplicate key error collection: products index: _id_".to_string()
        )
    );
    assert_eq!(repository.find_by_id(EntityId::new(1)).unwrap().unwrap().name, "first");
    assert_eq!(repository.collection().len(), 1);
}

#[test]
fn products_are_listed_in_the_order_of_the_collection() {
    let mut repository = ProductRepository::new(ProductCollection::new());
    assert_eq!(repository.find_all().unwrap(), Vec::new());
    repository.create(product(3, "c")).unwrap();
    repository.create(product(1, "a")).unwrap();
    repository.create(product(2, "b")).unwrap();
    repository.delete(EntityId::new(1)).unwrap();
    let listed = repository.find_all().unwrap();
    let names: Vec<&str> = listed.iter().map(|p| p.name.as_str()).collect();
    assert_eq!(names, vec!["c", "b"]);
    assert_eq!(listed[0].id, Some(EntityId::new(3)));
    assert_eq!(listed[1].id, Some(EntityId::new(2)));
    assert_eq!(listed[0].created_at, Timestamp::new(100, 0));
}

#[test]
fn repository_is_named_products() {
    let repository = ProductRepository::new(ProductCollection::new());
    assert_eq!(repository.collection_name, "products");
    assert_eq!(repository.collection().len(), 0);
}

#[test]
fn document_is_keyed_by_the_text_of_the_identifier() {
    let mut created = product(0x550e8400_e29b_41d4_a716_446655440000, "w");
    created.id = None;
    let (session, step) = ProductSession::begin(
        ProductRequest::Create(created),
        EntityId::new(0x550e8400_e29b_41d4_a716_446655440000),
    );
    assert_eq!(
        step,
        ProductStep::Ask(ProductQuery::InsertOne(ProductDocument {
            key: "550e8400-e29b-41d4-a716-446655440000".to_string(),
            fields: fields("w"),
        }))
    );
    let result = session.advance(ProductReply::Inserted).unwrap();
    assert_eq!(
        result,
        ProductOutcome::Stored(product(0x550e8400_e29b_41d4_a716_446655440000, "w"))
    );
}

#[test]
fn update_sets_the_fields_and_never_the_key() {
    let (session, step) = ProductSession::begin(
        ProductRequest::Update(EntityId::new(2), product(9, "renamed")),
        EntityId::new(0),
    );
    assert_eq!(
        step,
        ProductStep::Ask(ProductQuery::UpdateOne(
            "00000000-0000-0000-0000-000000000002".to_string(),
            fields("renamed")
        ))
    );
    assert_eq!(
        session.advance(ProductReply::Updated(1)),
        Ok(ProductOutcome::Stored(product(2, "renamed")))
    );
    let (session, _) = ProductSession::begin(
        ProductRequest::Update(EntityId::new(2), product(9, "renamed")),
        EntityId::new(0),
    );
    assert_eq!(
        session.advance(ProductReply::Updated(0)),
        Err(ServiceError::NotFoundError(
            "Product with ID 00000000-0000-0000-0000-000000000002 not found".to_string()
        ))
    );
}

#[test]
fn delete_that_removed_nothing_is_not_found() {
    let (session, step) = ProductSession::begin(ProductRequest::Delete(EntityId::new(2)), EntityId::new(0));
    assert_eq!(
        step,
        ProductStep::Ask(ProductQuery::DeleteOne("00000000-0000-0000-0000-000000000002".to_string()))
    );
    assert_eq!(session.advance(ProductReply::Deleted(1)), Ok(ProductOutcome::Deleted));
    let (session, _) = ProductSession::begin(ProductRequest::Delete(EntityId::new(2)), EntityId::new(0));
    assert_eq!(
        session.advance(ProductReply::Deleted(0)),
        Err(ServiceError::NotFoundError(
            "Product with ID 00000000-0000-0000-0000-000000000002 not found".to_string()
        ))
    );
}

#[test]
fn found_product_carries_the_identifier_that_was_asked_for() {
    let (session, step) = ProductSession::begin(ProductRequest::FindById(EntityId::new(2)), EntityId::new(0));
    assert_eq!(
        step,
        ProductStep::Ask(ProductQuery::FindOne("00000000-0000-0000-0000-000000000002".to_string()))
    );
    let document = ProductDocument { key: "whatever".to_string(), fields: fields("w") };
    let mut expected = product(2, "w");
    expected.created_at = Timestamp::new(100, 0);
    expected.updated_at = Timestamp::new(100, 0);
    assert_eq!(
        session.advance(ProductReply::Document(Some(document))),
        Ok(ProductOutcome::Found(Some(expected)))
    );
    let (session, _) = ProductSession::begin(ProductRequest::FindById(EntityId::new(2)), EntityId::new(0));
    assert_eq!(session.advance(ProductReply::Document(None)), Ok(ProductOutcome::Found(None)));
}

#[test]
fn one_bad_document_fails_the_whole_list() {
    let good = ProductDocument {
        key: "00000000-0000-0000-0000-000000000001".to_string(),
        fields: fields("a"),
    };
    let bad = ProductDocument { key: "not-an-identifier".to_string(), fields: fields("b") };
    let later = ProductDocument {
        key: "00000000-0000-0000-0000-000000000003".to_string(),
        fields: fields("c"),
    };
    let reads = vec![Ok(good.duplicate()), Ok(bad), Ok(later.duplicate())];
    assert_eq!(
        decode_all(&reads),
        Err(ServiceError::DatabaseError("invalid product identifier: not-an-identifier".to_string()))
    );
    let reads = vec![Ok(good.duplicate()), Err("cursor lost".to_string()), Ok(later.duplicate())];
    assert_eq!(decode_all(&reads), Err(ServiceError::DatabaseError("cursor lost".to_string())));
    let reads = vec![
        Err("first failure".to_string()),
        Ok(ProductDocument { key: "bad".to_string(), fields: fields("b") }),
    ];
    assert_eq!(decode_all(&reads), Err(ServiceError::DatabaseError("first failure".to_string())));
    let reads = vec![Ok(good), Ok(later)];
    let listed = decode_all(&reads).unwrap();
    assert_eq!(listed.len(), 2);
    assert_eq!(listed[0].id, Some(EntityId::new(1)));
    assert_eq!(listed[1].id, Some(EntityId::new(3)));
    assert_eq!(listed[1].name, "c");
    let (session, _) = ProductSession::begin(ProductRequest::FindAll, EntityId::new(0));
    assert_eq!(
        session.advance(ProductReply::Documents(vec![Err("boom".to_string())])),
        Err(ServiceError::DatabaseError("boom".to_string()))
    );
}

#[test]
fn decode_reads_the_identifier_from_the_key() {
    let document = ProductDocument {
        key: "550e8400-e29b-41d4-a716-446655440000".to_string(),
        fields: fields("a"),
    };
    let decoded = decode(&document).unwrap();
    assert_eq!(decoded.id, Some(EntityId::new(0x550e8400_e29b_41d4_a716_446655440000)));
    assert_eq!(decoded.updated_at, Timestamp::new(100, 0));
    let with_other = decode_with(&document, Some(EntityId::new(4))).unwrap();
    assert_eq!(with_other.id, Some(EntityId::new(4)));
    assert_eq!(
        decode_with(&document, None),
        Err(ServiceError::DatabaseError(
            "invalid product identifier: 550e8400-e29b-41d4-a716-446655440000".to_string()
        ))
    );
}

#[test]
fn failure_of_the_document_engine_is_a_database_error() {
    let (session, _) = ProductSession::begin(ProductRequest::FindAll, EntityId::new(0));
    assert_eq!(
        session.advance(ProductReply::Failed("no reachable servers".to_string())),
        Err(ServiceError::DatabaseError("no reachable servers".to_string()))
    );
    let (session, _) = ProductSession::begin(ProductRequest::Delete(EntityId::new(1)), EntityId::new(0));
    assert_eq!(
        session.advance(ProductReply::Inserted),
        Err(ServiceError::DatabaseError("unexpected reply from the storage engine".to_string()))
    );
    assert_eq!(
        ProductSession::Closed.advance(ProductReply::Inserted),
        Err(ServiceError::DatabaseError("unexpected reply from the storage engine".to_string()))
    );
}

#[test]
fn collection_answers_as_a_document_store() {
    let mut collection = ProductCollection::new();
    let document = ProductDocument { key: "k1".to_string(), fields: fields("a") };
    assert_eq!(collection.answer(ProductQuery::InsertOne(document.duplicate())), ProductReply::Inserted);
    assert_eq!(
        collection.answer(ProductQuery::InsertOne(document.duplicate())),
        ProductReply::Failed("E11000 duplicate key error collection: products index: _id_".to_string())
    );
    assert_eq!(
        collection.answer(ProductQuery::FindOne("k1".to_string())),
        ProductReply::Document(Some(document.duplicate()))
    );
    assert_eq!(collection.answer(ProductQuery::FindOne("k2".to_string())), ProductReply::Document(None));
    assert_eq!(
        collection.answer(ProductQuery::UpdateOne("k1".to_string(), fields("b"))),
        ProductReply::Updated(1)
    );
    assert_eq!(
        collection.answer(ProductQuery::UpdateOne("k2".to_string(), fields("b"))),
        ProductReply::Updated(0)
    );
    assert_eq!(
        collection.answer(ProductQuery::FindMany),
        ProductReply::Documents(vec![Ok(ProductDocument { key: "k1".to_string(), fields: fields("b") })])
    );
    assert_eq!(collection.read(&ProductQuery::DeleteOne("k1".to_string())), None);
    assert_eq!(collection.answer(ProductQuery::DeleteOne("k1".to_string())), ProductReply::Deleted(1));
    assert_eq!(collection.answer(ProductQuery::DeleteOne("k1".to_string())), ProductReply::Deleted(0));
    assert_eq!(collection.len(), 0);
}

#[test]
fn plan_update_of_nothing_found_is_not_found() {
    let error =
        ProductService::plan_update(EntityId::new(1), None, no_change(), Timestamp::new(1, 1)).unwrap_err();
    assert_eq!(
        error,
        ServiceError::NotFoundError(
            "Product with id 00000000-0000-0000-0000-000000000001 not found".to_string()
        )
    );
}

#[test]
fn plan_product_builds_the_product_of_the_request() {
    let planned = ProductService::plan_product(widget(), EntityId::new(4), Timestamp::new(7, 8));
    assert_eq!(
        planned,
        Product {
            id: Some(EntityId::new(4)),
            name: "Widget".to_string(),
            description: "A widget".to_string(),
            price: 999,
            sku: "W-1".to_string(),
            category: "tools".to_string(),
            in_stock: true,
            created_at: Timestamp::new(7, 8),
            updated_at: Timestamp::new(7, 8),
        }
    );
}
