use hub_webhooks::endpoints::{Endpoint, Webhook};
use hub_webhooks::directory::WebhookRecord;
use hub_webhooks::error::Error;
use hub_webhooks::svix_client::{
    apply_registrations, collection_created, customer_created, customer_treasury_created,
    customer_wallet_created, drop_created, drop_minted, event_type_catalog, mint_transfered,
    minted_to_collection, project_wallet_created, RegisterResult, SvixArgs,
};
use hub_webhooks::taxonomy::FilterType;

#[test]
fn catalog_registers_every_kind_under_its_own_identifier() {
    let catalog = event_type_catalog();
    let names: Vec<String> = catalog.iter().map(|e| e.name.clone()).collect();
    assert_eq!(
        names,
        vec![
            "drop.created".to_string(),
            "drop.minted".to_string(),
            "customer.created".to_string(),
            "customer_treasury.created".to_string(),
            "customer_wallet.created".to_string(),
            "project_wallet.created".to_string(),
            "mint.transfered".to_string(),
            "mint.minted_to_collection".to_string(),
            "collection.created".to_string(),
        ]
    );
}

#[test]
fn customer_created_schema_lists_its_payload_fields() {
    let def = customer_created();
    assert_eq!(def.name, "customer.created");
    assert_eq!(def.description, "A customer was created");
    assert_eq!(def.schema_version, "2");
    assert_eq!(def.schema.title, "Customer created event");
    assert_eq!(
        def.schema.description,
        "Customer was created in hub-customers service"
    );
    let fields: Vec<(String, String)> = def
        .schema
        .payload_fields
        .iter()
        .map(|f| (f.name.clone(), f.description.clone()))
        .collect();
    assert_eq!(
        fields,
        vec![
            ("project_id".to_string(), "Project id".to_string()),
            ("customer_id".to_string(), "Customer id".to_string()),
        ]
    );
}

#[test]
fn schema_builders_carry_their_field_lists() {
    let field_names = |def: hub_webhooks::svix_client::EventTypeDef| -> Vec<String> {
        def.schema.payload_fields.iter().map(|f| f.name.clone()).collect()
    };
    assert_eq!(
        field_names(customer_treasury_created()),
        vec!["project_id", "customer_id", "treasury_id"]
    );
    assert_eq!(
        field_names(customer_wallet_created()),
        vec!["project_id", "customer_id", "treasury_id"]
    );
    assert_eq!(
        field_names(project_wallet_created()),
        vec!["project_id", "treasury_id"]
    );
    assert_eq!(
        field_names(drop_created()),
        vec!["project_id", "drop_id", "creation_status"]
    );
    assert_eq!(
        field_names(drop_minted()),
        vec!["project_id", "drop_id", "mint_id", "creation_status"]
    );
    assert_eq!(
        field_names(mint_transfered()),
        vec!["project_id", "sender", "recipient", "mint_id"]
    );
    assert_eq!(
        field_names(minted_to_collection()),
        vec!["mint_id", "collection_id", "project_id", "status"]
    );
    assert_eq!(
        field_names(collection_created()),
        vec!["collection_id", "project_id", "status"]
    );
}

#[test]
fn registration_treats_conflicts_as_success() {
    let results = vec![
        RegisterResult::Created,
        RegisterResult::Conflict,
        RegisterResult::Created,
    ];
    assert_eq!(apply_registrations(&results), Ok(()));
}

#[test]
fn registration_surfaces_infrastructure_failures() {
    let results = vec![RegisterResult::Created, RegisterResult::Failed];
    assert_eq!(apply_registrations(&results), Err(Error::UpstreamFailure));
}

#[test]
fn svix_args_hold_the_connection_settings() {
    let args = SvixArgs::new(
        "http://127.0.0.1:8071".to_string(),
        "token-1".to_string(),
    );
    assert_eq!(args.svix_base_url, "http://127.0.0.1:8071");
    assert_eq!(args.svix_auth_token, "token-1");
}

#[test]
fn resolved_webhook_exposes_row_and_endpoint_data() {
    let w = Webhook::new(
        Endpoint {
            id: "ep-1".to_string(),
            url: "https://example.com/hook".to_string(),
            description: None,
            version: 3,
            disabled: Some(false),
            channels: Some(vec!["p1".to_string(), "p2".to_string()]),
            filter_types: Some(vec![
                "customer.created".to_string(),
                "drop.minted".to_string(),
            ]),
            rate_limit: None,
            uid: None,
        },
        WebhookRecord {
            id: "wh-1".to_string(),
            endpoint_id: "ep-1".to_string(),
            organization_id: "org-1".to_string(),
            created_at: 20,
            updated_at: Some(30),
            created_by: "user-1".to_string(),
        },
    );
    assert_eq!(w.id(), "wh-1");
    assert_eq!(w.endpoint_id(), "ep-1");
    assert_eq!(w.url(), "https://example.com/hook");
    assert_eq!(w.description(), "");
    assert_eq!(w.created_at(), 20);
    assert_eq!(w.updated_at(), Some(30));
    assert_eq!(w.organization_id(), "org-1");
    assert_eq!(w.created_by_id(), "user-1");
    assert_eq!(w.channels(), vec!["p1".to_string(), "p2".to_string()]);
    assert_eq!(
        w.events(),
        Ok(vec![FilterType::CustomerCreated, FilterType::DropMinted])
    );
}

#[test]
fn unknown_filter_identifier_fails_event_listing() {
    let w = Webhook::new(
        Endpoint {
            id: "ep-1".to_string(),
            url: "https://example.com/hook".to_string(),
            description: Some("orders".to_string()),
            version: 1,
            disabled: None,
            channels: None,
            filter_types: Some(vec!["customer.exploded".to_string()]),
            rate_limit: None,
            uid: None,
        },
        WebhookRecord {
            id: "wh-1".to_string(),
            endpoint_id: "ep-1".to_string(),
            organization_id: "org-1".to_string(),
            created_at: 20,
            updated_at: None,
            created_by: "user-1".to_string(),
        },
    );
    assert_eq!(w.events(), Err(Error::MalformedEvent));
    assert_eq!(w.description(), "orders");
    assert!(w.channels().is_empty());
}
