use hub_webhooks::taxonomy::{CreationStatus, FilterType};

fn all_filter_types() -> Vec<FilterType> {
    vec![
        FilterType::ProjectCreated,
        FilterType::CustomerCreated,
        FilterType::CustomerTreasuryCreated,
        FilterType::ProjectWalletCreated,
        FilterType::CustomerWalletCreated,
        FilterType::DropCreated,
        FilterType::DropMinted,
        FilterType::MintTransfered,
        FilterType::MintedToCollection,
        FilterType::CollectionCreated,
    ]
}

#[test]
fn filter_type_format_gives_canonical_identifiers() {
    assert_eq!(FilterType::ProjectCreated.format(), "project.created");
    assert_eq!(FilterType::CustomerCreated.format(), "customer.created");
    assert_eq!(
        FilterType::CustomerTreasuryCreated.format(),
        "customer_treasury.created"
    );
    assert_eq!(
        FilterType::CustomerWalletCreated.format(),
        "customer_wallet.created"
    );
    assert_eq!(
        FilterType::ProjectWalletCreated.format(),
        "project_wallet.created"
    );
    assert_eq!(FilterType::DropCreated.format(), "drop.created");
    assert_eq!(FilterType::DropMinted.format(), "drop.minted");
    assert_eq!(FilterType::MintTransfered.format(), "mint.transfered");
    assert_eq!(
        FilterType::MintedToCollection.format(),
        "mint.minted_to_collection"
    );
    assert_eq!(FilterType::CollectionCreated.format(), "collection.created");
}

#[test]
fn parse_inverts_format_for_every_kind() {
    for ft in all_filter_types() {
        let formatted = ft.format();
        assert_eq!(FilterType::parse(formatted.as_str()), Some(ft));
    }
}

#[test]
fn parse_rejects_identifiers_outside_the_catalog() {
    assert_eq!(FilterType::parse("customer.updated"), None);
    assert_eq!(FilterType::parse(""), None);
    assert_eq!(FilterType::parse("customer.created "), None);
    assert_eq!(FilterType::parse("Customer.Created"), None);
}

#[test]
fn creation_status_codes_round_trip() {
    assert_eq!(CreationStatus::from_i32(0), Some(CreationStatus::Unspecified));
    assert_eq!(CreationStatus::from_i32(1), Some(CreationStatus::Completed));
    assert_eq!(CreationStatus::from_i32(2), Some(CreationStatus::InProgress));
    assert_eq!(CreationStatus::from_i32(3), Some(CreationStatus::Failed));
}

#[test]
fn creation_status_rejects_unknown_codes() {
    assert_eq!(CreationStatus::from_i32(-1), None);
    assert_eq!(CreationStatus::from_i32(4), None);
    assert_eq!(CreationStatus::from_i32(i32::MAX), None);
}

#[test]
fn creation_status_names() {
    assert_eq!(
        CreationStatus::Unspecified.as_str_name(),
        "CREATION_STATUS_UNSPECIFIED"
    );
    assert_eq!(CreationStatus::Completed.as_str_name(), "COMPLETED");
    assert_eq!(CreationStatus::InProgress.as_str_name(), "IN_PROGRESS");
    assert_eq!(CreationStatus::Failed.as_str_name(), "FAILED");
}
