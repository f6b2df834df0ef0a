//! The fixed event-type catalog: symbolic event kinds and their canonical
//! dot-separated string identifiers, plus the creation-status codes carried
//! by mint and drop events.

use vstd::prelude::*;

verus! {

/// A symbolic event kind that a webhook endpoint can subscribe to.
#[derive(Clone, Copy, Debug, PartialEq, Eq, Structural)]
pub enum FilterType {
    ProjectCreated,
    CustomerCreated,
    CustomerTreasuryCreated,
    ProjectWalletCreated,
    CustomerWalletCreated,
    DropCreated,
    DropMinted,
    MintTransfered,
    MintedToCollection,
    CollectionCreated,
}

/// The canonical string identifier of an event kind.
pub open spec fn filter_type_str(f: FilterType) -> Seq<char> {
    match f {
        FilterType::ProjectCreated => "project.created"@,
        FilterType::CustomerCreated => "customer.created"@,
        FilterType::CustomerTreasuryCreated => "customer_treasury.created"@,
        FilterType::ProjectWalletCreated => "project_wallet.created"@,
        FilterType::CustomerWalletCreated => "customer_wallet.created"@,
        FilterType::DropCreated => "drop.created"@,
        FilterType::DropMinted => "drop.minted"@,
        FilterType::MintTransfered => "mint.transfered"@,
        FilterType::MintedToCollection => "mint.minted_to_collection"@,
        FilterType::CollectionCreated => "collection.created"@,
    }
}

/// The inverse of `filter_type_str`: which event kind a canonical string
/// identifier names, if any.
pub open spec fn parse_filter_type(s: Seq<char>) -> Option<FilterType> {
    if s == filter_type_str(FilterType::ProjectCreated) {
        Some(FilterType::ProjectCreated)
    } else if s == filter_type_str(FilterType::CustomerCreated) {
        Some(FilterType::CustomerCreated)
    } else if s == filter_type_str(FilterType::CustomerTreasuryCreated) {
        Some(FilterType::CustomerTreasuryCreated)
    } else if s == filter_type_str(FilterType::ProjectWalletCreated) {
        Some(FilterType::ProjectWalletCreated)
    } else if s == filter_type_str(FilterType::CustomerWalletCreated) {
        Some(FilterType::CustomerWalletCreated)
    } else if s == filter_type_str(FilterType::DropCreated) {
        Some(FilterType::DropCreated)
    } else if s == filter_type_str(FilterType::DropMinted) {
        Some(FilterType::DropMinted)
    } else if s == filter_type_str(FilterType::MintTransfered) {
        Some(FilterType::MintTransfered)
    } else if s == filter_type_str(FilterType::MintedToCollection) {
        Some(FilterType::MintedToCollection)
    } else if s == filter_type_str(FilterType::CollectionCreated) {
        Some(FilterType::CollectionCreated)
    } else {
        None
    }
}

impl FilterType {
    /// The canonical dot-separated identifier under which this event kind is
    /// registered with the delivery gateway and carried in message envelopes.
    pub fn format(self) -> (r: String)
        ensures
            r@ == filter_type_str(self),
    {
        match self {
            FilterType::ProjectCreated => "project.created".to_owned(),
            FilterType::CustomerCreated => "customer.created".to_owned(),
            FilterType::CustomerTreasuryCreated => "customer_treasury.created".to_owned(),
            FilterType::ProjectWalletCreated => "project_wallet.created".to_owned(),
            FilterType::CustomerWalletCreated => "customer_wallet.created".to_owned(),
            FilterType::DropCreated => "drop.created".to_owned(),
            FilterType::DropMinted => "drop.minted".to_owned(),
            FilterType::MintTransfered => "mint.transfered".to_owned(),
            FilterType::MintedToCollection => "mint.minted_to_collection".to_owned(),
            FilterType::CollectionCreated => "collection.created".to_owned(),
        }
    }

    /// Parses a canonical identifier back into its event kind.
    pub fn parse(s: &str) -> (r: Option<FilterType>)
        ensures
            r == parse_filter_type(s@),
    {
        let v = s.to_owned();
        if v == "project.created".to_owned() {
            Some(FilterType::ProjectCreated)
        } else if v == "customer.created".to_owned() {
            Some(FilterType::CustomerCreated)
        } else if v == "customer_treasury.created".to_owned() {
            Some(FilterType::CustomerTreasuryCreated)
        } else if v == "project_wallet.created".to_owned() {
            Some(FilterType::ProjectWalletCreated)
        } else if v == "customer_wallet.created".to_owned() {
            Some(FilterType::CustomerWalletCreated)
        } else if v == "drop.created".to_owned() {
            Some(FilterType::DropCreated)
        } else if v == "drop.minted".to_owned() {
            Some(FilterType::DropMinted)
        } else if v == "mint.transfered".to_owned() {
            Some(FilterType::MintTransfered)
        } else if v == "mint.minted_to_collection".to_owned() {
            Some(FilterType::MintedToCollection)
        } else if v == "collection.created".to_owned() {
            Some(FilterType::CollectionCreated)
        } else {
            None
        }
    }
}

/// Law: parsing the canonical identifier of an event kind yields that kind
/// back; the catalog's identifiers are unambiguous.
pub proof fn lemma_parse_inverts_format(f: FilterType)
    ensures
        parse_filter_type(filter_type_str(f)) == Some(f),
{
    reveal_strlit("project.created");
    reveal_strlit("customer.created");
    reveal_strlit("customer_treasury.created");
    reveal_strlit("project_wallet.created");
    reveal_strlit("customer_wallet.created");
    reveal_strlit("drop.created");
    reveal_strlit("drop.minted");
    reveal_strlit("mint.transfered");
    reveal_strlit("mint.minted_to_collection");
    reveal_strlit("collection.created");
    assert("project.created"@.len() == 15);
    assert("customer.created"@.len() == 16);
    assert("customer_treasury.created"@.len() == 25);
    assert("project_wallet.created"@.len() == 22);
    assert("customer_wallet.created"@.len() == 23);
    assert("drop.created"@.len() == 12);
    assert("drop.minted"@.len() == 11);
    assert("mint.transfered"@.len() == 15);
    assert("mint.minted_to_collection"@.len() == 25);
    assert("collection.created"@.len() == 18);
    assert("project.created"@ != "mint.transfered"@) by {
        assert("project.created"@[0] == 'p');
        assert("mint.transfered"@[0] == 'm');
    }
    assert("customer_treasury.created"@ != "mint.minted_to_collection"@) by {
        assert("customer_treasury.created"@[0] == 'c');
        assert("mint.minted_to_collection"@[0] == 'm');
    }
}

/// The creation status carried by drop, mint and collection events.
#[derive(Clone, Copy, Debug, PartialEq, Eq, Structural)]
pub enum CreationStatus {
    Unspecified,
    Completed,
    InProgress,
    Failed,
}

/// The numeric wire code of each creation status.
pub open spec fn creation_status_code(s: CreationStatus) -> int {
    match s {
        CreationStatus::Unspecified => 0,
        CreationStatus::Completed => 1,
        CreationStatus::InProgress => 2,
        CreationStatus::Failed => 3,
    }
}

/// Which creation status a numeric wire code decodes to, if any.
pub open spec fn status_from_code(code: int) -> Option<CreationStatus> {
    if code == creation_status_code(CreationStatus::Unspecified) {
        Some(CreationStatus::Unspecified)
    } else if code == creation_status_code(CreationStatus::Completed) {
        Some(CreationStatus::Completed)
    } else if code == creation_status_code(CreationStatus::InProgress) {
        Some(CreationStatus::InProgress)
    } else if code == creation_status_code(CreationStatus::Failed) {
        Some(CreationStatus::Failed)
    } else {
        None
    }
}

impl CreationStatus {
    /// Decodes the numeric wire code of a creation status; codes outside the
    /// declared range have no status.
    pub fn from_i32(code: i32) -> (r: Option<CreationStatus>)
        ensures
            r == status_from_code(code as int),
    {
        match code {
            0 => Some(CreationStatus::Unspecified),
            1 => Some(CreationStatus::Completed),
            2 => Some(CreationStatus::InProgress),
            3 => Some(CreationStatus::Failed),
            _ => None,
        }
    }

    /// The screaming-case name of the status, as carried in payloads.
    pub fn as_str_name(self) -> (r: String)
        ensures
            r@ == creation_status_str(self),
    {
        match self {
            CreationStatus::Unspecified => "CREATION_STATUS_UNSPECIFIED".to_owned(),
            CreationStatus::Completed => "COMPLETED".to_owned(),
            CreationStatus::InProgress => "IN_PROGRESS".to_owned(),
            CreationStatus::Failed => "FAILED".to_owned(),
        }
    }
}

/// The payload name of each creation status.
pub open spec fn creation_status_str(s: CreationStatus) -> Seq<char> {
    match s {
        CreationStatus::Unspecified => "CREATION_STATUS_UNSPECIFIED"@,
        CreationStatus::Completed => "COMPLETED"@,
        CreationStatus::InProgress => "IN_PROGRESS"@,
        CreationStatus::Failed => "FAILED"@,
    }
}

} // verus!
