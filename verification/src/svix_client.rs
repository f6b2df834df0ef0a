//! The delivery-gateway client configuration and the fixed event-type
//! catalog that is registered with the gateway at startup: one entry per
//! event kind, each with a payload schema. Registration is idempotent — the
//! gateway reporting a duplicate is success.

use vstd::prelude::*;

use crate::error::Error;
use crate::taxonomy::{filter_type_str, FilterType};

verus! {

/// Connection settings for the delivery gateway.
#[derive(Debug)]
pub struct SvixArgs {
    pub svix_base_url: String,
    pub svix_auth_token: String,
}

impl SvixArgs {
    /// Settings for a gateway at the given base URL with the given token.
    pub fn new(svix_base_url: String, svix_auth_token: String) -> (r: Self)
        ensures
            r.svix_base_url@ == svix_base_url@,
            r.svix_auth_token@ == svix_auth_token@,
    {
        SvixArgs { svix_base_url, svix_auth_token }
    }
}

/// One string-typed property of an event payload schema.
#[derive(Debug)]
pub struct FieldDef {
    pub name: String,
    pub description: String,
}

/// Mathematical view of a payload property.
pub struct FieldDefV {
    pub name: Seq<char>,
    pub description: Seq<char>,
}

impl View for FieldDef {
    type V = FieldDefV;

    open spec fn view(&self) -> FieldDefV {
        FieldDefV { name: self.name@, description: self.description@ }
    }
}

/// The view of a list of payload properties.
pub open spec fn fields_view(v: Seq<FieldDef>) -> Seq<FieldDefV> {
    v.map_values(|f: FieldDef| f@)
}

/// The payload schema of one event kind: every registered schema is an
/// object holding the event-type identifier beside a payload object with
/// these string-typed properties, both required.
#[derive(Debug)]
pub struct SchemaDef {
    pub title: String,
    pub description: String,
    pub payload_fields: Vec<FieldDef>,
}

/// One event-type catalog entry: the canonical identifier it is registered
/// under, its human-readable description, the schema version tag, and the
/// payload schema.
#[derive(Debug)]
pub struct EventTypeDef {
    pub name: String,
    pub description: String,
    pub schema_version: String,
    pub schema: SchemaDef,
}

/// The gateway's answer to registering one event type.
#[derive(Debug)]
pub enum RegisterResult {
    /// The event type was created.
    Created,
    /// The event type already exists; idempotent registration treats this
    /// as success.
    Conflict,
    /// The call failed for infrastructure reasons.
    Failed,
}

/// Folds the outcomes of registering the catalog: a duplicate is success,
/// and only an infrastructure failure is surfaced.
pub fn apply_registrations(results: &Vec<RegisterResult>) -> (r: Result<(), Error>)
    ensures
        r is Err <==> (exists|i: int| 0 <= i < results@.len() && results@[i] is Failed),
        r matches Err(e) ==> e == Error::UpstreamFailure,
{
    let mut i: usize = 0;
    while i < results.len()
        invariant
            i <= results@.len(),
            forall|j: int| #![trigger results@[j]] 0 <= j < i ==> !(results@[j] is Failed),
        decreases results@.len() - i,
    {
        match results[i] {
            RegisterResult::Failed => {
                return Err(Error::UpstreamFailure);
            },
            RegisterResult::Created | RegisterResult::Conflict => {},
        }
        i += 1;
    }
    Ok(())
}

/// The catalog entry for customer creation.
pub fn customer_created() -> (r: EventTypeDef)
    ensures
        r.name@ == filter_type_str(FilterType::CustomerCreated),
        r.description@ == "A customer was created"@,
        r.schema_version@ == "2"@,
        r.schema.title@ == "Customer created event"@,
        r.schema.description@ == "Customer was created in hub-customers service"@,
        fields_view(r.schema.payload_fields@) =~= seq![
            FieldDefV { name: "project_id"@, description: "Project id"@ },
            FieldDefV { name: "customer_id"@, description: "Customer id"@ },
        ],
{
    let mut payload_fields: Vec<FieldDef> = Vec::new();
    payload_fields.push(
        FieldDef { name: "project_id".to_owned(), description: "Project id".to_owned() },
    );
    payload_fields.push(
        FieldDef { name: "customer_id".to_owned(), description: "Customer id".to_owned() },
    );
    EventTypeDef {
        name: FilterType::CustomerCreated.format(),
        description: "A customer was created".to_owned(),
        schema_version: "2".to_owned(),
        schema: SchemaDef {
            title: "Customer created event".to_owned(),
            description: "Customer was created in hub-customers service".to_owned(),
            payload_fields,
        },
    }
}

/// The catalog entry for customer treasury creation.
pub fn customer_treasury_created() -> (r: EventTypeDef)
    ensures
        r.name@ == filter_type_str(FilterType::CustomerTreasuryCreated),
        r.description@ == "A customer treasury was created"@,
        r.schema_version@ == "2"@,
        r.schema.title@ == "Customer treasury created event"@,
        r.schema.description@ == "Customer treasury was created in hub-treasuries service"@,
        fields_view(r.schema.payload_fields@) =~= seq![
            FieldDefV { name: "project_id"@, description: "Project id"@ },
            FieldDefV { name: "customer_id"@, description: "Customer id"@ },
            FieldDefV { name: "treasury_id"@, description: "Treasury id"@ },
        ],
{
    let mut payload_fields: Vec<FieldDef> = Vec::new();
    payload_fields.push(
        FieldDef { name: "project_id".to_owned(), description: "Project id".to_owned() },
    );
    payload_fields.push(
        FieldDef { name: "customer_id".to_owned(), description: "Customer id".to_owned() },
    );
    payload_fields.push(
        FieldDef { name: "treasury_id".to_owned(), description: "Treasury id".to_owned() },
    );
    EventTypeDef {
        name: FilterType::CustomerTreasuryCreated.format(),
        description: "A customer treasury was created".to_owned(),
        schema_version: "2".to_owned(),
        schema: SchemaDef {
            title: "Customer treasury created event".to_owned(),
            description: "Customer treasury was created in hub-treasuries service".to_owned(),
            payload_fields,
        },
    }
}

/// The catalog entry for customer wallet creation.
pub fn customer_wallet_created() -> (r: EventTypeDef)
    ensures
        r.name@ == filter_type_str(FilterType::CustomerWalletCreated),
        r.description@ == "A customer treasury wallet was created"@,
        r.schema_version@ == "2"@,
        r.schema.title@ == "Customer treasury wallet event"@,
        r.schema.description@ == "Customer treasury wallet was created in hub-treasuries service"@,
        fields_view(r.schema.payload_fields@) =~= seq![
            FieldDefV { name: "project_id"@, description: "Project id"@ },
            FieldDefV { name: "customer_id"@, description: "Customer id"@ },
            FieldDefV { name: "treasury_id"@, description: "Wallet id"@ },
        ],
{
    let mut payload_fields: Vec<FieldDef> = Vec::new();
    payload_fields.push(
        FieldDef { name: "project_id".to_owned(), description: "Project id".to_owned() },
    );
    payload_fields.push(
        FieldDef { name: "customer_id".to_owned(), description: "Customer id".to_owned() },
    );
    payload_fields.push(
        FieldDef { name: "treasury_id".to_owned(), description: "Wallet id".to_owned() },
    );
    EventTypeDef {
        name: FilterType::CustomerWalletCreated.format(),
        description: "A customer treasury wallet was created".to_owned(),
        schema_version: "2".to_owned(),
        schema: SchemaDef {
            title: "Customer treasury wallet event".to_owned(),
            description: "Customer treasury wallet was created in hub-treasuries service"
                .to_owned(),
            payload_fields,
        },
    }
}

/// The catalog entry for project wallet creation.
pub fn project_wallet_created() -> (r: EventTypeDef)
    ensures
        r.name@ == filter_type_str(FilterType::ProjectWalletCreated),
        r.description@ == "A project treasury wallet was created"@,
        r.schema_version@ == "2"@,
        r.schema.title@ == "Project treasury wallet event"@,
        r.schema.description@ == "Project treasury wallet was created in hub-treasuries service"@,
        fields_view(r.schema.payload_fields@) =~= seq![
            FieldDefV { name: "project_id"@, description: "Project id"@ },
            FieldDefV { name: "treasury_id"@, description: "Wallet id"@ },
        ],
{
    let mut payload_fields: Vec<FieldDef> = Vec::new();
    payload_fields.push(
        FieldDef { name: "project_id".to_owned(), description: "Project id".to_owned() },
    );
    payload_fields.push(
        FieldDef { name: "treasury_id".to_owned(), description: "Wallet id".to_owned() },
    );
    EventTypeDef {
        name: FilterType::ProjectWalletCreated.format(),
        description: "A project treasury wallet was created".to_owned(),
        schema_version: "2".to_owned(),
        schema: SchemaDef {
            title: "Project treasury wallet event".to_owned(),
            description: "Project treasury wallet was created in hub-treasuries service"
                .to_owned(),
            payload_fields,
        },
    }
}

/// The catalog entry for drop creation.
pub fn drop_created() -> (r: EventTypeDef)
    ensures
        r.name@ == filter_type_str(FilterType::DropCreated),
        r.description@ == "A drop was created"@,
        r.schema_version@ == "3"@,
        r.schema.title@ == "Drop created"@,
        r.schema.description@ == "A Drop was created in hub-nfts service"@,
        fields_view(r.schema.payload_fields@) =~= seq![
            FieldDefV { name: "project_id"@, description: "Project id"@ },
            FieldDefV { name: "drop_id"@, description: "Drop id"@ },
            FieldDefV {
                name: "creation_status"@,
                description: "The status of the drop's creation"@,
            },
        ],
{
    let mut payload_fields: Vec<FieldDef> = Vec::new();
    payload_fields.push(
        FieldDef { name: "project_id".to_owned(), description: "Project id".to_owned() },
    );
    payload_fields.push(
        FieldDef { name: "drop_id".to_owned(), description: "Drop id".to_owned() },
    );
    payload_fields.push(
        FieldDef {
            name: "creation_status".to_owned(),
            description: "The status of the drop's creation".to_owned(),
        },
    );
    EventTypeDef {
        name: FilterType::DropCreated.format(),
        description: "A drop was created".to_owned(),
        schema_version: "3".to_owned(),
        schema: SchemaDef {
            title: "Drop created".to_owned(),
            description: "A Drop was created in hub-nfts service".to_owned(),
            payload_fields,
        },
    }
}

/// The catalog entry for a mint under a drop.
pub fn drop_minted() -> (r: EventTypeDef)
    ensures
        r.name@ == filter_type_str(FilterType::DropMinted),
        r.description@ == "A collection minted event created"@,
        r.schema_version@ == "3"@,
        r.schema.title@ == "Drop mint created"@,
        r.schema.description@ == "A collection was minted in hub-nfts service"@,
        fields_view(r.schema.payload_fields@) =~= seq![
            FieldDefV { name: "project_id"@, description: "Project id"@ },
            FieldDefV { name: "drop_id"@, description: "Drop id"@ },
            FieldDefV { name: "mint_id"@, description: "Mint id"@ },
            FieldDefV {
                name: "creation_status"@,
                description: "The status of the mint creation"@,
            },
        ],
{
    let mut payload_fields: Vec<FieldDef> = Vec::new();
    payload_fields.push(
        FieldDef { name: "project_id".to_owned(), description: "Project id".to_owned() },
    );
    payload_fields.push(
        FieldDef { name: "drop_id".to_owned(), description: "Drop id".to_owned() },
    );
    payload_fields.push(
        FieldDef { name: "mint_id".to_owned(), description: "Mint id".to_owned() },
    );
    payload_fields.push(
        FieldDef {
            name: "creation_status".to_owned(),
            description: "The status of the mint creation".to_owned(),
        },
    );
    EventTypeDef {
        name: FilterType::DropMinted.format(),
        description: "A collection minted event created".to_owned(),
        schema_version: "3".to_owned(),
        schema: SchemaDef {
            title: "Drop mint created".to_owned(),
            description: "A collection was minted in hub-nfts service".to_owned(),
            payload_fields,
        },
    }
}

/// The catalog entry for a mint transfer.
pub fn mint_transfered() -> (r: EventTypeDef)
    ensures
        r.name@ == filter_type_str(FilterType::MintTransfered),
        r.description@ == "A mint transfered event created"@,
        r.schema_version@ == "1"@,
        r.schema.title@ == "Mint transfered event"@,
        r.schema.description@ == "A mint was transfered"@,
        fields_view(r.schema.payload_fields@) =~= seq![
            FieldDefV { name: "project_id"@, description: "Project id"@ },
            FieldDefV { name: "sender"@, description: "Sender wallet address"@ },
            FieldDefV { name: "recipient"@, description: "Recipient wallet address"@ },
            FieldDefV { name: "mint_id"@, description: "Mint id"@ },
        ],
{
    let mut payload_fields: Vec<FieldDef> = Vec::new();
    payload_fields.push(
        FieldDef { name: "project_id".to_owned(), description: "Project id".to_owned() },
    );
    payload_fields.push(
        FieldDef { name: "sender".to_owned(), description: "Sender wallet address".to_owned() },
    );
    payload_fields.push(
        FieldDef {
            name: "recipient".to_owned(),
            description: "Recipient wallet address".to_owned(),
        },
    );
    payload_fields.push(
        FieldDef { name: "mint_id".to_owned(), description: "Mint id".to_owned() },
    );
    EventTypeDef {
        name: FilterType::MintTransfered.format(),
        description: "A mint transfered event created".to_owned(),
        schema_version: "1".to_owned(),
        schema: SchemaDef {
            title: "Mint transfered event".to_owned(),
            description: "A mint was transfered".to_owned(),
            payload_fields,
        },
    }
}

/// The catalog entry for a mint added to a collection.
pub fn minted_to_collection() -> (r: EventTypeDef)
    ensures
        r.name@ == filter_type_str(FilterType::MintedToCollection),
        r.description@ == "collection mint creation event"@,
        r.schema_version@ == "1"@,
        r.schema.title@ == "Collection Mint creation event"@,
        r.schema.description@ == "Status of collection mint creation in hub-nfts service"@,
        fields_view(r.schema.payload_fields@) =~= seq![
            FieldDefV { name: "mint_id"@, description: "Collection Mint id"@ },
            FieldDefV { name: "collection_id"@, description: "Collection id"@ },
            FieldDefV { name: "project_id"@, description: "Project id"@ },
            FieldDefV { name: "status"@, description: "Collection status"@ },
        ],
{
    let mut payload_fields: Vec<FieldDef> = Vec::new();
    payload_fields.push(
        FieldDef { name: "mint_id".to_owned(), description: "Collection Mint id".to_owned() },
    );
    payload_fields.push(
        FieldDef { name: "collection_id".to_owned(), description: "Collection id".to_owned() },
    );
    payload_fields.push(
        FieldDef { name: "project_id".to_owned(), description: "Project id".to_owned() },
    );
    payload_fields.push(
        FieldDef { name: "status".to_owned(), description: "Collection status".to_owned() },
    );
    EventTypeDef {
        name: FilterType::MintedToCollection.format(),
        description: "collection mint creation event".to_owned(),
        schema_version: "1".to_owned(),
        schema: SchemaDef {
            title: "Collection Mint creation event".to_owned(),
            description: "Status of collection mint creation in hub-nfts service".to_owned(),
            payload_fields,
        },
    }
}

/// The catalog entry for collection creation.
pub fn collection_created() -> (r: EventTypeDef)
    ensures
        r.name@ == filter_type_str(FilterType::CollectionCreated),
        r.description@ == "collection creation event"@,
        r.schema_version@ == "1"@,
        r.schema.title@ == "Collection creation event"@,
        r.schema.description@ == "Status of collection creation in hub-nfts service"@,
        fields_view(r.schema.payload_fields@) =~= seq![
            FieldDefV { name: "collection_id"@, description: "Collection id"@ },
            FieldDefV { name: "project_id"@, description: "Project id"@ },
            FieldDefV { name: "status"@, description: "Collection status"@ },
        ],
{
    let mut payload_fields: Vec<FieldDef> = Vec::new();
    payload_fields.push(
        FieldDef { name: "collection_id".to_owned(), description: "Collection id".to_owned() },
    );
    payload_fields.push(
        FieldDef { name: "project_id".to_owned(), description: "Project id".to_owned() },
    );
    payload_fields.push(
        FieldDef { name: "status".to_owned(), description: "Collection status".to_owned() },
    );
    EventTypeDef {
        name: FilterType::CollectionCreated.format(),
        description: "collection creation event".to_owned(),
        schema_version: "1".to_owned(),
        schema: SchemaDef {
            title: "Collection creation event".to_owned(),
            description: "Status of collection creation in hub-nfts service".to_owned(),
            payload_fields,
        },
    }
}

/// The whole catalog, registered with the gateway at startup: one entry per
/// event kind the router broadcasts, each under its own canonical
/// identifier.
pub fn event_type_catalog() -> (r: Vec<EventTypeDef>)
    ensures
        r@.len() == 9,
        r@[0].name@ == filter_type_str(FilterType::DropCreated),
        r@[0].description@ == "A drop was created"@,
        r@[0].schema_version@ == "3"@,
        r@[0].schema.title@ == "Drop created"@,
        r@[0].schema.description@ == "A Drop was created in hub-nfts service"@,
        fields_view(r@[0].schema.payload_fields@) =~= seq![FieldDefV { name: "project_id"@, description: "Project id"@ }, FieldDefV { name: "drop_id"@, description: "Drop id"@ }, FieldDefV { name: "creation_status"@, description: "The status of the drop's creation"@ }],
        r@[1].name@ == filter_type_str(FilterType::DropMinted),
        r@[1].description@ == "A collection minted event created"@,
        r@[1].schema_version@ == "3"@,
        r@[1].schema.title@ == "Drop mint created"@,
        r@[1].schema.description@ == "A collection was minted in hub-nfts service"@,
        fields_view(r@[1].schema.payload_fields@) =~= seq![FieldDefV { name: "project_id"@, description: "Project id"@ }, FieldDefV { name: "drop_id"@, description: "Drop id"@ }, FieldDefV { name: "mint_id"@, description: "Mint id"@ }, FieldDefV { name: "creation_status"@, description: "The status of the mint creation"@ }],
        r@[2].name@ == filter_type_str(FilterType::CustomerCreated),
        r@[2].description@ == "A customer was created"@,
        r@[2].schema_version@ == "2"@,
        r@[2].schema.title@ == "Customer created event"@,
        r@[2].schema.description@ == "Customer was created in hub-customers service"@,
        fields_view(r@[2].schema.payload_fields@) =~= seq![FieldDefV { name: "project_id"@, description: "Project id"@ }, FieldDefV { name: "customer_id"@, description: "Customer id"@ }],
        r@[3].name@ == filter_type_str(FilterType::CustomerTreasuryCreated),
        r@[3].description@ == "A customer treasury was created"@,
        r@[3].schema_version@ == "2"@,
        r@[3].schema.title@ == "Customer treasury created event"@,
        r@[3].schema.description@ == "Customer treasury was created in hub-treasuries service"@,
        fields_view(r@[3].schema.payload_fields@) =~= seq![FieldDefV { name: "project_id"@, description: "Project id"@ }, FieldDefV { name: "customer_id"@, description: "Customer id"@ }, FieldDefV { name: "treasury_id"@, description: "Treasury id"@ }],
        r@[4].name@ == filter_type_str(FilterType::CustomerWalletCreated),
        r@[4].description@ == "A customer treasury wallet was created"@,
        r@[4].schema_version@ == "2"@,
        r@[4].schema.title@ == "Customer treasury wallet event"@,
        r@[4].schema.description@ == "Customer treasury wallet was created in hub-treasuries service"@,
        fields_view(r@[4].schema.payload_fields@) =~= seq![FieldDefV { name: "project_id"@, description: "Project id"@ }, FieldDefV { name: "customer_id"@, description: "Customer id"@ }, FieldDefV { name: "treasury_id"@, description: "Wallet id"@ }],
        r@[5].name@ == filter_type_str(FilterType::ProjectWalletCreated),
        r@[5].description@ == "A project treasury wallet was created"@,
        r@[5].schema_version@ == "2"@,
        r@[5].schema.title@ == "Project treasury wallet event"@,
        r@[5].schema.description@ == "Project treasury wallet was created in hub-treasuries service"@,
        fields_view(r@[5].schema.payload_fields@) =~= seq![FieldDefV { name: "project_id"@, description: "Project id"@ }, FieldDefV { name: "treasury_id"@, description: "Wallet id"@ }],
        r@[6].name@ == filter_type_str(FilterType::MintTransfered),
        r@[6].description@ == "A mint transfered event created"@,
        r@[6].schema_version@ == "1"@,
        r@[6].schema.title@ == "Mint transfered event"@,
        r@[6].schema.description@ == "A mint was transfered"@,
        fields_view(r@[6].schema.payload_fields@) =~= seq![FieldDefV { name: "project_id"@, description: "Project id"@ }, FieldDefV { name: "sender"@, description: "Sender wallet address"@ }, FieldDefV { name: "recipient"@, description: "Recipient wallet address"@ }, FieldDefV { name: "mint_id"@, description: "Mint id"@ }],
        r@[7].name@ == filter_type_str(FilterType::MintedToCollection),
        r@[7].description@ == "collection mint creation event"@,
        r@[7].schema_version@ == "1"@,
        r@[7].schema.title@ == "Collection Mint creation event"@,
        r@[7].schema.description@ == "Status of collection mint creation in hub-nfts service"@,
        fields_view(r@[7].schema.payload_fields@) =~= seq![FieldDefV { name: "mint_id"@, description: "Collection Mint id"@ }, FieldDefV { name: "collection_id"@, description: "Collection id"@ }, FieldDefV { name: "project_id"@, description: "Project id"@ }, FieldDefV { name: "status"@, description: "Collection status"@ }],
        r@[8].name@ == filter_type_str(FilterType::CollectionCreated),
        r@[8].description@ == "collection creation event"@,
        r@[8].schema_version@ == "1"@,
        r@[8].schema.title@ == "Collection creation event"@,
        r@[8].schema.description@ == "Status of collection creation in hub-nfts service"@,
        fields_view(r@[8].schema.payload_fields@) =~= seq![FieldDefV { name: "collection_id"@, description: "Collection id"@ }, FieldDefV { name: "project_id"@, description: "Project id"@ }, FieldDefV { name: "status"@, description: "Collection status"@ }],
{
    let mut out: Vec<EventTypeDef> = Vec::new();
    out.push(drop_created());
    out.push(drop_minted());
    out.push(customer_created());
    out.push(customer_treasury_created());
    out.push(customer_wallet_created());
    out.push(project_wallet_created());
    out.push(mint_transfered());
    out.push(minted_to_collection());
    out.push(collection_created());
    out
}

} // verus!
