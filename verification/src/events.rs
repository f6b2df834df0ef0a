//! The inbound domain events: one key record and one tagged value record per
//! declared topic, and the canonical envelope broadcast to webhook endpoints.
//!
//! Each topic's value record is a tagged union with an explicit `Other` arm:
//! producers may add variants the router does not yet understand, and those
//! decode to `Other` and are skipped rather than failing the message.

use vstd::prelude::*;

verus! {

/// The topics the router declares interest in.
#[derive(Clone, Copy, Debug, PartialEq, Eq, Structural)]
pub enum Topic {
    Organizations,
    Customers,
    Treasuries,
    Nfts,
}

/// The topic name each declared topic is consumed under.
pub open spec fn topic_name_str(t: Topic) -> Seq<char> {
    match t {
        Topic::Organizations => "hub-orgs"@,
        Topic::Customers => "hub-customers"@,
        Topic::Treasuries => "hub-treasuries"@,
        Topic::Nfts => "hub-nfts"@,
    }
}

/// Which declared topic a topic name belongs to, if any.
pub open spec fn parse_topic(s: Seq<char>) -> Option<Topic> {
    if s == topic_name_str(Topic::Organizations) {
        Some(Topic::Organizations)
    } else if s == topic_name_str(Topic::Customers) {
        Some(Topic::Customers)
    } else if s == topic_name_str(Topic::Treasuries) {
        Some(Topic::Treasuries)
    } else if s == topic_name_str(Topic::Nfts) {
        Some(Topic::Nfts)
    } else {
        None
    }
}

/// Recognizes a declared topic name. An undeclared topic is rejected before
/// any decoding and without side effects.
pub fn match_topic(topic: &str) -> (r: Option<Topic>)
    ensures
        r == parse_topic(topic@),
{
    let v = topic.to_owned();
    if v == "hub-orgs".to_owned() {
        Some(Topic::Organizations)
    } else if v == "hub-customers".to_owned() {
        Some(Topic::Customers)
    } else if v == "hub-treasuries".to_owned() {
        Some(Topic::Treasuries)
    } else if v == "hub-nfts".to_owned() {
        Some(Topic::Nfts)
    } else {
        None
    }
}

/// Key record of the organizations topic.
#[derive(Debug)]
pub struct OrganizationEventKey {
    pub id: String,
}

/// Key record of the customers topic.
#[derive(Debug)]
pub struct CustomerEventKey {
    pub id: String,
}

/// Key record of the treasuries topic.
#[derive(Debug)]
pub struct TreasuryEventKey {
    pub id: String,
}

/// Key record of the NFTs topic; its events carry the owning project.
#[derive(Debug)]
pub struct NftEventKey {
    pub id: String,
    pub project_id: String,
}

/// An organization record carried by an organization-created event.
#[derive(Debug)]
pub struct Organization {
    pub id: String,
    pub name: String,
}

/// A customer record carried by a customer-created event.
#[derive(Debug)]
pub struct Customer {
    pub project_id: String,
}

/// A treasury record scoped to a customer.
#[derive(Debug)]
pub struct CustomerTreasury {
    pub project_id: String,
    pub customer_id: String,
}

/// A wallet record scoped to a project treasury.
#[derive(Debug)]
pub struct ProjectWallet {
    pub project_id: String,
}

/// A transfer record for a minted token.
#[derive(Debug)]
pub struct MintTransfer {
    pub project_id: String,
    pub sender: String,
    pub recipient: String,
}

/// A drop-creation record; `status` is a numeric creation-status code.
#[derive(Debug)]
pub struct DropCreation {
    pub status: i32,
}

/// A mint-creation record under a drop.
#[derive(Debug)]
pub struct MintCreation {
    pub drop_id: String,
    pub status: i32,
}

/// A mint added to an existing collection.
#[derive(Debug)]
pub struct CollectionMint {
    pub collection_id: String,
    pub status: i32,
}

/// A collection-creation record.
#[derive(Debug)]
pub struct Collection {
    pub status: i32,
}

/// Inner event of the organizations topic.
#[derive(Debug)]
pub enum OrganizationEvent {
    OrganizationCreated(Organization),
    /// A variant this router does not act on.
    Other,
}

/// Inner event of the customers topic.
#[derive(Debug)]
pub enum CustomerEvent {
    Created(Customer),
    /// A variant this router does not act on.
    Other,
}

/// Inner event of the treasuries topic.
#[derive(Debug)]
pub enum TreasuryEvent {
    CustomerTreasuryCreated(CustomerTreasury),
    CustomerWalletCreated(CustomerTreasury),
    ProjectWalletCreated(ProjectWallet),
    MintTransfered(MintTransfer),
    /// A variant this router does not act on.
    Other,
}

/// Inner event of the NFTs topic.
#[derive(Debug)]
pub enum NftEvent {
    DropCreated(DropCreation),
    DropMinted(MintCreation),
    MintedToCollection(CollectionMint),
    CollectionCreated(Collection),
    /// A variant this router does not act on.
    Other,
}

/// Value record of the organizations topic; an absent inner event is a no-op.
#[derive(Debug)]
pub struct OrganizationEvents {
    pub event: Option<OrganizationEvent>,
}

/// Value record of the customers topic.
#[derive(Debug)]
pub struct CustomerEvents {
    pub event: Option<CustomerEvent>,
}

/// Value record of the treasuries topic.
#[derive(Debug)]
pub struct TreasuryEvents {
    pub event: Option<TreasuryEvent>,
}

/// Value record of the NFTs topic.
#[derive(Debug)]
pub struct NftEvents {
    pub event: Option<NftEvent>,
}

/// One decoded message from a declared topic: its key record and its value
/// record.
#[derive(Debug)]
pub enum Services {
    Organizations(OrganizationEventKey, OrganizationEvents),
    Customers(CustomerEventKey, CustomerEvents),
    Treasuries(TreasuryEventKey, TreasuryEvents),
    Nfts(NftEventKey, NftEvents),
}

/// The canonical envelope submitted to the delivery gateway: the event-type
/// identifier beside the event-specific payload.
#[derive(Debug)]
pub struct Event {
    pub event_type: String,
    pub payload: EventPayload,
}

/// The event-specific fields of a canonical envelope.
#[derive(Debug)]
pub enum EventPayload {
    CustomerCreated(CustomerCreatedPayload),
    CustomerTreasuryCreated(CustomerTreasuryCreatedPayload),
    CustomerWalletCreated(CustomerWalletCreatedPayload),
    ProjectWalletCreated(ProjectWalletCreatedPayload),
    DropCreated(DropCreatedPayload),
    DropMinted(DropMintedPayload),
    MintTransfered(MintTransferedPayload),
    MintedToCollection(MintedToCollectionPayload),
    CollectionCreated(CollectionCreatedPayload),
}

#[derive(Debug)]
pub struct CustomerCreatedPayload {
    pub customer_id: String,
    pub project_id: String,
}

#[derive(Debug)]
pub struct CustomerTreasuryCreatedPayload {
    pub treasury_id: String,
    pub project_id: String,
    pub customer_id: String,
}

#[derive(Debug)]
pub struct CustomerWalletCreatedPayload {
    pub treasury_id: String,
    pub project_id: String,
    pub customer_id: String,
}

#[derive(Debug)]
pub struct ProjectWalletCreatedPayload {
    pub treasury_id: String,
    pub project_id: String,
}

#[derive(Debug)]
pub struct DropCreatedPayload {
    pub drop_id: String,
    pub project_id: String,
    pub creation_status: String,
}

#[derive(Debug)]
pub struct DropMintedPayload {
    pub mint_id: String,
    pub project_id: String,
    pub drop_id: String,
    pub creation_status: String,
}

#[derive(Debug)]
pub struct MintTransferedPayload {
    pub project_id: String,
    pub sender: String,
    pub recipient: String,
    pub mint_id: String,
}

#[derive(Debug)]
pub struct MintedToCollectionPayload {
    pub mint_id: String,
    pub collection_id: String,
    pub project_id: String,
    pub status: String,
}

#[derive(Debug)]
pub struct CollectionCreatedPayload {
    pub collection_id: String,
    pub project_id: String,
    pub status: String,
}

/// Mathematical view of a canonical envelope.
pub struct EventV {
    pub event_type: Seq<char>,
    pub payload: EventPayloadV,
}

/// Mathematical view of the event-specific payload fields.
pub enum EventPayloadV {
    CustomerCreated { customer_id: Seq<char>, project_id: Seq<char> },
    CustomerTreasuryCreated { treasury_id: Seq<char>, project_id: Seq<char>, customer_id: Seq<char> },
    CustomerWalletCreated { treasury_id: Seq<char>, project_id: Seq<char>, customer_id: Seq<char> },
    ProjectWalletCreated { treasury_id: Seq<char>, project_id: Seq<char> },
    DropCreated { drop_id: Seq<char>, project_id: Seq<char>, creation_status: Seq<char> },
    DropMinted { mint_id: Seq<char>, project_id: Seq<char>, drop_id: Seq<char>, creation_status: Seq<char> },
    MintTransfered { project_id: Seq<char>, sender: Seq<char>, recipient: Seq<char>, mint_id: Seq<char> },
    MintedToCollection { mint_id: Seq<char>, collection_id: Seq<char>, project_id: Seq<char>, status: Seq<char> },
    CollectionCreated { collection_id: Seq<char>, project_id: Seq<char>, status: Seq<char> },
}

impl View for EventPayload {
    type V = EventPayloadV;

    open spec fn view(&self) -> EventPayloadV {
        match self {
            EventPayload::CustomerCreated(p) => EventPayloadV::CustomerCreated {
                customer_id: p.customer_id@,
                project_id: p.project_id@,
            },
            EventPayload::CustomerTreasuryCreated(p) => EventPayloadV::CustomerTreasuryCreated {
                treasury_id: p.treasury_id@,
                project_id: p.project_id@,
                customer_id: p.customer_id@,
            },
            EventPayload::CustomerWalletCreated(p) => EventPayloadV::CustomerWalletCreated {
                treasury_id: p.treasury_id@,
                project_id: p.project_id@,
                customer_id: p.customer_id@,
            },
            EventPayload::ProjectWalletCreated(p) => EventPayloadV::ProjectWalletCreated {
                treasury_id: p.treasury_id@,
                project_id: p.project_id@,
            },
            EventPayload::DropCreated(p) => EventPayloadV::DropCreated {
                drop_id: p.drop_id@,
                project_id: p.project_id@,
                creation_status: p.creation_status@,
            },
            EventPayload::DropMinted(p) => EventPayloadV::DropMinted {
                mint_id: p.mint_id@,
                project_id: p.project_id@,
                drop_id: p.drop_id@,
                creation_status: p.creation_status@,
            },
            EventPayload::MintTransfered(p) => EventPayloadV::MintTransfered {
                project_id: p.project_id@,
                sender: p.sender@,
                recipient: p.recipient@,
                mint_id: p.mint_id@,
            },
            EventPayload::MintedToCollection(p) => EventPayloadV::MintedToCollection {
                mint_id: p.mint_id@,
                collection_id: p.collection_id@,
                project_id: p.project_id@,
                status: p.status@,
            },
            EventPayload::CollectionCreated(p) => EventPayloadV::CollectionCreated {
                collection_id: p.collection_id@,
                project_id: p.project_id@,
                status: p.status@,
            },
        }
    }
}

impl View for Event {
    type V = EventV;

    open spec fn view(&self) -> EventV {
        EventV { event_type: self.event_type@, payload: self.payload@ }
    }
}

} // verus!
