//! The event router: turns one decoded message into at most one side effect,
//! either provisioning a tenant application or broadcasting a canonical
//! envelope to a project channel.

use vstd::prelude::*;

use crate::directory::Directory;
use crate::error::Error;
use crate::events::{
    Collection, CollectionCreatedPayload, CollectionMint, Customer, CustomerCreatedPayload,
    CustomerEvent, CustomerEventKey, CustomerEvents, CustomerTreasury,
    CustomerTreasuryCreatedPayload, CustomerWalletCreatedPayload, DropCreatedPayload,
    DropCreation, DropMintedPayload, Event, EventPayload, EventPayloadV, EventV, MintCreation,
    MintTransfer, MintTransferedPayload, MintedToCollectionPayload, NftEvent, NftEventKey,
    NftEvents, Organization, OrganizationEvent, OrganizationEventKey, OrganizationEvents,
    ProjectWallet, ProjectWalletCreatedPayload, Services, TreasuryEvent, TreasuryEventKey,
    TreasuryEvents,
};
use crate::taxonomy::{
    creation_status_str, filter_type_str, status_from_code, CreationStatus, FilterType,
};

verus! {

/// The one side effect a decoded message asks for.
#[derive(Debug)]
pub enum EventPlan {
    /// Create a tenant application for a newly observed organization, under
    /// the organization id as idempotency key.
    Provision { organization_id: String, name: String, idempotency_key: String },
    /// Broadcast a canonical envelope to the channel of one project.
    Broadcast { project_id: String, filter_type: FilterType, envelope: Event },
    /// A variant the router does not act on; success without side effects.
    Skip,
}

/// Mathematical view of an `EventPlan`.
pub enum EventPlanV {
    Provision { organization_id: Seq<char>, name: Seq<char>, idempotency_key: Seq<char> },
    Broadcast { project_id: Seq<char>, filter_type: FilterType, envelope: EventV },
    Skip,
}

impl View for EventPlan {
    type V = EventPlanV;

    open spec fn view(&self) -> EventPlanV {
        match self {
            EventPlan::Provision { organization_id, name, idempotency_key } => {
                EventPlanV::Provision {
                    organization_id: organization_id@,
                    name: name@,
                    idempotency_key: idempotency_key@,
                }
            },
            EventPlan::Broadcast { project_id, filter_type, envelope } => {
                EventPlanV::Broadcast {
                    project_id: project_id@,
                    filter_type: *filter_type,
                    envelope: envelope@,
                }
            },
            EventPlan::Skip => EventPlanV::Skip,
        }
    }
}

/// The view of a planning result.
pub open spec fn plan_result_view(r: Result<EventPlan, Error>) -> Result<EventPlanV, Error> {
    match r {
        Ok(p) => Ok(p@),
        Err(e) => Err(e),
    }
}

/// What the router plans for each decoded message: organization creation
/// provisions a tenant, project-scoped events broadcast a canonical envelope
/// to that project's channel, unknown variants and absent inner events are
/// skipped, and an undecodable creation status fails the message.
pub open spec fn spec_plan(msg: Services) -> Result<EventPlanV, Error> {
    match msg {
        Services::Organizations(k, e) => match e.event {
            Some(OrganizationEvent::OrganizationCreated(org)) => Ok(EventPlanV::Provision {
                organization_id: org.id@,
                name: org.name@,
                idempotency_key: k.id@,
            }),
            _ => Ok(EventPlanV::Skip),
        },
        Services::Customers(k, e) => match e.event {
            Some(CustomerEvent::Created(c)) => Ok(EventPlanV::Broadcast {
                project_id: c.project_id@,
                filter_type: FilterType::CustomerCreated,
                envelope: EventV {
                    event_type: filter_type_str(FilterType::CustomerCreated),
                    payload: EventPayloadV::CustomerCreated {
                        customer_id: k.id@,
                        project_id: c.project_id@,
                    },
                },
            }),
            _ => Ok(EventPlanV::Skip),
        },
        Services::Treasuries(k, e) => match e.event {
            Some(TreasuryEvent::CustomerTreasuryCreated(c)) => Ok(EventPlanV::Broadcast {
                project_id: c.project_id@,
                filter_type: FilterType::CustomerTreasuryCreated,
                envelope: EventV {
                    event_type: filter_type_str(FilterType::CustomerTreasuryCreated),
                    payload: EventPayloadV::CustomerTreasuryCreated {
                        treasury_id: k.id@,
                        project_id: c.project_id@,
                        customer_id: c.customer_id@,
                    },
                },
            }),
            Some(TreasuryEvent::CustomerWalletCreated(c)) => Ok(EventPlanV::Broadcast {
                project_id: c.project_id@,
                filter_type: FilterType::CustomerWalletCreated,
                envelope: EventV {
                    event_type: filter_type_str(FilterType::CustomerWalletCreated),
                    payload: EventPayloadV::CustomerWalletCreated {
                        treasury_id: k.id@,
                        project_id: c.project_id@,
                        customer_id: c.customer_id@,
                    },
                },
            }),
            Some(TreasuryEvent::ProjectWalletCreated(p)) => Ok(EventPlanV::Broadcast {
                project_id: p.project_id@,
                filter_type: FilterType::ProjectWalletCreated,
                envelope: EventV {
                    event_type: filter_type_str(FilterType::ProjectWalletCreated),
                    payload: EventPayloadV::ProjectWalletCreated {
                        treasury_id: k.id@,
                        project_id: p.project_id@,
                    },
                },
            }),
            Some(TreasuryEvent::MintTransfered(t)) => Ok(EventPlanV::Broadcast {
                project_id: t.project_id@,
                filter_type: FilterType::MintTransfered,
                envelope: EventV {
                    event_type: filter_type_str(FilterType::MintTransfered),
                    payload: EventPayloadV::MintTransfered {
                        project_id: t.project_id@,
                        sender: t.sender@,
                        recipient: t.recipient@,
                        mint_id: k.id@,
                    },
                },
            }),
            _ => Ok(EventPlanV::Skip),
        },
        Services::Nfts(k, e) => match e.event {
            Some(NftEvent::DropCreated(d)) => match status_from_code(d.status as int) {
                Some(st) => Ok(EventPlanV::Broadcast {
                    project_id: k.project_id@,
                    filter_type: FilterType::DropCreated,
                    envelope: EventV {
                        event_type: filter_type_str(FilterType::DropCreated),
                        payload: EventPayloadV::DropCreated {
                            drop_id: k.id@,
                            project_id: k.project_id@,
                            creation_status: creation_status_str(st),
                        },
                    },
                }),
                None => Err(Error::MalformedEvent),
            },
            Some(NftEvent::DropMinted(m)) => match status_from_code(m.status as int) {
                Some(st) => Ok(EventPlanV::Broadcast {
                    project_id: k.project_id@,
                    filter_type: FilterType::DropMinted,
                    envelope: EventV {
                        event_type: filter_type_str(FilterType::DropMinted),
                        payload: EventPayloadV::DropMinted {
                            mint_id: k.id@,
                            project_id: k.project_id@,
                            drop_id: m.drop_id@,
                            creation_status: creation_status_str(st),
                        },
                    },
                }),
                None => Err(Error::MalformedEvent),
            },
            Some(NftEvent::MintedToCollection(c)) => match status_from_code(c.status as int) {
                Some(st) => Ok(EventPlanV::Broadcast {
                    project_id: k.project_id@,
                    filter_type: FilterType::MintedToCollection,
                    envelope: EventV {
                        event_type: filter_type_str(FilterType::MintedToCollection),
                        payload: EventPayloadV::MintedToCollection {
                            mint_id: k.id@,
                            collection_id: c.collection_id@,
                            project_id: k.project_id@,
                            status: creation_status_str(st),
                        },
                    },
                }),
                None => Err(Error::MalformedEvent),
            },
            Some(NftEvent::CollectionCreated(c)) => match status_from_code(c.status as int) {
                Some(st) => Ok(EventPlanV::Broadcast {
                    project_id: k.project_id@,
                    filter_type: FilterType::CollectionCreated,
                    envelope: EventV {
                        event_type: filter_type_str(FilterType::CollectionCreated),
                        payload: EventPayloadV::CollectionCreated {
                            collection_id: k.id@,
                            project_id: k.project_id@,
                            status: creation_status_str(st),
                        },
                    },
                }),
                None => Err(Error::MalformedEvent),
            },
            _ => Ok(EventPlanV::Skip),
        },
    }
}

/// Plans the one side effect of a decoded message. No side effect is taken
/// here: the caller performs the returned plan against the directory and the
/// delivery gateway.
pub fn plan(msg: Services) -> (r: Result<EventPlan, Error>)
    ensures
        plan_result_view(r) == spec_plan(msg),
{
    match msg {
        Services::Organizations(k, e) => match e.event {
            Some(OrganizationEvent::OrganizationCreated(org)) => Ok(EventPlan::Provision {
                organization_id: org.id,
                name: org.name,
                idempotency_key: k.id,
            }),
            Some(OrganizationEvent::Other) | None => Ok(EventPlan::Skip),
        },
        Services::Customers(k, e) => match e.event {
            Some(CustomerEvent::Created(c)) => {
                let ft = FilterType::CustomerCreated;
                let payload = CustomerCreatedPayload {
                    customer_id: k.id,
                    project_id: c.project_id.clone(),
                };
                Ok(EventPlan::Broadcast {
                    project_id: c.project_id,
                    filter_type: ft,
                    envelope: Event {
                        event_type: ft.format(),
                        payload: EventPayload::CustomerCreated(payload),
                    },
                })
            },
            Some(CustomerEvent::Other) | None => Ok(EventPlan::Skip),
        },
        Services::Treasuries(k, e) => match e.event {
            Some(TreasuryEvent::CustomerTreasuryCreated(c)) => {
                let ft = FilterType::CustomerTreasuryCreated;
                let payload = CustomerTreasuryCreatedPayload {
                    treasury_id: k.id,
                    project_id: c.project_id.clone(),
                    customer_id: c.customer_id,
                };
                Ok(EventPlan::Broadcast {
                    project_id: c.project_id,
                    filter_type: ft,
                    envelope: Event {
                        event_type: ft.format(),
                        payload: EventPayload::CustomerTreasuryCreated(payload),
                    },
                })
            },
            Some(TreasuryEvent::CustomerWalletCreated(c)) => {
                let ft = FilterType::CustomerWalletCreated;
                let payload = CustomerWalletCreatedPayload {
                    treasury_id: k.id,
                    project_id: c.project_id.clone(),
                    customer_id: c.customer_id,
                };
                Ok(EventPlan::Broadcast {
                    project_id: c.project_id,
                    filter_type: ft,
                    envelope: Event {
                        event_type: ft.format(),
                        payload: EventPayload::CustomerWalletCreated(payload),
                    },
                })
            },
            Some(TreasuryEvent::ProjectWalletCreated(p)) => {
                let ft = FilterType::ProjectWalletCreated;
                let payload = ProjectWalletCreatedPayload {
                    treasury_id: k.id,
                    project_id: p.project_id.clone(),
                };
                Ok(EventPlan::Broadcast {
                    project_id: p.project_id,
                    filter_type: ft,
                    envelope: Event {
                        event_type: ft.format(),
                        payload: EventPayload::ProjectWalletCreated(payload),
                    },
                })
            },
            Some(TreasuryEvent::MintTransfered(t)) => {
                let ft = FilterType::MintTransfered;
                let payload = MintTransferedPayload {
                    project_id: t.project_id.clone(),
                    sender: t.sender,
                    recipient: t.recipient,
                    mint_id: k.id,
                };
                Ok(EventPlan::Broadcast {
                    project_id: t.project_id,
                    filter_type: ft,
                    envelope: Event {
                        event_type: ft.format(),
                        payload: EventPayload::MintTransfered(payload),
                    },
                })
            },
            Some(TreasuryEvent::Other) | None => Ok(EventPlan::Skip),
        },
        Services::Nfts(k, e) => match e.event {
            Some(NftEvent::DropCreated(d)) => {
                let st = match CreationStatus::from_i32(d.status) {
                    Some(st) => st,
                    None => {
                        return Err(Error::MalformedEvent);
                    },
                };
                let ft = FilterType::DropCreated;
                let payload = DropCreatedPayload {
                    drop_id: k.id,
                    project_id: k.project_id.clone(),
                    creation_status: st.as_str_name(),
                };
                Ok(EventPlan::Broadcast {
                    project_id: k.project_id,
                    filter_type: ft,
                    envelope: Event {
                        event_type: ft.format(),
                        payload: EventPayload::DropCreated(payload),
                    },
                })
            },
            Some(NftEvent::DropMinted(m)) => {
                let st = match CreationStatus::from_i32(m.status) {
                    Some(st) => st,
                    None => {
                        return Err(Error::MalformedEvent);
                    },
                };
                let ft = FilterType::DropMinted;
                let payload = DropMintedPayload {
                    mint_id: k.id,
                    project_id: k.project_id.clone(),
                    drop_id: m.drop_id,
                    creation_status: st.as_str_name(),
                };
                Ok(EventPlan::Broadcast {
                    project_id: k.project_id,
                    filter_type: ft,
                    envelope: Event {
                        event_type: ft.format(),
                        payload: EventPayload::DropMinted(payload),
                    },
                })
            },
            Some(NftEvent::MintedToCollection(c)) => {
                let st = match CreationStatus::from_i32(c.status) {
                    Some(st) => st,
                    None => {
                        return Err(Error::MalformedEvent);
                    },
                };
                let ft = FilterType::MintedToCollection;
                let payload = MintedToCollectionPayload {
                    mint_id: k.id,
                    collection_id: c.collection_id,
                    project_id: k.project_id.clone(),
                    status: st.as_str_name(),
                };
                Ok(EventPlan::Broadcast {
                    project_id: k.project_id,
                    filter_type: ft,
                    envelope: Event {
                        event_type: ft.format(),
                        payload: EventPayload::MintedToCollection(payload),
                    },
                })
            },
            Some(NftEvent::CollectionCreated(c)) => {
                let st = match CreationStatus::from_i32(c.status) {
                    Some(st) => st,
                    None => {
                        return Err(Error::MalformedEvent);
                    },
                };
                let ft = FilterType::CollectionCreated;
                let payload = CollectionCreatedPayload {
                    collection_id: k.id,
                    project_id: k.project_id.clone(),
                    status: st.as_str_name(),
                };
                Ok(EventPlan::Broadcast {
                    project_id: k.project_id,
                    filter_type: ft,
                    envelope: Event {
                        event_type: ft.format(),
                        payload: EventPayload::CollectionCreated(payload),
                    },
                })
            },
            Some(NftEvent::Other) | None => Ok(EventPlan::Skip),
        },
    }
}

/// The one call a processed message asks the delivery gateway for.
#[derive(Debug)]
pub enum GatewayCall {
    /// Create a tenant application named after the organization, with the
    /// organization key as idempotency key.
    CreateApplication { organization_id: String, name: String, uid: String },
    /// Send one message to a tenant application, scoped to the project
    /// channel so that only endpoints subscribed to that project receive it.
    SendMessage { app_id: String, event_type: String, channels: Vec<String>, payload: Event },
}

/// Processes one decoded message against the directory and returns the
/// gateway call to make, if any. The routing join runs here; the remote call
/// itself is the caller's. Broadcasts to a project without subscribers fail
/// with `NotFound` before any gateway call; a project subscribed under more
/// than one organization is a data-integrity fault.
pub fn process_step(dir: &Directory, msg: Services) -> (r: Result<Option<GatewayCall>, Error>)
    requires
        dir@.wf(),
    ensures
        spec_plan(msg) matches Err(e) ==> r == Err::<Option<GatewayCall>, Error>(e),
        spec_plan(msg) == Ok::<EventPlanV, Error>(EventPlanV::Skip) ==> r == Ok::<
            Option<GatewayCall>,
            Error,
        >(None),
        spec_plan(msg) matches Ok(EventPlanV::Provision {
            organization_id,
            name,
            idempotency_key,
        }) ==> (r matches Ok(Some(GatewayCall::CreateApplication { organization_id: o, name: n, uid: u }))
            && o@ == organization_id && n@ == name && u@ == idempotency_key),
        spec_plan(msg) matches Ok(EventPlanV::Broadcast { project_id, .. })
            && dir@.project_orgs(project_id) =~= Set::<Seq<char>>::empty() ==> r == Err::<
            Option<GatewayCall>,
            Error,
        >(Error::NotFound),
        spec_plan(msg) matches Ok(EventPlanV::Broadcast { project_id, .. })
            && (exists|o1: Seq<char>, o2: Seq<char>|
            dir@.project_orgs(project_id).contains(o1) && dir@.project_orgs(project_id).contains(
                o2,
            ) && o1 != o2) ==> r == Err::<Option<GatewayCall>, Error>(Error::DataIntegrityFault),
        spec_plan(msg) matches Ok(EventPlanV::Broadcast {
            project_id,
            filter_type,
            envelope,
        }) ==> (!(dir@.project_orgs(project_id) =~= Set::<Seq<char>>::empty()) && !(exists|
            o1: Seq<char>,
            o2: Seq<char>,
        |
            dir@.project_orgs(project_id).contains(o1) && dir@.project_orgs(project_id).contains(
                o2,
            ) && o1 != o2)) ==> (r matches Ok(Some(GatewayCall::SendMessage {
            app_id,
            event_type,
            channels,
            payload,
        }))
            && event_type@ == filter_type_str(filter_type)
            && channels@.map_values(|c: String| c@) =~= seq![project_id]
            && payload@ == envelope
            && (exists|k: int|
            0 <= k < dir@.applications.len() && (#[trigger] dir@.applications[k]).svix_app_id
                == app_id@ && dir@.project_orgs(project_id).contains(
                dir@.applications[k].organization_id,
            ))),
{
    match plan(msg) {
        Err(e) => Err(e),
        Ok(EventPlan::Skip) => Ok(None),
        Ok(EventPlan::Provision { organization_id, name, idempotency_key }) => Ok(Some(
            GatewayCall::CreateApplication { organization_id, name, uid: idempotency_key },
        )),
        Ok(EventPlan::Broadcast { project_id, filter_type, envelope }) => {
            let app_id = match dir.resolve_project(&project_id) {
                Ok(a) => a,
                Err(e) => {
                    return Err(e);
                },
            };
            let mut channels: Vec<String> = Vec::new();
            channels.push(project_id);
            Ok(Some(GatewayCall::SendMessage {
                app_id,
                event_type: filter_type.format(),
                channels,
                payload: envelope,
            }))
        },
    }
}

/// The gateway's answer to a create-application call.
#[derive(Debug)]
pub enum CreateApplicationResult {
    /// The application was created (or already existed under the idempotency
    /// key) and has this remote id.
    Created(String),
    /// The gateway reported a duplicate; provisioning already happened.
    Conflict,
    /// The call failed for infrastructure reasons.
    Failed,
}

/// Applies the outcome of a provisioning call to the directory. A created
/// application is recorded idempotently: a duplicate creation event must not
/// corrupt state, so an organization that is already served keeps its single
/// row and the directory is unchanged. A gateway conflict is suppressed and
/// treated as success. Only an infrastructure failure is surfaced, and it
/// leaves the directory unchanged.
pub fn apply_provision(
    dir: &mut Directory,
    organization_id: &String,
    outcome: CreateApplicationResult,
    now: i64,
) -> (r: Result<(), Error>)
    requires
        old(dir)@.wf(),
    ensures
        final(dir)@.wf(),
        final(dir)@.webhooks == old(dir)@.webhooks,
        final(dir)@.webhook_projects == old(dir)@.webhook_projects,
        outcome matches CreateApplicationResult::Created(app_id) ==> {
            &&& r == Ok::<(), Error>(())
            &&& final(dir)@.application_count(organization_id@) == 1
            &&& old(dir)@.has_application(organization_id@) ==> final(dir)@ == old(dir)@
            &&& !old(dir)@.has_application(organization_id@) ==> final(dir)@.applications == old(
                dir,
            )@.applications.push(
                crate::directory::OrganizationApplicationV {
                    svix_app_id: app_id@,
                    organization_id: organization_id@,
                    created_at: now as int,
                },
            )
        },
        outcome is Conflict ==> (r == Ok::<(), Error>(()) && final(dir)@ == old(dir)@),
        outcome is Failed ==> (r == Err::<(), Error>(Error::UpstreamFailure) && final(dir)@ == old(
            dir,
        )@),
{
    match outcome {
        CreateApplicationResult::Created(app_id) => {
            dir.upsert_application(organization_id, &app_id, now);
            Ok(())
        },
        CreateApplicationResult::Conflict => Ok(()),
        CreateApplicationResult::Failed => Err(Error::UpstreamFailure),
    }
}

/// Law: a project with exactly one linked webhook, owned by one
/// organization, routes to exactly that organization's application: the
/// subscriber set is the singleton of that organization, and any application
/// id resolved for the project is that organization's.
pub proof fn lemma_single_subscriber_routing(dv: crate::directory::DirectoryV, p: Seq<char>, li: int, j: int, k: int)
    requires
        dv.wf(),
        dv.link_subscribes(li, j, p),
        forall|i2: int|
            0 <= i2 < dv.webhook_projects.len() && (#[trigger] dv.webhook_projects[i2]).project_id
                == p ==> i2 == li,
        0 <= k < dv.applications.len(),
        dv.applications[k].organization_id == dv.webhooks[j].organization_id,
    ensures
        dv.project_orgs(p) =~= Set::<Seq<char>>::empty().insert(dv.webhooks[j].organization_id),
        forall|k2: int|
            0 <= k2 < dv.applications.len() && dv.project_orgs(p).contains(
                (#[trigger] dv.applications[k2]).organization_id,
            ) ==> dv.applications[k2].svix_app_id == dv.applications[k].svix_app_id,
{
    let org = dv.webhooks[j].organization_id;
    assert(dv.project_orgs(p).contains(org));
    assert forall|o: Seq<char>| dv.project_orgs(p).contains(o) implies o == org by {
        let (i2, j2) = choose|i2: int, j2: int|
            #[trigger] dv.link_subscribes(i2, j2, p) && dv.webhooks[j2].organization_id == o;
        assert(i2 == li);
        if j2 != j {
            assert(dv.webhooks[j2].id == dv.webhooks[j].id);
            assert(false);
        }
    }
    assert forall|k2: int|
        0 <= k2 < dv.applications.len() && dv.project_orgs(p).contains(
            (#[trigger] dv.applications[k2]).organization_id,
        ) implies dv.applications[k2].svix_app_id == dv.applications[k].svix_app_id by {
        assert(dv.applications[k2].organization_id == org);
        if k2 != k {
            assert(dv.applications[k2].organization_id != dv.applications[k].organization_id);
            assert(false);
        }
    }
}

} // verus!
