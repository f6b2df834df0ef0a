use hub_webhooks::directory::{Directory, WebhookRecord};
use hub_webhooks::error::Error;
use hub_webhooks::events::{
    Customer, CustomerEvent, CustomerEventKey, CustomerEvents, DropCreation, NftEvent, NftEventKey,
    NftEvents, Organization, OrganizationEvent, OrganizationEventKey, OrganizationEvents, Services,
    EventPayload,
};
use hub_webhooks::events::match_topic;
use hub_webhooks::events::Topic;
use hub_webhooks::manage::record_webhook;
use hub_webhooks::events::{
    CustomerTreasury, MintTransfer, MintCreation, ProjectWallet, TreasuryEvent, TreasuryEventKey,
    TreasuryEvents,
};
use hub_webhooks::router::{
    apply_provision, process_step, CreateApplicationResult, EventPlan, GatewayCall, plan,
};
use hub_webhooks::taxonomy::FilterType;

fn customer_created_msg(project: &str, customer: &str) -> Services {
    Services::Customers(
        CustomerEventKey { id: customer.to_string() },
        CustomerEvents {
            event: Some(CustomerEvent::Created(Customer { project_id: project.to_string() })),
        },
    )
}

fn provisioned_directory(org: &str, app: &str) -> Directory {
    let mut dir = Directory::new();
    let outcome = CreateApplicationResult::Created(app.to_string());
    apply_provision(&mut dir, &org.to_string(), outcome, 10).unwrap();
    dir
}

fn subscribe(dir: &mut Directory, webhook: &str, org: &str, projects: &[&str]) {
    let record = WebhookRecord {
        id: webhook.to_string(),
        endpoint_id: format!("ep-{webhook}"),
        organization_id: org.to_string(),
        created_at: 20,
        updated_at: None,
        created_by: "user-1".to_string(),
    };
    let projects: Vec<String> = projects.iter().map(|p| p.to_string()).collect();
    record_webhook(dir, record, &projects, 20);
}

#[test]
fn declared_topics_are_recognized() {
    assert_eq!(match_topic("hub-orgs"), Some(Topic::Organizations));
    assert_eq!(match_topic("hub-customers"), Some(Topic::Customers));
    assert_eq!(match_topic("hub-treasuries"), Some(Topic::Treasuries));
    assert_eq!(match_topic("hub-nfts"), Some(Topic::Nfts));
}

#[test]
fn undeclared_topics_are_rejected() {
    assert_eq!(match_topic("hub-credits"), None);
    assert_eq!(match_topic(""), None);
}

#[test]
fn organization_created_plans_provisioning() {
    let msg = Services::Organizations(
        OrganizationEventKey { id: "org-1".to_string() },
        OrganizationEvents {
            event: Some(OrganizationEvent::OrganizationCreated(Organization {
                id: "org-1".to_string(),
                name: "Acme".to_string(),
            })),
        },
    );
    match plan(msg).unwrap() {
        EventPlan::Provision { organization_id, name, idempotency_key } => {
            assert_eq!(organization_id, "org-1");
            assert_eq!(name, "Acme");
            assert_eq!(idempotency_key, "org-1");
        }
        _ => panic!("expected a provisioning plan"),
    }
}

#[test]
fn unknown_variants_and_absent_events_are_skipped() {
    let unknown = Services::Organizations(
        OrganizationEventKey { id: "org-1".to_string() },
        OrganizationEvents { event: Some(OrganizationEvent::Other) },
    );
    assert!(matches!(plan(unknown), Ok(EventPlan::Skip)));

    let absent = Services::Customers(
        CustomerEventKey { id: "cust-1".to_string() },
        CustomerEvents { event: None },
    );
    assert!(matches!(plan(absent), Ok(EventPlan::Skip)));
}

#[test]
fn drop_created_with_unknown_status_fails_the_message() {
    let msg = Services::Nfts(
        NftEventKey { id: "drop-1".to_string(), project_id: "proj-1".to_string() },
        NftEvents { event: Some(NftEvent::DropCreated(DropCreation { status: 99 })) },
    );
    assert_eq!(plan(msg).unwrap_err(), Error::MalformedEvent);
}

#[test]
fn provisioning_twice_keeps_exactly_one_application_row() {
    let mut dir = Directory::new();
    let org = "org-1".to_string();
    apply_provision(
        &mut dir,
        &org,
        CreateApplicationResult::Created("app-1".to_string()),
        10,
    )
    .unwrap();
    apply_provision(
        &mut dir,
        &org,
        CreateApplicationResult::Created("app-2".to_string()),
        11,
    )
    .unwrap();
    assert_eq!(dir.applications.len(), 1);
    assert_eq!(dir.applications[0].svix_app_id, "app-1");
    assert_eq!(dir.applications[0].organization_id, "org-1");
}

#[test]
fn provisioning_conflict_is_success_and_failure_is_surfaced() {
    let mut dir = Directory::new();
    let org = "org-1".to_string();
    assert_eq!(
        apply_provision(&mut dir, &org, CreateApplicationResult::Conflict, 10),
        Ok(())
    );
    assert_eq!(dir.applications.len(), 0);
    assert_eq!(
        apply_provision(&mut dir, &org, CreateApplicationResult::Failed, 10),
        Err(Error::UpstreamFailure)
    );
    assert_eq!(dir.applications.len(), 0);
}

#[test]
fn broadcast_to_project_without_subscribers_is_not_found() {
    let dir = provisioned_directory("org-1", "app-77");
    let r = process_step(&dir, customer_created_msg("proj-1", "cust-9"));
    assert_eq!(r.unwrap_err(), Error::NotFound);
}

#[test]
fn broadcast_with_one_subscriber_sends_one_message() {
    let mut dir = provisioned_directory("org-1", "app-77");
    subscribe(&mut dir, "wh-1", "org-1", &["proj-1"]);
    let call = process_step(&dir, customer_created_msg("proj-1", "cust-9"))
        .unwrap()
        .unwrap();
    match call {
        GatewayCall::SendMessage { app_id, event_type, channels, payload } => {
            assert_eq!(app_id, "app-77");
            assert_eq!(event_type, "customer.created");
            assert_eq!(channels, vec!["proj-1".to_string()]);
            assert_eq!(payload.event_type, "customer.created");
            match payload.payload {
                EventPayload::CustomerCreated(p) => {
                    assert_eq!(p.project_id, "proj-1");
                    assert_eq!(p.customer_id, "cust-9");
                }
                _ => panic!("expected a customer-created payload"),
            }
        }
        GatewayCall::CreateApplication { .. } => panic!("expected a send-message call"),
    }
}

#[test]
fn ambiguous_project_is_a_data_integrity_fault() {
    let mut dir = provisioned_directory("org-1", "app-1");
    apply_provision(
        &mut dir,
        &"org-2".to_string(),
        CreateApplicationResult::Created("app-2".to_string()),
        10,
    )
    .unwrap();
    subscribe(&mut dir, "wh-1", "org-1", &["proj-1"]);
    subscribe(&mut dir, "wh-2", "org-2", &["proj-1"]);
    let r = process_step(&dir, customer_created_msg("proj-1", "cust-9"));
    assert_eq!(r.unwrap_err(), Error::DataIntegrityFault);
}

#[test]
fn two_webhooks_of_one_organization_still_route() {
    let mut dir = provisioned_directory("org-1", "app-1");
    subscribe(&mut dir, "wh-1", "org-1", &["proj-1"]);
    subscribe(&mut dir, "wh-2", "org-1", &["proj-1", "proj-2"]);
    let call = process_step(&dir, customer_created_msg("proj-1", "cust-9"))
        .unwrap()
        .unwrap();
    match call {
        GatewayCall::SendMessage { app_id, .. } => assert_eq!(app_id, "app-1"),
        GatewayCall::CreateApplication { .. } => panic!("expected a send-message call"),
    }
}

#[test]
fn skipped_message_makes_no_gateway_call() {
    let dir = provisioned_directory("org-1", "app-1");
    let msg = Services::Customers(
        CustomerEventKey { id: "cust-1".to_string() },
        CustomerEvents { event: Some(CustomerEvent::Other) },
    );
    assert!(matches!(process_step(&dir, msg), Ok(None)));
}

#[test]
fn error_messages_name_the_failure() {
    assert_eq!(Error::NotFound.message(), "not found");
    assert_eq!(Error::Conflict.message(), "already exists");
    assert_eq!(Error::Unauthenticated.message(), "X-USER-ID header not found");
    assert_eq!(Error::UpstreamFailure.message(), "upstream call failed");
    assert_eq!(
        Error::DataIntegrityFault.message(),
        "project is linked to more than one organization"
    );
    assert_eq!(Error::MalformedEvent.message(), "malformed event record");
}

#[test]
fn organization_created_plans_a_create_application_call() {
    let dir = Directory::new();
    let msg = Services::Organizations(
        OrganizationEventKey { id: "org-1".to_string() },
        OrganizationEvents {
            event: Some(OrganizationEvent::OrganizationCreated(Organization {
                id: "org-1".to_string(),
                name: "Acme".to_string(),
            })),
        },
    );
    match process_step(&dir, msg).unwrap().unwrap() {
        GatewayCall::CreateApplication { organization_id, name, uid } => {
            assert_eq!(organization_id, "org-1");
            assert_eq!(name, "Acme");
            assert_eq!(uid, "org-1");
        }
        GatewayCall::SendMessage { .. } => panic!("expected a create-application call"),
    }
}

#[test]
fn treasury_events_broadcast_to_their_project() {
    let msg = Services::Treasuries(
        TreasuryEventKey { id: "wallet-1".to_string() },
        TreasuryEvents {
            event: Some(TreasuryEvent::MintTransfered(MintTransfer {
                project_id: "proj-7".to_string(),
                sender: "addr-a".to_string(),
                recipient: "addr-b".to_string(),
            })),
        },
    );
    match plan(msg).unwrap() {
        EventPlan::Broadcast { project_id, filter_type, envelope } => {
            assert_eq!(project_id, "proj-7");
            assert_eq!(filter_type, FilterType::MintTransfered);
            assert_eq!(envelope.event_type, "mint.transfered");
            match envelope.payload {
                EventPayload::MintTransfered(p) => {
                    assert_eq!(p.project_id, "proj-7");
                    assert_eq!(p.sender, "addr-a");
                    assert_eq!(p.recipient, "addr-b");
                    assert_eq!(p.mint_id, "wallet-1");
                }
                _ => panic!("expected a mint-transfered payload"),
            }
        }
        _ => panic!("expected a broadcast plan"),
    }
}

#[test]
fn customer_treasury_created_carries_the_treasury_key() {
    let msg = Services::Treasuries(
        TreasuryEventKey { id: "treasury-3".to_string() },
        TreasuryEvents {
            event: Some(TreasuryEvent::CustomerTreasuryCreated(CustomerTreasury {
                project_id: "proj-1".to_string(),
                customer_id: "cust-9".to_string(),
            })),
        },
    );
    match plan(msg).unwrap() {
        EventPlan::Broadcast { project_id, filter_type, envelope } => {
            assert_eq!(project_id, "proj-1");
            assert_eq!(filter_type, FilterType::CustomerTreasuryCreated);
            assert_eq!(envelope.event_type, "customer_treasury.created");
            match envelope.payload {
                EventPayload::CustomerTreasuryCreated(p) => {
                    assert_eq!(p.treasury_id, "treasury-3");
                    assert_eq!(p.project_id, "proj-1");
                    assert_eq!(p.customer_id, "cust-9");
                }
                _ => panic!("expected a customer-treasury payload"),
            }
        }
        _ => panic!("expected a broadcast plan"),
    }
}

#[test]
fn project_wallet_created_broadcasts_on_the_project_channel() {
    let msg = Services::Treasuries(
        TreasuryEventKey { id: "wallet-2".to_string() },
        TreasuryEvents {
            event: Some(TreasuryEvent::ProjectWalletCreated(ProjectWallet {
                project_id: "proj-4".to_string(),
            })),
        },
    );
    match plan(msg).unwrap() {
        EventPlan::Broadcast { project_id, filter_type, envelope } => {
            assert_eq!(project_id, "proj-4");
            assert_eq!(filter_type, FilterType::ProjectWalletCreated);
            match envelope.payload {
                EventPayload::ProjectWalletCreated(p) => {
                    assert_eq!(p.treasury_id, "wallet-2");
                    assert_eq!(p.project_id, "proj-4");
                }
                _ => panic!("expected a project-wallet payload"),
            }
        }
        _ => panic!("expected a broadcast plan"),
    }
}

#[test]
fn drop_minted_formats_the_creation_status() {
    let msg = Services::Nfts(
        NftEventKey { id: "mint-5".to_string(), project_id: "proj-2".to_string() },
        NftEvents {
            event: Some(NftEvent::DropMinted(MintCreation {
                drop_id: "drop-1".to_string(),
                status: 1,
            })),
        },
    );
    match plan(msg).unwrap() {
        EventPlan::Broadcast { project_id, filter_type, envelope } => {
            assert_eq!(project_id, "proj-2");
            assert_eq!(filter_type, FilterType::DropMinted);
            assert_eq!(envelope.event_type, "drop.minted");
            match envelope.payload {
                EventPayload::DropMinted(p) => {
                    assert_eq!(p.mint_id, "mint-5");
                    assert_eq!(p.drop_id, "drop-1");
                    assert_eq!(p.project_id, "proj-2");
                    assert_eq!(p.creation_status, "COMPLETED");
                }
                _ => panic!("expected a drop-minted payload"),
            }
        }
        _ => panic!("expected a broadcast plan"),
    }
}
