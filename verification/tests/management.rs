use hub_webhooks::directory::{Directory, WebhookRecord};
use hub_webhooks::endpoints::Endpoint;
use hub_webhooks::error::Error;
use hub_webhooks::manage::{
    apply_edit, authenticate, build_endpoint_update, finish_delete, prepare_create, record_webhook,
    resolve_webhook_endpoint, CreateWebhookInput, EditWebhookInput,
};
use hub_webhooks::router::{apply_provision, CreateApplicationResult};
use hub_webhooks::taxonomy::FilterType;

fn provisioned(org: &str, app: &str) -> Directory {
    let mut dir = Directory::new();
    apply_provision(
        &mut dir,
        &org.to_string(),
        CreateApplicationResult::Created(app.to_string()),
        10,
    )
    .unwrap();
    dir
}

fn record(dir: &mut Directory, webhook: &str, org: &str, projects: &[&str]) {
    let row = WebhookRecord {
        id: webhook.to_string(),
        endpoint_id: format!("ep-{webhook}"),
        organization_id: org.to_string(),
        created_at: 20,
        updated_at: None,
        created_by: "user-1".to_string(),
    };
    let projects: Vec<String> = projects.iter().map(|p| p.to_string()).collect();
    record_webhook(dir, row, &projects, 20);
}

fn linked_projects(dir: &Directory, webhook: &str) -> Vec<String> {
    let mut ps: Vec<String> = dir
        .webhook_projects
        .iter()
        .filter(|l| l.webhook_id == webhook)
        .map(|l| l.project_id.clone())
        .collect();
    ps.sort();
    ps
}

#[test]
fn management_requires_an_actor() {
    assert_eq!(authenticate(&None), Err(Error::Unauthenticated));
    assert_eq!(authenticate(&Some("user-1".to_string())), Ok("user-1".to_string()));
}

#[test]
fn create_without_actor_is_unauthenticated() {
    let dir = provisioned("org-1", "app-1");
    let input = CreateWebhookInput {
        url: "https://example.com/hook".to_string(),
        organization: "org-1".to_string(),
        description: "orders".to_string(),
        projects: vec!["proj-1".to_string()],
        filter_types: vec![FilterType::CustomerCreated],
    };
    let r = prepare_create(&dir, &None, &input);
    assert_eq!(r.err(), Some(Error::Unauthenticated));
}

#[test]
fn create_for_unprovisioned_organization_is_not_found() {
    let dir = Directory::new();
    let input = CreateWebhookInput {
        url: "https://example.com/hook".to_string(),
        organization: "org-1".to_string(),
        description: "orders".to_string(),
        projects: vec!["proj-1".to_string()],
        filter_types: vec![FilterType::CustomerCreated],
    };
    let r = prepare_create(&dir, &Some("user-1".to_string()), &input);
    assert_eq!(r.err(), Some(Error::NotFound));
}

#[test]
fn create_plans_an_endpoint_scoped_to_projects_and_filters() {
    let dir = provisioned("org-1", "app-1");
    let input = CreateWebhookInput {
        url: "https://example.com/hook".to_string(),
        organization: "org-1".to_string(),
        description: "orders".to_string(),
        projects: vec!["proj-1".to_string(), "proj-2".to_string()],
        filter_types: vec![FilterType::CustomerCreated, FilterType::DropMinted],
    };
    let plan = prepare_create(&dir, &Some("user-1".to_string()), &input).unwrap();
    assert_eq!(plan.app_id, "app-1");
    assert_eq!(plan.created_by, "user-1");
    assert_eq!(plan.endpoint.url, "https://example.com/hook");
    assert_eq!(plan.endpoint.version, 1);
    assert_eq!(plan.endpoint.disabled, Some(false));
    assert_eq!(plan.endpoint.description, Some("orders".to_string()));
    assert_eq!(plan.endpoint.rate_limit, None);
    assert_eq!(plan.endpoint.secret, None);
    assert_eq!(plan.endpoint.uid, None);
    assert_eq!(
        plan.endpoint.channels,
        vec!["proj-1".to_string(), "proj-2".to_string()]
    );
    assert_eq!(
        plan.endpoint.filter_types,
        vec!["customer.created".to_string(), "drop.minted".to_string()]
    );
}

#[test]
fn create_then_edit_replaces_the_whole_project_set() {
    let mut dir = provisioned("org-1", "app-1");
    record(&mut dir, "wh-1", "org-1", &["p1", "p2"]);
    assert_eq!(linked_projects(&dir, "wh-1"), vec!["p1".to_string(), "p2".to_string()]);

    let projects = vec!["p2".to_string(), "p3".to_string()];
    apply_edit(&mut dir, &"wh-1".to_string(), &projects, 30).unwrap();
    assert_eq!(linked_projects(&dir, "wh-1"), vec!["p2".to_string(), "p3".to_string()]);
    assert_eq!(dir.webhooks[0].updated_at, Some(30));
}

#[test]
fn edit_leaves_other_webhooks_untouched() {
    let mut dir = provisioned("org-1", "app-1");
    record(&mut dir, "wh-1", "org-1", &["p1"]);
    record(&mut dir, "wh-2", "org-1", &["p1", "p4"]);
    apply_edit(&mut dir, &"wh-1".to_string(), &vec!["p9".to_string()], 30).unwrap();
    assert_eq!(linked_projects(&dir, "wh-1"), vec!["p9".to_string()]);
    assert_eq!(linked_projects(&dir, "wh-2"), vec!["p1".to_string(), "p4".to_string()]);
}

#[test]
fn edit_of_absent_webhook_is_not_found() {
    let mut dir = provisioned("org-1", "app-1");
    let r = apply_edit(&mut dir, &"wh-9".to_string(), &vec!["p1".to_string()], 30);
    assert_eq!(r, Err(Error::NotFound));
}

#[test]
fn endpoint_update_bumps_the_version_and_keeps_gateway_fields() {
    let current = Endpoint {
        id: "ep-1".to_string(),
        url: "https://old.example.com".to_string(),
        description: Some("old".to_string()),
        version: 4,
        disabled: Some(false),
        channels: Some(vec!["p1".to_string()]),
        filter_types: Some(vec!["customer.created".to_string()]),
        rate_limit: Some(100),
        uid: Some("uid-1".to_string()),
    };
    let input = EditWebhookInput {
        webhook: "wh-1".to_string(),
        url: "https://new.example.com".to_string(),
        description: "new".to_string(),
        projects: vec!["p2".to_string(), "p3".to_string()],
        filter_types: vec![FilterType::DropCreated],
        disabled: Some(true),
    };
    let update = build_endpoint_update(&current, &input);
    assert_eq!(update.version, 5);
    assert_eq!(update.url, "https://new.example.com");
    assert_eq!(update.description, Some("new".to_string()));
    assert_eq!(update.disabled, Some(true));
    assert_eq!(update.rate_limit, Some(100));
    assert_eq!(update.uid, Some("uid-1".to_string()));
    assert_eq!(update.channels, vec!["p2".to_string(), "p3".to_string()]);
    assert_eq!(update.filter_types, vec!["drop.created".to_string()]);
}

#[test]
fn resolve_webhook_endpoint_names_the_remote_address() {
    let mut dir = provisioned("org-1", "app-1");
    record(&mut dir, "wh-1", "org-1", &["p1"]);
    let eref = resolve_webhook_endpoint(&dir, &"wh-1".to_string()).unwrap();
    assert_eq!(eref.app_id, "app-1");
    assert_eq!(eref.endpoint_id, "ep-wh-1");
    assert_eq!(
        resolve_webhook_endpoint(&dir, &"wh-9".to_string()).unwrap_err(),
        Error::NotFound
    );
}

#[test]
fn failed_remote_delete_keeps_the_local_row() {
    let mut dir = provisioned("org-1", "app-1");
    record(&mut dir, "wh-1", "org-1", &["p1"]);
    let r = finish_delete(&mut dir, &"wh-1".to_string(), false);
    assert_eq!(r, Err(Error::UpstreamFailure));
    assert_eq!(dir.webhooks.len(), 1);
    assert_eq!(dir.webhooks[0].id, "wh-1");
    assert_eq!(linked_projects(&dir, "wh-1"), vec!["p1".to_string()]);
}

#[test]
fn successful_remote_delete_removes_the_row_and_its_links() {
    let mut dir = provisioned("org-1", "app-1");
    record(&mut dir, "wh-1", "org-1", &["p1", "p2"]);
    record(&mut dir, "wh-2", "org-1", &["p1"]);
    let r = finish_delete(&mut dir, &"wh-1".to_string(), true);
    assert_eq!(r, Ok(()));
    assert_eq!(dir.webhooks.len(), 1);
    assert_eq!(dir.webhooks[0].id, "wh-2");
    assert!(linked_projects(&dir, "wh-1").is_empty());
    assert_eq!(linked_projects(&dir, "wh-2"), vec!["p1".to_string()]);
}

#[test]
fn edit_to_an_empty_project_set_clears_all_links() {
    let mut dir = provisioned("org-1", "app-1");
    record(&mut dir, "wh-1", "org-1", &["p1", "p2"]);
    let no_projects: Vec<String> = Vec::new();
    apply_edit(&mut dir, &"wh-1".to_string(), &no_projects, 30).unwrap();
    assert!(linked_projects(&dir, "wh-1").is_empty());
}

#[test]
fn deleting_an_absent_webhook_after_remote_delete_is_a_no_op() {
    let mut dir = provisioned("org-1", "app-1");
    record(&mut dir, "wh-1", "org-1", &["p1"]);
    assert_eq!(finish_delete(&mut dir, &"wh-9".to_string(), true), Ok(()));
    assert_eq!(dir.webhooks.len(), 1);
}
