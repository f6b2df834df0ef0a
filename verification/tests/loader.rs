use hub_webhooks::directory::{Directory, WebhookRecord};
use hub_webhooks::endpoints::{Endpoint, Webhook};
use hub_webhooks::error::Error;
use hub_webhooks::loader::{
    group_by_organization, key_by_webhook, merge_endpoints, plan_by_organization, plan_by_webhook,
    BatchWindow, FetchJob,
};
use hub_webhooks::manage::record_webhook;
use hub_webhooks::router::{apply_provision, CreateApplicationResult};

fn provisioned(org: &str, app: &str) -> Directory {
    let mut dir = Directory::new();
    apply_provision(
        &mut dir,
        &org.to_string(),
        CreateApplicationResult::Created(app.to_string()),
        10,
    )
    .unwrap();
    dir
}

fn add_org(dir: &mut Directory, org: &str, app: &str) {
    apply_provision(
        dir,
        &org.to_string(),
        CreateApplicationResult::Created(app.to_string()),
        10,
    )
    .unwrap();
}

fn record(dir: &mut Directory, webhook: &str, org: &str, projects: &[&str]) {
    let row = WebhookRecord {
        id: webhook.to_string(),
        endpoint_id: format!("ep-{webhook}"),
        organization_id: org.to_string(),
        created_at: 20,
        updated_at: None,
        created_by: "user-1".to_string(),
    };
    let projects: Vec<String> = projects.iter().map(|p| p.to_string()).collect();
    record_webhook(dir, row, &projects, 20);
}

fn endpoint(id: &str) -> Endpoint {
    Endpoint {
        id: id.to_string(),
        url: format!("https://example.com/{id}"),
        description: None,
        version: 1,
        disabled: Some(false),
        channels: Some(vec!["p1".to_string()]),
        filter_types: None,
        rate_limit: None,
        uid: None,
    }
}

#[test]
fn window_collects_each_key_once() {
    let mut window = BatchWindow::new();
    window.request(&"a".to_string());
    window.request(&"b".to_string());
    window.request(&"a".to_string());
    assert_eq!(window.keys, vec!["a".to_string(), "b".to_string()]);
}

#[test]
fn one_window_fetches_once_per_webhook_of_each_key() {
    let mut dir = provisioned("org-a", "app-a");
    add_org(&mut dir, "org-b", "app-b");
    record(&mut dir, "wh-1", "org-a", &["p1"]);
    record(&mut dir, "wh-2", "org-a", &["p2"]);
    record(&mut dir, "wh-3", "org-b", &["p3"]);

    let mut window = BatchWindow::new();
    window.request(&"org-a".to_string());
    window.request(&"org-b".to_string());
    // a repeated field resolution does not grow the batch
    window.request(&"org-a".to_string());

    let jobs = plan_by_organization(&dir, &window);
    assert_eq!(jobs.len(), 3);
    assert_eq!(jobs[0].svix_app_id, "app-a");
    assert_eq!(jobs[0].webhook.id, "wh-1");
    assert_eq!(jobs[1].svix_app_id, "app-a");
    assert_eq!(jobs[1].webhook.id, "wh-2");
    assert_eq!(jobs[2].svix_app_id, "app-b");
    assert_eq!(jobs[2].webhook.id, "wh-3");
}

#[test]
fn organization_without_webhooks_contributes_no_fetches() {
    let mut dir = provisioned("org-a", "app-a");
    add_org(&mut dir, "org-b", "app-b");
    record(&mut dir, "wh-1", "org-a", &["p1"]);
    let mut window = BatchWindow::new();
    window.request(&"org-b".to_string());
    window.request(&"org-missing".to_string());
    let jobs = plan_by_organization(&dir, &window);
    assert!(jobs.is_empty());
}

#[test]
fn by_webhook_batch_fetches_each_existing_key_once() {
    let mut dir = provisioned("org-a", "app-a");
    record(&mut dir, "wh-1", "org-a", &["p1"]);
    record(&mut dir, "wh-2", "org-a", &["p2"]);
    let mut window = BatchWindow::new();
    window.request(&"wh-2".to_string());
    window.request(&"wh-missing".to_string());
    window.request(&"wh-1".to_string());
    let jobs = plan_by_webhook(&dir, &window);
    assert_eq!(jobs.len(), 2);
    assert_eq!(jobs[0].webhook.id, "wh-2");
    assert_eq!(jobs[0].svix_app_id, "app-a");
    assert_eq!(jobs[1].webhook.id, "wh-1");
}

#[test]
fn merge_pairs_each_row_with_its_endpoint() {
    let mut dir = provisioned("org-a", "app-a");
    record(&mut dir, "wh-1", "org-a", &["p1"]);
    record(&mut dir, "wh-2", "org-a", &["p2"]);
    let mut window = BatchWindow::new();
    window.request(&"org-a".to_string());
    let jobs = plan_by_organization(&dir, &window);
    let endpoints = vec![Some(endpoint("ep-wh-1")), Some(endpoint("ep-wh-2"))];
    let resolved = merge_endpoints(&jobs, &endpoints).unwrap();
    assert_eq!(resolved.len(), 2);
    assert_eq!(resolved[0].model.id, "wh-1");
    assert_eq!(resolved[0].endpoint.id, "ep-wh-1");
    assert_eq!(resolved[1].model.id, "wh-2");
    assert_eq!(resolved[1].endpoint.id, "ep-wh-2");
}

#[test]
fn one_failed_fetch_fails_the_whole_batch() {
    let mut dir = provisioned("org-a", "app-a");
    record(&mut dir, "wh-1", "org-a", &["p1"]);
    record(&mut dir, "wh-2", "org-a", &["p2"]);
    let mut window = BatchWindow::new();
    window.request(&"org-a".to_string());
    let jobs = plan_by_organization(&dir, &window);
    let endpoints = vec![Some(endpoint("ep-wh-1")), None];
    let r = merge_endpoints(&jobs, &endpoints);
    assert_eq!(r.err(), Some(Error::UpstreamFailure));
}

#[test]
fn groups_are_keyed_by_organization_in_first_seen_order() {
    let mk = |id: &str, org: &str| Webhook {
        endpoint: endpoint(&format!("ep-{id}")),
        model: WebhookRecord {
            id: id.to_string(),
            endpoint_id: format!("ep-{id}"),
            organization_id: org.to_string(),
            created_at: 20,
            updated_at: None,
            created_by: "user-1".to_string(),
        },
    };
    let ws = vec![mk("wh-1", "org-a"), mk("wh-2", "org-b"), mk("wh-3", "org-a")];
    let groups = group_by_organization(&ws);
    assert_eq!(groups.len(), 2);
    assert_eq!(groups[0].0, "org-a");
    assert_eq!(groups[0].1.len(), 2);
    assert_eq!(groups[0].1[0].model.id, "wh-1");
    assert_eq!(groups[0].1[1].model.id, "wh-3");
    assert_eq!(groups[1].0, "org-b");
    assert_eq!(groups[1].1.len(), 1);
    assert_eq!(groups[1].1[0].model.id, "wh-2");
}

#[test]
fn by_webhook_results_are_keyed_by_webhook_id() {
    let w = Webhook {
        endpoint: endpoint("ep-wh-1"),
        model: WebhookRecord {
            id: "wh-1".to_string(),
            endpoint_id: "ep-wh-1".to_string(),
            organization_id: "org-a".to_string(),
            created_at: 20,
            updated_at: None,
            created_by: "user-1".to_string(),
        },
    };
    let keyed = key_by_webhook(&vec![w]);
    assert_eq!(keyed.len(), 1);
    assert_eq!(keyed[0].0, "wh-1");
    assert_eq!(keyed[0].1.model.id, "wh-1");
}

#[test]
fn fetch_jobs_carry_the_owning_application() {
    let mut dir = provisioned("org-a", "app-a");
    record(&mut dir, "wh-1", "org-a", &["p1"]);
    let mut window = BatchWindow::new();
    window.request(&"org-a".to_string());
    let jobs: Vec<FetchJob> = plan_by_organization(&dir, &window);
    assert_eq!(jobs[0].svix_app_id, "app-a");
    assert_eq!(jobs[0].webhook.organization_id, "org-a");
}
