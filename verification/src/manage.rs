//! The webhook management operations: create, edit and delete, split into
//! the decision that prepares the remote endpoint call and the transaction
//! that records its outcome in the directory. Each operation mutates both
//! the remote endpoint and the directory; the ordering here guarantees that
//! a failure leaves no local row without its remote endpoint.

use vstd::prelude::*;

use crate::directory::{
    hook_keeps, id_set, link_keeps, Directory, WebhookRecord, WebhookRecordV,
};
use crate::endpoints::{clone_string_vec, strings_view, Endpoint, Webhook};
use crate::error::Error;
use crate::loader::app_id_of;
use crate::taxonomy::{filter_type_str, FilterType};

verus! {

broadcast use vstd::seq_lib::group_seq_lib_default, Seq::lemma_filter_push;

/// A request to register a webhook: the target URL, the owning
/// organization, the subscribed projects and the event kinds to deliver.
#[derive(Debug)]
pub struct CreateWebhookInput {
    pub url: String,
    pub organization: String,
    pub description: String,
    pub projects: Vec<String>,
    pub filter_types: Vec<FilterType>,
}

/// The result of creating a webhook: the resolved webhook and the remote
/// endpoint's one-time signing secret.
#[derive(Debug)]
pub struct CreateWebhookPayload {
    pub webhook: Webhook,
    pub secret: String,
}

/// A request to delete a webhook by id.
#[derive(Debug)]
pub struct DeleteWebhookInput {
    pub webhook: String,
}

/// The result of deleting a webhook: the deleted id.
#[derive(Debug)]
pub struct DeleteWebhookPayload {
    pub webhook: String,
}

/// A request to re-point a webhook: its new URL, description, full project
/// set, event kinds, and optionally a disabled flag.
#[derive(Debug)]
pub struct EditWebhookInput {
    pub webhook: String,
    pub url: String,
    pub description: String,
    pub projects: Vec<String>,
    pub filter_types: Vec<FilterType>,
    pub disabled: Option<bool>,
}

/// The result of editing a webhook.
#[derive(Debug)]
pub struct EditWebhookPayload {
    pub webhook: Webhook,
}

/// The body of a create-endpoint call to the delivery gateway.
#[derive(Debug)]
pub struct EndpointConfig {
    pub channels: Vec<String>,
    pub filter_types: Vec<String>,
    pub version: i32,
    pub description: Option<String>,
    pub disabled: Option<bool>,
    pub rate_limit: Option<u16>,
    pub secret: Option<String>,
    pub url: String,
    pub uid: Option<String>,
}

/// The body of an update-endpoint call to the delivery gateway.
#[derive(Debug)]
pub struct EndpointUpdateConfig {
    pub channels: Vec<String>,
    pub filter_types: Vec<String>,
    pub version: i32,
    pub description: Option<String>,
    pub disabled: Option<bool>,
    pub rate_limit: Option<u16>,
    pub url: String,
    pub uid: Option<String>,
}

/// Everything the remote part of a create operation needs: the tenant
/// application to create the endpoint under, the endpoint body, and the
/// authenticated actor who will own the row.
#[derive(Debug)]
pub struct CreateEndpointPlan {
    pub app_id: String,
    pub endpoint: EndpointConfig,
    pub created_by: String,
}

/// The remote address of one webhook's endpoint: which application and
/// which endpoint a gateway call must name.
#[derive(Debug)]
pub struct GatewayEndpointRef {
    pub app_id: String,
    pub endpoint_id: String,
}

/// The canonical identifiers of a list of event kinds.
pub open spec fn formats_of(fts: Seq<FilterType>) -> Seq<Seq<char>> {
    fts.map_values(|f: FilterType| filter_type_str(f))
}

/// Formats each event kind as its canonical identifier, for the gateway's
/// filter list.
pub fn format_filter_types(fts: &Vec<FilterType>) -> (r: Vec<String>)
    ensures
        strings_view(r@) == formats_of(fts@),
{
    let mut out: Vec<String> = Vec::new();
    let mut i: usize = 0;
    while i < fts.len()
        invariant
            i <= fts@.len(),
            out@.len() == i,
            strings_view(out@) =~= formats_of(fts@).subrange(0, i as int),
        decreases fts@.len() - i,
    {
        out.push(fts[i].format());
        proof {
            assert(strings_view(out@) =~= formats_of(fts@).subrange(0, i + 1));
        }
        i += 1;
    }
    proof {
        assert(formats_of(fts@).subrange(0, fts@.len() as int) =~= formats_of(fts@));
    }
    out
}

/// Requires an authenticated actor: a management operation without one is
/// rejected before any side effect.
pub fn authenticate(user_id: &Option<String>) -> (r: Result<String, Error>)
    ensures
        match r {
            Ok(u) => user_id matches Some(x) && u@ == x@,
            Err(e) => e == Error::Unauthenticated && user_id is None,
        },
{
    match user_id {
        Some(u) => Ok(u.clone()),
        None => Err(Error::Unauthenticated),
    }
}

/// Prepares the remote half of a create operation. The actor must be
/// authenticated and the organization provisioned; the endpoint is scoped to
/// the requested project channels and event-kind filters, at version one and
/// enabled.
pub fn prepare_create(
    dir: &Directory,
    user_id: &Option<String>,
    input: &CreateWebhookInput,
) -> (r: Result<CreateEndpointPlan, Error>)
    requires
        dir@.wf(),
    ensures
        r matches Err(e) ==> (e == Error::Unauthenticated || e == Error::NotFound),
        (r matches Err(e) && e == Error::Unauthenticated) <==> user_id is None,
        (r matches Err(e) && e == Error::NotFound) <==> (user_id is Some && !dir@.has_application(
            input.organization@,
        )),
        r matches Ok(plan) ==> {
            &&& user_id matches Some(u) && plan.created_by@ == u@
            &&& dir@.has_application(input.organization@)
            &&& plan.app_id@ == app_id_of(dir@, input.organization@)
            &&& strings_view(plan.endpoint.channels@) == strings_view(input.projects@)
            &&& strings_view(plan.endpoint.filter_types@) == formats_of(input.filter_types@)
            &&& plan.endpoint.version == 1
            &&& plan.endpoint.description matches Some(d) && d@ == input.description@
            &&& plan.endpoint.disabled == Some(false)
            &&& plan.endpoint.rate_limit is None
            &&& plan.endpoint.secret is None
            &&& plan.endpoint.uid is None
            &&& plan.endpoint.url@ == input.url@
        },
{
    let created_by = match authenticate(user_id) {
        Ok(u) => u,
        Err(e) => {
            return Err(e);
        },
    };
    let app = match dir.find_application(&input.organization) {
        Some(app) => app,
        None => {
            return Err(Error::NotFound);
        },
    };
    proof {
        let m = choose|m: int|
            0 <= m < dir@.applications.len() && dir@.applications[m] == app@;
        let k = choose|k: int|
            0 <= k < dir@.applications.len() && (#[trigger] dir@.applications[k]).organization_id
                == input.organization@;
        assert(dir@.applications.contains(app@));
        assert(app_id_of(dir@, input.organization@) == app@.svix_app_id);
    }
    Ok(
        CreateEndpointPlan {
            app_id: app.svix_app_id,
            endpoint: EndpointConfig {
                channels: clone_string_vec(&input.projects),
                filter_types: format_filter_types(&input.filter_types),
                version: 1,
                description: Some(input.description.clone()),
                disabled: Some(false),
                rate_limit: None,
                secret: None,
                url: input.url.clone(),
                uid: None,
            },
            created_by,
        },
    )
}

/// Records a created webhook: the row and one link per subscribed project,
/// in one transaction, after the remote endpoint exists. The id is the
/// store's freshly generated key and must be new.
pub fn record_webhook(
    dir: &mut Directory,
    record: WebhookRecord,
    projects: &Vec<String>,
    now: i64,
)
    requires
        old(dir)@.wf(),
        !old(dir)@.has_webhook(record@.id),
        old(dir)@.has_application(record@.organization_id),
        forall|i: int, j: int|
            #![trigger projects@[i], projects@[j]]
            0 <= i < j < projects@.len() ==> projects@[i]@ != projects@[j]@,
    ensures
        final(dir)@.wf(),
        final(dir)@.applications == old(dir)@.applications,
        final(dir)@.webhooks == old(dir)@.webhooks.push(record@),
        final(dir)@.links_of(record@.id) =~= id_set(projects@),
        forall|w: Seq<char>|
            w != record@.id ==> final(dir)@.links_of(w) =~= old(dir)@.links_of(w),
        final(dir)@.has_webhook(record@.id),
{
    let ghost wid = record@.id;
    let ghost old_v = dir@;
    let webhook_id = record.id.clone();
    dir.insert_webhook(record);
    let ghost mid_v = dir@;
    proof {
        assert(mid_v.webhooks[old_v.webhooks.len() as int] == record@);
        assert(mid_v.has_webhook(wid));
    }
    dir.replace_links(&webhook_id, projects, now);
    proof {
        // the fresh webhook had no links, so filtering them away was a no-op,
        // and the links of every other webhook pass through both steps
        assert forall|w: Seq<char>| w != wid implies dir@.links_of(w) =~= old_v.links_of(w) by {
            assert(dir@.links_of(w) =~= mid_v.links_of(w));
            assert forall|p: Seq<char>| #[trigger]
                mid_v.links_of(w).contains(p) implies old_v.links_of(w).contains(p) by {
                let a = choose|a: int|
                    0 <= a < mid_v.webhook_projects.len()
                        && (#[trigger] mid_v.webhook_projects[a]).webhook_id == w
                        && mid_v.webhook_projects[a].project_id == p;
                assert(old_v.webhook_projects[a] == mid_v.webhook_projects[a]);
            }
            assert forall|p: Seq<char>| #[trigger]
                old_v.links_of(w).contains(p) implies mid_v.links_of(w).contains(p) by {
                let a = choose|a: int|
                    0 <= a < old_v.webhook_projects.len()
                        && (#[trigger] old_v.webhook_projects[a]).webhook_id == w
                        && old_v.webhook_projects[a].project_id == p;
                assert(mid_v.webhook_projects[a] == old_v.webhook_projects[a]);
            }
        }
        assert(dir@.has_webhook(wid)) by {
            let n = old_v.webhooks.len() as int;
            assert((#[trigger] dir@.webhooks[n]).id == wid);
        }
    }
}

/// Resolves the remote address of a webhook's endpoint: the webhook row and,
/// through its organization, the tenant application. An absent webhook is
/// `NotFound`; in a well-formed directory the owning application always
/// exists.
pub fn resolve_webhook_endpoint(dir: &Directory, webhook_id: &String) -> (r: Result<
    GatewayEndpointRef,
    Error,
>)
    requires
        dir@.wf(),
    ensures
        r is Err <==> !dir@.has_webhook(webhook_id@),
        r matches Err(e) ==> e == Error::NotFound,
        r matches Ok(eref) ==> exists|j: int|
            0 <= j < dir@.webhooks.len() && (#[trigger] dir@.webhooks[j]).id == webhook_id@
                && eref.endpoint_id@ == dir@.webhooks[j].endpoint_id && eref.app_id@ == app_id_of(
                dir@,
                dir@.webhooks[j].organization_id,
            ),
{
    let row = match dir.find_webhook(webhook_id) {
        Some(row) => row,
        None => {
            return Err(Error::NotFound);
        },
    };
    let app = match dir.find_application(&row.organization_id) {
        Some(app) => app,
        None => {
            proof {
                let m = choose|m: int| 0 <= m < dir@.webhooks.len() && dir@.webhooks[m] == row@;
                assert(dir@.has_application((#[trigger] dir@.webhooks[m]).organization_id));
                assert(false);
            }
            return Err(Error::NotFound);
        },
    };
    proof {
        let m = choose|m: int| 0 <= m < dir@.webhooks.len() && dir@.webhooks[m] == row@;
        assert(dir@.webhooks.contains(row@));
        assert((#[trigger] dir@.webhooks[m]).id == webhook_id@);
        assert(app_id_of(dir@, row@.organization_id) == app@.svix_app_id);
    }
    Ok(GatewayEndpointRef { app_id: app.svix_app_id, endpoint_id: row.endpoint_id })
}

/// Builds the update-endpoint body of an edit: the full new channel and
/// filter lists, the new URL and description, the caller's disabled flag,
/// the endpoint's next version, and the rate limit and uid the gateway
/// already holds.
pub fn build_endpoint_update(current: &Endpoint, input: &EditWebhookInput) -> (r:
    EndpointUpdateConfig)
    requires
        current.version < i32::MAX,
    ensures
        strings_view(r.channels@) == strings_view(input.projects@),
        strings_view(r.filter_types@) == formats_of(input.filter_types@),
        r.version as int == current@.version + 1,
        r.description matches Some(d) && d@ == input.description@,
        r.disabled == input.disabled,
        r.rate_limit == current@.rate_limit,
        r.url@ == input.url@,
        crate::endpoints::opt_string_view(r.uid) == current@.uid,
{
    EndpointUpdateConfig {
        channels: clone_string_vec(&input.projects),
        filter_types: format_filter_types(&input.filter_types),
        version: current.version + 1,
        description: Some(input.description.clone()),
        disabled: input.disabled,
        rate_limit: current.rate_limit,
        url: input.url.clone(),
        uid: crate::endpoints::clone_opt_string(&current.uid),
    }
}

/// Records an edit: replaces the webhook's full project link set with the
/// requested one — delete-all-then-insert-all, not a diff — and stamps the
/// row's update time. Whatever was linked before, exactly the requested
/// projects are linked afterwards; no prior link survives. Links of other
/// webhooks are untouched.
pub fn apply_edit(
    dir: &mut Directory,
    webhook_id: &String,
    projects: &Vec<String>,
    now: i64,
) -> (r: Result<(), Error>)
    requires
        old(dir)@.wf(),
        forall|i: int, j: int|
            #![trigger projects@[i], projects@[j]]
            0 <= i < j < projects@.len() ==> projects@[i]@ != projects@[j]@,
    ensures
        final(dir)@.wf(),
        final(dir)@.applications == old(dir)@.applications,
        r is Err <==> !old(dir)@.has_webhook(webhook_id@),
        r matches Err(e) ==> e == Error::NotFound && final(dir)@ == old(dir)@,
        r is Ok ==> {
            &&& final(dir)@.links_of(webhook_id@) =~= id_set(projects@)
            &&& forall|w: Seq<char>|
                w != webhook_id@ ==> final(dir)@.links_of(w) =~= old(dir)@.links_of(w)
            &&& exists|i: int|
                0 <= i < old(dir)@.webhooks.len() && (#[trigger] old(dir)@.webhooks[i]).id
                    == webhook_id@ && final(dir)@.webhooks == old(dir)@.webhooks.update(
                    i,
                    WebhookRecordV { updated_at: Some(now as int), ..old(dir)@.webhooks[i] },
                )
        },
{
    if dir.find_webhook(webhook_id).is_none() {
        return Err(Error::NotFound);
    }
    let ghost old_v = dir@;
    dir.replace_links(webhook_id, projects, now);
    let ghost mid_v = dir@;
    let touched = dir.touch_webhook(webhook_id, now);
    proof {
        assert(touched);
        // the update stamp does not move any link
        assert(dir@.webhook_projects == mid_v.webhook_projects);
        assert forall|w: Seq<char>| #[trigger]
            dir@.links_of(w) =~= mid_v.links_of(w) by {
            assert forall|p: Seq<char>| #[trigger]
                dir@.links_of(w).contains(p) implies mid_v.links_of(w).contains(p) by {
                let a = choose|a: int|
                    0 <= a < dir@.webhook_projects.len()
                        && (#[trigger] dir@.webhook_projects[a]).webhook_id == w
                        && dir@.webhook_projects[a].project_id == p;
                assert(mid_v.webhook_projects[a] == dir@.webhook_projects[a]);
            }
            assert forall|p: Seq<char>| #[trigger]
                mid_v.links_of(w).contains(p) implies dir@.links_of(w).contains(p) by {
                let a = choose|a: int|
                    0 <= a < mid_v.webhook_projects.len()
                        && (#[trigger] mid_v.webhook_projects[a]).webhook_id == w
                        && mid_v.webhook_projects[a].project_id == p;
                assert(dir@.webhook_projects[a] == mid_v.webhook_projects[a]);
            }
        }
    }
    Ok(())
}

/// Finishes a delete: the remote endpoint is deleted first, and only a
/// successful remote delete removes the local row and its links. A failed
/// remote delete leaves the directory exactly as it was and surfaces an
/// upstream failure, so no local row ever loses its remote endpoint record.
pub fn finish_delete(dir: &mut Directory, webhook_id: &String, remote_deleted: bool) -> (r: Result<
    (),
    Error,
>)
    requires
        old(dir)@.wf(),
    ensures
        final(dir)@.wf(),
        !remote_deleted ==> final(dir)@ == old(dir)@ && r == Err::<(), Error>(
            Error::UpstreamFailure,
        ),
        remote_deleted ==> {
            &&& r == Ok::<(), Error>(())
            &&& final(dir)@.applications == old(dir)@.applications
            &&& final(dir)@.webhooks == old(dir)@.webhooks.filter(hook_keeps(webhook_id@))
            &&& final(dir)@.webhook_projects == old(dir)@.webhook_projects.filter(
                link_keeps(webhook_id@),
            )
            &&& !final(dir)@.has_webhook(webhook_id@)
        },
{
    if !remote_deleted {
        return Err(Error::UpstreamFailure);
    }
    dir.delete_webhook_row(webhook_id);
    Ok(())
}

} // verus!
