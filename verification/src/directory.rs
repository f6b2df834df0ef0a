//! The tenant directory: organization applications, webhook rows and
//! webhook-project links, with the uniqueness invariants the relational
//! store enforces. The router and the loader read it; the management
//! operations mutate it.

use vstd::prelude::*;

use crate::error::Error;

verus! {

broadcast use vstd::seq_lib::group_seq_lib_default, Seq::lemma_filter_push;

/// One tenant application row: the remote application provisioned for an
/// organization. At most one row per organization.
#[derive(Debug)]
pub struct OrganizationApplication {
    pub svix_app_id: String,
    pub organization_id: String,
    pub created_at: i64,
}

/// Mathematical view of a tenant application row.
pub struct OrganizationApplicationV {
    pub svix_app_id: Seq<char>,
    pub organization_id: Seq<char>,
    pub created_at: int,
}

impl View for OrganizationApplication {
    type V = OrganizationApplicationV;

    open spec fn view(&self) -> OrganizationApplicationV {
        OrganizationApplicationV {
            svix_app_id: self.svix_app_id@,
            organization_id: self.organization_id@,
            created_at: self.created_at as int,
        }
    }
}

impl Clone for OrganizationApplication {
    fn clone(&self) -> (r: Self)
        ensures
            r@ == self@,
    {
        OrganizationApplication {
            svix_app_id: self.svix_app_id.clone(),
            organization_id: self.organization_id.clone(),
            created_at: self.created_at,
        }
    }
}

/// One registered webhook subscription row.
#[derive(Debug)]
pub struct WebhookRecord {
    pub id: String,
    pub endpoint_id: String,
    pub organization_id: String,
    pub created_at: i64,
    pub updated_at: Option<i64>,
    pub created_by: String,
}

/// Mathematical view of a webhook row.
pub struct WebhookRecordV {
    pub id: Seq<char>,
    pub endpoint_id: Seq<char>,
    pub organization_id: Seq<char>,
    pub created_at: int,
    pub updated_at: Option<int>,
    pub created_by: Seq<char>,
}

impl View for WebhookRecord {
    type V = WebhookRecordV;

    open spec fn view(&self) -> WebhookRecordV {
        WebhookRecordV {
            id: self.id@,
            endpoint_id: self.endpoint_id@,
            organization_id: self.organization_id@,
            created_at: self.created_at as int,
            updated_at: match self.updated_at {
                Some(t) => Some(t as int),
                None => None,
            },
            created_by: self.created_by@,
        }
    }
}

impl Clone for WebhookRecord {
    fn clone(&self) -> (r: Self)
        ensures
            r@ == self@,
    {
        WebhookRecord {
            id: self.id.clone(),
            endpoint_id: self.endpoint_id.clone(),
            organization_id: self.organization_id.clone(),
            created_at: self.created_at,
            updated_at: self.updated_at,
            created_by: self.created_by.clone(),
        }
    }
}

/// One webhook-project link row: the webhook receives events for the project
/// channel. The pair is unique.
#[derive(Debug)]
pub struct WebhookProject {
    pub webhook_id: String,
    pub project_id: String,
    pub created_at: i64,
}

/// Mathematical view of a link row.
pub struct WebhookProjectV {
    pub webhook_id: Seq<char>,
    pub project_id: Seq<char>,
    pub created_at: int,
}

impl View for WebhookProject {
    type V = WebhookProjectV;

    open spec fn view(&self) -> WebhookProjectV {
        WebhookProjectV {
            webhook_id: self.webhook_id@,
            project_id: self.project_id@,
            created_at: self.created_at as int,
        }
    }
}

impl Clone for WebhookProject {
    fn clone(&self) -> (r: Self)
        ensures
            r@ == self@,
    {
        WebhookProject {
            webhook_id: self.webhook_id.clone(),
            project_id: self.project_id.clone(),
            created_at: self.created_at,
        }
    }
}

/// The persisted directory state: three tables.
#[derive(Debug)]
pub struct Directory {
    pub applications: Vec<OrganizationApplication>,
    pub webhooks: Vec<WebhookRecord>,
    pub webhook_projects: Vec<WebhookProject>,
}

/// Mathematical view of the directory.
pub struct DirectoryV {
    pub applications: Seq<OrganizationApplicationV>,
    pub webhooks: Seq<WebhookRecordV>,
    pub webhook_projects: Seq<WebhookProjectV>,
}

/// The view of a sequence of application rows.
pub open spec fn apps_view(v: Seq<OrganizationApplication>) -> Seq<OrganizationApplicationV> {
    v.map_values(|a: OrganizationApplication| a@)
}

/// The view of a sequence of webhook rows.
pub open spec fn hooks_view(v: Seq<WebhookRecord>) -> Seq<WebhookRecordV> {
    v.map_values(|w: WebhookRecord| w@)
}

/// The view of a sequence of link rows.
pub open spec fn links_view(v: Seq<WebhookProject>) -> Seq<WebhookProjectV> {
    v.map_values(|l: WebhookProject| l@)
}

impl View for Directory {
    type V = DirectoryV;

    open spec fn view(&self) -> DirectoryV {
        DirectoryV {
            applications: apps_view(self.applications@),
            webhooks: hooks_view(self.webhooks@),
            webhook_projects: links_view(self.webhook_projects@),
        }
    }
}

impl DirectoryV {
    /// Some application row serves the organization.
    pub open spec fn has_application(self, org: Seq<char>) -> bool {
        exists|i: int|
            0 <= i < self.applications.len() && (#[trigger] self.applications[i]).organization_id
                == org
    }

    /// Some webhook row has this id.
    pub open spec fn has_webhook(self, webhook_id: Seq<char>) -> bool {
        exists|i: int|
            0 <= i < self.webhooks.len() && (#[trigger] self.webhooks[i]).id == webhook_id
    }

    /// How many application rows serve the organization.
    pub open spec fn application_count(self, org: Seq<char>) -> nat {
        self.applications.filter(|a: OrganizationApplicationV| a.organization_id == org).len()
    }

    /// Link `i` subscribes webhook `j` to `project`.
    pub open spec fn link_subscribes(self, i: int, j: int, project: Seq<char>) -> bool {
        &&& 0 <= i < self.webhook_projects.len()
        &&& 0 <= j < self.webhooks.len()
        &&& self.webhook_projects[i].project_id == project
        &&& self.webhooks[j].id == self.webhook_projects[i].webhook_id
    }

    /// The organizations that subscribe to a project through some webhook.
    /// Routing is well-defined only when this set has at most one element.
    pub open spec fn project_orgs(self, project: Seq<char>) -> Set<Seq<char>> {
        Set::new(
            |org: Seq<char>|
                exists|i: int, j: int|
                    #[trigger] self.link_subscribes(i, j, project)
                        && self.webhooks[j].organization_id == org,
        )
    }

    /// The projects one webhook is linked to.
    pub open spec fn links_of(self, webhook_id: Seq<char>) -> Set<Seq<char>> {
        Set::new(
            |p: Seq<char>|
                exists|i: int|
                    0 <= i < self.webhook_projects.len() && (#[trigger] self.webhook_projects[i]).webhook_id
                        == webhook_id && self.webhook_projects[i].project_id == p,
        )
    }

    /// The webhook rows of one organization, in insertion order.
    pub open spec fn org_webhooks(self, org: Seq<char>) -> Seq<WebhookRecordV> {
        self.webhooks.filter(owned_by(org))
    }

    /// The store's own integrity constraints: organization ids are unique
    /// among applications, webhook ids are unique, link pairs are unique,
    /// every webhook belongs to a provisioned organization, and every link
    /// belongs to an existing webhook.
    pub open spec fn wf(self) -> bool {
        &&& forall|i: int, j: int|
            0 <= i < j < self.applications.len() ==> (#[trigger] self.applications[i]).organization_id != (
            #[trigger] self.applications[j]).organization_id
        &&& forall|i: int, j: int|
            0 <= i < j < self.webhooks.len() ==> (#[trigger] self.webhooks[i]).id != (
            #[trigger] self.webhooks[j]).id
        &&& forall|i: int, j: int|
            0 <= i < j < self.webhook_projects.len() ==> !((#[trigger] self.webhook_projects[i]).webhook_id
                == (#[trigger] self.webhook_projects[j]).webhook_id
                && self.webhook_projects[i].project_id == self.webhook_projects[j].project_id)
        &&& forall|i: int|
            0 <= i < self.webhooks.len() ==> self.has_application(
                (#[trigger] self.webhooks[i]).organization_id,
            )
        &&& forall|i: int|
            0 <= i < self.webhook_projects.len() ==> self.has_webhook(
                (#[trigger] self.webhook_projects[i]).webhook_id,
            )
    }
}

/// Keeps the links of all webhooks but one.
pub open spec fn link_keeps(wid: Seq<char>) -> spec_fn(WebhookProjectV) -> bool {
    |l: WebhookProjectV| l.webhook_id != wid
}

/// Keeps all webhook rows but one.
pub open spec fn hook_keeps(wid: Seq<char>) -> spec_fn(WebhookRecordV) -> bool {
    |w: WebhookRecordV| w.id != wid
}

/// Selects the webhook rows of one organization.
pub open spec fn owned_by(org: Seq<char>) -> spec_fn(WebhookRecordV) -> bool {
    |w: WebhookRecordV| w.organization_id == org
}

/// The link rows that subscribe one webhook to each listed project.
pub open spec fn links_for(projects: Seq<String>, wid: Seq<char>, now: int) -> Seq<
    WebhookProjectV,
> {
    projects.map_values(
        |p: String| WebhookProjectV { webhook_id: wid, project_id: p@, created_at: now },
    )
}

/// The set of project ids in a list.
pub open spec fn id_set(projects: Seq<String>) -> Set<Seq<char>> {
    Set::new(
        |p: Seq<char>| exists|i: int| 0 <= i < projects.len() && (#[trigger] projects[i])@ == p,
    )
}

/// Two link rows that the store's composite key forbids to coexist.
pub open spec fn link_clash() -> spec_fn(WebhookProjectV, WebhookProjectV) -> bool {
    |a: WebhookProjectV, b: WebhookProjectV|
        a.webhook_id == b.webhook_id && a.project_id == b.project_id
}

/// Two webhook rows that the store's primary key forbids to coexist.
pub open spec fn hook_clash() -> spec_fn(WebhookRecordV, WebhookRecordV) -> bool {
    |a: WebhookRecordV, b: WebhookRecordV| a.id == b.id
}

/// Every element of a filtered sequence is an element of the original.
pub proof fn lemma_filter_subset<A>(s: Seq<A>, pred: spec_fn(A) -> bool)
    ensures
        forall|x: A| #[trigger] s.filter(pred).contains(x) ==> s.contains(x),
    decreases s.len(),
{
    reveal(Seq::filter);
    if s.len() > 0 {
        let rest = s.drop_last();
        lemma_filter_subset(rest, pred);
        assert forall|x: A| #[trigger] s.filter(pred).contains(x) implies s.contains(x) by {
            let f = s.filter(pred);
            let i = choose|i: int| 0 <= i < f.len() && f[i] == x;
            if pred(s.last()) && i == f.len() - 1 {
                assert(s[s.len() - 1] == x);
            } else {
                assert(rest.filter(pred)[i] == x);
                assert(rest.filter(pred).contains(x));
                let idx = choose|idx: int| 0 <= idx < rest.len() && rest[idx] == x;
                assert(s[idx] == x);
            }
        }
    }
}

/// Filtering preserves freedom from pairwise clashes.
proof fn lemma_filter_unique<A>(s: Seq<A>, pred: spec_fn(A) -> bool, clash: spec_fn(A, A) -> bool)
    requires
        forall|i: int, j: int| #![trigger s[i], s[j]] 0 <= i < j < s.len() ==> !clash(s[i], s[j]),
    ensures
        forall|i: int, j: int|
            #![trigger s.filter(pred)[i], s.filter(pred)[j]]
            0 <= i < j < s.filter(pred).len() ==> !clash(s.filter(pred)[i], s.filter(pred)[j]),
    decreases s.len(),
{
    reveal(Seq::filter);
    if s.len() > 0 {
        let rest = s.drop_last();
        lemma_filter_unique(rest, pred, clash);
        lemma_filter_subset(rest, pred);
        let f = s.filter(pred);
        assert forall|i: int, j: int|
            #![trigger f[i], f[j]]
            0 <= i < j < f.len() implies !clash(f[i], f[j]) by {
            if pred(s.last()) && j == f.len() - 1 {
                assert(rest.filter(pred)[i] == f[i]);
                assert(rest.filter(pred).contains(f[i]));
                assert(rest.contains(f[i]));
                let idx = choose|idx: int| 0 <= idx < rest.len() && rest[idx] == f[i];
                assert(s[idx] == f[i]);
                assert(!clash(s[idx], s[s.len() - 1]));
            } else {
                assert(rest.filter(pred)[i] == f[i]);
                assert(rest.filter(pred)[j] == f[j]);
            }
        }
    }
}

/// In a well-formed directory, an organization with a webhook row is served
/// by an application.
pub proof fn lemma_org_webhooks_have_app(dv: DirectoryV, org: Seq<char>)
    requires
        dv.wf(),
        dv.org_webhooks(org).len() > 0,
    ensures
        dv.has_application(org),
{
    let w = dv.org_webhooks(org)[0];
    assert(owned_by(org)(w));
    assert(dv.org_webhooks(org).contains(w));
    lemma_filter_subset(dv.webhooks, owned_by(org));
    assert(dv.webhooks.contains(w));
    let idx = choose|idx: int| 0 <= idx < dv.webhooks.len() && dv.webhooks[idx] == w;
    assert(dv.has_application((#[trigger] dv.webhooks[idx]).organization_id));
}

/// What recording a provisioned application does to the directory: nothing
/// when the organization is already served, else one appended row.
pub open spec fn spec_upsert_application(
    dv: DirectoryV,
    org: Seq<char>,
    app: Seq<char>,
    now: int,
) -> DirectoryV {
    if dv.has_application(org) {
        dv
    } else {
        DirectoryV {
            applications: dv.applications.push(
                OrganizationApplicationV {
                    svix_app_id: app,
                    organization_id: org,
                    created_at: now,
                },
            ),
            ..dv
        }
    }
}

/// Recording an application preserves the directory's integrity, and leaves
/// the organization served by exactly one row.
pub proof fn lemma_upsert_application_wf(dv: DirectoryV, org: Seq<char>, app: Seq<char>, now: int)
    requires
        dv.wf(),
    ensures
        spec_upsert_application(dv, org, app, now).wf(),
        spec_upsert_application(dv, org, app, now).has_application(org),
        spec_upsert_application(dv, org, app, now).application_count(org) == 1,
{
    let up = spec_upsert_application(dv, org, app, now);
    if dv.has_application(org) {
        lemma_application_count_one(dv, org);
    } else {
        let n = dv.applications.len() as int;
        assert(up.applications[n].organization_id == org);
        assert(up.has_application(org));
        assert forall|i: int| 0 <= i < n implies (#[trigger] up.applications[i]).organization_id
            != org by {
            assert(up.applications[i] == dv.applications[i]);
        }
        assert forall|i: int|
            0 <= i < up.webhooks.len() implies up.has_application(
            (#[trigger] up.webhooks[i]).organization_id,
        ) by {
            assert(dv.has_application(dv.webhooks[i].organization_id));
            let k = choose|k: int|
                0 <= k < dv.applications.len() && (#[trigger] dv.applications[k]).organization_id
                    == dv.webhooks[i].organization_id;
            assert(up.applications[k] == dv.applications[k]);
        }
        assert(up.wf());
        lemma_application_count_one(up, org);
    }
}

/// Law: tenant provisioning is idempotent. Recording an application for the
/// same organization a second time — whatever remote id or time the second
/// attempt carries — leaves the directory exactly as the first recording
/// left it, with a single application row for that organization.
pub proof fn lemma_provision_idempotent(
    dv: DirectoryV,
    org: Seq<char>,
    app1: Seq<char>,
    t1: int,
    app2: Seq<char>,
    t2: int,
)
    requires
        dv.wf(),
    ensures
        spec_upsert_application(spec_upsert_application(dv, org, app1, t1), org, app2, t2)
            == spec_upsert_application(dv, org, app1, t1),
        spec_upsert_application(dv, org, app1, t1).application_count(org) == 1,
{
    lemma_upsert_application_wf(dv, org, app1, t1);
}

/// In a well-formed directory, an organization that is served at all is
/// served by exactly one application row.
pub proof fn lemma_application_count_one(dv: DirectoryV, org: Seq<char>)
    requires
        dv.wf(),
        dv.has_application(org),
    ensures
        dv.application_count(org) == 1,
{
    lemma_unique_filter_count(dv.applications, org);
}

/// A sequence of application rows with pairwise-distinct organization ids
/// that contains a row for `org` keeps exactly one such row under filtering.
proof fn lemma_unique_filter_count(apps: Seq<OrganizationApplicationV>, org: Seq<char>)
    requires
        forall|i: int, j: int|
            0 <= i < j < apps.len() ==> (#[trigger] apps[i]).organization_id != (
            #[trigger] apps[j]).organization_id,
        exists|i: int| 0 <= i < apps.len() && (#[trigger] apps[i]).organization_id == org,
    ensures
        apps.filter(|a: OrganizationApplicationV| a.organization_id == org).len() == 1,
    decreases apps.len(),
{
    reveal(Seq::filter);
    let pred = |a: OrganizationApplicationV| a.organization_id == org;
    let w = choose|i: int| 0 <= i < apps.len() && (#[trigger] apps[i]).organization_id == org;
    if w == apps.len() - 1 {
        assert(pred(apps.last()));
        lemma_no_match_filter_empty(apps.drop_last(), org);
    } else {
        assert(!pred(apps.last()));
        assert(apps.drop_last()[w] == apps[w]);
        lemma_unique_filter_count(apps.drop_last(), org);
    }
}

/// A sequence of application rows with no row for `org` filters to nothing.
proof fn lemma_no_match_filter_empty(apps: Seq<OrganizationApplicationV>, org: Seq<char>)
    requires
        forall|i: int| 0 <= i < apps.len() ==> (#[trigger] apps[i]).organization_id != org,
    ensures
        apps.filter(|a: OrganizationApplicationV| a.organization_id == org).len() == 0,
    decreases apps.len(),
{
    reveal(Seq::filter);
    if apps.len() > 0 {
        lemma_no_match_filter_empty(apps.drop_last(), org);
    }
}

impl Directory {
    /// An empty directory.
    pub fn new() -> (r: Directory)
        ensures
            r@.applications.len() == 0,
            r@.webhooks.len() == 0,
            r@.webhook_projects.len() == 0,
            r@.wf(),
    {
        Directory { applications: Vec::new(), webhooks: Vec::new(), webhook_projects: Vec::new() }
    }

    /// Looks up the application row of an organization.
    pub fn find_application(&self, organization_id: &String) -> (r: Option<OrganizationApplication>)
        ensures
            match r {
                Some(a) => self@.has_application(organization_id@) && self@.applications.contains(
                    a@,
                ) && a@.organization_id == organization_id@,
                None => !self@.has_application(organization_id@),
            },
    {
        let mut i: usize = 0;
        while i < self.applications.len()
            invariant
                i <= self.applications.len(),
                forall|j: int|
                    0 <= j < i ==> (#[trigger] self@.applications[j]).organization_id
                        != organization_id@,
            decreases self.applications.len() - i,
        {
            if self.applications[i].organization_id == *organization_id {
                assert(self@.applications[i as int] == self.applications[i as int]@);
                return Some(self.applications[i].clone());
            }
            i += 1;
        }
        None
    }

    /// Records the application provisioned for an organization. Idempotent:
    /// if the organization is already served, the directory is unchanged and
    /// the duplicate is reported, never a second row. Afterwards exactly one
    /// application row serves the organization.
    pub fn upsert_application(
        &mut self,
        organization_id: &String,
        svix_app_id: &String,
        now: i64,
    ) -> (inserted: bool)
        requires
            old(self)@.wf(),
        ensures
            final(self)@.wf(),
            final(self)@.webhooks == old(self)@.webhooks,
            final(self)@.webhook_projects == old(self)@.webhook_projects,
            inserted == !old(self)@.has_application(organization_id@),
            !inserted ==> final(self)@ == old(self)@,
            inserted ==> final(self)@.applications == old(self)@.applications.push(
                OrganizationApplicationV {
                    svix_app_id: svix_app_id@,
                    organization_id: organization_id@,
                    created_at: now as int,
                },
            ),
            final(self)@.has_application(organization_id@),
            final(self)@.application_count(organization_id@) == 1,
            final(self)@ == spec_upsert_application(
                old(self)@,
                organization_id@,
                svix_app_id@,
                now as int,
            ),
    {
        let existing = self.find_application(organization_id);
        if existing.is_some() {
            proof {
                lemma_application_count_one(self@, organization_id@);
            }
            return false;
        }
        let row = OrganizationApplication {
            svix_app_id: svix_app_id.clone(),
            organization_id: organization_id.clone(),
            created_at: now,
        };
        let ghost old_v = self@;
        self.applications.push(row);
        proof {
            let appv = OrganizationApplicationV {
                svix_app_id: svix_app_id@,
                organization_id: organization_id@,
                created_at: now as int,
            };
            assert(self@.applications =~= old_v.applications.push(appv));
            assert(self@.webhooks =~= old_v.webhooks);
            assert(self@.webhook_projects =~= old_v.webhook_projects);
            let n = old_v.applications.len() as int;
            assert(self@.applications[n] == appv);
            assert forall|i: int| 0 <= i < old_v.applications.len() implies (
            #[trigger] self@.applications[i]).organization_id != organization_id@ by {
                assert(self@.applications[i] == old_v.applications[i]);
            }
            assert forall|i: int|
                0 <= i < self@.webhooks.len() implies self@.has_application(
                (#[trigger] self@.webhooks[i]).organization_id,
            ) by {
                assert(old_v.has_application(old_v.webhooks[i].organization_id));
                let k = choose|k: int|
                    0 <= k < old_v.applications.len() && (#[trigger] old_v.applications[k]).organization_id
                        == old_v.webhooks[i].organization_id;
                assert(self@.applications[k] == old_v.applications[k]);
            }
            assert forall|i: int|
                0 <= i < self@.webhook_projects.len() implies self@.has_webhook(
                (#[trigger] self@.webhook_projects[i]).webhook_id,
            ) by {
                assert(old_v.has_webhook(old_v.webhook_projects[i].webhook_id));
            }
            assert(self@.has_application(organization_id@));
            lemma_application_count_one(self@, organization_id@);
            assert(self@.applications == old_v.applications.push(appv));
            assert(self@.webhooks == old_v.webhooks);
            assert(self@.webhook_projects == old_v.webhook_projects);
            assert(self@ == spec_upsert_application(
                old_v,
                organization_id@,
                svix_app_id@,
                now as int,
            ));
        }
        true
    }

    /// Looks up the index of a webhook row by id.
    fn find_webhook_index(&self, webhook_id: &String) -> (r: Option<usize>)
        ensures
            match r {
                Some(j) => j < self.webhooks.len() && self@.webhooks[j as int].id == webhook_id@,
                None => !self@.has_webhook(webhook_id@),
            },
    {
        let mut i: usize = 0;
        while i < self.webhooks.len()
            invariant
                i <= self.webhooks.len(),
                forall|j: int| 0 <= j < i ==> (#[trigger] self@.webhooks[j]).id != webhook_id@,
            decreases self.webhooks.len() - i,
        {
            if self.webhooks[i].id == *webhook_id {
                assert(self@.webhooks[i as int] == self.webhooks[i as int]@);
                return Some(i);
            }
            i += 1;
        }
        None
    }

    /// Looks up a webhook row by id.
    pub fn find_webhook(&self, webhook_id: &String) -> (r: Option<WebhookRecord>)
        ensures
            match r {
                Some(w) => self@.has_webhook(webhook_id@) && self@.webhooks.contains(w@) && w@.id
                    == webhook_id@,
                None => !self@.has_webhook(webhook_id@),
            },
    {
        match self.find_webhook_index(webhook_id) {
            Some(i) => {
                proof {
                    assert(self@.webhooks[i as int] == self.webhooks[i as int]@);
                }
                Some(self.webhooks[i].clone())
            },
            None => None,
        }
    }

    /// All webhook rows of one organization, in insertion order: the one
    /// directory query of the by-organization read path.
    pub fn webhooks_for_org(&self, organization_id: &String) -> (r: Vec<WebhookRecord>)
        ensures
            hooks_view(r@) == self@.org_webhooks(organization_id@),
    {
        let ghost org = organization_id@;
        let mut out: Vec<WebhookRecord> = Vec::new();
        let mut i: usize = 0;
        while i < self.webhooks.len()
            invariant
                i <= self.webhooks.len(),
                org == organization_id@,
                hooks_view(out@) =~= self@.webhooks.subrange(0, i as int).filter(owned_by(org)),
            decreases self.webhooks.len() - i,
        {
            let ghost pre = self@.webhooks.subrange(0, i as int);
            let ghost before = hooks_view(out@);
            proof {
                assert(self@.webhooks[i as int] == self.webhooks[i as int]@);
            }
            if self.webhooks[i].organization_id == *organization_id {
                out.push(self.webhooks[i].clone());
                proof {
                    assert(hooks_view(out@) =~= before.push(self@.webhooks[i as int]));
                }
            }
            proof {
                assert(self@.webhooks.subrange(0, i + 1) =~= pre.push(self@.webhooks[i as int]));
            }
            i += 1;
        }
        proof {
            assert(self@.webhooks.subrange(0, self.webhooks@.len() as int) =~= self@.webhooks);
        }
        out
    }

    /// Inserts a freshly created webhook row. The row's organization must be
    /// provisioned — a webhook exists only under a tenant application — and
    /// the id must be new.
    pub fn insert_webhook(&mut self, record: WebhookRecord)
        requires
            old(self)@.wf(),
            !old(self)@.has_webhook(record@.id),
            old(self)@.has_application(record@.organization_id),
        ensures
            final(self)@.wf(),
            final(self)@.applications == old(self)@.applications,
            final(self)@.webhook_projects == old(self)@.webhook_projects,
            final(self)@.webhooks == old(self)@.webhooks.push(record@),
    {
        let ghost old_v = self@;
        let ghost rv = record@;
        self.webhooks.push(record);
        proof {
            assert(self@.webhooks =~= old_v.webhooks.push(rv));
            assert(self@.applications =~= old_v.applications);
            assert(self@.webhook_projects =~= old_v.webhook_projects);
            assert forall|i: int| 0 <= i < old_v.webhooks.len() implies (
            #[trigger] self@.webhooks[i]).id != rv.id by {
                assert(self@.webhooks[i] == old_v.webhooks[i]);
            }
            assert forall|i: int|
                0 <= i < self@.webhooks.len() implies self@.has_application(
                (#[trigger] self@.webhooks[i]).organization_id,
            ) by {
                let org = self@.webhooks[i].organization_id;
                assert(old_v.has_application(org));
                let k = choose|k: int|
                    0 <= k < old_v.applications.len()
                        && (#[trigger] old_v.applications[k]).organization_id == org;
                assert(self@.applications[k] == old_v.applications[k]);
            }
            assert forall|i: int|
                0 <= i < self@.webhook_projects.len() implies self@.has_webhook(
                (#[trigger] self@.webhook_projects[i]).webhook_id,
            ) by {
                let wid = self@.webhook_projects[i].webhook_id;
                assert(old_v.has_webhook(wid));
                let k = choose|k: int|
                    0 <= k < old_v.webhooks.len() && (#[trigger] old_v.webhooks[k]).id == wid;
                assert(self@.webhooks[k] == old_v.webhooks[k]);
            }
        }
    }

    /// Replaces the full link set of one webhook: every link of the webhook
    /// is removed and one link per requested project is inserted, as one
    /// transaction — not a diff. Links of other webhooks are untouched.
    pub fn replace_links(&mut self, webhook_id: &String, projects: &Vec<String>, now: i64)
        requires
            old(self)@.wf(),
            old(self)@.has_webhook(webhook_id@),
            forall|i: int, j: int|
                #![trigger projects@[i], projects@[j]]
                0 <= i < j < projects@.len() ==> projects@[i]@ != projects@[j]@,
        ensures
            final(self)@.wf(),
            final(self)@.applications == old(self)@.applications,
            final(self)@.webhooks == old(self)@.webhooks,
            final(self)@.webhook_projects == old(self)@.webhook_projects.filter(
                link_keeps(webhook_id@),
            ) + links_for(projects@, webhook_id@, now as int),
            final(self)@.links_of(webhook_id@) =~= id_set(projects@),
            forall|w: Seq<char>|
                w != webhook_id@ ==> final(self)@.links_of(w) =~= old(self)@.links_of(w),
    {
        let ghost wid = webhook_id@;
        let ghost old_v = self@;
        let ghost keep = link_keeps(wid);
        let mut kept: Vec<WebhookProject> = Vec::new();
        let mut i: usize = 0;
        while i < self.webhook_projects.len()
            invariant
                i <= self.webhook_projects.len(),
                wid == webhook_id@,
                keep == link_keeps(wid),
                self@ == old_v,
                links_view(kept@) =~= old_v.webhook_projects.subrange(0, i as int).filter(keep),
            decreases self.webhook_projects.len() - i,
        {
            let ghost pre = old_v.webhook_projects.subrange(0, i as int);
            let ghost before = links_view(kept@);
            proof {
                assert(old_v.webhook_projects[i as int] == self.webhook_projects[i as int]@);
            }
            if !(self.webhook_projects[i].webhook_id == *webhook_id) {
                kept.push(self.webhook_projects[i].clone());
                proof {
                    assert(links_view(kept@) =~= before.push(old_v.webhook_projects[i as int]));
                }
            }
            proof {
                assert(old_v.webhook_projects.subrange(0, i + 1) =~= pre.push(
                    old_v.webhook_projects[i as int],
                ));
            }
            i += 1;
        }
        proof {
            assert(old_v.webhook_projects.subrange(0, self.webhook_projects@.len() as int)
                =~= old_v.webhook_projects);
        }
        self.webhook_projects = kept;
        let ghost filtered = old_v.webhook_projects.filter(keep);
        let mut j: usize = 0;
        while j < projects.len()
            invariant
                j <= projects.len(),
                wid == webhook_id@,
                keep == link_keeps(wid),
                self@.applications == old_v.applications,
                self@.webhooks == old_v.webhooks,
                filtered == old_v.webhook_projects.filter(keep),
                links_view(self.webhook_projects@) =~= filtered + links_for(
                    projects@.subrange(0, j as int),
                    wid,
                    now as int,
                ),
            decreases projects.len() - j,
        {
            let ghost before = links_view(self.webhook_projects@);
            self.webhook_projects.push(
                WebhookProject {
                    webhook_id: webhook_id.clone(),
                    project_id: projects[j].clone(),
                    created_at: now,
                },
            );
            proof {
                let lv = WebhookProjectV {
                    webhook_id: wid,
                    project_id: projects@[j as int]@,
                    created_at: now as int,
                };
                assert(links_view(self.webhook_projects@) =~= before.push(lv));
                assert(links_for(projects@.subrange(0, j + 1), wid, now as int) =~= links_for(
                    projects@.subrange(0, j as int),
                    wid,
                    now as int,
                ).push(lv));
                assert(links_view(self.webhook_projects@) =~= filtered + links_for(
                    projects@.subrange(0, j + 1),
                    wid,
                    now as int,
                ));
            }
            j += 1;
        }
        proof {
            assert(projects@.subrange(0, projects@.len() as int) =~= projects@);
            let fin = self@;
            let fresh = links_for(projects@, wid, now as int);
            let n = filtered.len() as int;
            assert(fin.webhook_projects =~= filtered + fresh);
            lemma_filter_subset(old_v.webhook_projects, keep);
            lemma_filter_unique(old_v.webhook_projects, keep, link_clash());
            // the composite key stays unique across the kept and fresh parts
            assert forall|a: int, b: int|
                0 <= a < b < fin.webhook_projects.len() implies !((
            #[trigger] fin.webhook_projects[a]).webhook_id == (
            #[trigger] fin.webhook_projects[b]).webhook_id && fin.webhook_projects[a].project_id
                == fin.webhook_projects[b].project_id) by {
                if b < n {
                    assert(fin.webhook_projects[a] == filtered[a]);
                    assert(fin.webhook_projects[b] == filtered[b]);
                    assert(!link_clash()(filtered[a], filtered[b]));
                } else if a < n {
                    assert(fin.webhook_projects[a] == filtered[a]);
                    assert(keep(filtered[a]));
                    assert(fin.webhook_projects[b] == fresh[b - n]);
                } else {
                    assert(fin.webhook_projects[a] == fresh[a - n]);
                    assert(fin.webhook_projects[b] == fresh[b - n]);
                    assert(fresh[a - n].project_id == projects@[a - n]@);
                    assert(fresh[b - n].project_id == projects@[b - n]@);
                }
            }
            // every link still points at an existing webhook
            assert forall|a: int|
                0 <= a < fin.webhook_projects.len() implies fin.has_webhook(
                (#[trigger] fin.webhook_projects[a]).webhook_id,
            ) by {
                if a < n {
                    assert(filtered.contains(filtered[a]));
                    assert(old_v.webhook_projects.contains(filtered[a]));
                    let idx = choose|idx: int|
                        0 <= idx < old_v.webhook_projects.len() && old_v.webhook_projects[idx]
                            == filtered[a];
                    assert(old_v.has_webhook(old_v.webhook_projects[idx].webhook_id));
                    let k = choose|k: int|
                        0 <= k < old_v.webhooks.len() && (#[trigger] old_v.webhooks[k]).id
                            == old_v.webhook_projects[idx].webhook_id;
                    assert(fin.webhooks[k] == old_v.webhooks[k]);
                    assert(fin.webhook_projects[a] == filtered[a]);
                } else {
                    assert(fin.webhook_projects[a] == fresh[a - n]);
                    let k = choose|k: int|
                        0 <= k < old_v.webhooks.len() && (#[trigger] old_v.webhooks[k]).id == wid;
                    assert(fin.webhooks[k] == old_v.webhooks[k]);
                }
            }
            // every webhook still belongs to a provisioned organization
            assert forall|a: int|
                0 <= a < fin.webhooks.len() implies fin.has_application(
                (#[trigger] fin.webhooks[a]).organization_id,
            ) by {
                assert(fin.webhooks[a] == old_v.webhooks[a]);
                assert(old_v.has_application(old_v.webhooks[a].organization_id));
                let k = choose|k: int|
                    0 <= k < old_v.applications.len()
                        && (#[trigger] old_v.applications[k]).organization_id
                        == old_v.webhooks[a].organization_id;
                assert(fin.applications[k] == old_v.applications[k]);
            }
            // the webhook's links are now exactly the requested projects
            assert forall|p: Seq<char>| #[trigger]
                fin.links_of(wid).contains(p) implies id_set(projects@).contains(p) by {
                let a = choose|a: int|
                    0 <= a < fin.webhook_projects.len()
                        && (#[trigger] fin.webhook_projects[a]).webhook_id == wid
                        && fin.webhook_projects[a].project_id == p;
                if a < n {
                    assert(fin.webhook_projects[a] == filtered[a]);
                    assert(keep(filtered[a]));
                    assert(false);
                } else {
                    assert(fin.webhook_projects[a] == fresh[a - n]);
                    assert(projects@[a - n]@ == p);
                }
            }
            assert forall|p: Seq<char>| #[trigger]
                id_set(projects@).contains(p) implies fin.links_of(wid).contains(p) by {
                let x = choose|x: int| 0 <= x < projects@.len() && (#[trigger] projects@[x])@ == p;
                assert(fin.webhook_projects[n + x] == fresh[x]);
                assert((#[trigger] fin.webhook_projects[n + x]).webhook_id == wid
                    && fin.webhook_projects[n + x].project_id == p);
            }
            // links of every other webhook are untouched
            assert forall|w: Seq<char>, p: Seq<char>|
                w != wid && #[trigger] fin.links_of(w).contains(p) implies old_v.links_of(
                w,
            ).contains(p) by {
                let a = choose|a: int|
                    0 <= a < fin.webhook_projects.len()
                        && (#[trigger] fin.webhook_projects[a]).webhook_id == w
                        && fin.webhook_projects[a].project_id == p;
                if a < n {
                    assert(fin.webhook_projects[a] == filtered[a]);
                    assert(filtered.contains(filtered[a]));
                    assert(old_v.webhook_projects.contains(filtered[a]));
                    let idx = choose|idx: int|
                        0 <= idx < old_v.webhook_projects.len()
                            && old_v.webhook_projects[idx] == filtered[a];
                    assert((#[trigger] old_v.webhook_projects[idx]).webhook_id == w
                        && old_v.webhook_projects[idx].project_id == p);
                } else {
                    assert(fin.webhook_projects[a] == fresh[a - n]);
                    assert(false);
                }
            }
            assert forall|w: Seq<char>, p: Seq<char>|
                w != wid && #[trigger] old_v.links_of(w).contains(p) implies fin.links_of(
                w,
            ).contains(p) by {
                let a = choose|a: int|
                    0 <= a < old_v.webhook_projects.len()
                        && (#[trigger] old_v.webhook_projects[a]).webhook_id == w
                        && old_v.webhook_projects[a].project_id == p;
                assert(keep(old_v.webhook_projects[a]));
                assert(filtered.contains(old_v.webhook_projects[a]));
                let b = choose|b: int|
                    0 <= b < filtered.len() && filtered[b] == old_v.webhook_projects[a];
                assert((#[trigger] fin.webhook_projects[b]).webhook_id == w
                    && fin.webhook_projects[b].project_id == p);
            }
            assert forall|w: Seq<char>| w != wid implies fin.links_of(w) =~= old_v.links_of(w) by {
                assert forall|p: Seq<char>|
                    fin.links_of(w).contains(p) <==> old_v.links_of(w).contains(p) by {}
            }
        }
    }

    /// Deletes a webhook row together with its links, as the store's cascade
    /// does. Applications and other webhooks are untouched. Deleting an
    /// absent id is a no-op.
    pub fn delete_webhook_row(&mut self, webhook_id: &String)
        requires
            old(self)@.wf(),
        ensures
            final(self)@.wf(),
            final(self)@.applications == old(self)@.applications,
            final(self)@.webhooks == old(self)@.webhooks.filter(hook_keeps(webhook_id@)),
            final(self)@.webhook_projects == old(self)@.webhook_projects.filter(
                link_keeps(webhook_id@),
            ),
            !final(self)@.has_webhook(webhook_id@),
            final(self)@.links_of(webhook_id@) =~= Set::<Seq<char>>::empty(),
            forall|w: Seq<char>|
                w != webhook_id@ ==> final(self)@.links_of(w) =~= old(self)@.links_of(w),
    {
        let ghost wid = webhook_id@;
        let ghost old_v = self@;
        let ghost hkeep = hook_keeps(wid);
        let ghost lkeep = link_keeps(wid);
        let mut kept_hooks: Vec<WebhookRecord> = Vec::new();
        let mut i: usize = 0;
        while i < self.webhooks.len()
            invariant
                i <= self.webhooks.len(),
                wid == webhook_id@,
                hkeep == hook_keeps(wid),
                self@ == old_v,
                hooks_view(kept_hooks@) =~= old_v.webhooks.subrange(0, i as int).filter(hkeep),
            decreases self.webhooks.len() - i,
        {
            let ghost pre = old_v.webhooks.subrange(0, i as int);
            let ghost before = hooks_view(kept_hooks@);
            proof {
                assert(old_v.webhooks[i as int] == self.webhooks[i as int]@);
            }
            if !(self.webhooks[i].id == *webhook_id) {
                kept_hooks.push(self.webhooks[i].clone());
                proof {
                    assert(hooks_view(kept_hooks@) =~= before.push(old_v.webhooks[i as int]));
                }
            }
            proof {
                assert(old_v.webhooks.subrange(0, i + 1) =~= pre.push(old_v.webhooks[i as int]));
            }
            i += 1;
        }
        proof {
            assert(old_v.webhooks.subrange(0, self.webhooks@.len() as int) =~= old_v.webhooks);
        }
        self.webhooks = kept_hooks;
        let mut kept_links: Vec<WebhookProject> = Vec::new();
        let mut j: usize = 0;
        while j < self.webhook_projects.len()
            invariant
                j <= self.webhook_projects.len(),
                wid == webhook_id@,
                lkeep == link_keeps(wid),
                self@.applications == old_v.applications,
                self@.webhooks == old_v.webhooks.filter(hook_keeps(wid)),
                self@.webhook_projects == old_v.webhook_projects,
                links_view(kept_links@) =~= old_v.webhook_projects.subrange(0, j as int).filter(
                    lkeep,
                ),
            decreases self.webhook_projects.len() - j,
        {
            let ghost pre = old_v.webhook_projects.subrange(0, j as int);
            let ghost before = links_view(kept_links@);
            proof {
                assert(old_v.webhook_projects[j as int] == self.webhook_projects[j as int]@);
            }
            if !(self.webhook_projects[j].webhook_id == *webhook_id) {
                kept_links.push(self.webhook_projects[j].clone());
                proof {
                    assert(links_view(kept_links@) =~= before.push(
                        old_v.webhook_projects[j as int],
                    ));
                }
            }
            proof {
                assert(old_v.webhook_projects.subrange(0, j + 1) =~= pre.push(
                    old_v.webhook_projects[j as int],
                ));
            }
            j += 1;
        }
        proof {
            assert(old_v.webhook_projects.subrange(0, self.webhook_projects@.len() as int)
                =~= old_v.webhook_projects);
        }
        self.webhook_projects = kept_links;
        proof {
            let fin = self@;
            let fh = old_v.webhooks.filter(hkeep);
            let fl = old_v.webhook_projects.filter(lkeep);
            assert(fin.webhooks =~= fh);
            assert(fin.webhook_projects =~= fl);
            lemma_filter_subset(old_v.webhooks, hkeep);
            lemma_filter_subset(old_v.webhook_projects, lkeep);
            lemma_filter_unique(old_v.webhooks, hkeep, hook_clash());
            lemma_filter_unique(old_v.webhook_projects, lkeep, link_clash());
            assert forall|a: int, b: int|
                0 <= a < b < fin.webhooks.len() implies (#[trigger] fin.webhooks[a]).id != (
            #[trigger] fin.webhooks[b]).id by {
                assert(!hook_clash()(fh[a], fh[b]));
            }
            assert forall|a: int, b: int|
                0 <= a < b < fin.webhook_projects.len() implies !((
            #[trigger] fin.webhook_projects[a]).webhook_id == (
            #[trigger] fin.webhook_projects[b]).webhook_id && fin.webhook_projects[a].project_id
                == fin.webhook_projects[b].project_id) by {
                assert(!link_clash()(fl[a], fl[b]));
            }
            assert forall|a: int|
                0 <= a < fin.webhooks.len() implies fin.has_application(
                (#[trigger] fin.webhooks[a]).organization_id,
            ) by {
                assert(fh.contains(fh[a]));
                assert(old_v.webhooks.contains(fh[a]));
                let idx = choose|idx: int|
                    0 <= idx < old_v.webhooks.len() && old_v.webhooks[idx] == fh[a];
                assert(old_v.has_application(old_v.webhooks[idx].organization_id));
                let k = choose|k: int|
                    0 <= k < old_v.applications.len()
                        && (#[trigger] old_v.applications[k]).organization_id
                        == old_v.webhooks[idx].organization_id;
                assert(fin.applications[k] == old_v.applications[k]);
            }
            assert forall|a: int|
                0 <= a < fin.webhook_projects.len() implies fin.has_webhook(
                (#[trigger] fin.webhook_projects[a]).webhook_id,
            ) by {
                assert(fl.contains(fl[a]));
                assert(old_v.webhook_projects.contains(fl[a]));
                let idx = choose|idx: int|
                    0 <= idx < old_v.webhook_projects.len() && old_v.webhook_projects[idx] == fl[a];
                assert(old_v.has_webhook(old_v.webhook_projects[idx].webhook_id));
                let k = choose|k: int|
                    0 <= k < old_v.webhooks.len() && (#[trigger] old_v.webhooks[k]).id
                        == old_v.webhook_projects[idx].webhook_id;
                // that webhook is not the deleted one, so it survives the filter
                assert(old_v.webhooks[k].id != wid);
                assert(hkeep(old_v.webhooks[k]));
                assert(fh.contains(old_v.webhooks[k]));
                let b = choose|b: int| 0 <= b < fh.len() && fh[b] == old_v.webhooks[k];
                assert((#[trigger] fin.webhooks[b]).id == fin.webhook_projects[a].webhook_id);
            }
            assert forall|a: int| 0 <= a < fin.webhooks.len() implies (
            #[trigger] fin.webhooks[a]).id != wid by {
                assert(hkeep(fh[a]));
            }
            assert forall|p: Seq<char>| !(#[trigger] fin.links_of(wid).contains(p)) by {
                if fin.links_of(wid).contains(p) {
                    let a = choose|a: int|
                        0 <= a < fin.webhook_projects.len()
                            && (#[trigger] fin.webhook_projects[a]).webhook_id == wid
                            && fin.webhook_projects[a].project_id == p;
                    assert(lkeep(fl[a]));
                }
            }
            assert forall|w: Seq<char>, p: Seq<char>|
                w != wid && #[trigger] fin.links_of(w).contains(p) implies old_v.links_of(
                w,
            ).contains(p) by {
                let a = choose|a: int|
                    0 <= a < fin.webhook_projects.len()
                        && (#[trigger] fin.webhook_projects[a]).webhook_id == w
                        && fin.webhook_projects[a].project_id == p;
                assert(fl.contains(fl[a]));
                assert(old_v.webhook_projects.contains(fl[a]));
                let idx = choose|idx: int|
                    0 <= idx < old_v.webhook_projects.len() && old_v.webhook_projects[idx] == fl[a];
                assert((#[trigger] old_v.webhook_projects[idx]).webhook_id == w
                    && old_v.webhook_projects[idx].project_id == p);
            }
            assert forall|w: Seq<char>, p: Seq<char>|
                w != wid && #[trigger] old_v.links_of(w).contains(p) implies fin.links_of(
                w,
            ).contains(p) by {
                let a = choose|a: int|
                    0 <= a < old_v.webhook_projects.len()
                        && (#[trigger] old_v.webhook_projects[a]).webhook_id == w
                        && old_v.webhook_projects[a].project_id == p;
                assert(lkeep(old_v.webhook_projects[a]));
                assert(fl.contains(old_v.webhook_projects[a]));
                let b = choose|b: int| 0 <= b < fl.len() && fl[b] == old_v.webhook_projects[a];
                assert((#[trigger] fin.webhook_projects[b]).webhook_id == w
                    && fin.webhook_projects[b].project_id == p);
            }
            assert forall|w: Seq<char>| w != wid implies fin.links_of(w) =~= old_v.links_of(w) by {
                assert forall|p: Seq<char>|
                    fin.links_of(w).contains(p) <==> old_v.links_of(w).contains(p) by {}
            }
        }
    }

    /// Stamps a webhook row with an update time, leaving every other field
    /// and every other row as it was. Reports whether the row exists.
    pub fn touch_webhook(&mut self, webhook_id: &String, now: i64) -> (r: bool)
        requires
            old(self)@.wf(),
        ensures
            final(self)@.wf(),
            final(self)@.applications == old(self)@.applications,
            final(self)@.webhook_projects == old(self)@.webhook_projects,
            r == old(self)@.has_webhook(webhook_id@),
            !r ==> final(self)@ == old(self)@,
            r ==> exists|i: int|
                0 <= i < old(self)@.webhooks.len() && (#[trigger] old(self)@.webhooks[i]).id
                    == webhook_id@ && final(self)@.webhooks == old(self)@.webhooks.update(
                    i,
                    WebhookRecordV { updated_at: Some(now as int), ..old(self)@.webhooks[i] },
                ),
    {
        let ghost old_v = self@;
        match self.find_webhook_index(webhook_id) {
            None => false,
            Some(i) => {
                self.webhooks[i].updated_at = Some(now);
                proof {
                    let iv = i as int;
                    let updated = WebhookRecordV {
                        updated_at: Some(now as int),
                        ..old_v.webhooks[iv]
                    };
                    assert(self@.webhooks =~= old_v.webhooks.update(iv, updated));
                    assert(self@.applications =~= old_v.applications);
                    assert(self@.webhook_projects =~= old_v.webhook_projects);
                    assert forall|a: int, b: int|
                        0 <= a < b < self@.webhooks.len() implies (#[trigger] self@.webhooks[a]).id
                        != (#[trigger] self@.webhooks[b]).id by {
                        assert(self@.webhooks[a].id == old_v.webhooks[a].id);
                        assert(self@.webhooks[b].id == old_v.webhooks[b].id);
                    }
                    assert forall|a: int|
                        0 <= a < self@.webhooks.len() implies self@.has_application(
                        (#[trigger] self@.webhooks[a]).organization_id,
                    ) by {
                        assert(self@.webhooks[a].organization_id
                            == old_v.webhooks[a].organization_id);
                        assert(old_v.has_application(old_v.webhooks[a].organization_id));
                        let k = choose|k: int|
                            0 <= k < old_v.applications.len()
                                && (#[trigger] old_v.applications[k]).organization_id
                                == old_v.webhooks[a].organization_id;
                        assert(self@.applications[k] == old_v.applications[k]);
                    }
                    assert forall|a: int|
                        0 <= a < self@.webhook_projects.len() implies self@.has_webhook(
                        (#[trigger] self@.webhook_projects[a]).webhook_id,
                    ) by {
                        assert(old_v.has_webhook(old_v.webhook_projects[a].webhook_id));
                        let k = choose|k: int|
                            0 <= k < old_v.webhooks.len() && (#[trigger] old_v.webhooks[k]).id
                                == old_v.webhook_projects[a].webhook_id;
                        assert(self@.webhooks[k].id == old_v.webhooks[k].id);
                    }
                    assert(old_v.webhooks[iv].id == webhook_id@);
                }
                true
            },
        }
    }

    /// Resolves the tenant application that serves a project by following
    /// links from the project to its webhooks and on to their organization's
    /// application. A project nobody subscribes to is `NotFound` — expected,
    /// and distinguished from infrastructure failures. A project subscribed
    /// under more than one organization is ambiguous to route and reported
    /// as a data-integrity fault.
    pub fn resolve_project(&self, project_id: &String) -> (r: Result<String, Error>)
        requires
            self@.wf(),
        ensures
            r matches Err(e) ==> (e == Error::NotFound || e == Error::DataIntegrityFault),
            (r == Err::<String, Error>(Error::NotFound)) <==> self@.project_orgs(project_id@)
                =~= Set::<Seq<char>>::empty(),
            (r == Err::<String, Error>(Error::DataIntegrityFault)) <==> (exists|o1: Seq<char>, o2: Seq<char>|
                self@.project_orgs(project_id@).contains(o1) && self@.project_orgs(
                    project_id@,
                ).contains(o2) && o1 != o2),
            r matches Ok(app) ==> (exists|k: int|
                0 <= k < self@.applications.len() && (#[trigger] self@.applications[k]).svix_app_id
                    == app@ && self@.project_orgs(project_id@).contains(
                    self@.applications[k].organization_id,
                )),
    {
        let ghost p = project_id@;
        let mut found_org: Option<String> = None;
        let mut li: usize = 0;
        while li < self.webhook_projects.len()
            invariant
                self@.wf(),
                li <= self.webhook_projects.len(),
                match found_org {
                    None => forall|i: int|
                        0 <= i < li ==> (#[trigger] self@.webhook_projects[i]).project_id != p,
                    Some(org) => {
                        &&& self@.project_orgs(p).contains(org@)
                        &&& forall|i: int, j: int|
                            #[trigger] self@.link_subscribes(i, j, p) && i < li
                                ==> self@.webhooks[j].organization_id == org@
                    },
                },
                p == project_id@,
            decreases self.webhook_projects.len() - li,
        {
            assert(self@.webhook_projects[li as int] == self.webhook_projects[li as int]@);
            if self.webhook_projects[li].project_id == *project_id {
                let wj = match self.find_webhook_index(&self.webhook_projects[li].webhook_id) {
                    Some(j) => j,
                    None => {
                        proof {
                            assert(self@.has_webhook(self@.webhook_projects[li as int].webhook_id));
                            assert(false);
                        }
                        return Err(Error::NotFound);
                    },
                };
                let current_org = self.webhooks[wj].organization_id.clone();
                proof {
                    assert(self@.webhooks[wj as int] == self.webhooks[wj as int]@);
                    assert(self@.link_subscribes(li as int, wj as int, p));
                    assert(self@.project_orgs(p).contains(current_org@));
                }
                if found_org.is_none() {
                    found_org = Some(current_org);
                } else {
                    let prev: &String = found_org.as_ref().unwrap();
                    let same = *prev == current_org;
                    if !same {
                        proof {
                            let prev_v = prev@;
                            assert(self@.project_orgs(p).contains(prev_v));
                            assert(self@.project_orgs(p).contains(current_org@));
                            assert(prev_v != current_org@);
                        }
                        return Err(Error::DataIntegrityFault);
                    }
                }
                proof {
                    let org = found_org->Some_0;
                    assert forall|i: int, j: int|
                        #[trigger] self@.link_subscribes(i, j, p) && i < li + 1 implies
                    self@.webhooks[j].organization_id == org@ by {
                        if i == li as int {
                            // webhook ids are unique, so j is the row we resolved
                            if j != wj as int {
                                assert(self@.webhooks[j].id == self@.webhooks[wj as int].id);
                                assert(false);
                            }
                        }
                    }
                }
            }
            li += 1;
        }
        match found_org {
            None => {
                proof {
                    assert forall|o: Seq<char>| !self@.project_orgs(p).contains(o) by {
                        if self@.project_orgs(p).contains(o) {
                            let (i, j) = choose|i: int, j: int|
                                #[trigger] self@.link_subscribes(i, j, p)
                                    && self@.webhooks[j].organization_id == o;
                            assert(self@.webhook_projects[i].project_id == p);
                        }
                    }
                    assert(self@.project_orgs(p) =~= Set::<Seq<char>>::empty());
                }
                Err(Error::NotFound)
            },
            Some(org) => {
                let app = match self.find_application(&org) {
                    Some(a) => a,
                    None => {
                        proof {
                            let (i, j) = choose|i: int, j: int|
                                #[trigger] self@.link_subscribes(i, j, p)
                                    && self@.webhooks[j].organization_id == org@;
                            assert(self@.has_application(self@.webhooks[j].organization_id));
                            assert(false);
                        }
                        return Err(Error::NotFound);
                    },
                };
                proof {
                    // the resolved organization is the only subscriber
                    assert forall|o1: Seq<char>, o2: Seq<char>|
                        self@.project_orgs(p).contains(o1) && self@.project_orgs(p).contains(
                            o2,
                        ) implies o1 == o2 by {
                        let (i1, j1) = choose|i: int, j: int|
                            #[trigger] self@.link_subscribes(i, j, p)
                                && self@.webhooks[j].organization_id == o1;
                        let (i2, j2) = choose|i: int, j: int|
                            #[trigger] self@.link_subscribes(i, j, p)
                                && self@.webhooks[j].organization_id == o2;
                        assert(o1 == org@);
                        assert(o2 == org@);
                    }
                    // and it is in the set, so the set is not empty
                    assert(self@.project_orgs(p).contains(org@));
                    let k = choose|k: int|
                        0 <= k < self@.applications.len()
                            && (#[trigger] self@.applications[k]).organization_id == org@;
                    assert(self@.applications[k].svix_app_id == app@.svix_app_id);
                }
                Ok(app.svix_app_id)
            },
        }
    }
}

} // verus!
