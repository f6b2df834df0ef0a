//! The batched relationship loader: resolves one logical read request's
//! whole key set with a single directory query and one remote fetch per
//! returned row, instead of one query and one fetch per field resolution.

use vstd::prelude::*;

use crate::directory::{id_set, Directory, DirectoryV, WebhookRecord, WebhookRecordV};
use crate::endpoints::{Endpoint, Webhook, WebhookV};
use crate::error::Error;

verus! {

broadcast use vstd::seq_lib::group_seq_lib_default, Seq::lemma_filter_push;

/// One pending remote fetch: the tenant application under which the
/// endpoint of one local row is to be fetched.
#[derive(Debug)]
pub struct FetchJob {
    pub svix_app_id: String,
    pub webhook: WebhookRecord,
}

/// Mathematical view of a pending fetch.
pub struct FetchJobV {
    pub svix_app_id: Seq<char>,
    pub webhook: WebhookRecordV,
}

impl View for FetchJob {
    type V = FetchJobV;

    open spec fn view(&self) -> FetchJobV {
        FetchJobV { svix_app_id: self.svix_app_id@, webhook: self.webhook@ }
    }
}

/// The view of a list of pending fetches.
pub open spec fn jobs_view(v: Seq<FetchJob>) -> Seq<FetchJobV> {
    v.map_values(|j: FetchJob| j@)
}

/// The view of a list of resolved webhooks.
pub open spec fn webhooks_view(v: Seq<Webhook>) -> Seq<WebhookV> {
    v.map_values(|w: Webhook| w@)
}

/// The application id that serves an organization; meaningful in a
/// well-formed directory for a served organization, where it is unique.
pub open spec fn app_id_of(dv: DirectoryV, org: Seq<char>) -> Seq<char> {
    let k = choose|k: int|
        0 <= k < dv.applications.len() && (#[trigger] dv.applications[k]).organization_id == org;
    dv.applications[k].svix_app_id
}

/// The fetches one organization key contributes: one per webhook row of
/// that organization, under the organization's application.
pub open spec fn org_jobs(dv: DirectoryV, org: Seq<char>) -> Seq<FetchJobV> {
    dv.org_webhooks(org).map_values(
        |w: WebhookRecordV| FetchJobV { svix_app_id: app_id_of(dv, org), webhook: w },
    )
}

/// The fetches a whole by-organization batch contributes, in key order.
pub open spec fn org_batch_jobs(dv: DirectoryV, keys: Seq<String>) -> Seq<FetchJobV>
    decreases keys.len(),
{
    if keys.len() == 0 {
        Seq::empty()
    } else {
        org_jobs(dv, keys[0]@) + org_batch_jobs(dv, keys.subrange(1, keys.len() as int))
    }
}

/// The fetches one webhook-id key contributes: one for its row, if the row
/// exists, under its organization's application.
pub open spec fn webhook_jobs(dv: DirectoryV, key: Seq<char>) -> Seq<FetchJobV> {
    if dv.has_webhook(key) {
        let j = choose|j: int|
            0 <= j < dv.webhooks.len() && (#[trigger] dv.webhooks[j]).id == key;
        seq![
            FetchJobV {
                svix_app_id: app_id_of(dv, dv.webhooks[j].organization_id),
                webhook: dv.webhooks[j],
            },
        ]
    } else {
        Seq::empty()
    }
}

/// The fetches a whole by-webhook batch contributes, in key order.
pub open spec fn webhook_batch_jobs(dv: DirectoryV, keys: Seq<String>) -> Seq<FetchJobV>
    decreases keys.len(),
{
    if keys.len() == 0 {
        Seq::empty()
    } else {
        webhook_jobs(dv, keys[0]@) + webhook_batch_jobs(dv, keys.subrange(1, keys.len() as int))
    }
}

/// The explicit batch context of one logical read request: the distinct
/// keys collected at the request's single collection point. It is built per
/// request and torn down with it; nothing is cached across requests.
#[derive(Debug)]
pub struct BatchWindow {
    pub keys: Vec<String>,
}

impl BatchWindow {
    /// The collected keys are pairwise distinct.
    pub open spec fn wf(self) -> bool {
        forall|i: int, j: int|
            #![trigger self.keys@[i], self.keys@[j]]
            0 <= i < j < self.keys@.len() ==> self.keys@[i]@ != self.keys@[j]@
    }

    /// An empty window.
    pub fn new() -> (r: Self)
        ensures
            r.wf(),
            r.keys@.len() == 0,
    {
        BatchWindow { keys: Vec::new() }
    }

    /// Collects one requested key; a key already collected is not repeated,
    /// however many field resolutions request it.
    pub fn request(&mut self, key: &String)
        requires
            old(self).wf(),
        ensures
            final(self).wf(),
            id_set(final(self).keys@) =~= id_set(old(self).keys@).insert(key@),
            id_set(old(self).keys@).contains(key@) ==> final(self).keys@ == old(self).keys@,
            !id_set(old(self).keys@).contains(key@) ==> final(self).keys@ == old(
                self,
            ).keys@.push(*key),
    {
        let mut i: usize = 0;
        while i < self.keys.len()
            invariant
                i <= self.keys@.len(),
                self.keys@ == old(self).keys@,
                old(self).wf(),
                forall|j: int| 0 <= j < i ==> (#[trigger] self.keys@[j])@ != key@,
            decreases self.keys@.len() - i,
        {
            if self.keys[i] == *key {
                proof {
                    assert((#[trigger] self.keys@[i as int])@ == key@);
                    assert(id_set(self.keys@).contains(key@));
                    assert(id_set(self.keys@) =~= id_set(self.keys@).insert(key@));
                }
                return ;
            }
            i += 1;
        }
        let ghost old_keys = self.keys@;
        self.keys.push(key.clone());
        proof {
            assert forall|p: Seq<char>| #[trigger]
                id_set(self.keys@).contains(p) implies id_set(old_keys).insert(key@).contains(
                p,
            ) by {
                let x = choose|x: int|
                    0 <= x < self.keys@.len() && (#[trigger] self.keys@[x])@ == p;
                if x < old_keys.len() {
                    assert(old_keys[x] == self.keys@[x]);
                }
            }
            assert forall|p: Seq<char>| #[trigger]
                id_set(old_keys).insert(key@).contains(p) implies id_set(self.keys@).contains(
                p,
            ) by {
                if p == key@ {
                    assert((self.keys@[old_keys.len() as int])@ == p);
                } else {
                    let x = choose|x: int|
                        0 <= x < old_keys.len() && (#[trigger] old_keys[x])@ == p;
                    assert((self.keys@[x])@ == p);
                }
            }
            assert forall|a: int, b: int|
                #![trigger self.keys@[a], self.keys@[b]]
                0 <= a < b < self.keys@.len() implies self.keys@[a]@ != self.keys@[b]@ by {
                if b < old_keys.len() {
                    assert(old_keys[a] == self.keys@[a]);
                    assert(old_keys[b] == self.keys@[b]);
                } else {
                    assert(old_keys[a] == self.keys@[a]);
                }
            }
        }
    }
}

/// One batch step of the by-organization read path: the single directory
/// query for all collected keys, yielding the remote fetches to issue. One
/// call serves the whole window, however many resolutions joined it.
pub fn plan_by_organization(dir: &Directory, window: &BatchWindow) -> (r: Vec<FetchJob>)
    requires
        dir@.wf(),
        window.wf(),
    ensures
        jobs_view(r@) == org_batch_jobs(dir@, window.keys@),
{
    let ghost dv = dir@;
    let mut jobs: Vec<FetchJob> = Vec::new();
    let mut i: usize = 0;
    while i < window.keys.len()
        invariant
            dv == dir@,
            dv.wf(),
            i <= window.keys@.len(),
            jobs_view(jobs@) =~= org_batch_jobs(dv, window.keys@.subrange(0, i as int)),
        decreases window.keys@.len() - i,
    {
        let ghost org = window.keys@[i as int]@;
        let ghost base = jobs_view(jobs@);
        let hooks = dir.webhooks_for_org(&window.keys[i]);
        match dir.find_application(&window.keys[i]) {
            Some(app) => {
                proof {
                    // the application row is the unique one of this organization
                    let m = choose|m: int|
                        0 <= m < dv.applications.len() && dv.applications[m] == app@;
                    let k = choose|k: int|
                        0 <= k < dv.applications.len()
                            && (#[trigger] dv.applications[k]).organization_id == org;
                    assert(dv.applications.contains(app@));
                    assert(app_id_of(dv, org) == app@.svix_app_id);
                }
                let mut j: usize = 0;
                while j < hooks.len()
                    invariant
                        dv == dir@,
                        dv.wf(),
                        j <= hooks@.len(),
                        crate::directory::hooks_view(hooks@) == dv.org_webhooks(org),
                        app@.svix_app_id == app_id_of(dv, org),
                        jobs_view(jobs@) =~= base + org_jobs(dv, org).subrange(0, j as int),
                    decreases hooks@.len() - j,
                {
                    let ghost before = jobs_view(jobs@);
                    jobs.push(
                        FetchJob {
                            svix_app_id: app.svix_app_id.clone(),
                            webhook: hooks[j].clone(),
                        },
                    );
                    proof {
                        assert(crate::directory::hooks_view(hooks@)[j as int] == hooks@[j as int]@);
                        assert(org_jobs(dv, org)[j as int] == FetchJobV {
                            svix_app_id: app_id_of(dv, org),
                            webhook: hooks@[j as int]@,
                        });
                        assert(jobs_view(jobs@) =~= before.push(org_jobs(dv, org)[j as int]));
                        assert(jobs_view(jobs@) =~= base + org_jobs(dv, org).subrange(0, j + 1));
                    }
                    j += 1;
                }
                proof {
                    assert(org_jobs(dv, org).subrange(0, org_jobs(dv, org).len() as int)
                        =~= org_jobs(dv, org));
                }
            },
            None => {
                proof {
                    // an organization with no application has no webhooks
                    if dv.org_webhooks(org).len() > 0 {
                        crate::directory::lemma_org_webhooks_have_app(dv, org);
                    }
                    assert(org_jobs(dv, org) =~= Seq::<FetchJobV>::empty());
                    assert(jobs_view(jobs@) =~= base + org_jobs(dv, org));
                }
            },
        }
        proof {
            lemma_org_batch_jobs_snoc(dv, window.keys@.subrange(0, i as int), window.keys@[i as int]);
            assert(window.keys@.subrange(0, i + 1) =~= window.keys@.subrange(0, i as int).push(
                window.keys@[i as int],
            ));
        }
        i += 1;
    }
    proof {
        assert(window.keys@.subrange(0, window.keys@.len() as int) =~= window.keys@);
    }
    jobs
}

/// One batch step of the by-webhook read path: the single directory query
/// for all collected webhook ids. A key with no row contributes nothing —
/// it resolves to absent, not to an error.
pub fn plan_by_webhook(dir: &Directory, window: &BatchWindow) -> (r: Vec<FetchJob>)
    requires
        dir@.wf(),
        window.wf(),
    ensures
        jobs_view(r@) == webhook_batch_jobs(dir@, window.keys@),
{
    let ghost dv = dir@;
    let mut jobs: Vec<FetchJob> = Vec::new();
    let mut i: usize = 0;
    while i < window.keys.len()
        invariant
            dv == dir@,
            dv.wf(),
            i <= window.keys@.len(),
            jobs_view(jobs@) =~= webhook_batch_jobs(dv, window.keys@.subrange(0, i as int)),
        decreases window.keys@.len() - i,
    {
        let ghost key = window.keys@[i as int]@;
        let ghost base = jobs_view(jobs@);
        match dir.find_webhook(&window.keys[i]) {
            Some(row) => {
                let app = match dir.find_application(&row.organization_id) {
                    Some(app) => app,
                    None => {
                        proof {
                            let m = choose|m: int|
                                0 <= m < dv.webhooks.len() && dv.webhooks[m] == row@;
                            assert(dv.has_application(
                                (#[trigger] dv.webhooks[m]).organization_id,
                            ));
                            assert(false);
                        }
                        return jobs;
                    },
                };
                proof {
                    // the row and the application are the unique ones for the key
                    let j = choose|j: int|
                        0 <= j < dv.webhooks.len() && (#[trigger] dv.webhooks[j]).id == key;
                    let m = choose|m: int| 0 <= m < dv.webhooks.len() && dv.webhooks[m] == row@;
                    assert(dv.webhooks[m].id == key);
                    if j != m {
                        assert(dv.webhooks[j].id != dv.webhooks[m].id);
                    }
                    assert(dv.webhooks[j] == row@);
                    assert(app_id_of(dv, row@.organization_id) == app@.svix_app_id);
                    assert(webhook_jobs(dv, key) =~= seq![
                        FetchJobV { svix_app_id: app@.svix_app_id, webhook: row@ },
                    ]);
                }
                jobs.push(FetchJob { svix_app_id: app.svix_app_id, webhook: row });
                proof {
                    assert(jobs_view(jobs@) =~= base + webhook_jobs(dv, key));
                }
            },
            None => {
                proof {
                    assert(webhook_jobs(dv, key) =~= Seq::<FetchJobV>::empty());
                    assert(jobs_view(jobs@) =~= base + webhook_jobs(dv, key));
                }
            },
        }
        proof {
            lemma_webhook_batch_jobs_snoc(
                dv,
                window.keys@.subrange(0, i as int),
                window.keys@[i as int],
            );
            assert(window.keys@.subrange(0, i + 1) =~= window.keys@.subrange(0, i as int).push(
                window.keys@[i as int],
            ));
        }
        i += 1;
    }
    proof {
        assert(window.keys@.subrange(0, window.keys@.len() as int) =~= window.keys@);
    }
    jobs
}

/// Appending one key to a by-webhook batch appends that key's fetches.
proof fn lemma_webhook_batch_jobs_snoc(dv: DirectoryV, keys: Seq<String>, k: String)
    ensures
        webhook_batch_jobs(dv, keys.push(k)) == webhook_batch_jobs(dv, keys) + webhook_jobs(
            dv,
            k@,
        ),
    decreases keys.len(),
{
    if keys.len() == 0 {
        assert(keys.push(k)[0] == k);
        assert(keys.push(k).subrange(1, 1) =~= Seq::<String>::empty());
        assert(webhook_batch_jobs(dv, Seq::<String>::empty()) =~= Seq::<FetchJobV>::empty());
        assert(webhook_batch_jobs(dv, keys.push(k)) =~= webhook_batch_jobs(dv, keys)
            + webhook_jobs(dv, k@));
    } else {
        assert(keys.push(k)[0] == keys[0]);
        assert(keys.push(k).subrange(1, keys.len() as int + 1) =~= keys.subrange(
            1,
            keys.len() as int,
        ).push(k));
        lemma_webhook_batch_jobs_snoc(dv, keys.subrange(1, keys.len() as int), k);
        assert(webhook_batch_jobs(dv, keys.push(k)) =~= webhook_batch_jobs(dv, keys)
            + webhook_jobs(dv, k@));
    }
}

/// The number of remote fetches a by-organization batch issues: the sum,
/// over the requested keys, of how many webhooks each organization has.
pub open spec fn org_batch_fetch_count(dv: DirectoryV, keys: Seq<String>) -> nat
    decreases keys.len(),
{
    if keys.len() == 0 {
        0
    } else {
        dv.org_webhooks(keys[0]@).len() + org_batch_fetch_count(
            dv,
            keys.subrange(1, keys.len() as int),
        )
    }
}

/// Law: one by-organization batch window issues exactly one remote fetch
/// per webhook of each requested organization — for keys {A, B}, exactly
/// |webhooks(A)| + |webhooks(B)| fetches — while the directory is queried
/// once per window, however many field resolutions requested the keys.
pub proof fn lemma_org_batch_fetch_count(dv: DirectoryV, keys: Seq<String>)
    ensures
        org_batch_jobs(dv, keys).len() == org_batch_fetch_count(dv, keys),
    decreases keys.len(),
{
    if keys.len() > 0 {
        lemma_org_batch_fetch_count(dv, keys.subrange(1, keys.len() as int));
    }
}

/// Fuses each fetched endpoint with its local row. A failed fetch (an
/// absent endpoint result) fails the whole batch: every caller awaiting a
/// key of this window sees one upstream failure and no partial results.
pub fn merge_endpoints(jobs: &Vec<FetchJob>, endpoints: &Vec<Option<Endpoint>>) -> (r: Result<
    Vec<Webhook>,
    Error,
>)
    requires
        jobs@.len() == endpoints@.len(),
    ensures
        r is Err <==> (exists|i: int| 0 <= i < endpoints@.len() && endpoints@[i] is None),
        r matches Err(e) ==> e == Error::UpstreamFailure,
        r matches Ok(ws) ==> {
            &&& ws@.len() == jobs@.len()
            &&& forall|i: int|
                0 <= i < ws@.len() ==> {
                    &&& (#[trigger] ws@[i])@.model == jobs@[i]@.webhook
                    &&& endpoints@[i] matches Some(e) && ws@[i]@.endpoint == e@
                }
        },
{
    let mut out: Vec<Webhook> = Vec::new();
    let mut i: usize = 0;
    while i < jobs.len()
        invariant
            jobs@.len() == endpoints@.len(),
            i <= jobs@.len(),
            out@.len() == i,
            forall|j: int| #![trigger endpoints@[j]] 0 <= j < i ==> endpoints@[j] is Some,
            forall|j: int|
                0 <= j < i ==> {
                    &&& (#[trigger] out@[j])@.model == jobs@[j]@.webhook
                    &&& endpoints@[j] matches Some(e) && out@[j]@.endpoint == e@
                },
        decreases jobs@.len() - i,
    {
        match &endpoints[i] {
            Some(e) => {
                out.push(Webhook::new(e.clone(), jobs[i].webhook.clone()));
            },
            None => {
                return Err(Error::UpstreamFailure);
            },
        }
        i += 1;
    }
    Ok(out)
}

/// Selects resolved webhooks of one organization.
pub open spec fn resolved_of_org(org: Seq<char>) -> spec_fn(WebhookV) -> bool {
    |w: WebhookV| w.model.organization_id == org
}

/// Some group of the result mapping is keyed by this organization.
pub open spec fn has_group(r: Seq<(String, Vec<Webhook>)>, org: Seq<char>) -> bool {
    exists|a: int| 0 <= a < r.len() && (#[trigger] r[a]).0@ == org
}

/// Groups a batch's resolved webhooks by organization, keyed by the
/// organization id, each group in fetch order: the by-organization read
/// path's result mapping. Each organization keys at most one group, and
/// every resolved webhook's organization keys one.
pub fn group_by_organization(ws: &Vec<Webhook>) -> (r: Vec<(String, Vec<Webhook>)>)
    ensures
        forall|a: int, b: int|
            #![trigger r@[a], r@[b]]
            0 <= a < b < r@.len() ==> r@[a].0@ != r@[b].0@,
        forall|a: int|
            0 <= a < r@.len() ==> webhooks_view((#[trigger] r@[a]).1@) == webhooks_view(
                ws@,
            ).filter(resolved_of_org(r@[a].0@)),
        forall|i: int|
            0 <= i < ws@.len() ==> has_group(r@, (#[trigger] ws@[i])@.model.organization_id),
{
    let ghost all = webhooks_view(ws@);
    let mut out: Vec<(String, Vec<Webhook>)> = Vec::new();
    let mut i: usize = 0;
    while i < ws.len()
        invariant
            i <= ws@.len(),
            all == webhooks_view(ws@),
            forall|a: int, b: int|
                #![trigger out@[a], out@[b]]
                0 <= a < b < out@.len() ==> out@[a].0@ != out@[b].0@,
            forall|a: int|
                0 <= a < out@.len() ==> webhooks_view((#[trigger] out@[a]).1@) =~= all.subrange(
                    0,
                    i as int,
                ).filter(resolved_of_org(out@[a].0@)),
            forall|x: int| #![trigger all[x]]
                0 <= x < i ==> exists|a: int|
                    0 <= a < out@.len() && (#[trigger] out@[a]).0@ == all[x].model.organization_id,
        decreases ws@.len() - i,
    {
        let ghost pre = all.subrange(0, i as int);
        let ghost wv = all[i as int];
        proof {
            assert(all[i as int] == ws@[i as int]@);
            assert(all.subrange(0, i + 1) =~= pre.push(wv));
        }
        let w = ws[i].clone();
        let org = w.model.organization_id.clone();
        let mut gi: usize = 0;
        let mut found = false;
        while gi < out.len() && !found
            invariant
                gi <= out@.len(),
                org@ == wv.model.organization_id,
                !found ==> forall|a: int| 0 <= a < gi ==> (#[trigger] out@[a]).0@ != org@,
                found ==> gi < out@.len() && out@[gi as int].0@ == org@,
            decreases out@.len() - gi + (if found {
                0int
            } else {
                1int
            }),
        {
            if out[gi].0 == org {
                found = true;
            } else {
                gi += 1;
            }
        }
        if found {
            let ghost old_out = out@;
            let mut pair = out.remove(gi);
            pair.1.push(w);
            out.insert(gi, pair);
            proof {
                let gidx = gi as int;
                assert(out@.len() == old_out.len());
                assert forall|a: int| 0 <= a < out@.len() && a != gidx implies (#[trigger] out@[a])
                    == old_out[a] by {}
                assert(out@[gidx].0 == old_out[gidx].0);
                assert(webhooks_view(out@[gidx].1@) =~= webhooks_view(old_out[gidx].1@).push(wv));
                assert forall|a: int|
                    0 <= a < out@.len() implies webhooks_view((#[trigger] out@[a]).1@)
                    =~= pre.push(wv).filter(resolved_of_org(out@[a].0@)) by {
                    if a == gidx {
                        assert(resolved_of_org(out@[a].0@)(wv));
                    } else {
                        assert(out@[a] == old_out[a]);
                        assert(out@[a].0@ != org@);
                        assert(!resolved_of_org(out@[a].0@)(wv));
                    }
                }
                assert forall|x: int| #![trigger all[x]]
                    0 <= x < i + 1 implies exists|a: int|
                    0 <= a < out@.len() && (#[trigger] out@[a]).0@
                        == all[x].model.organization_id by {
                    if x < i {
                        let a0 = choose|a0: int|
                            0 <= a0 < old_out.len() && (#[trigger] old_out[a0]).0@
                                == all[x].model.organization_id;
                        assert((out@[a0]).0@ == all[x].model.organization_id);
                    } else {
                        assert((out@[gidx]).0@ == all[x].model.organization_id);
                    }
                }
            }
        } else {
            let ghost old_out = out@;
            let mut group: Vec<Webhook> = Vec::new();
            group.push(w);
            out.push((org, group));
            proof {
                let gidx = old_out.len() as int;
                assert(out@[gidx].0@ == org@);
                assert(webhooks_view(out@[gidx].1@) =~= Seq::<WebhookV>::empty().push(wv));
                // no earlier element of the batch has this organization
                assert forall|p: WebhookV| !(#[trigger] pre.filter(resolved_of_org(org@)).contains(
                    p,
                )) by {
                    if pre.filter(resolved_of_org(org@)).contains(p) {
                        crate::directory::lemma_filter_subset(pre, resolved_of_org(org@));
                        assert(pre.contains(p));
                        let x = choose|x: int| 0 <= x < pre.len() && pre[x] == p;
                        assert(all[x] == p);
                        assert(resolved_of_org(org@)(p));
                        let a0 = choose|a0: int|
                            0 <= a0 < old_out.len() && (#[trigger] old_out[a0]).0@
                                == all[x].model.organization_id;
                        assert(old_out[a0].0@ == org@);
                        assert(false);
                    }
                }
                assert(pre.filter(resolved_of_org(org@)).len() == 0) by {
                    if pre.filter(resolved_of_org(org@)).len() > 0 {
                        assert(pre.filter(resolved_of_org(org@)).contains(
                            pre.filter(resolved_of_org(org@))[0],
                        ));
                    }
                }
                assert(pre.filter(resolved_of_org(org@)) =~= Seq::<WebhookV>::empty());
                assert forall|a: int|
                    0 <= a < out@.len() implies webhooks_view((#[trigger] out@[a]).1@)
                    =~= pre.push(wv).filter(resolved_of_org(out@[a].0@)) by {
                    if a == gidx {
                        assert(resolved_of_org(org@)(wv));
                        assert(pre.push(wv).filter(resolved_of_org(org@)) =~= Seq::<
                            WebhookV,
                        >::empty().push(wv));
                    } else {
                        assert(out@[a] == old_out[a]);
                        assert(out@[a].0@ != org@);
                        assert(!resolved_of_org(out@[a].0@)(wv));
                    }
                }
                assert forall|x: int| #![trigger all[x]]
                    0 <= x < i + 1 implies exists|a: int|
                    0 <= a < out@.len() && (#[trigger] out@[a]).0@
                        == all[x].model.organization_id by {
                    if x < i {
                        let a0 = choose|a0: int|
                            0 <= a0 < old_out.len() && (#[trigger] old_out[a0]).0@
                                == all[x].model.organization_id;
                        assert((out@[a0]).0@ == all[x].model.organization_id);
                    } else {
                        assert((out@[gidx]).0@ == all[x].model.organization_id);
                    }
                }
                assert forall|a: int, b: int|
                    #![trigger out@[a], out@[b]]
                    0 <= a < b < out@.len() implies out@[a].0@ != out@[b].0@ by {
                    if b < old_out.len() {
                        assert(out@[a] == old_out[a]);
                        assert(out@[b] == old_out[b]);
                    } else {
                        assert(out@[a] == old_out[a]);
                    }
                }
            }
        }
        i += 1;
    }
    proof {
        assert(all.subrange(0, ws@.len() as int) =~= all);
        assert forall|x: int|
            0 <= x < ws@.len() implies has_group(out@, (#[trigger] ws@[x])@
            .model.organization_id) by {
            assert(all[x] == ws@[x]@);
            let a0 = choose|a0: int|
                0 <= a0 < out@.len() && (#[trigger] out@[a0]).0@ == all[x].model.organization_id;
            assert((out@[a0]).0@ == ws@[x]@.model.organization_id);
        }
    }
    out
}

/// Pairs each resolved webhook with its id: the by-webhook read path's
/// result mapping. In a well-formed batch the ids are the requested keys.
pub fn key_by_webhook(ws: &Vec<Webhook>) -> (r: Vec<(String, Webhook)>)
    ensures
        r@.len() == ws@.len(),
        forall|i: int|
            0 <= i < r@.len() ==> ((#[trigger] r@[i]).0@ == ws@[i]@.model.id && r@[i].1@
                == ws@[i]@),
{
    let mut out: Vec<(String, Webhook)> = Vec::new();
    let mut i: usize = 0;
    while i < ws.len()
        invariant
            i <= ws@.len(),
            out@.len() == i,
            forall|j: int|
                0 <= j < i ==> ((#[trigger] out@[j]).0@ == ws@[j]@.model.id && out@[j].1@
                    == ws@[j]@),
        decreases ws@.len() - i,
    {
        let w = ws[i].clone();
        let id = w.model.id.clone();
        out.push((id, w));
        i += 1;
    }
    out
}

/// Appending one key to a by-organization batch appends that key's fetches.
proof fn lemma_org_batch_jobs_snoc(dv: DirectoryV, keys: Seq<String>, k: String)
    ensures
        org_batch_jobs(dv, keys.push(k)) == org_batch_jobs(dv, keys) + org_jobs(dv, k@),
    decreases keys.len(),
{
    if keys.len() == 0 {
        assert(keys.push(k)[0] == k);
        assert(keys.push(k).subrange(1, 1) =~= Seq::<String>::empty());
        assert(org_batch_jobs(dv, Seq::<String>::empty()) =~= Seq::<FetchJobV>::empty());
        assert(org_batch_jobs(dv, keys.push(k)) =~= org_batch_jobs(dv, keys) + org_jobs(dv, k@));
    } else {
        assert(keys.push(k)[0] == keys[0]);
        assert(keys.push(k).subrange(1, keys.len() as int + 1) =~= keys.subrange(
            1,
            keys.len() as int,
        ).push(k));
        lemma_org_batch_jobs_snoc(dv, keys.subrange(1, keys.len() as int), k);
        assert(org_batch_jobs(dv, keys.push(k)) =~= org_batch_jobs(dv, keys) + org_jobs(dv, k@));
    }
}

} // verus!
