//! The remote endpoint model and the resolved webhook object: one local
//! directory row fused with the remote endpoint data (URL, filters,
//! channels) that only the delivery gateway holds.

use vstd::prelude::*;

use crate::directory::{WebhookRecord, WebhookRecordV};
use crate::error::Error;
use crate::taxonomy::{parse_filter_type, FilterType};

verus! {

/// A remote endpoint as the gateway returns it.
#[derive(Debug)]
pub struct Endpoint {
    pub id: String,
    pub url: String,
    pub description: Option<String>,
    pub version: i32,
    pub disabled: Option<bool>,
    pub channels: Option<Vec<String>>,
    pub filter_types: Option<Vec<String>>,
    pub rate_limit: Option<u16>,
    pub uid: Option<String>,
}

/// Mathematical view of a remote endpoint.
pub struct EndpointV {
    pub id: Seq<char>,
    pub url: Seq<char>,
    pub description: Option<Seq<char>>,
    pub version: int,
    pub disabled: Option<bool>,
    pub channels: Option<Seq<Seq<char>>>,
    pub filter_types: Option<Seq<Seq<char>>>,
    pub rate_limit: Option<u16>,
    pub uid: Option<Seq<char>>,
}

/// The view of a list of strings.
pub open spec fn strings_view(v: Seq<String>) -> Seq<Seq<char>> {
    v.map_values(|s: String| s@)
}

/// The view of an optional string.
pub open spec fn opt_string_view(v: Option<String>) -> Option<Seq<char>> {
    match v {
        Some(s) => Some(s@),
        None => None,
    }
}

/// The view of an optional list of strings.
pub open spec fn opt_strings_view(v: Option<Vec<String>>) -> Option<Seq<Seq<char>>> {
    match v {
        Some(s) => Some(strings_view(s@)),
        None => None,
    }
}

impl View for Endpoint {
    type V = EndpointV;

    open spec fn view(&self) -> EndpointV {
        EndpointV {
            id: self.id@,
            url: self.url@,
            description: opt_string_view(self.description),
            version: self.version as int,
            disabled: self.disabled,
            channels: opt_strings_view(self.channels),
            filter_types: opt_strings_view(self.filter_types),
            rate_limit: self.rate_limit,
            uid: opt_string_view(self.uid),
        }
    }
}

/// Copies a list of strings.
pub fn clone_string_vec(v: &Vec<String>) -> (r: Vec<String>)
    ensures
        strings_view(r@) == strings_view(v@),
{
    let mut out: Vec<String> = Vec::new();
    let mut i: usize = 0;
    while i < v.len()
        invariant
            i <= v.len(),
            out@.len() == i,
            strings_view(out@) =~= strings_view(v@).subrange(0, i as int),
        decreases v.len() - i,
    {
        out.push(v[i].clone());
        proof {
            assert(strings_view(out@) =~= strings_view(v@).subrange(0, i + 1));
        }
        i += 1;
    }
    proof {
        assert(strings_view(v@).subrange(0, v@.len() as int) =~= strings_view(v@));
    }
    out
}

/// Copies an optional string.
pub fn clone_opt_string(v: &Option<String>) -> (r: Option<String>)
    ensures
        opt_string_view(r) == opt_string_view(*v),
{
    match v {
        Some(s) => Some(s.clone()),
        None => None,
    }
}

impl Clone for Endpoint {
    fn clone(&self) -> (r: Self)
        ensures
            r@ == self@,
    {
        Endpoint {
            id: self.id.clone(),
            url: self.url.clone(),
            description: clone_opt_string(&self.description),
            version: self.version,
            disabled: self.disabled,
            channels: match &self.channels {
                Some(c) => Some(clone_string_vec(c)),
                None => None,
            },
            filter_types: match &self.filter_types {
                Some(f) => Some(clone_string_vec(f)),
                None => None,
            },
            rate_limit: self.rate_limit,
            uid: clone_opt_string(&self.uid),
        }
    }
}

/// A webhook as served to read queries: the remote endpoint registered for
/// it beside the local directory row.
#[derive(Debug)]
pub struct Webhook {
    /// The endpoint that the webhook is registered to.
    pub endpoint: Endpoint,
    /// The directory row for the webhook.
    pub model: WebhookRecord,
}

/// Mathematical view of a resolved webhook.
pub struct WebhookV {
    pub endpoint: EndpointV,
    pub model: WebhookRecordV,
}

impl View for Webhook {
    type V = WebhookV;

    open spec fn view(&self) -> WebhookV {
        WebhookV { endpoint: self.endpoint@, model: self.model@ }
    }
}

impl Clone for Webhook {
    fn clone(&self) -> (r: Self)
        ensures
            r@ == self@,
    {
        Webhook { endpoint: self.endpoint.clone(), model: self.model.clone() }
    }
}

/// What parsing every filter-type identifier of an endpoint yields: the
/// parsed kinds in order, or failure on the first identifier outside the
/// catalog.
pub open spec fn parse_filter_types(fts: Seq<Seq<char>>) -> Result<Seq<FilterType>, Error> {
    if forall|i: int| 0 <= i < fts.len() ==> parse_filter_type(#[trigger] fts[i]) is Some {
        Ok(Seq::new(fts.len(), |i: int| parse_filter_type(fts[i])->Some_0))
    } else {
        Err(Error::MalformedEvent)
    }
}

impl Webhook {
    /// Fuses a remote endpoint with its directory row.
    pub fn new(endpoint: Endpoint, model: WebhookRecord) -> (r: Self)
        ensures
            r.endpoint == endpoint,
            r.model == model,
    {
        Webhook { endpoint, model }
    }

    /// The webhook's id.
    pub fn id(&self) -> (r: &String)
        ensures
            r@ == self.model.id@,
    {
        &self.model.id
    }

    /// The id of the webhook's remote endpoint.
    pub fn endpoint_id(&self) -> (r: &String)
        ensures
            r@ == self.endpoint.id@,
    {
        &self.endpoint.id
    }

    /// The URL the endpoint delivers to.
    pub fn url(&self) -> (r: &String)
        ensures
            r@ == self.endpoint.url@,
    {
        &self.endpoint.url
    }

    /// The event kinds the endpoint subscribes to, parsed from the
    /// endpoint's filter identifiers; an identifier outside the catalog is
    /// an error.
    pub fn events(&self) -> (r: Result<Vec<FilterType>, Error>)
        ensures
            match self@.endpoint.filter_types {
                None => r matches Ok(v) && v@ =~= Seq::<FilterType>::empty(),
                Some(fts) => match r {
                    Ok(v) => parse_filter_types(fts) == Ok::<Seq<FilterType>, Error>(v@),
                    Err(e) => parse_filter_types(fts) == Err::<Seq<FilterType>, Error>(e),
                },
            },
    {
        let fts = match &self.endpoint.filter_types {
            None => {
                return Ok(Vec::new());
            },
            Some(fts) => fts,
        };
        let ghost ftv = strings_view(fts@);
        let mut out: Vec<FilterType> = Vec::new();
        let mut i: usize = 0;
        while i < fts.len()
            invariant
                i <= fts.len(),
                ftv == strings_view(fts@),
                self@.endpoint.filter_types == Some(ftv),
                out@.len() == i,
                forall|j: int|
                    0 <= j < i ==> parse_filter_type(#[trigger] ftv[j]) == Some(out@[j]),
            decreases fts.len() - i,
        {
            proof {
                assert(ftv[i as int] == fts@[i as int]@);
            }
            match FilterType::parse(fts[i].as_str()) {
                Some(f) => out.push(f),
                None => {
                    proof {
                        assert(parse_filter_type(ftv[i as int]) is None);
                        if forall|j: int|
                            0 <= j < ftv.len() ==> parse_filter_type(#[trigger] ftv[j]) is Some {
                            assert(parse_filter_type(ftv[i as int]) is Some);
                        }
                    }
                    return Err(Error::MalformedEvent);
                },
            }
            i += 1;
        }
        proof {
            assert(forall|j: int|
                0 <= j < ftv.len() ==> parse_filter_type(#[trigger] ftv[j]) is Some);
            assert(out@ =~= Seq::new(ftv.len(), |j: int| parse_filter_type(ftv[j])->Some_0));
        }
        Ok(out)
    }

    /// The endpoint's description, empty when the gateway holds none.
    pub fn description(&self) -> (r: String)
        ensures
            r@ == match self@.endpoint.description {
                Some(d) => d,
                None => Seq::<char>::empty(),
            },
    {
        match &self.endpoint.description {
            Some(d) => d.clone(),
            None => String::new(),
        }
    }

    /// When the webhook was created.
    pub fn created_at(&self) -> (r: i64)
        ensures
            r as int == self.model@.created_at,
    {
        self.model.created_at
    }

    /// The organization the webhook belongs to.
    pub fn organization_id(&self) -> (r: &String)
        ensures
            r@ == self.model.organization_id@,
    {
        &self.model.organization_id
    }

    /// When the webhook was last edited, if ever.
    pub fn updated_at(&self) -> (r: Option<i64>)
        ensures
            self.model@.updated_at == match r {
                Some(t) => Some(t as int),
                None => None::<int>,
            },
    {
        self.model.updated_at
    }

    /// The user that created the webhook.
    pub fn created_by_id(&self) -> (r: &String)
        ensures
            r@ == self.model.created_by@,
    {
        &self.model.created_by
    }

    /// The project channels the endpoint is scoped to, empty when the
    /// gateway holds none.
    pub fn channels(&self) -> (r: Vec<String>)
        ensures
            strings_view(r@) == match self@.endpoint.channels {
                Some(c) => c,
                None => Seq::<Seq<char>>::empty(),
            },
    {
        match &self.endpoint.channels {
            Some(c) => clone_string_vec(c),
            None => {
                let r: Vec<String> = Vec::new();
                proof {
                    assert(strings_view(r@) =~= Seq::<Seq<char>>::empty());
                }
                r
            },
        }
    }
}

} // verus!
