//! The client: the credentials and the pool of one application, the requests
//! that a call carries, and where each attempt of a call is posted.

use crate::dispatch::{Dispatch, DispatchView};
use crate::error::{refusal, Error, ErrorView};
use crate::hosts::{default_hosts, get_default_hosts};
use crate::models::{Model, RecommendRequest, RecommendRequestView, TrendingFacetsRequest};
use std::sync::atomic::{AtomicUsize, Ordering};
use std::sync::Arc;
use vstd::prelude::*;
use vstd::string::*;

verus! {

/// The path that every recommendations call is posted to.
pub const RECOMMEND_PATH: &'static str = "/1/indexes/*/recommendations";

/// A client for the recommendations of one application.
///
/// Clones of a client share its rotation cursor, so the calls of all of them
/// are spread over the pool together.
#[derive(Clone, Debug)]
pub struct RecommendClient {
    app_id: String,
    api_key: String,
    base_url: String,
    hosts: Vec<String>,
    host_cursor: Arc<AtomicUsize>,
    default_object_id: Option<String>,
}

/// The mathematical value of a [`RecommendClient`]. The cursor is no part of
/// it: which ticket a call draws depends on the calls made before it, on any
/// thread.
pub struct RecommendClientView {
    pub app_id: Seq<char>,
    pub api_key: Seq<char>,
    /// Where a call is posted while the pool is empty.
    pub base_url: Seq<char>,
    /// The pool: the base URLs of the hosts, in rotation order.
    pub hosts: Seq<Seq<char>>,
    /// The object that recommendations are asked for.
    pub default_object_id: Option<Seq<char>>,
}

impl RecommendClientView {
    /// The client for `app_id` and `api_key` with the pool `hosts` and no
    /// default object. Its base URL is the first host, and `https://` where
    /// there is none.
    pub open spec fn over(
        app_id: Seq<char>,
        api_key: Seq<char>,
        hosts: Seq<Seq<char>>,
    ) -> RecommendClientView {
        RecommendClientView {
            app_id,
            api_key,
            base_url: if hosts.len() > 0 {
                hosts[0]
            } else {
                "https://"@
            },
            hosts,
            default_object_id: None,
        }
    }

    /// The same client with the default object `object_id`.
    pub open spec fn with_object(self, object_id: Seq<char>) -> RecommendClientView {
        RecommendClientView { default_object_id: Some(object_id), ..self }
    }

    /// The base URL of the host at `index`: the host of the pool, and the
    /// client's base URL where the pool has no such host.
    pub open spec fn host_at(self, index: nat) -> Seq<char> {
        if index < self.hosts.len() {
            self.hosts[index as int]
        } else {
            self.base_url
        }
    }

    /// The headers of every request, as names and values.
    pub open spec fn headers(self) -> Seq<(Seq<char>, Seq<char>)> {
        seq![
            ("accept"@, "application/json"@),
            ("content-type"@, "application/json"@),
            ("x-algolia-application-id"@, self.app_id),
            ("x-algolia-api-key"@, self.api_key),
        ]
    }

    /// What a recommendations batch holds for `model`: a request that sets
    /// nothing but the object, which is the client's default object for the
    /// models that need one. The trending-facets model is refused here, and
    /// so is a model that needs an object while the client has none.
    pub open spec fn request_for(self, index_name: Seq<char>, model: Model) -> Result<
        RecommendRequestView,
        ErrorView,
    > {
        if model is TrendingFacets {
            Err(refusal("trending-facets must be requested via get_trending_facets"@))
        } else if !model.needs_object_id() {
            Ok(RecommendRequestView::plain(index_name, model, None))
        } else if self.default_object_id is Some {
            Ok(RecommendRequestView::plain(index_name, model, self.default_object_id))
        } else {
            Err(
                refusal(
                    "default objectID not set; call with_default_object_id or set_default_object_id"@,
                ),
            )
        }
    }

    /// `requests` is the batch for `models`: one request for each model, in
    /// the same order.
    pub open spec fn is_batch_for(
        self,
        requests: Seq<RecommendRequestView>,
        index_name: Seq<char>,
        models: Seq<Model>,
    ) -> bool {
        &&& requests.len() == models.len()
        &&& forall|i: int|
            0 <= i < models.len() ==> self.request_for(index_name, #[trigger] models[i]) == Ok::<
                RecommendRequestView,
                ErrorView,
            >(requests[i])
    }

    /// `error` is what the first model of `models` that is refused is
    /// refused with.
    pub open spec fn is_first_refusal(
        self,
        error: ErrorView,
        index_name: Seq<char>,
        models: Seq<Model>,
    ) -> bool {
        exists|i: int|
            {
                &&& 0 <= i < models.len()
                &&& self.request_for(index_name, #[trigger] models[i]) == Err::<
                    RecommendRequestView,
                    ErrorView,
                >(error)
                &&& forall|j: int|
                    0 <= j < i ==> self.request_for(index_name, #[trigger] models[j]) is Ok
            }
    }
}

impl View for RecommendClient {
    type V = RecommendClientView;

    closed spec fn view(&self) -> RecommendClientView {
        RecommendClientView {
            app_id: self.app_id@,
            api_key: self.api_key@,
            base_url: self.base_url@,
            hosts: self.hosts.deep_view(),
            default_object_id: self.default_object_id.deep_view(),
        }
    }
}

/// Draws the next ticket from a cursor. The tickets of one cursor count up
/// by one and wrap around; which one a call gets depends on the calls that
/// drew before it.
fn draw_ticket(cursor: &AtomicUsize) -> usize {
    cursor.fetch_add(1, Ordering::Relaxed)
}

impl RecommendClient {
    /// A client for the default hosts of the application `app_id`.
    pub fn new(app_id: &str, api_key: &str) -> (client: RecommendClient)
        ensures
            client@ == RecommendClientView::over(app_id@, api_key@, default_hosts(app_id@)),
    {
        let hosts = get_default_hosts(app_id);
        RecommendClient::with_hosts(app_id, api_key, hosts)
    }

    /// A client for the single host `host`, reached over `https`.
    pub fn with_custom_host(app_id: &str, api_key: &str, host: &str) -> (client: RecommendClient)
        ensures
            client@ == RecommendClientView::over(app_id@, api_key@, seq!["https://"@ + host@]),
    {
        let mut base_url = String::from_str("https://");
        base_url.append(host);
        let mut hosts: Vec<String> = Vec::new();
        hosts.push(base_url);
        assert(hosts.deep_view() =~= seq!["https://"@ + host@]);
        RecommendClient::with_hosts(app_id, api_key, hosts)
    }

    /// A client for the single host at `base_url`, scheme included.
    pub fn with_base_url(app_id: &str, api_key: &str, base_url: &str) -> (client: RecommendClient)
        ensures
            client@ == RecommendClientView::over(app_id@, api_key@, seq![base_url@]),
    {
        let mut hosts: Vec<String> = Vec::new();
        hosts.push(String::from_str(base_url));
        assert(hosts.deep_view() =~= seq![base_url@]);
        RecommendClient::with_hosts(app_id, api_key, hosts)
    }

    /// A client for the pool `hosts`, each a base URL with its scheme, tried
    /// in this order.
    pub fn with_hosts(app_id: &str, api_key: &str, hosts: Vec<String>) -> (client: RecommendClient)
        ensures
            client@ == RecommendClientView::over(app_id@, api_key@, hosts.deep_view()),
    {
        let base_url = if hosts.len() > 0 {
            hosts[0].clone()
        } else {
            String::from_str("https://")
        };
        RecommendClient {
            app_id: String::from_str(app_id),
            api_key: String::from_str(api_key),
            base_url,
            hosts,
            host_cursor: Arc::new(AtomicUsize::new(0)),
            default_object_id: None,
        }
    }

    /// The same client with the default object `object_id`.
    pub fn with_default_object_id(self, object_id: &str) -> (client: RecommendClient)
        ensures
            client@ == self@.with_object(object_id@),
    {
        let mut client = self;
        client.default_object_id = Some(String::from_str(object_id));
        client
    }

    /// Sets the default object to `object_id`.
    pub fn set_default_object_id(&mut self, object_id: &str)
        ensures
            final(self)@ == old(self)@.with_object(object_id@),
    {
        self.default_object_id = Some(String::from_str(object_id));
    }

    /// The pool: the base URLs of the hosts, in rotation order.
    pub fn hosts(&self) -> (hosts: &Vec<String>)
        ensures
            hosts.deep_view() == self@.hosts,
    {
        &self.hosts
    }

    /// Where a call is posted while the pool is empty.
    pub fn base_url(&self) -> (base_url: &str)
        ensures
            base_url@ == self@.base_url,
    {
        self.base_url.as_str()
    }

    /// The headers of every request, as names and values: JSON is sent and
    /// accepted, and the application and its key are named.
    pub fn headers(&self) -> (headers: Vec<(String, String)>)
        ensures
            headers.deep_view() == self@.headers(),
    {
        let mut headers: Vec<(String, String)> = Vec::new();
        headers.push((String::from_str("accept"), String::from_str("application/json")));
        headers.push((String::from_str("content-type"), String::from_str("application/json")));
        headers.push((String::from_str("x-algolia-application-id"), self.app_id.clone()));
        headers.push((String::from_str("x-algolia-api-key"), self.api_key.clone()));
        assert(headers.deep_view() =~= self@.headers());
        headers
    }

    /// Starts a call: draws a ticket from the cursor and starts at the host
    /// that the ticket gives.
    pub fn dispatch(&self) -> (call: Dispatch)
        ensures
            call@.wf(),
            exists|ticket: usize|
                call@ == #[trigger] DispatchView::fresh(ticket as nat, self@.hosts.len()),
    {
        let ticket = draw_ticket(&self.host_cursor);
        let call = Dispatch::begin(ticket, self.hosts.len());
        assert(call@ == DispatchView::fresh(ticket as nat, self@.hosts.len()));
        call
    }

    /// The URL that the next attempt of `call` is posted to: the base URL of
    /// its host, followed by the recommendations path.
    pub fn attempt_url(&self, call: &Dispatch) -> (url: String)
        ensures
            url@ == self@.host_at(call@.host_index()) + RECOMMEND_PATH@,
    {
        let index = call.host_index();
        let mut url = if index < self.hosts.len() {
            self.hosts[index].clone()
        } else {
            self.base_url.clone()
        };
        url.append(RECOMMEND_PATH);
        url
    }

    /// The batch of a recommendations call for `models` on `index_name`: one
    /// request for each model, in the same order. The call is refused with
    /// status 400, and nothing is to be sent, where a model is
    /// trending-facets or needs an object while the client has no default
    /// object; the error is that of the first such model.
    pub fn get_recommendations(&self, index_name: &str, models: Vec<Model>) -> (batch: Result<
        Vec<RecommendRequest>,
        Error,
    >)
        ensures
            match batch {
                Ok(requests) => self@.is_batch_for(requests.deep_view(), index_name@, models@),
                Err(error) => self@.is_first_refusal(error@, index_name@, models@),
            },
    {
        let mut requests: Vec<RecommendRequest> = Vec::with_capacity(models.len());
        let mut i: usize = 0;
        while i < models.len()
            invariant
                i <= models.len(),
                requests.len() == i,
                forall|k: int|
                    0 <= k < i ==> self@.request_for(index_name@, #[trigger] models[k]) == Ok::<
                        RecommendRequestView,
                        ErrorView,
                    >(requests[k]@),
            decreases models.len() - i,
        {
            let model = models[i];
            match model {
                Model::TrendingFacets => {
                    return Err(
                        Error::bad_request(
                            "trending-facets must be requested via get_trending_facets",
                        ),
                    );
                },
                Model::TrendingItems => {
                    requests.push(RecommendRequest::plain(index_name, model, None));
                },
                Model::BoughtTogether | Model::RelatedProducts | Model::LookingSimilar => {
                    match &self.default_object_id {
                        Some(object_id) => {
                            requests.push(
                                RecommendRequest::plain(
                                    index_name,
                                    model,
                                    Some(object_id.clone()),
                                ),
                            );
                        },
                        None => {
                            return Err(
                                Error::bad_request(
                                    "default objectID not set; call with_default_object_id or set_default_object_id",
                                ),
                            );
                        },
                    }
                },
            }
            i = i + 1;
        }
        Ok(requests)
    }

    /// The batch of a trending-facets call: `requests` as they are. The call
    /// is refused with status 400, and nothing is to be sent, where a
    /// request names another model than trending-facets.
    pub fn get_trending_facets(&self, requests: Vec<TrendingFacetsRequest>) -> (batch: Result<
        Vec<TrendingFacetsRequest>,
        Error,
    >)
        ensures
            match batch {
                Ok(accepted) => {
                    &&& accepted == requests
                    &&& forall|i: int|
                        0 <= i < requests.len() ==> (#[trigger] requests[i]).model is TrendingFacets
                },
                Err(error) => {
                    &&& error@ == refusal("all requests must use model=trending-facets"@)
                    &&& exists|i: int|
                        0 <= i < requests.len() && !((#[trigger] requests[i]).model is TrendingFacets)
                },
            },
    {
        let mut i: usize = 0;
        while i < requests.len()
            invariant
                i <= requests.len(),
                forall|k: int| 0 <= k < i ==> (#[trigger] requests[k]).model is TrendingFacets,
            decreases requests.len() - i,
        {
            match requests[i].model {
                Model::TrendingFacets => {},
                _ => {
                    return Err(Error::bad_request("all requests must use model=trending-facets"));
                },
            }
            i = i + 1;
        }
        Ok(requests)
    }
}

} // verus!
