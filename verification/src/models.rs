//! The values that travel in a call: the recommendation models, the requests
//! of a batch, and the results of the trending-facets model.

use vstd::prelude::*;
use vstd::string::*;

verus! {

/// The recommendation models of the API.
#[derive(Debug, Clone, Copy, PartialEq, Eq, Structural)]
pub enum Model {
    BoughtTogether,
    RelatedProducts,
    TrendingItems,
    TrendingFacets,
    LookingSimilar,
}

impl Model {
    /// The model recommends for one object, so a request for it names that
    /// object.
    pub open spec fn needs_object_id(self) -> bool {
        self is BoughtTogether || self is RelatedProducts || self is LookingSimilar
    }
}

/// One request of a recommendations batch.
#[derive(Debug, Clone)]
pub struct RecommendRequest {
    pub index_name: String,
    pub model: Model,
    /// The object to recommend for, with the models that need one.
    pub object_id: Option<String>,
    pub threshold: i32,
    pub max_recommendations: Option<u32>,
    pub facet_name: Option<String>,
    /// Search parameters that are passed on as they are.
    pub query_parameters: Option<serde_json::Value>,
}

/// The mathematical value of a [`RecommendRequest`].
pub struct RecommendRequestView {
    pub index_name: Seq<char>,
    pub model: Model,
    pub object_id: Option<Seq<char>>,
    pub threshold: i32,
    pub max_recommendations: Option<u32>,
    pub facet_name: Option<Seq<char>>,
    pub query_parameters: Option<serde_json::Value>,
}

impl View for RecommendRequest {
    type V = RecommendRequestView;

    open spec fn view(&self) -> RecommendRequestView {
        RecommendRequestView {
            index_name: self.index_name@,
            model: self.model,
            object_id: self.object_id.deep_view(),
            threshold: self.threshold,
            max_recommendations: self.max_recommendations,
            facet_name: self.facet_name.deep_view(),
            query_parameters: self.query_parameters,
        }
    }
}

impl DeepView for RecommendRequest {
    type V = RecommendRequestView;

    open spec fn deep_view(&self) -> RecommendRequestView {
        self@
    }
}

impl RecommendRequestView {
    /// The request for `model` on `index_name` that sets nothing but the
    /// object: threshold 0, no limit, no facet and no search parameters.
    pub open spec fn plain(
        index_name: Seq<char>,
        model: Model,
        object_id: Option<Seq<char>>,
    ) -> RecommendRequestView {
        RecommendRequestView {
            index_name,
            model,
            object_id,
            threshold: 0,
            max_recommendations: None,
            facet_name: None,
            query_parameters: None,
        }
    }
}

impl RecommendRequest {
    /// The request for `model` on `index_name` that sets nothing but the
    /// object.
    pub(crate) fn plain(index_name: &str, model: Model, object_id: Option<String>) -> (request:
        RecommendRequest)
        ensures
            request@ == RecommendRequestView::plain(index_name@, model, object_id.deep_view()),
    {
        RecommendRequest {
            index_name: String::from_str(index_name),
            model,
            object_id,
            threshold: 0,
            max_recommendations: None,
            facet_name: None,
            query_parameters: None,
        }
    }

    /// A request for what is bought together with `object_id`.
    pub fn bought_together(index_name: &str, object_id: &str) -> (request: RecommendRequest)
        ensures
            request@ == RecommendRequestView::plain(
                index_name@,
                Model::BoughtTogether,
                Some(object_id@),
            ),
    {
        RecommendRequest::plain(
            index_name,
            Model::BoughtTogether,
            Some(String::from_str(object_id)),
        )
    }

    /// A request for the products related to `object_id`.
    pub fn related_products(index_name: &str, object_id: &str) -> (request: RecommendRequest)
        ensures
            request@ == RecommendRequestView::plain(
                index_name@,
                Model::RelatedProducts,
                Some(object_id@),
            ),
    {
        RecommendRequest::plain(
            index_name,
            Model::RelatedProducts,
            Some(String::from_str(object_id)),
        )
    }

    /// A request for the trending items of `index_name`.
    pub fn trending_items(index_name: &str) -> (request: RecommendRequest)
        ensures
            request@ == RecommendRequestView::plain(index_name@, Model::TrendingItems, None),
    {
        RecommendRequest::plain(index_name, Model::TrendingItems, None)
    }

    /// A request for the items that look similar to `object_id`.
    pub fn looking_similar(index_name: &str, object_id: &str) -> (request: RecommendRequest)
        ensures
            request@ == RecommendRequestView::plain(
                index_name@,
                Model::LookingSimilar,
                Some(object_id@),
            ),
    {
        RecommendRequest::plain(
            index_name,
            Model::LookingSimilar,
            Some(String::from_str(object_id)),
        )
    }
}

/// One request of a trending-facets batch.
#[derive(Debug, Clone)]
pub struct TrendingFacetsRequest {
    pub model: Model,
    pub index_name: String,
    pub facet_name: String,
    pub threshold: i32,
    pub max_recommendations: Option<u32>,
    /// Search parameters that are passed on as they are.
    pub query_parameters: Option<serde_json::Value>,
}

/// The mathematical value of a [`TrendingFacetsRequest`].
pub struct TrendingFacetsRequestView {
    pub model: Model,
    pub index_name: Seq<char>,
    pub facet_name: Seq<char>,
    pub threshold: i32,
    pub max_recommendations: Option<u32>,
    pub query_parameters: Option<serde_json::Value>,
}

impl View for TrendingFacetsRequest {
    type V = TrendingFacetsRequestView;

    open spec fn view(&self) -> TrendingFacetsRequestView {
        TrendingFacetsRequestView {
            model: self.model,
            index_name: self.index_name@,
            facet_name: self.facet_name@,
            threshold: self.threshold,
            max_recommendations: self.max_recommendations,
            query_parameters: self.query_parameters,
        }
    }
}

impl TrendingFacetsRequest {
    /// A request for the trending values of the facet `facet_name` of
    /// `index_name`: threshold 0, no limit and no search parameters.
    pub fn new(index_name: &str, facet_name: &str) -> (request: TrendingFacetsRequest)
        ensures
            request@ == (TrendingFacetsRequestView {
                model: Model::TrendingFacets,
                index_name: index_name@,
                facet_name: facet_name@,
                threshold: 0,
                max_recommendations: None,
                query_parameters: None,
            }),
    {
        TrendingFacetsRequest {
            model: Model::TrendingFacets,
            index_name: String::from_str(index_name),
            facet_name: String::from_str(facet_name),
            threshold: 0,
            max_recommendations: None,
            query_parameters: None,
        }
    }
}

/// The answer to a trending-facets batch: one result for each request.
#[derive(Debug, Clone)]
pub struct TrendingFacetsResponse {
    pub results: Vec<TrendingFacetsResult>,
}

/// The trending values of one facet.
#[derive(Debug, Clone)]
pub struct TrendingFacetsResult {
    pub index: Option<String>,
    pub facet: Option<String>,
    pub facet_hits: Vec<TrendingFacetValue>,
}

/// One trending value of a facet.
#[derive(Debug, Clone)]
pub struct TrendingFacetValue {
    pub value: String,
    pub count: u64,
    pub highlighted: Option<String>,
}

} // verus!
