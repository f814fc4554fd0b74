//! Generation of the route table for an entity.
//!
//! For each entity the scaffold serves eleven routes: five JSON API routes
//! under `/api/v1` and six server-rendered UI routes under the bare root.
//! The path templates are derived from the declared singular and plural
//! names alone, so the table is deterministic: registering routes and
//! generating links from the same names always agree.

use crate::slug::{slug, slug_of};
use vstd::prelude::*;
use vstd::string::*;

verus! {

/// The HTTP method of a generated route.
#[derive(Clone, Copy, PartialEq, Eq, Structural, Debug)]
pub enum HttpMethod {
    Get,
    Post,
    Delete,
}

/// The operation a generated route is bound to.
#[derive(Clone, Copy, PartialEq, Eq, Structural, Debug)]
pub enum EndpointKind {
    /// list all entities, JSON
    ApiList,
    /// fetch one entity by id, JSON
    ApiGetOne,
    /// create an entity from a JSON body
    ApiCreate,
    /// update an entity from a JSON body
    ApiUpdate,
    /// delete an entity by id
    ApiDelete,
    /// list all entities, rendered page
    UiList,
    /// detail page for one entity
    UiGetOne,
    /// update an entity via form submission
    UiUpdate,
    /// form page for creating an entity
    UiAddForm,
    /// create an entity via form submission
    UiAddSubmit,
    /// delete an entity via form submission
    UiDelete,
}

/// One generated route binding: a method, a path template and the operation
/// the host must bind at that path.
#[derive(PartialEq, Eq, Debug)]
pub struct Route {
    pub method: HttpMethod,
    pub path: String,
    pub kind: EndpointKind,
}

/// The mathematical image of a [`Route`].
pub struct RouteSpec {
    pub method: HttpMethod,
    pub path: Seq<char>,
    pub kind: EndpointKind,
}

impl View for Route {
    type V = RouteSpec;

    open spec fn view(&self) -> RouteSpec {
        RouteSpec { method: self.method, path: self.path@, kind: self.kind }
    }
}

/// The path template of the API collection routes: `/api/v1/{plural slug}`.
pub open spec fn spec_api_collection_path(plural: Seq<char>) -> Seq<char> {
    "/api/v1/"@ + slug_of(plural)
}

/// The path template of the API single-item routes: `/api/v1/{slug}/:id`.
pub open spec fn spec_api_item_path(name: Seq<char>) -> Seq<char> {
    "/api/v1/"@ + slug_of(name) + "/:id"@
}

/// The path template of the UI list route: `/{plural slug}`.
pub open spec fn spec_ui_collection_path(plural: Seq<char>) -> Seq<char> {
    "/"@ + slug_of(plural)
}

/// The path template of the UI single-item routes: `/{slug}/:id`.
pub open spec fn spec_ui_item_path(name: Seq<char>) -> Seq<char> {
    "/"@ + slug_of(name) + "/:id"@
}

/// The path template of the UI add routes: `/{plural slug}/add`.
pub open spec fn spec_ui_add_path(plural: Seq<char>) -> Seq<char> {
    "/"@ + slug_of(plural) + "/add"@
}

/// The path template of the UI delete route: `/{slug}/:id/delete`.
pub open spec fn spec_ui_delete_path(name: Seq<char>) -> Seq<char> {
    "/"@ + slug_of(name) + "/:id/delete"@
}

/// The full route table generated for an entity with the given singular and
/// plural names, in registration order.
pub open spec fn spec_routes(name: Seq<char>, plural: Seq<char>) -> Seq<RouteSpec> {
    seq![
        RouteSpec {
            method: HttpMethod::Get,
            path: spec_api_collection_path(plural),
            kind: EndpointKind::ApiList,
        },
        RouteSpec {
            method: HttpMethod::Get,
            path: spec_api_item_path(name),
            kind: EndpointKind::ApiGetOne,
        },
        RouteSpec {
            method: HttpMethod::Post,
            path: spec_api_collection_path(plural),
            kind: EndpointKind::ApiCreate,
        },
        RouteSpec {
            method: HttpMethod::Post,
            path: spec_api_item_path(name),
            kind: EndpointKind::ApiUpdate,
        },
        RouteSpec {
            method: HttpMethod::Delete,
            path: spec_api_item_path(name),
            kind: EndpointKind::ApiDelete,
        },
        RouteSpec {
            method: HttpMethod::Get,
            path: spec_ui_collection_path(plural),
            kind: EndpointKind::UiList,
        },
        RouteSpec {
            method: HttpMethod::Get,
            path: spec_ui_item_path(name),
            kind: EndpointKind::UiGetOne,
        },
        RouteSpec {
            method: HttpMethod::Post,
            path: spec_ui_item_path(name),
            kind: EndpointKind::UiUpdate,
        },
        RouteSpec {
            method: HttpMethod::Get,
            path: spec_ui_add_path(plural),
            kind: EndpointKind::UiAddForm,
        },
        RouteSpec {
            method: HttpMethod::Post,
            path: spec_ui_add_path(plural),
            kind: EndpointKind::UiAddSubmit,
        },
        RouteSpec {
            method: HttpMethod::Post,
            path: spec_ui_delete_path(name),
            kind: EndpointKind::UiDelete,
        },
    ]
}

/// Generates the route table for an entity with the given declared names.
///
/// The result is exactly the eleven bindings of [`spec_routes`], in order:
/// five API routes under `/api/v1` and six UI routes under the bare root,
/// with both path slugs derived by [`slug`].
pub fn routes_for(name: &str, name_plural: &str) -> (r: Vec<Route>)
    ensures
        r@.map_values(|rt: Route| rt@) == spec_routes(name@, name_plural@),
{
    let s = slug(name);
    let p = slug(name_plural);

    let api_collection = String::from_str("/api/v1/").concat(p.as_str());
    let api_item = String::from_str("/api/v1/").concat(s.as_str()).concat("/:id");
    let ui_collection = String::from_str("/").concat(p.as_str());
    let ui_item = String::from_str("/").concat(s.as_str()).concat("/:id");
    let ui_add = String::from_str("/").concat(p.as_str()).concat("/add");
    let ui_delete = String::from_str("/").concat(s.as_str()).concat("/:id/delete");

    let mut r: Vec<Route> = Vec::new();
    r.push(
        Route { method: HttpMethod::Get, path: api_collection.clone(), kind: EndpointKind::ApiList },
    );
    r.push(Route { method: HttpMethod::Get, path: api_item.clone(), kind: EndpointKind::ApiGetOne });
    r.push(Route { method: HttpMethod::Post, path: api_collection, kind: EndpointKind::ApiCreate });
    r.push(Route { method: HttpMethod::Post, path: api_item.clone(), kind: EndpointKind::ApiUpdate });
    r.push(Route { method: HttpMethod::Delete, path: api_item, kind: EndpointKind::ApiDelete });
    r.push(Route { method: HttpMethod::Get, path: ui_collection, kind: EndpointKind::UiList });
    r.push(Route { method: HttpMethod::Get, path: ui_item.clone(), kind: EndpointKind::UiGetOne });
    r.push(Route { method: HttpMethod::Post, path: ui_item, kind: EndpointKind::UiUpdate });
    r.push(Route { method: HttpMethod::Get, path: ui_add.clone(), kind: EndpointKind::UiAddForm });
    r.push(Route { method: HttpMethod::Post, path: ui_add, kind: EndpointKind::UiAddSubmit });
    r.push(Route { method: HttpMethod::Post, path: ui_delete, kind: EndpointKind::UiDelete });
    proof {
        assert(r@.map_values(|rt: Route| rt@) =~= spec_routes(name@, name_plural@));
    }
    r
}

/// Route generation is deterministic: the route table is a function of the
/// declared names alone, so generating it twice for the same entity yields
/// path templates identical in slug and in the order of literal segments.
pub proof fn lemma_routes_deterministic(
    r1: Seq<RouteSpec>,
    r2: Seq<RouteSpec>,
    name: Seq<char>,
    plural: Seq<char>,
)
    requires
        r1 == spec_routes(name, plural),
        r2 == spec_routes(name, plural),
    ensures
        r1 == r2,
{
}

} // verus!
