//! A small service built on the library: one endpoint that tells the time,
//! guarded by a header check, and a default page.

use vstd::prelude::*;
use vstd::string::*;
use crate::assets::AssetTable;
use crate::codec::{decimal, decimal_string, is_digit, lemma_decimal_digits};
use crate::dispatch::Router;
use crate::http::Headers;
use crate::registry::{EndpointInfo, Registry, RegistryError};

verus! {

/// The endpoints of the demo service.
#[derive(Debug, Clone, Copy, PartialEq, Eq, Structural)]
pub enum DemoRouter {
    /// `POST /the_time`: no data; the time since the epoch in milliseconds.
    TheTime,
}

impl DemoRouter {
    /// The position of the endpoint in the demo registry.
    pub fn index(&self) -> (r: usize)
        ensures
            r == 0,
    {
        match self {
            DemoRouter::TheTime => 0,
        }
    }

    /// The endpoint at a position of the demo registry.
    pub fn from_index(i: usize) -> (r: Option<DemoRouter>)
        ensures
            r == (if i == 0 { Some(DemoRouter::TheTime) } else { None::<DemoRouter> }),
    {
        if i == 0 {
            Some(DemoRouter::TheTime)
        } else {
            None
        }
    }

    /// The descriptor of the endpoint: declared as `TheTime`, not idempotent,
    /// with no request data.
    pub fn info(&self) -> (r: EndpointInfo)
        ensures
            r.name@ == crate::registry::snake_of("TheTime"@),
            !r.idempotent,
            r.unit_data,
            crate::registry::is_segment(r),
    {
        proof {
            reveal_strlit("TheTime");
        }
        EndpointInfo::new("TheTime", false, true)
    }

    /// The demo service over `assets`, with the default page at the root.
    pub fn router(assets: AssetTable) -> (r: Result<Router, RegistryError>)
        requires
            assets.wf(),
        ensures
            r is Ok,
            r->Ok_0.wf(),
            r->Ok_0.registry@.len() == 1,
            r->Ok_0.registry@[0].name@ == crate::registry::snake_of("TheTime"@),
            !r->Ok_0.registry@[0].idempotent,
            r->Ok_0.registry@[0].unit_data,
            r->Ok_0.assets@ == assets@,
            r->Ok_0.html,
            !r->Ok_0.local,
    {
        let mut entries: Vec<EndpointInfo> = Vec::new();
        entries.push(DemoRouter::TheTime.info());
        assert(crate::registry::names_are_segments(entries@));
        let registry = Registry::new(entries)?;
        Ok(Router { registry, assets, html: true, local: false })
    }
}

pub open spec fn evil_header() -> Seq<char> {
    "evil"@
}

pub open spec fn evil_message() -> Seq<char> {
    "Evil request detected."@
}

/// Lets every request through but one that carries an `evil` header.
pub fn auth_handler(headers: &Headers) -> (r: Result<(), String>)
    ensures
        r is Ok <==> !headers.has(evil_header()),
        r is Err ==> r->Err_0@ == evil_message(),
{
    proof {
        reveal_strlit("evil");
        reveal_strlit("Evil request detected.");
    }
    if headers.contains_key("evil") {
        Err(String::from_str("Evil request detected."))
    } else {
        Ok(())
    }
}

/// The handler of `the_time`: the milliseconds since the epoch as a decimal
/// numeral.
pub fn the_time(now_ms: u64) -> (r: String)
    ensures
        r@ == decimal(now_ms as nat),
        r@.len() >= 1,
        forall|i: int| 0 <= i < r@.len() ==> is_digit(#[trigger] r@[i]),
{
    proof {
        lemma_decimal_digits(now_ms as nat);
    }
    decimal_string(now_ms)
}

/// The default page of the demo service.
pub fn super_awesome_html_generator() -> (r: String)
    ensures
        r@ == demo_page(),
{
    proof {
        reveal_strlit("<!DOCTYPE html><html><head><title>milrouter</title></head><body><div id=\"app\"></div></body></html>");
    }
    String::from_str("<!DOCTYPE html><html><head><title>milrouter</title></head><body><div id=\"app\"></div></body></html>")
}

pub open spec fn demo_page() -> Seq<char> {
    "<!DOCTYPE html><html><head><title>milrouter</title></head><body><div id=\"app\"></div></body></html>"@
}

} // verus!
