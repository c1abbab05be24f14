//! The request dispatch pipeline, as a machine from stage and event to next
//! stage and action. The caller performs each action (runs an endpoint's
//! authentication, reads and decodes the body, runs the handler in an
//! isolated task, reads an asset, renders the default page) and reports what
//! happened as the next event.

use vstd::prelude::*;
use vstd::string::*;
use crate::assets::{normalize_path, normalized, slash, static_prefix, AssetTable};
use crate::codec::{compress, gzip_of};
use crate::http::{Body, BodyView, Headers, Method, Response, ResponseView};
use crate::registry::{is_segment, lemma_paths_distinct, Registry};

verus! {

/// The dispatchable surface: the endpoint registry, the asset table, whether
/// a default page is rendered at the root, and whether asset bytes are read
/// afresh from disk for every request.
#[derive(Debug)]
pub struct Router {
    pub registry: Registry,
    pub assets: AssetTable,
    pub html: bool,
    pub local: bool,
}

/// Where a request stands in the pipeline.
#[derive(Debug, Clone, Copy, PartialEq, Eq, Structural)]
pub enum Stage {
    /// Waiting for the authentication of this endpoint.
    Authenticating(usize),
    /// Waiting for the request body to be read and decoded.
    Decoding(usize),
    /// Waiting for the handler of this endpoint.
    Handling(usize),
    /// Waiting for the bytes of this asset from disk.
    ReadingAsset(usize),
    /// Waiting for the default page.
    RenderingHtml,
    /// A response was produced.
    Done,
}

/// What the caller is to do next.
#[derive(Debug)]
pub enum Action {
    /// Send this response; the request is over.
    Respond(Response),
    /// Read the bytes of this asset from disk.
    ReadAsset(usize),
    /// Produce the default page.
    RenderHtml,
    /// Run this endpoint's authentication on the request headers.
    Authenticate(usize),
    /// Read the whole body and decode it as this endpoint's data.
    DecodeBody(usize),
    /// Run this endpoint's handler in an isolated task.
    Invoke(usize),
}

pub enum ActionView {
    Respond(ResponseView),
    ReadAsset(usize),
    RenderHtml,
    Authenticate(usize),
    DecodeBody(usize),
    Invoke(usize),
}

impl View for Action {
    type V = ActionView;

    open spec fn view(&self) -> ActionView {
        match self {
            Action::Respond(r) => ActionView::Respond(r@),
            Action::ReadAsset(i) => ActionView::ReadAsset(*i),
            Action::RenderHtml => ActionView::RenderHtml,
            Action::Authenticate(i) => ActionView::Authenticate(*i),
            Action::DecodeBody(i) => ActionView::DecodeBody(*i),
            Action::Invoke(i) => ActionView::Invoke(*i),
        }
    }
}

/// What came of the last action.
#[derive(Debug)]
pub enum Event {
    /// The credentials were accepted.
    Authorized,
    /// The credentials were rejected, for this reason.
    Unauthorized(String),
    /// The body was read and decoded.
    Decoded,
    /// The body could not be read or decoded.
    Undecodable(String),
    /// The handler succeeded; its value encoded as JSON.
    Returned(Vec<u8>),
    /// The handler reported this error.
    Failed(String),
    /// The isolated task panicked with this message.
    Panicked(String),
    /// The asset's bytes as read from disk.
    AssetRead(Vec<u8>),
    /// The asset could not be read from disk.
    AssetUnreadable(String),
    /// The default page.
    Html(String),
}

pub enum EventView {
    Authorized,
    Unauthorized(Seq<char>),
    Decoded,
    Undecodable(Seq<char>),
    Returned(Seq<u8>),
    Failed(Seq<char>),
    Panicked(Seq<char>),
    AssetRead(Seq<u8>),
    AssetUnreadable(Seq<char>),
    Html(Seq<char>),
}

impl View for Event {
    type V = EventView;

    open spec fn view(&self) -> EventView {
        match self {
            Event::Authorized => EventView::Authorized,
            Event::Unauthorized(e) => EventView::Unauthorized(e@),
            Event::Decoded => EventView::Decoded,
            Event::Undecodable(e) => EventView::Undecodable(e@),
            Event::Returned(j) => EventView::Returned(j@),
            Event::Failed(e) => EventView::Failed(e@),
            Event::Panicked(e) => EventView::Panicked(e@),
            Event::AssetRead(b) => EventView::AssetRead(b@),
            Event::AssetUnreadable(e) => EventView::AssetUnreadable(e@),
            Event::Html(h) => EventView::Html(h@),
        }
    }
}

/// The text that precedes the reason in a 401 body.
pub open spec fn unauthorized_prefix() -> Seq<char> {
    "You aren't authorised to access this endpoint\n"@
}

pub open spec fn html_type() -> Seq<char> {
    "text/html"@
}

/// 404 with an empty body.
pub open spec fn not_found_view() -> ResponseView {
    ResponseView { status: 404, content_type: None, gzipped: false, body: BodyView::Empty }
}

/// 401 with the reason after a fixed explanation.
pub open spec fn unauthorized_view(reason: Seq<char>) -> ResponseView {
    ResponseView {
        status: 401,
        content_type: None,
        gzipped: false,
        body: BodyView::Text(unauthorized_prefix() + reason),
    }
}

/// 400 with the handler's error as text.
pub open spec fn bad_request_view(reason: Seq<char>) -> ResponseView {
    ResponseView { status: 400, content_type: None, gzipped: false, body: BodyView::Text(reason) }
}

/// 500 with a diagnostic text.
pub open spec fn internal_view(reason: Seq<char>) -> ResponseView {
    ResponseView { status: 500, content_type: None, gzipped: false, body: BodyView::Text(reason) }
}

/// 500 with an empty body, for an event that the stage does not expect.
pub open spec fn misuse_view() -> ResponseView {
    ResponseView { status: 500, content_type: None, gzipped: false, body: BodyView::Empty }
}

/// 200 with the handler's JSON value, gzip-compressed.
pub open spec fn success_view(json: Seq<u8>) -> ResponseView {
    ResponseView { status: 200, content_type: None, gzipped: true, body: BodyView::Bytes(gzip_of(json)) }
}

/// 200 with an asset's bytes, gzip-compressed, under its type.
pub open spec fn asset_view(mime: Seq<char>, bytes: Seq<u8>) -> ResponseView {
    ResponseView { status: 200, content_type: Some(mime), gzipped: true, body: BodyView::Bytes(gzip_of(bytes)) }
}

/// 200 with the default page as HTML.
pub open spec fn html_view(page: Seq<char>) -> ResponseView {
    ResponseView { status: 200, content_type: Some(html_type()), gzipped: false, body: BodyView::Text(page) }
}

fn not_found() -> (r: Response)
    ensures
        r@ == not_found_view(),
{
    Response { status: 404, content_type: None, gzipped: false, body: Body::Empty }
}

fn text_response(status: u16, reason: String) -> (r: Response)
    ensures
        r@ == (ResponseView { status, content_type: None, gzipped: false, body: BodyView::Text(reason@) }),
{
    Response { status, content_type: None, gzipped: false, body: Body::Text(reason) }
}

fn unauthorized(reason: String) -> (r: Response)
    ensures
        r@ == unauthorized_view(reason@),
{
    let mut text = String::from_str("You aren't authorised to access this endpoint\n");
    text.append(reason.as_str());
    proof {
        reveal_strlit("You aren't authorised to access this endpoint\n");
    }
    text_response(401, text)
}

fn misuse() -> (r: Response)
    ensures
        r@ == misuse_view(),
{
    Response { status: 500, content_type: None, gzipped: false, body: Body::Empty }
}

fn gzipped(status: u16, content_type: Option<String>, bytes: &[u8]) -> (r: Response)
    ensures
        r.status == status,
        r.content_type == content_type,
        r.gzipped,
        r.body@ == BodyView::Bytes(gzip_of(bytes@)),
{
    Response { status, content_type, gzipped: true, body: Body::Bytes(compress(bytes)) }
}

fn html_page(page: String) -> (r: Response)
    ensures
        r@ == html_view(page@),
{
    proof {
        reveal_strlit("text/html");
    }
    Response {
        status: 200,
        content_type: Some(String::from_str("text/html")),
        gzipped: false,
        body: Body::Text(page),
    }
}

/// An authentication that lets every request through, whatever its headers.
pub fn all_aboard(headers: &Headers) -> (r: Result<(), String>)
    ensures
        r is Ok,
{
    Ok(())
}

impl Router {
    pub open spec fn wf(&self) -> bool {
        self.registry.wf() && self.assets.wf()
    }

    /// Whether the endpoint or asset that a stage names exists.
    pub open spec fn stage_valid(&self, stage: Stage) -> bool {
        match stage {
            Stage::Authenticating(i) => i < self.registry@.len(),
            Stage::Decoding(i) => i < self.registry@.len(),
            Stage::Handling(i) => i < self.registry@.len(),
            Stage::ReadingAsset(i) => i < self.assets@.len(),
            _ => true,
        }
    }

    /// The first stage and action for a request of this method and raw path.
    pub open spec fn begin_spec(&self, method: Method, path: Seq<u8>) -> (Stage, ActionView) {
        let p = normalized(path);
        if method == Method::Get {
            match self.assets.index_of(p) {
                Some(i) => if self.local {
                    (Stage::ReadingAsset(i), ActionView::ReadAsset(i))
                } else {
                    (
                        Stage::Done,
                        ActionView::Respond(asset_view(self.assets@[i as int].mime@, self.assets@[i as int].bytes@)),
                    )
                },
                None => if self.html && p.len() == 0 {
                    (Stage::RenderingHtml, ActionView::RenderHtml)
                } else {
                    (Stage::Done, ActionView::Respond(not_found_view()))
                },
            }
        } else {
            match self.registry.lookup_spec(method, p) {
                Some(i) => (Stage::Authenticating(i), ActionView::Authenticate(i)),
                None => (Stage::Done, ActionView::Respond(not_found_view())),
            }
        }
    }

    /// The next stage and action once `event` is reported in `stage`.
    pub open spec fn advance_spec(&self, stage: Stage, event: EventView) -> (Stage, ActionView) {
        match (stage, event) {
            (Stage::Done, _) => (Stage::Done, ActionView::Respond(misuse_view())),
            (_, EventView::Panicked(e)) => (Stage::Done, ActionView::Respond(internal_view(e))),
            (Stage::Authenticating(i), EventView::Authorized) => if self.registry@[i as int].unit_data {
                (Stage::Handling(i), ActionView::Invoke(i))
            } else {
                (Stage::Decoding(i), ActionView::DecodeBody(i))
            },
            (Stage::Authenticating(_), EventView::Unauthorized(e)) => (
                Stage::Done,
                ActionView::Respond(unauthorized_view(e)),
            ),
            (Stage::Decoding(i), EventView::Decoded) => (Stage::Handling(i), ActionView::Invoke(i)),
            (Stage::Decoding(_), EventView::Undecodable(e)) => (
                Stage::Done,
                ActionView::Respond(internal_view(e)),
            ),
            (Stage::Handling(_), EventView::Returned(j)) => (Stage::Done, ActionView::Respond(success_view(j))),
            (Stage::Handling(_), EventView::Failed(e)) => (Stage::Done, ActionView::Respond(bad_request_view(e))),
            (Stage::ReadingAsset(i), EventView::AssetRead(b)) => (
                Stage::Done,
                ActionView::Respond(asset_view(self.assets@[i as int].mime@, b)),
            ),
            (Stage::ReadingAsset(_), EventView::AssetUnreadable(e)) => (
                Stage::Done,
                ActionView::Respond(internal_view(e)),
            ),
            (Stage::RenderingHtml, EventView::Html(h)) => (Stage::Done, ActionView::Respond(html_view(h))),
            _ => (Stage::Done, ActionView::Respond(misuse_view())),
        }
    }

    /// Starts a request: serves an asset or the default page for `GET`, and
    /// resolves any other method against the registry.
    pub fn begin(&self, method: Method, path: &[u8]) -> (r: (Stage, Action))
        requires
            self.wf(),
        ensures
            (r.0, r.1@) == self.begin_spec(method, path@),
            self.stage_valid(r.0),
    {
        let p = normalize_path(path);
        if let Method::Get = method {
            match self.assets.get(p.as_slice()) {
                Some(i) => {
                    if self.local {
                        (Stage::ReadingAsset(i), Action::ReadAsset(i))
                    } else {
                        let a = self.assets.entry(i);
                        let r = gzipped(200, Some(a.mime.clone()), a.bytes.as_slice());
                        (Stage::Done, Action::Respond(r))
                    }
                },
                None => {
                    if self.html && p.len() == 0 {
                        (Stage::RenderingHtml, Action::RenderHtml)
                    } else {
                        (Stage::Done, Action::Respond(not_found()))
                    }
                },
            }
        } else {
            match self.registry.lookup(method, p.as_slice()) {
                Some(i) => {
                    (Stage::Authenticating(i), Action::Authenticate(i))
                },
                None => (Stage::Done, Action::Respond(not_found())),
            }
        }
    }

    /// Moves a request on by what came of its last action.
    pub fn advance(&self, stage: Stage, event: Event) -> (r: (Stage, Action))
        requires
            self.wf(),
            self.stage_valid(stage),
        ensures
            (r.0, r.1@) == self.advance_spec(stage, event@),
            self.stage_valid(r.0),
    {
        match (stage, event) {
            (Stage::Done, _) => (Stage::Done, Action::Respond(misuse())),
            (_, Event::Panicked(e)) => (Stage::Done, Action::Respond(text_response(500, e))),
            (Stage::Authenticating(i), Event::Authorized) => {
                if self.registry.entry(i).unit_data {
                    (Stage::Handling(i), Action::Invoke(i))
                } else {
                    (Stage::Decoding(i), Action::DecodeBody(i))
                }
            },
            (Stage::Authenticating(_), Event::Unauthorized(e)) => (Stage::Done, Action::Respond(unauthorized(e))),
            (Stage::Decoding(i), Event::Decoded) => (Stage::Handling(i), Action::Invoke(i)),
            (Stage::Decoding(_), Event::Undecodable(e)) => (Stage::Done, Action::Respond(text_response(500, e))),
            (Stage::Handling(_), Event::Returned(j)) => (Stage::Done, Action::Respond(gzipped(200, None, j.as_slice()))),
            (Stage::Handling(_), Event::Failed(e)) => (Stage::Done, Action::Respond(text_response(400, e))),
            (Stage::ReadingAsset(i), Event::AssetRead(b)) => {
                let mime = self.assets.entry(i).mime.clone();
                (Stage::Done, Action::Respond(gzipped(200, Some(mime), b.as_slice())))
            },
            (Stage::ReadingAsset(_), Event::AssetUnreadable(e)) => (Stage::Done, Action::Respond(text_response(500, e))),
            (Stage::RenderingHtml, Event::Html(h)) => (Stage::Done, Action::Respond(html_page(h))),
            _ => (Stage::Done, Action::Respond(misuse())),
        }
    }
}

/// A request to `/{name}` of a registered endpoint, made with a method of the
/// other idempotency, gets 404 with an empty body: the same response as a
/// request to a path that no endpoint is served under.
pub proof fn lemma_wrong_method_not_found(router: Router, i: int, method: Method, unknown: Seq<u8>)
    requires
        router.wf(),
        0 <= i < router.registry@.len(),
        method != Method::Get,
        method.is_idempotent() != router.registry@[i].idempotent,
        forall|j: int|
            0 <= j < router.registry@.len() ==> (#[trigger] router.registry@[j]).path_bytes() != normalized(unknown),
    ensures
        router.begin_spec(method, seq![slash()] + router.registry@[i].path_bytes()) == (
            Stage::Done,
            ActionView::Respond(not_found_view()),
        ),
        router.begin_spec(method, seq![slash()] + router.registry@[i].path_bytes()) == router.begin_spec(
            method,
            unknown,
        ),
{
    let entries = router.registry@;
    let name = entries[i].path_bytes();
    let path = seq![slash()] + name;
    assert(path.subrange(1, path.len() as int) =~= name);
    assert(is_segment(entries[i]));
    if name.len() >= 7 && name.subrange(0, 7) == static_prefix() {
        assert(name.subrange(0, 7)[6] == 0x2fu8);
        assert(name.contains(0x2fu8));
    }
    assert(normalized(path) == name);
    assert forall|j: int| 0 <= j < entries.len() implies !(#[trigger] entries[j]).addressed_by(method, normalized(path)) by {
        if entries[j].addressed_by(method, normalized(path)) {
            lemma_paths_distinct(entries, i, j);
        }
    }
    assert forall|j: int| 0 <= j < entries.len() implies !(#[trigger] entries[j]).addressed_by(method, normalized(unknown)) by {
    }
}

/// An endpoint whose data is the empty type never has its body read: once
/// its authentication succeeds its handler runs, and no stage and event lead
/// to decoding a body for it.
pub proof fn lemma_unit_data_skips_body(router: Router, i: usize, stage: Stage, event: EventView)
    requires
        router.wf(),
        router.stage_valid(stage),
        i < router.registry@.len(),
        router.registry@[i as int].unit_data,
    ensures
        router.advance_spec(stage, event).1 != ActionView::DecodeBody(i),
        router.advance_spec(Stage::Authenticating(i), EventView::Authorized) == (Stage::Handling(i), ActionView::Invoke(i)),
{
}

/// Authentication comes before the body: a request never starts by decoding
/// or running a handler, decoding follows only accepted credentials, and
/// rejected credentials end the request with 401 whatever its body holds.
pub proof fn lemma_auth_before_body(
    router: Router,
    method: Method,
    path: Seq<u8>,
    stage: Stage,
    event: EventView,
    reason: Seq<char>,
)
    requires
        router.wf(),
        router.stage_valid(stage),
    ensures
        !(router.begin_spec(method, path).1 is DecodeBody),
        !(router.begin_spec(method, path).1 is Invoke),
        router.advance_spec(stage, event).1 is DecodeBody ==> stage is Authenticating && event is Authorized,
        stage is Authenticating ==> router.advance_spec(stage, EventView::Unauthorized(reason)) == (
            Stage::Done,
            ActionView::Respond(unauthorized_view(reason)),
        ),
{
}

} // verus!
