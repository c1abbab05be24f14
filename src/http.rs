//! The HTTP values that the pipeline reads and writes, as plain data.

use vstd::prelude::*;
use vstd::string::*;

verus! {

/// A request method.
#[derive(Debug, Clone, Copy, PartialEq, Eq, Structural)]
pub enum Method {
    Get,
    Head,
    Post,
    Put,
    Delete,
    Connect,
    Options,
    Trace,
    Patch,
    Query,
    /// A method outside the standard set.
    Other,
}

impl Method {
    pub open spec fn spec_is_idempotent(&self) -> bool {
        match self {
            Method::Get | Method::Head | Method::Options | Method::Trace | Method::Query => true,
            Method::Put | Method::Delete => true,
            _ => false,
        }
    }

    /// Whether repeating the request has the effect of making it once: the
    /// safe methods, `PUT` and `DELETE`.
    #[verifier::when_used_as_spec(spec_is_idempotent)]
    pub fn is_idempotent(&self) -> (r: bool)
        ensures
            r == self.spec_is_idempotent(),
    {
        match self {
            Method::Get | Method::Head | Method::Options | Method::Trace | Method::Query => true,
            Method::Put | Method::Delete => true,
            _ => false,
        }
    }
}

/// Request headers as (name, value) pairs, names in lower case.
#[derive(Debug, Clone)]
pub struct Headers {
    pub entries: Vec<(String, String)>,
}

impl Headers {
    pub open spec fn has(self, name: Seq<char>) -> bool {
        exists|i: int| 0 <= i < self.entries@.len() && (#[trigger] self.entries@[i]).0@ == name
    }

    pub fn new() -> (r: Headers)
        ensures
            r.entries@.len() == 0,
    {
        Headers { entries: Vec::new() }
    }

    /// Adds one header.
    pub fn insert(&mut self, name: String, value: String)
        ensures
            final(self).entries@ == old(self).entries@.push((name, value)),
    {
        self.entries.push((name, value));
    }

    /// Whether a header of this name is present.
    pub fn contains_key(&self, name: &str) -> (r: bool)
        ensures
            r == self.has(name@),
    {
        let key = String::from_str(name);
        let mut i: usize = 0;
        while i < self.entries.len()
            invariant
                0 <= i <= self.entries@.len(),
                key@ == name@,
                forall|j: int| 0 <= j < i ==> (#[trigger] self.entries@[j]).0@ != name@,
            decreases self.entries@.len() - i,
        {
            let hit = self.entries[i].0.eq(&key);
            if hit {
                assert(self.entries@[i as int].0@ == name@);
                return true;
            }
            i = i + 1;
        }
        false
    }
}

/// A response body.
#[derive(Debug, Clone)]
pub enum Body {
    Empty,
    Text(String),
    Bytes(Vec<u8>),
}

pub enum BodyView {
    Empty,
    Text(Seq<char>),
    Bytes(Seq<u8>),
}

impl View for Body {
    type V = BodyView;

    open spec fn view(&self) -> BodyView {
        match self {
            Body::Empty => BodyView::Empty,
            Body::Text(s) => BodyView::Text(s@),
            Body::Bytes(b) => BodyView::Bytes(b@),
        }
    }
}

impl Default for Body {
    fn default() -> (r: Body)
        ensures
            r@ == BodyView::Empty,
    {
        Body::Empty
    }
}

/// A response: status, the `Content-Type` if one is set, whether the body is
/// sent with `Content-Encoding: gzip`, and the body.
#[derive(Debug, Clone)]
pub struct Response {
    pub status: u16,
    pub content_type: Option<String>,
    pub gzipped: bool,
    pub body: Body,
}

pub struct ResponseView {
    pub status: u16,
    pub content_type: Option<Seq<char>>,
    pub gzipped: bool,
    pub body: BodyView,
}

impl View for Response {
    type V = ResponseView;

    open spec fn view(&self) -> ResponseView {
        ResponseView {
            status: self.status,
            content_type: match self.content_type {
                Some(t) => Some(t@),
                None => None,
            },
            gzipped: self.gzipped,
            body: self.body@,
        }
    }
}

} // verus!
