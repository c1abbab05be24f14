//! Endpoint descriptors and the closed registry that addresses them by name.

use vstd::prelude::*;
use vstd::utf8::{encode_scalar, encode_utf8, has_width_1_encoding};
use crate::http::Method;

verus! {

/// The lower snake form that heck gives to a declared name.
pub uninterp spec fn snake_of(declared: Seq<char>) -> Seq<char>;

/// Relies on `heck::ToSnakeCase::to_snake_case` on a `str`: the result
/// depends on the characters alone, and is made of the lowercased
/// alphanumeric runs of the input joined by `_`, so it holds no `/`.
#[verifier::external_body]
fn snake_case(declared: &str) -> (r: String)
    ensures
        r@ == snake_of(declared@),
        !r@.contains('/'),
{
    heck::ToSnakeCase::to_snake_case(declared)
}

/// Whether the two byte slices are equal.
pub fn bytes_eq(a: &[u8], b: &[u8]) -> (r: bool)
    ensures
        r == (a@ == b@),
{
    if a.len() != b.len() {
        return false;
    }
    let mut i: usize = 0;
    while i < a.len()
        invariant
            a@.len() == b@.len(),
            0 <= i <= a@.len(),
            forall|j: int| 0 <= j < i ==> a@[j] == b@[j],
        decreases a@.len() - i,
    {
        if a[i] != b[i] {
            return false;
        }
        i = i + 1;
    }
    assert(a@ =~= b@);
    true
}

/// What the registry knows of one endpoint: the path segment it is served
/// at, whether it is idempotent, and whether its request data is the empty
/// type (so that no body is read for it).
#[derive(Debug, Clone)]
pub struct EndpointInfo {
    pub name: String,
    pub idempotent: bool,
    pub unit_data: bool,
}

impl EndpointInfo {
    /// The path bytes under which the endpoint is served, without the
    /// leading separator.
    pub open spec fn path_bytes(&self) -> Seq<u8> {
        encode_utf8(self.name@)
    }

    /// The method that a client uses for this endpoint.
    pub open spec fn spec_method(&self) -> Method {
        if self.idempotent {
            Method::Put
        } else {
            Method::Post
        }
    }

    /// A descriptor for the endpoint declared as `declared` (such as
    /// `TheTime`), served under the snake form of that name.
    pub fn new(declared: &str, idempotent: bool, unit_data: bool) -> (r: EndpointInfo)
        ensures
            r.name@ == snake_of(declared@),
            r.idempotent == idempotent,
            r.unit_data == unit_data,
            is_segment(r),
    {
        let name = snake_case(declared);
        proof {
            lemma_no_slash_byte(name@);
        }
        EndpointInfo { name, idempotent, unit_data }
    }

    pub fn is_idempotent(&self) -> (r: bool)
        ensures
            r == self.idempotent,
    {
        self.idempotent
    }

    /// `PUT` for an idempotent endpoint, `POST` for any other.
    pub fn method(&self) -> (r: Method)
        ensures
            r == self.spec_method(),
    {
        if self.idempotent {
            Method::Put
        } else {
            Method::Post
        }
    }

    /// The path segment of the endpoint, as text.
    pub fn path(&self) -> (r: String)
        ensures
            r@ == self.name@,
    {
        self.name.clone()
    }

    /// Whether a request of this method and path (already normalized) is
    /// addressed to this endpoint. The method counts only through its
    /// idempotency.
    pub open spec fn addressed_by(&self, method: Method, path: Seq<u8>) -> bool {
        path == self.path_bytes() && method.is_idempotent() == self.idempotent
    }
}

/// Whether the descriptor's path is one segment: no `/` in it.
pub open spec fn is_segment(e: EndpointInfo) -> bool {
    !e.path_bytes().contains(0x2fu8)
}

/// A character other than `/` has no `/` byte in its UTF-8 encoding: every
/// byte of a longer encoding has its high bit set.
proof fn lemma_scalar_no_slash(c: char)
    requires
        c != '/',
    ensures
        !encode_scalar(c as u32).contains(0x2fu8),
{
    let v = c as u32;
    assert(forall|b: u8| (0x80u8 | b) != 0x2fu8) by (bit_vector);
    assert(forall|b: u8| (0xC0u8 | b) != 0x2fu8) by (bit_vector);
    assert(forall|b: u8| (0xE0u8 | b) != 0x2fu8) by (bit_vector);
    assert(forall|b: u8| (0xF0u8 | b) != 0x2fu8) by (bit_vector);
    if has_width_1_encoding(v) {
        assert((v & 0x7F) == v) by (bit_vector)
            requires
                v <= 0x7F,
        ;
        assert(encode_scalar(v) =~= seq![v as u8]);
    }
}

/// Text without `/` has no `/` byte in its UTF-8 encoding.
pub proof fn lemma_no_slash_byte(text: Seq<char>)
    requires
        !text.contains('/'),
    ensures
        !encode_utf8(text).contains(0x2fu8),
    decreases text.len(),
{
    if text.len() > 0 {
        assert(text[0] != '/') by {
            if text[0] == '/' {
                assert(text.contains('/'));
            }
        }
        lemma_scalar_no_slash(text[0]);
        let rest = text.drop_first();
        assert(!rest.contains('/')) by {
            if rest.contains('/') {
                let k = choose|k: int| 0 <= k < rest.len() && rest[k] == '/';
                assert(text[k + 1] == '/');
            }
        }
        lemma_no_slash_byte(rest);
        let head = encode_scalar(text[0] as u32);
        let tail = encode_utf8(rest);
        assert(encode_utf8(text) == head + tail);
        if (head + tail).contains(0x2fu8) {
            let k = choose|k: int| 0 <= k < (head + tail).len() && (head + tail)[k] == 0x2fu8;
            if k < head.len() {
                assert(head[k] == 0x2fu8);
            } else {
                assert(tail[k - head.len()] == 0x2fu8);
            }
        }
    }
}

/// Whether every descriptor's path is one segment.
pub open spec fn names_are_segments(entries: Seq<EndpointInfo>) -> bool {
    forall|i: int| 0 <= i < entries.len() ==> is_segment(#[trigger] entries[i])
}

/// Whether `b` holds the byte `x`.
fn has_byte(b: &[u8], x: u8) -> (r: bool)
    ensures
        r == b@.contains(x),
{
    let mut i: usize = 0;
    while i < b.len()
        invariant
            0 <= i <= b@.len(),
            forall|k: int| 0 <= k < i ==> b@[k] != x,
        decreases b@.len() - i,
    {
        if b[i] == x {
            assert(b@[i as int] == x);
            return true;
        }
        i = i + 1;
    }
    false
}

/// Whether no two descriptors share a name.
pub open spec fn names_unique(entries: Seq<EndpointInfo>) -> bool {
    forall|i: int, j: int|
        0 <= i < j < entries.len() ==> (#[trigger] entries[i]).name@ != (#[trigger] entries[j]).name@
}

/// Why a registry could not be built.
#[derive(Debug, Clone, Copy, PartialEq, Eq, Structural)]
pub enum RegistryError {
    /// The name of the descriptor at this position holds a `/`, so it is no
    /// single path segment.
    NotASegment(usize),
    /// The descriptors at these two positions share a name.
    DuplicateName(usize, usize),
}

/// A closed set of endpoint descriptors with distinct names, fixed once built.
#[derive(Debug)]
pub struct Registry {
    entries: Vec<EndpointInfo>,
}

impl View for Registry {
    type V = Seq<EndpointInfo>;

    closed spec fn view(&self) -> Seq<EndpointInfo> {
        self.entries@
    }
}

impl Registry {
    pub open spec fn wf(&self) -> bool {
        names_unique(self@) && names_are_segments(self@)
    }

    /// The index of the descriptor that a request addresses, if any.
    pub open spec fn lookup_spec(&self, method: Method, path: Seq<u8>) -> Option<usize> {
        if exists|i: int| 0 <= i < self@.len() && (#[trigger] self@[i]).addressed_by(method, path) {
            Some(choose|i: usize| i < self@.len() && (#[trigger] self@[i as int]).addressed_by(method, path))
        } else {
            None
        }
    }

    /// Builds the registry; fails on the first name that holds a `/`, and
    /// otherwise on the first pair of descriptors that share a name.
    pub fn new(entries: Vec<EndpointInfo>) -> (r: Result<Registry, RegistryError>)
        ensures
            r is Ok <==> names_unique(entries@) && names_are_segments(entries@),
            r is Ok ==> r->Ok_0@ == entries@ && r->Ok_0.wf(),
            r matches Err(RegistryError::NotASegment(i)) ==> {
                &&& i < entries@.len()
                &&& !is_segment(entries@[i as int])
                &&& forall|a: int| 0 <= a < i ==> is_segment(#[trigger] entries@[a])
            },
            r matches Err(RegistryError::DuplicateName(i, j)) ==> {
                &&& names_are_segments(entries@)
                &&& i < j < entries@.len()
                &&& entries@[i as int].name@ == entries@[j as int].name@
                &&& names_unique(entries@.subrange(0, j as int))
                &&& forall|a: int| 0 <= a < i ==> (#[trigger] entries@[a]).name@ != entries@[j as int].name@
            },
    {
        let n = entries.len();
        let mut k: usize = 0;
        while k < n
            invariant
                n == entries@.len(),
                0 <= k <= n,
                forall|a: int| 0 <= a < k ==> is_segment(#[trigger] entries@[a]),
            decreases n - k,
        {
            if has_byte(entries[k].name.as_str().as_bytes(), 0x2f) {
                return Err(RegistryError::NotASegment(k));
            }
            k = k + 1;
        }
        let mut j: usize = 0;
        while j < n
            invariant
                n == entries@.len(),
                0 <= j <= n,
                names_are_segments(entries@),
                forall|a: int, b: int|
                    0 <= a < b < j ==> (#[trigger] entries@[a]).name@ != (#[trigger] entries@[b]).name@,
            decreases n - j,
        {
            let mut i: usize = 0;
            while i < j
                invariant
                    n == entries@.len(),
                    0 <= i <= j < n,
                    names_are_segments(entries@),
                    forall|a: int, b: int|
                        0 <= a < b < j ==> (#[trigger] entries@[a]).name@ != (#[trigger] entries@[b]).name@,
                    forall|a: int| 0 <= a < i ==> (#[trigger] entries@[a]).name@ != entries@[j as int].name@,
                decreases j - i,
            {
                if entries[i].name.eq(&entries[j].name) {
                    assert forall|a: int, b: int| 0 <= a < b < j implies (#[trigger] entries@.subrange(0, j as int)[a]).name@
                        != (#[trigger] entries@.subrange(0, j as int)[b]).name@ by {
                        assert(entries@[a].name@ != entries@[b].name@);
                    }
                    return Err(RegistryError::DuplicateName(i, j));
                }
                i = i + 1;
            }
            j = j + 1;
        }
        Ok(Registry { entries })
    }

    pub fn len(&self) -> (r: usize)
        ensures
            r == self@.len(),
    {
        self.entries.len()
    }

    pub fn entry(&self, i: usize) -> (r: &EndpointInfo)
        requires
            i < self@.len(),
        ensures
            *r == self@[i as int],
    {
        &self.entries[i]
    }

    /// The descriptor that a request of this method and normalized path
    /// addresses. Names are distinct, so there is at most one.
    pub fn lookup(&self, method: Method, path: &[u8]) -> (r: Option<usize>)
        requires
            self.wf(),
        ensures
            r == self.lookup_spec(method, path@),
    {
        let idem = method.is_idempotent();
        let mut i: usize = 0;
        while i < self.entries.len()
            invariant
                0 <= i <= self@.len(),
                self@ == self.entries@,
                self.wf(),
                idem == method.is_idempotent(),
                forall|k: int| 0 <= k < i ==> !(#[trigger] self@[k]).addressed_by(method, path@),
            decreases self@.len() - i,
        {
            let e = &self.entries[i];
            if e.idempotent == idem && bytes_eq(path, e.name.as_str().as_bytes()) {
                proof {
                    assert(self@[i as int].addressed_by(method, path@));
                    let c = choose|c: usize| c < self@.len() && (#[trigger] self@[c as int]).addressed_by(method, path@);
                    if c != i {
                        lemma_paths_distinct(self@, c as int, i as int);
                    }
                }
                return Some(i);
            }
            i = i + 1;
        }
        None
    }
}

/// In a registry with distinct names, no two descriptors are served under the
/// same path.
pub proof fn lemma_paths_distinct(entries: Seq<EndpointInfo>, a: int, b: int)
    requires
        names_unique(entries),
        0 <= a < entries.len(),
        0 <= b < entries.len(),
        entries[a].path_bytes() == entries[b].path_bytes(),
    ensures
        a == b,
{
    vstd::utf8::encode_utf8_decode_utf8(entries[a].name@);
    vstd::utf8::encode_utf8_decode_utf8(entries[b].name@);
    if a < b {
        assert(entries[a].name@ != entries[b].name@);
    } else if b < a {
        assert(entries[b].name@ != entries[a].name@);
    }
}

} // verus!
