//! Request path normalization and the table of static assets.

use vstd::prelude::*;
use vstd::utf8::encode_utf8;
use crate::registry::bytes_eq;

verus! {

/// The MIME type that mime_guess gives for a file path by its extension,
/// `text/plain` where it knows none.
pub uninterp spec fn mime_of(path: Seq<char>) -> Seq<char>;

/// Relies on `mime_guess::from_path(..).first_or_text_plain()`: the first
/// type registered for the path's extension, a function of the path alone.
#[verifier::external_body]
fn guess_mime(path: &str) -> (r: String)
    ensures
        r@ == mime_of(path@),
{
    mime_guess::from_path(path).first_or_text_plain().to_string()
}

/// The separator byte `/`.
pub open spec fn slash() -> u8 {
    0x2f
}

/// `static/`, the prefix under which assets may also be requested.
pub open spec fn static_prefix() -> Seq<u8> {
    seq![0x73u8, 0x74u8, 0x61u8, 0x74u8, 0x69u8, 0x63u8, 0x2fu8]
}

/// A request path with one leading separator removed, then the asset prefix
/// removed, each where present.
pub open spec fn normalized(path: Seq<u8>) -> Seq<u8> {
    let p = if path.len() >= 1 && path[0] == slash() {
        path.subrange(1, path.len() as int)
    } else {
        path
    };
    if p.len() >= 7 && p.subrange(0, 7) == static_prefix() {
        p.subrange(7, p.len() as int)
    } else {
        p
    }
}

/// The path as the registry and the asset table look it up.
pub fn normalize_path(path: &[u8]) -> (r: Vec<u8>)
    ensures
        r@ == normalized(path@),
{
    let n = path.len();
    let mut start: usize = 0;
    if n >= 1 && path[0] == 0x2f {
        start = 1;
    }
    let prefix: [u8; 7] = [0x73, 0x74, 0x61, 0x74, 0x69, 0x63, 0x2f];
    if n - start >= 7 && bytes_eq(&path[start..start + 7], &prefix) {
        start = start + 7;
    }
    proof {
        assert(prefix@ =~= static_prefix());
    }
    let mut out: Vec<u8> = Vec::new();
    let mut i: usize = start;
    while i < n
        invariant
            n == path@.len(),
            start <= i <= n,
            out@ == path@.subrange(start as int, i as int),
        decreases n - i,
    {
        out.push(path[i]);
        i = i + 1;
        assert(out@ =~= path@.subrange(start as int, i as int));
    }
    proof {
        let p = if path@.len() >= 1 && path@[0] == slash() {
            path@.subrange(1, path@.len() as int)
        } else {
            path@
        };
        assert(p.len() >= 7 ==> p.subrange(0, 7) =~= path@.subrange(n - p.len(), n - p.len() + 7));
        assert(normalized(path@) =~= path@.subrange(start as int, n as int));
    }
    out
}

/// Whether `text` is wrapped in double quotes (at least two bytes, the first
/// and the last a `"`), byte by byte.
pub open spec fn quoted(text: Seq<u8>) -> bool {
    text.len() >= 2 && text[0] == 0x22u8 && text[text.len() - 1] == 0x22u8
}

/// `a` without its surrounding double quotes, where it has them.
pub fn strip(a: &str) -> (r: String)
    ensures
        quoted(encode_utf8(a@)) ==> encode_utf8(r@) == encode_utf8(a@).subrange(1, encode_utf8(a@).len() - 1),
        !quoted(encode_utf8(a@)) ==> r@ == a@,
{
    let b = a.as_bytes();
    let n = b.len();
    if n >= 2 && b[0] == 0x22 && b[n - 1] == 0x22 {
        proof {
            let bytes = encode_utf8(a@);
            vstd::utf8::encode_utf8_valid_utf8(a@);
            vstd::utf8::is_char_boundary_iff_not_is_continuation_byte(bytes, n - 1);
            vstd::utf8::valid_utf8_split(bytes, n - 1);
            let head = bytes.subrange(0, n - 1);
            assert(head[0] == 0x22u8);
            reveal_with_fuel(vstd::utf8::is_char_boundary, 2);
            reveal_with_fuel(vstd::utf8::valid_utf8, 2);
            assert(vstd::utf8::is_char_boundary(head, 1));
        }
        let (head, _) = a.split_at(n - 1);
        let (_, inner) = head.split_at(1);
        inner.to_owned()
    } else {
        a.to_owned()
    }
}

/// One static resource: its relative path, its MIME type and its bytes.
#[derive(Debug, Clone)]
pub struct Asset {
    pub path: String,
    pub mime: String,
    pub bytes: Vec<u8>,
}

impl Asset {
    /// The request path bytes that address this asset.
    pub open spec fn key(&self) -> Seq<u8> {
        encode_utf8(self.path@)
    }
}

/// Whether no two assets share a path.
pub open spec fn paths_unique(entries: Seq<Asset>) -> bool {
    forall|i: int, j: int|
        0 <= i < j < entries.len() ==> (#[trigger] entries[i]).path@ != (#[trigger] entries[j]).path@
}

/// The table of static assets, keyed by relative path.
#[derive(Debug)]
pub struct AssetTable {
    entries: Vec<Asset>,
}

impl View for AssetTable {
    type V = Seq<Asset>;

    closed spec fn view(&self) -> Seq<Asset> {
        self.entries@
    }
}

impl AssetTable {
    pub open spec fn wf(&self) -> bool {
        paths_unique(self@)
    }

    /// The position of the asset that the normalized path `key` addresses.
    pub open spec fn index_of(&self, key: Seq<u8>) -> Option<usize> {
        if exists|i: int| 0 <= i < self@.len() && (#[trigger] self@[i]).key() == key {
            Some(choose|i: usize| i < self@.len() && (#[trigger] self@[i as int]).key() == key)
        } else {
            None
        }
    }

    /// An empty table.
    pub fn new() -> (r: AssetTable)
        ensures
            r@.len() == 0,
            r.wf(),
    {
        AssetTable { entries: Vec::new() }
    }

    pub fn len(&self) -> (r: usize)
        ensures
            r == self@.len(),
    {
        self.entries.len()
    }

    pub fn entry(&self, i: usize) -> (r: &Asset)
        requires
            i < self@.len(),
        ensures
            *r == self@[i as int],
    {
        &self.entries[i]
    }

    /// Records the file at `path` with its bytes; its type is guessed from the
    /// path. An asset already recorded under that path is replaced in place.
    pub fn insert(&mut self, path: String, bytes: Vec<u8>)
        requires
            old(self).wf(),
        ensures
            final(self).wf(),
            forall|i: int| 0 <= i < old(self)@.len() && (#[trigger] old(self)@[i]).path@ == path@ ==> {
                &&& final(self)@.len() == old(self)@.len()
                &&& final(self)@[i].path@ == path@
                &&& final(self)@[i].mime@ == mime_of(path@)
                &&& final(self)@[i].bytes@ == bytes@
                &&& forall|j: int| 0 <= j < old(self)@.len() && j != i ==> final(self)@[j] == old(self)@[j]
            },
            (forall|i: int| 0 <= i < old(self)@.len() ==> (#[trigger] old(self)@[i]).path@ != path@) ==> {
                &&& final(self)@.len() == old(self)@.len() + 1
                &&& final(self)@.last().path@ == path@
                &&& final(self)@.last().mime@ == mime_of(path@)
                &&& final(self)@.last().bytes@ == bytes@
                &&& forall|j: int| 0 <= j < old(self)@.len() ==> final(self)@[j] == old(self)@[j]
            },
    {
        let mime = guess_mime(path.as_str());
        let mut i: usize = 0;
        while i < self.entries.len()
            invariant
                0 <= i <= self.entries@.len(),
                self.entries@ == old(self)@,
                paths_unique(old(self)@),
                mime@ == mime_of(path@),
                forall|k: int| 0 <= k < i ==> (#[trigger] self.entries@[k]).path@ != path@,
            decreases self.entries@.len() - i,
        {
            if self.entries[i].path.eq(&path) {
                let fresh = Asset { path, mime, bytes };
                self.entries.set(i, fresh);
                assert forall|a: int, b: int|
                    0 <= a < b < self.entries@.len() implies (#[trigger] self.entries@[a]).path@
                        != (#[trigger] self.entries@[b]).path@ by {
                    assert(old(self)@[a].path@ != old(self)@[b].path@);
                }
                assert forall|k: int| 0 <= k < old(self)@.len() && (#[trigger] old(self)@[k]).path@ == path@ implies k == i by {
                    if k < i {
                        assert(old(self)@[k].path@ != path@);
                    } else if k > i {
                        assert(old(self)@[i as int].path@ != old(self)@[k].path@);
                    }
                }
                return;
            }
            i = i + 1;
        }
        self.entries.push(Asset { path, mime, bytes });
    }

    /// The position of the asset that a normalized request path addresses.
    pub fn get(&self, key: &[u8]) -> (r: Option<usize>)
        requires
            self.wf(),
        ensures
            r == self.index_of(key@),
    {
        let mut i: usize = 0;
        while i < self.entries.len()
            invariant
                0 <= i <= self@.len(),
                self@ == self.entries@,
                self.wf(),
                forall|k: int| 0 <= k < i ==> (#[trigger] self@[k]).key() != key@,
            decreases self@.len() - i,
        {
            if bytes_eq(key, self.entries[i].path.as_str().as_bytes()) {
                proof {
                    let c = choose|c: usize| c < self@.len() && (#[trigger] self@[c as int]).key() == key@;
                    lemma_one_asset(self@, c as int, i as int, key@);
                }
                return Some(i);
            }
            i = i + 1;
        }
        None
    }
}

/// In a table with distinct paths, one request path addresses at most one
/// asset.
proof fn lemma_one_asset(entries: Seq<Asset>, a: int, b: int, key: Seq<u8>)
    requires
        paths_unique(entries),
        0 <= a < entries.len(),
        0 <= b < entries.len(),
        entries[a].key() == key,
        entries[b].key() == key,
    ensures
        a == b,
{
    vstd::utf8::encode_utf8_decode_utf8(entries[a].path@);
    vstd::utf8::encode_utf8_decode_utf8(entries[b].path@);
    if a < b {
        assert(entries[a].path@ != entries[b].path@);
    } else if b < a {
        assert(entries[b].path@ != entries[a].path@);
    }
}

} // verus!
