//! The parts of HTTP messages the service decides on, as plain values.

use vstd::prelude::*;
use vstd::utf8::*;

use crate::text::{lower, lowered, same_text};

verus! {

/// One header line.
pub struct Header {
    pub name: String,
    pub value: Vec<u8>,
}

/// The header lines of a message, in order. Names are told apart without regard to
/// the case of ASCII letters.
pub struct Headers {
    pub entries: Vec<Header>,
}

impl View for Headers {
    type V = Seq<(Seq<char>, Seq<u8>)>;

    open spec fn view(&self) -> Seq<(Seq<char>, Seq<u8>)> {
        Seq::new(
            self.entries@.len(),
            |i: int| (self.entries@[i].name@, self.entries@[i].value@),
        )
    }
}

/// The value of the first header called `name`.
pub open spec fn lookup(headers: Seq<(Seq<char>, Seq<u8>)>, name: Seq<char>) -> Option<Seq<u8>>
    decreases headers.len(),
{
    if headers.len() == 0 {
        None
    } else if lowered(headers[0].0) == lowered(name) {
        Some(headers[0].1)
    } else {
        lookup(headers.drop_first(), name)
    }
}

/// The headers not called `name`.
pub open spec fn without(headers: Seq<(Seq<char>, Seq<u8>)>, name: Seq<char>) -> Seq<
    (Seq<char>, Seq<u8>),
>
    decreases headers.len(),
{
    if headers.len() == 0 {
        headers
    } else if lowered(headers.last().0) == lowered(name) {
        without(headers.drop_last(), name)
    } else {
        without(headers.drop_last(), name).push(headers.last())
    }
}

/// The headers after `name` was given the one value `value`.
pub open spec fn inserted(
    headers: Seq<(Seq<char>, Seq<u8>)>,
    name: Seq<char>,
    value: Seq<u8>,
) -> Seq<(Seq<char>, Seq<u8>)> {
    without(headers, name).push((name, value))
}

/// A byte that may stand in a header value at all: everything but control characters,
/// with tab allowed.
pub open spec fn is_header_byte(b: u8) -> bool {
    (32 <= b && b != 127) || b == 9
}

/// Whether every byte may stand in a header value.
pub open spec fn is_header_value(bytes: Seq<u8>) -> bool {
    forall|i: int| 0 <= i < bytes.len() ==> is_header_byte(#[trigger] bytes[i])
}

/// The first header called `name`, read as text: `None` where it is absent or not valid
/// UTF-8.
pub open spec fn text_of(headers: Seq<(Seq<char>, Seq<u8>)>, name: Seq<char>) -> Option<
    Seq<char>,
> {
    match lookup(headers, name) {
        Some(value) => if valid_utf8(value) {
            Some(decode_utf8(value))
        } else {
            None
        },
        None => None,
    }
}

/// The view of an optional text.
pub open spec fn optional_text(text: Option<String>) -> Option<Seq<char>> {
    match text {
        Some(text) => Some(text@),
        None => None,
    }
}

/// Whether a status tells of success.
pub open spec fn is_success(status: u16) -> bool {
    200 <= status < 300
}

impl Headers {
    /// No headers.
    pub fn new() -> (headers: Headers)
        ensures
            headers@ == Seq::<(Seq<char>, Seq<u8>)>::empty(),
    {
        Headers { entries: Vec::new() }
    }

    /// Add a header line behind the others.
    pub fn append(&mut self, name: &str, value: &str)
        ensures
            final(self)@ == old(self)@.push((name@, encode_utf8(value@))),
    {
        let bytes = bytes_of(value);
        self.entries.push(Header { name: name.to_owned(), value: bytes });
        assert(self@ == old(self)@.push((name@, encode_utf8(value@))));
    }

    /// The value of the first header called `name`.
    pub fn get(&self, name: &str) -> (value: Option<&Vec<u8>>)
        ensures
            match value {
                Some(value) => lookup(self@, name@) == Some(value@),
                None => lookup(self@, name@) is None,
            },
    {
        let wanted = lower(name);
        let mut i: usize = 0;
        assert(self@.subrange(0, self@.len() as int) == self@);
        while i < self.entries.len()
            invariant
                i <= self.entries@.len() == self@.len(),
                wanted@ == lowered(name@),
                lookup(self@, name@) == lookup(self@.subrange(i as int, self@.len() as int), name@),
            decreases self.entries@.len() - i,
        {
            let entry = &self.entries[i];
            let own = lower(&entry.name);
            assert(self@[i as int] == (entry.name@, entry.value@));
            assert(self@.subrange(i as int, self@.len() as int).drop_first() == self@.subrange(
                i + 1,
                self@.len() as int,
            ));
            if same_text(&own, &wanted) {
                return Some(&entry.value);
            }
            i = i + 1;
        }
        None
    }

    /// Whether a header called `name` is there.
    pub fn contains_key(&self, name: &str) -> (present: bool)
        ensures
            present == lookup(self@, name@) is Some,
    {
        self.get(name).is_some()
    }

    /// The first header called `name` as text, when present and valid UTF-8.
    pub fn text(&self, name: &str) -> (text: Option<String>)
        ensures
            optional_text(text) == text_of(self@, name@),
    {
        match self.get(name) {
            Some(value) => utf8_text(value),
            None => None,
        }
    }

    /// Give `name` the one value `value`, in place of any it had.
    pub fn insert(&mut self, name: &str, value: Vec<u8>)
        ensures
            final(self)@ == inserted(old(self)@, name@, value@),
    {
        let wanted = lower(name);
        let mut kept: Vec<Header> = Vec::new();
        let mut i: usize = 0;
        assert(self@.subrange(0, 0) == Seq::<(Seq<char>, Seq<u8>)>::empty());
        assert((Headers { entries: kept })@ == Seq::<(Seq<char>, Seq<u8>)>::empty());
        while i < self.entries.len()
            invariant
                i <= self.entries@.len() == self@.len(),
                self@ == old(self)@,
                wanted@ == lowered(name@),
                (Headers { entries: kept })@ == without(self@.subrange(0, i as int), name@),
            decreases self.entries@.len() - i,
        {
            let entry = &self.entries[i];
            let own = lower(&entry.name);
            assert(self@[i as int] == (entry.name@, entry.value@));
            assert(self@.subrange(0, i + 1).drop_last() == self@.subrange(0, i as int));
            if !same_text(&own, &wanted) {
                let ghost before = kept;
                kept.push(Header { name: entry.name.clone(), value: copy_bytes(&entry.value) });
                assert((Headers { entries: kept })@ == (Headers { entries: before })@.push(
                    self@[i as int],
                ));
            }
            i = i + 1;
        }
        assert(self@.subrange(0, i as int) == self@);
        let ghost before = kept;
        kept.push(Header { name: name.to_owned(), value });
        assert((Headers { entries: kept })@ == (Headers { entries: before })@.push(
            (name@, value@),
        ));
        self.entries = kept;
    }
}

/// The UTF-8 bytes of `text`.
pub fn bytes_of(text: &str) -> (bytes: Vec<u8>)
    ensures
        bytes@ == encode_utf8(text@),
{
    copy_bytes(text.as_bytes())
}

/// A copy of `bytes`.
pub fn copy_bytes(bytes: &[u8]) -> (copy: Vec<u8>)
    ensures
        copy@ == bytes@,
{
    let mut copy: Vec<u8> = Vec::new();
    let mut i: usize = 0;
    while i < bytes.len()
        invariant
            i <= bytes@.len(),
            copy@ == bytes@.subrange(0, i as int),
        decreases bytes@.len() - i,
    {
        copy.push(bytes[i]);
        i = i + 1;
    }
    assert(bytes@.subrange(0, i as int) == bytes@);
    copy
}

/// `std::str::from_utf8`: the text that bytes encode. Claims that it reads valid UTF-8 as the
/// text it is, and nothing else.
#[verifier::external_body]
fn utf8_text(bytes: &[u8]) -> (text: Option<String>)
    ensures
        optional_text(text) == (if valid_utf8(bytes@) {
            Some(decode_utf8(bytes@))
        } else {
            None
        }),
{
    std::str::from_utf8(bytes).ok().map(str::to_owned)
}

/// Whether `text` may be sent as a header value.
pub fn sendable(text: &str) -> (r: bool)
    ensures
        r == is_header_value(encode_utf8(text@)),
{
    let bytes = text.as_bytes();
    let mut i: usize = 0;
    while i < bytes.len()
        invariant
            i <= bytes@.len(),
            bytes@ == encode_utf8(text@),
            forall|k: int| 0 <= k < i ==> is_header_byte(#[trigger] bytes@[k]),
        decreases bytes@.len() - i,
    {
        let b: u8 = bytes[i];
        if !((32 <= b && b != 127) || b == 9) {
            assert(!is_header_byte(bytes@[i as int]));
            return false;
        }
        i = i + 1;
    }
    true
}

/// What the service answers a request with.
pub struct Reply {
    pub status: u16,
    pub headers: Headers,
    pub body: Vec<u8>,
}

/// The mathematical value of a [`Reply`].
#[verifier::ext_equal]
pub struct ReplyView {
    pub status: u16,
    pub headers: Seq<(Seq<char>, Seq<u8>)>,
    pub body: Seq<u8>,
}

impl View for Reply {
    type V = ReplyView;

    open spec fn view(&self) -> ReplyView {
        ReplyView { status: self.status, headers: self.headers@, body: self.body@ }
    }
}

/// A reply that is a status and nothing else.
pub open spec fn bare(status: u16) -> ReplyView {
    ReplyView { status, headers: Seq::empty(), body: Seq::empty() }
}

/// `reply` with one header set.
pub open spec fn with_header(reply: ReplyView, name: Seq<char>, value: Seq<u8>) -> ReplyView {
    ReplyView { headers: inserted(reply.headers, name, value), ..reply }
}

impl Reply {
    /// A reply that is a status and nothing else.
    pub fn bare(status: u16) -> (reply: Reply)
        ensures
            reply@ == bare(status),
    {
        Reply { status, headers: Headers::new(), body: Vec::new() }
    }

    /// Whether the status tells of success.
    pub fn is_success(&self) -> (r: bool)
        ensures
            r == is_success(self.status),
    {
        200 <= self.status && self.status < 300
    }
}

/// The parts of a request that the service decides on, its body apart.
pub struct RequestHead {
    /// The method, as sent.
    pub method: String,
    /// The scheme of the request target, where it names one.
    pub scheme: Option<String>,
    /// The authority of the request target, where it names one.
    pub authority: Option<String>,
    /// The path of the request target, without the query.
    pub path: String,
    /// Path and query of the request target as sent, where it has them.
    pub path_and_query: Option<String>,
    pub headers: Headers,
}

/// One header more behind the others is found only where none before it has the name.
pub(crate) proof fn lemma_lookup_push(
    headers: Seq<(Seq<char>, Seq<u8>)>,
    last: (Seq<char>, Seq<u8>),
    name: Seq<char>,
)
    ensures
        lookup(headers.push(last), name) == (if lookup(headers, name) is Some {
            lookup(headers, name)
        } else if lowered(last.0) == lowered(name) {
            Some(last.1)
        } else {
            None
        }),
    decreases headers.len(),
{
    reveal_with_fuel(lookup, 2);
    if headers.len() > 0 {
        assert(headers.push(last).drop_first() == headers.drop_first().push(last));
        lemma_lookup_push(headers.drop_first(), last, name);
    } else {
        assert(headers.push(last).drop_first() == Seq::<(Seq<char>, Seq<u8>)>::empty());
    }
}

/// Dropping the headers of one name leaves every other name's value.
proof fn lemma_lookup_without(
    headers: Seq<(Seq<char>, Seq<u8>)>,
    dropped: Seq<char>,
    name: Seq<char>,
)
    ensures
        lookup(without(headers, dropped), name) == (if lowered(dropped) == lowered(name) {
            None
        } else {
            lookup(headers, name)
        }),
    decreases headers.len(),
{
    if headers.len() > 0 {
        lemma_lookup_without(headers.drop_last(), dropped, name);
        lemma_lookup_push(headers.drop_last(), headers.last(), name);
        assert(headers.drop_last().push(headers.last()) == headers);
        lemma_lookup_push(without(headers.drop_last(), dropped), headers.last(), name);
    }
}

/// A header that was set is read back, and no header of another name changes.
pub proof fn set_header_is_read_back(
    headers: Seq<(Seq<char>, Seq<u8>)>,
    name: Seq<char>,
    value: Seq<u8>,
    other: Seq<char>,
)
    ensures
        lookup(inserted(headers, name, value), name) == Some(value),
        lowered(other) != lowered(name) ==> lookup(inserted(headers, name, value), other)
            == lookup(headers, other),
{
    lemma_lookup_without(headers, name, name);
    lemma_lookup_push(without(headers, name), (name, value), name);
    lemma_lookup_without(headers, name, other);
    lemma_lookup_push(without(headers, name), (name, value), other);
}

} // verus!
