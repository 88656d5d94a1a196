//! What reading and setting headers guarantees.

use vstd::prelude::*;
use vstd::utf8::*;

use crate::guarantees::texts::{alike, lowering_forgets_case_alone};
use crate::http::{inserted, lookup, sendable, text_of, without, Header, Headers, Reply};

verus! {

/// Whether the header at `i` is the first called `name`, the case of ASCII letters aside.
pub open spec fn is_first(headers: Seq<Header>, name: Seq<char>, i: int) -> bool {
    &&& 0 <= i < headers.len()
    &&& alike(headers[i].name@, name)
    &&& forall|j: int| 0 <= j < i ==> !alike((#[trigger] headers[j]).name@, name)
}

/// Whether no header is called `name`.
pub open spec fn is_absent(headers: Seq<Header>, name: Seq<char>) -> bool {
    forall|i: int| 0 <= i < headers.len() ==> !alike((#[trigger] headers[i]).name@, name)
}

/// Whether the first header called `name` has these bytes.
pub open spec fn has(headers: Seq<Header>, name: Seq<char>, value: Seq<u8>) -> bool {
    exists|i: int| #[trigger] is_first(headers, name, i) && headers[i].value@ == value
}

/// Whether the first header called `name` says this text.
pub open spec fn says(headers: Seq<Header>, name: Seq<char>, text: Seq<char>) -> bool {
    has(headers, name, encode_utf8(text))
}

/// Whether no header called `name` is there, or the first is no text.
pub open spec fn says_nothing(headers: Seq<Header>, name: Seq<char>) -> bool {
    forall|text: Seq<char>| !says(headers, name, text)
}

/// The headers of a message as they are listed: each name with its value, in order.
pub proof fn headers_are_seen_as_they_are(headers: Headers, i: int)
    ensures
        headers@.len() == headers.entries@.len(),
        0 <= i < headers.entries@.len() ==> headers@[i] == (
            headers.entries@[i].name@,
            headers.entries@[i].value@,
        ),
{
}

proof fn lemma_lookup_from(headers: Headers, name: Seq<char>, from: int)
    requires
        0 <= from <= headers.entries@.len(),
        forall|j: int| 0 <= j < from ==> !alike((#[trigger] headers.entries@[j]).name@, name),
    ensures
        match lookup(headers@.subrange(from, headers@.len() as int), name) {
            Some(value) => has(headers.entries@, name, value),
            None => is_absent(headers.entries@, name),
        },
    decreases headers.entries@.len() - from,
{
    let rest = headers@.subrange(from, headers@.len() as int);
    if from < headers.entries@.len() {
        assert(rest[0] == (headers.entries@[from].name@, headers.entries@[from].value@));
        assert(rest.drop_first() =~= headers@.subrange(from + 1, headers@.len() as int));
        lowering_forgets_case_alone(headers.entries@[from].name@, name);
        if alike(headers.entries@[from].name@, name) {
            assert(is_first(headers.entries@, name, from));
        } else {
            lemma_lookup_from(headers, name, from + 1);
        }
    }
}

/// A header is found whatever the case of its name, and of several the first.
pub(crate) proof fn lemma_lookup(headers: Headers, name: Seq<char>)
    ensures
        match lookup(headers@, name) {
            Some(value) => has(headers.entries@, name, value) && !is_absent(
                headers.entries@,
                name,
            ),
            None => is_absent(headers.entries@, name),
        },
        forall|value: Seq<u8>|
            has(headers.entries@, name, value) ==> lookup(headers@, name) == Some(value),
{
    assert(headers@.subrange(0, headers@.len() as int) =~= headers@);
    lemma_lookup_from(headers, name, 0);
    assert forall|value: Seq<u8>| has(headers.entries@, name, value) implies lookup(headers@, name)
        == Some(value) by {
        let i = choose|i: int|
            #[trigger] is_first(headers.entries@, name, i) && headers.entries@[i].value@ == value;
        assert(alike(headers.entries@[i].name@, name));
        if let Some(found) = lookup(headers@, name) {
            let k = choose|k: int|
                #[trigger] is_first(headers.entries@, name, k) && headers.entries@[k].value@
                    == found;
            if i < k {
                assert(!alike(headers.entries@[i].name@, name));
            }
            if k < i {
                assert(!alike(headers.entries@[k].name@, name));
            }
        }
    }
}

/// The text of a header is what its first value encodes.
pub(crate) proof fn lemma_text(headers: Headers, name: Seq<char>)
    ensures
        match text_of(headers@, name) {
            Some(text) => says(headers.entries@, name, text),
            None => says_nothing(headers.entries@, name),
        },
        forall|text: Seq<char>|
            says(headers.entries@, name, text) ==> text_of(headers@, name) == Some(text),
{
    lemma_lookup(headers, name);
    assert forall|text: Seq<char>| says(headers.entries@, name, text) implies text_of(
        headers@,
        name,
    ) == Some(text) by {
        encode_utf8_valid_utf8(text);
        encode_utf8_decode_utf8(text);
    }
    if let Some(value) = lookup(headers@, name) {
        if valid_utf8(value) {
            decode_utf8_encode_utf8(value);
        }
    }
}

/// Looking a header up finds the first of its name, whatever the case of the name and
/// whatever other headers there are, and finds nothing exactly where none has the name.
pub proof fn a_header_is_found_by_its_name(headers: &Headers, name: &str, value: Option<&Vec<u8>>)
    requires
        call_ensures(Headers::get, (headers, name), value),
    ensures
        match value {
            Some(value) => has(headers.entries@, name@, value@),
            None => is_absent(headers.entries@, name@),
        },
{
    lemma_lookup(*headers, name@);
}

/// A header is there exactly where one has the name.
pub proof fn a_header_is_there_where_one_has_the_name(headers: &Headers, name: &str, there: bool)
    requires
        call_ensures(Headers::contains_key, (headers, name), there),
    ensures
        there <==> !is_absent(headers.entries@, name@),
{
    lemma_lookup(*headers, name@);
}

/// A header's text is the very text that its first value encodes, and there is none exactly
/// where the header is missing or encodes no text.
pub proof fn a_header_is_read_verbatim(headers: &Headers, name: &str, text: Option<String>)
    requires
        call_ensures(Headers::text, (headers, name), text),
    ensures
        match text {
            Some(text) => says(headers.entries@, name@, text@),
            None => says_nothing(headers.entries@, name@),
        },
{
    lemma_text(*headers, name@);
}

proof fn lemma_without(headers: Seq<(Seq<char>, Seq<u8>)>, name: Seq<char>)
    ensures
        without(headers, name) == headers.filter(
            |header: (Seq<char>, Seq<u8>)| !alike(header.0, name),
        ),
    decreases headers.len(),
{
    reveal(Seq::filter);
    if headers.len() > 0 {
        lemma_without(headers.drop_last(), name);
        lowering_forgets_case_alone(headers.last().0, name);
    } else {
        assert(headers =~= Seq::empty());
    }
}

/// Setting a header takes away those of its name and no other, leaves the others in their
/// order, and puts the new value last.
pub proof fn setting_a_header_replaces_its_name_alone(
    headers: Seq<(Seq<char>, Seq<u8>)>,
    name: Seq<char>,
    value: Seq<u8>,
)
    ensures
        inserted(headers, name, value) == headers.filter(
            |header: (Seq<char>, Seq<u8>)| !alike(header.0, name),
        ).push((name, value)),
{
    lemma_without(headers, name);
}

/// The same of the headers themselves: what was set is found, and whatever had another name
/// is found as before.
pub proof fn a_header_that_was_set_is_found(
    headers: &mut Headers,
    name: &str,
    value: Vec<u8>,
    other: Seq<char>,
)
    requires
        call_ensures(Headers::insert, (headers, name, value), ()),
    ensures
        has(final(headers).entries@, name@, value@),
        !alike(other, name@) ==> forall|found: Seq<u8>|
            has(final(headers).entries@, other, found) <==> has(
                old(headers).entries@,
                other,
                found,
            ),
        final(headers)@ == old(headers)@.filter(
            |header: (Seq<char>, Seq<u8>)| !alike(header.0, name@),
        ).push((name@, value@)),
{
    setting_a_header_replaces_its_name_alone(old(headers)@, name@, value@);
    lowering_forgets_case_alone(other, name@);
    crate::http::set_header_is_read_back(old(headers)@, name@, value@, other);
    lemma_lookup(*final(headers), name@);
    lemma_lookup(*final(headers), other);
    lemma_lookup(*old(headers), other);
}

/// A header that is added stands behind the others, which stay as they were.
pub proof fn a_header_is_added_last(headers: &mut Headers, name: &str, value: &str)
    requires
        call_ensures(Headers::append, (headers, name, value), ()),
    ensures
        final(headers)@ == old(headers)@.push((name@, encode_utf8(value@))),
{
}

/// A fresh list of headers is empty, and a bare reply is a status without headers or body.
pub proof fn a_bare_reply_is_a_status(headers: Headers, status: u16, reply: Reply)
    requires
        call_ensures(Headers::new, (), headers),
        call_ensures(Reply::bare, (status,), reply),
    ensures
        headers.entries@.len() == 0,
        reply.status == status,
        reply.headers.entries@.len() == 0,
        reply.body@.len() == 0,
{
    assert(headers@.len() == 0);
    assert(reply.headers@.len() == 0);
}

/// A text can be sent as a header exactly where it holds no control character but tabs.
pub proof fn only_control_characters_cannot_be_sent(text: &str, can: bool)
    requires
        call_ensures(sendable, (text,), can),
    ensures
        can <==> forall|i: int|
            0 <= i < encode_utf8(text@).len() ==> {
                let byte = #[trigger] encode_utf8(text@)[i];
                byte == 9 || (byte > 31 && byte != 127)
            },
{
    if !can {
        let bytes = encode_utf8(text@);
        let i = choose|i: int|
            0 <= i < bytes.len() && !crate::http::is_header_byte(#[trigger] bytes[i]);
        assert(!(bytes[i] == 9 || (bytes[i] > 31 && bytes[i] != 127)));
    }
}

/// A status tells of success exactly from 200 up to 299.
pub proof fn success_is_told_by_the_two_hundreds(reply: &Reply, success: bool)
    requires
        call_ensures(Reply::is_success, (reply,), success),
    ensures
        reply.status < 200 ==> !success,
        reply.status >= 300 ==> !success,
        200 <= reply.status <= 299 ==> success,
{
}

} // verus!
