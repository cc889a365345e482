//! Header maps. The map is `hyper::header::Headers`; what the library needs
//! of it is stated here over the list of its fields.

use hyper::header::{Authorization, Basic, Headers};
use std::fmt::Write;
use vstd::prelude::*;
use vstd::utf8::{encode_utf8, valid_utf8};

verus! {

/// `hyper::header::Headers`, seen only through `header_fields`.
#[verifier::external_type_specification]
#[verifier::external_body]
pub struct ExHeaders(Headers);

/// `std::string::FromUtf8Error`, of which nothing is read.
#[verifier::external_type_specification]
#[verifier::external_body]
pub struct ExFromUtf8Error(std::string::FromUtf8Error);

/// One header field: its name as it was given, and its raw values.
pub type Field = (Seq<char>, Seq<Seq<u8>>);

/// The fields of a header map in the map's own order, each with the raw
/// values that `Headers::get_raw` hands out for it.
pub uninterp spec fn header_fields(h: Headers) -> Seq<Field>;

/// The raw value of the `Authorization` header that hyper writes for the
/// `Basic` scheme with this user name and password.
pub uninterp spec fn basic_authorization(username: Seq<char>, password: Option<Seq<char>>) -> Seq<
    u8,
>;

/// What hyper prints for a header field with this name and these raw values:
/// the text of `HeaderView`'s `Display`, or `None` where that reports an error.
pub uninterp spec fn header_line(name: Seq<char>, values: Seq<Seq<u8>>) -> Option<Seq<char>>;

/// An ASCII capital as its small letter; any other character as it is.
pub open spec fn lower(c: char) -> char {
    if 'A' <= c && c <= 'Z' {
        ((c as u8) + 32) as char
    } else {
        c
    }
}

/// Whether two names are the same but for the case of their ASCII letters.
pub open spec fn same_name(a: Seq<char>, b: Seq<char>) -> bool {
    &&& a.len() == b.len()
    &&& forall|i: int| 0 <= i < a.len() ==> lower(#[trigger] a[i]) == lower(b[i])
}

/// The place of the first field of `fields` whose name is `name` but for
/// case, or the length of `fields` where there is none.
pub open spec fn field_index(fields: Seq<Field>, name: Seq<char>) -> int
    decreases fields.len(),
{
    if fields.len() == 0 {
        0
    } else if same_name(fields[0].0, name) {
        0
    } else {
        1 + field_index(fields.drop_first(), name)
    }
}

/// The raw values of the first field named `name`, if there is one.
pub open spec fn find_field(fields: Seq<Field>, name: Seq<char>) -> Option<Seq<Seq<u8>>> {
    let at = field_index(fields, name);
    if at < fields.len() {
        Some(fields[at].1)
    } else {
        None
    }
}

/// `fields` with the field `name` set to `values`: in the place of the first
/// field of that name, or at the end where there is none.
pub open spec fn put_field(fields: Seq<Field>, name: Seq<char>, values: Seq<Seq<u8>>) -> Seq<
    Field,
> {
    let at = field_index(fields, name);
    if at < fields.len() {
        fields.update(at, (name, values))
    } else {
        fields.push((name, values))
    }
}

/// The bytes of each of a list of byte strings.
pub open spec fn raw_view(values: Seq<Vec<u8>>) -> Seq<Seq<u8>> {
    Seq::new(values.len(), |i: int| values[i]@)
}

/// The fields that a list of names and raw values stands for.
pub open spec fn entries_view(entries: Seq<(String, Vec<Vec<u8>>)>) -> Seq<Field> {
    Seq::new(entries.len(), |i: int| (entries[i].0@, raw_view(entries[i].1@)))
}

/// A field that was put can be found again under its name, with the values
/// that were put.
pub proof fn lemma_put_then_find(fields: Seq<Field>, name: Seq<char>, values: Seq<Seq<u8>>)
    ensures
        find_field(put_field(fields, name, values), name) == Some(values),
    decreases fields.len(),
{
    lemma_field_index(fields, name);
    let at = field_index(fields, name);
    let after = put_field(fields, name, values);
    lemma_field_index_is(after, name, at);
}

/// A field that was put leaves a field of another name as it was.
pub proof fn lemma_put_keeps(
    fields: Seq<Field>,
    name: Seq<char>,
    values: Seq<Seq<u8>>,
    other: Seq<char>,
)
    requires
        !same_name(name, other),
    ensures
        find_field(put_field(fields, name, values), other) == find_field(fields, other),
{
    lemma_field_index(fields, name);
    lemma_field_index(fields, other);
    let at = field_index(fields, name);
    let found = field_index(fields, other);
    let after = put_field(fields, name, values);
    if found < fields.len() {
        assert(found != at) by {
            if found == at {
                lemma_same_name_chain(name, fields[at].0, other);
            }
        }
        lemma_field_index_is(after, other, found);
    } else {
        lemma_field_index_is(after, other, after.len() as int);
    }
}

/// Names that are the same but for case as a third are so as each other.
pub proof fn lemma_same_name_chain(a: Seq<char>, b: Seq<char>, c: Seq<char>)
    requires
        same_name(b, a),
        same_name(b, c),
    ensures
        same_name(a, c),
{
    assert forall|i: int| 0 <= i < a.len() implies lower(#[trigger] a[i]) == lower(c[i]) by {
        assert(lower(b[i]) == lower(a[i]));
    }
}

/// `field_index` is the first place that holds the name.
pub proof fn lemma_field_index(fields: Seq<Field>, name: Seq<char>)
    ensures
        0 <= field_index(fields, name) <= fields.len(),
        field_index(fields, name) < fields.len() ==> same_name(
            fields[field_index(fields, name)].0,
            name,
        ),
        forall|i: int| 0 <= i < field_index(fields, name) ==> !same_name(fields[i].0, name),
    decreases fields.len(),
{
    if fields.len() > 0 && !same_name(fields[0].0, name) {
        let rest = fields.drop_first();
        lemma_field_index(rest, name);
        assert forall|i: int| 0 <= i < field_index(fields, name) implies !same_name(
            fields[i].0,
            name,
        ) by {
            if i > 0 {
                assert(rest[i - 1] == fields[i]);
            }
        }
    }
}

/// The first place that holds the name is `field_index`.
pub proof fn lemma_field_index_is(fields: Seq<Field>, name: Seq<char>, at: int)
    requires
        0 <= at <= fields.len(),
        at < fields.len() ==> same_name(fields[at].0, name),
        forall|i: int| 0 <= i < at ==> !same_name(fields[i].0, name),
    ensures
        field_index(fields, name) == at,
    decreases fields.len(),
{
    if fields.len() > 0 && at > 0 {
        let rest = fields.drop_first();
        lemma_field_index_is(rest, name, at - 1);
    }
}

/// `Headers::new`: a map without fields.
#[verifier::external_body]
pub(crate) fn headers_new() -> (h: Headers)
    ensures
        header_fields(h) == Seq::<Field>::empty(),
{
    Headers::new()
}

/// `Headers::set_raw`: the field of that name, compared without regard to
/// ASCII case, is replaced where it stands, name and values; where there is
/// none, the field is added at the end.
#[verifier::external_body]
pub(crate) fn headers_set_raw(h: &mut Headers, name: String, values: Vec<Vec<u8>>)
    ensures
        header_fields(*final(h)) == put_field(header_fields(*old(h)), name@, raw_view(values@)),
{
    h.set_raw(name, values)
}

/// `Headers::set` with `Authorization<Basic>`: the field `Authorization` is
/// set as by `set_raw`, to the one value that hyper writes for the scheme.
#[verifier::external_body]
pub(crate) fn headers_set_basic(h: &mut Headers, username: String, password: Option<String>)
    ensures
        header_fields(*final(h)) == put_field(
            header_fields(*old(h)),
            "Authorization"@,
            seq![basic_authorization(username@, crate::utils::text_of(password))],
        ),
{
    h.set(Authorization(Basic { username, password }))
}

/// `Headers::get_raw`: the raw values of the first field whose name is
/// `name` but for ASCII case.
#[verifier::external_body]
pub(crate) fn headers_get_raw(h: &Headers, name: &str) -> (r: Option<Vec<Vec<u8>>>)
    ensures
        match r {
            Some(values) => find_field(header_fields(*h), name@) == Some(raw_view(values@)),
            None => find_field(header_fields(*h), name@) is None,
        },
{
    h.get_raw(name).map(|values| values.to_vec())
}

/// `Headers::iter`: the fields in the map's order, each with the name that
/// `HeaderView::name` gives and the raw values that `get_raw` gives for it.
#[verifier::external_body]
pub(crate) fn headers_entries(h: &Headers) -> (entries: Vec<(String, Vec<Vec<u8>>)>)
    ensures
        entries_view(entries@) == header_fields(*h),
{
    h.iter().map(
        |view| (view.name().to_owned(), h.get_raw(view.name()).unwrap_or(&[]).to_vec()),
    ).collect()
}

/// `Clone` for `Headers`: a map with the same fields.
pub assume_specification[ <Headers as Clone>::clone ](h: &Headers) -> (r: Headers)
    ensures
        header_fields(r) == header_fields(*h),
;

/// The `Display` of the `HeaderView` of a field with this name and these raw
/// values, in a map that holds nothing else; `None` where it reports an
/// error.
#[verifier::external_body]
pub(crate) fn print_field(name: String, values: Vec<Vec<u8>>) -> (line: Option<String>)
    ensures
        crate::utils::text_of(line) == header_line(name@, raw_view(values@)),
{
    let mut h = Headers::new();
    h.set_raw(name, values);
    let mut line = String::new();
    h.iter().next().and_then(|view| write!(line, "{}", view).ok()).map(|_| line)
}

/// `String::from_utf8`: the string whose UTF-8 encoding the bytes are, or
/// an error where they are not valid UTF-8.
#[verifier::external_body]
pub(crate) fn string_from_utf8(bytes: Vec<u8>) -> (r: Result<String, std::string::FromUtf8Error>)
    ensures
        match r {
            Ok(s) => valid_utf8(bytes@) && encode_utf8(s@) == bytes@,
            Err(_) => !valid_utf8(bytes@),
        },
{
    String::from_utf8(bytes)
}

} // verus!
