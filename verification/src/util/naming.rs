//! Document identifiers and their textual labels.

use uuid::Uuid;
use vstd::prelude::*;

verus! {

/// `uuid::Uuid`, carried through as an opaque value.
#[verifier::external_type_specification]
#[verifier::external_body]
pub struct ExUuid(uuid::Uuid);

/// `uuid::Error`, carried through as an opaque value.
#[verifier::external_type_specification]
#[verifier::external_body]
pub struct ExUuidError(uuid::Error);

/// The sixteen bytes that an identifier holds, in the order in which they
/// are written out.
pub uninterp spec fn uuid_bytes(id: uuid::Uuid) -> Seq<u8>;

/// The identifier that `Uuid::parse_str` reads from a text, where it reads one.
pub uninterp spec fn parsed_uuid(text: Seq<char>) -> Option<uuid::Uuid>;

/// The sixteen lower-case hexadecimal digits.
pub open spec fn hex_digits() -> Seq<char> {
    seq!['0', '1', '2', '3', '4', '5', '6', '7', '8', '9', 'a', 'b', 'c', 'd', 'e', 'f']
}

/// Bytes written as lower-case hexadecimal digits, two per byte, high half
/// first, with nothing in between.
pub open spec fn simple_form(bytes: Seq<u8>) -> Seq<char> {
    Seq::new(
        2 * bytes.len(),
        |i: int|
            hex_digits()[if i % 2 == 0 {
                bytes[i / 2] as int / 16
            } else {
                bytes[i / 2] as int % 16
            }],
    )
}

/// Sixteen bytes written in the usual 8-4-4-4-12 form: the digits of
/// `simple_form`, in groups separated by hyphens.
pub open spec fn hyphenated_form(bytes: Seq<u8>) -> Seq<char> {
    let s = simple_form(bytes);
    s.subrange(0, 8) + seq!['-'] + s.subrange(8, 12) + seq!['-'] + s.subrange(12, 16) + seq!['-']
        + s.subrange(16, 20) + seq!['-'] + s.subrange(20, 32)
}

/// Sixteen zero bytes.
pub open spec fn zero_bytes() -> Seq<u8> {
    Seq::new(16, |i: int| 0u8)
}

/// The message that stands for every text that is no identifier.
pub open spec fn invalid_form_message() -> Seq<char> {
    "Invalid uuid form"@
}

/// Calls `Uuid::nil`, which builds the identifier whose sixteen bytes are
/// all zero.
#[verifier::external_body]
fn nil_uuid() -> (id: Uuid)
    ensures
        uuid_bytes(id) == zero_bytes(),
{
    Uuid::nil()
}

/// Calls `Uuid::new_v4`, which fills sixteen bytes from the system's random
/// source and then sets the version to 4 and the variant to RFC 4122.
/// Nothing else is known of the result. The call panics where the system
/// has no random source to give.
#[verifier::external_body]
pub(crate) fn random_uuid() -> (id: Uuid)
    ensures
        uuid_bytes(id).len() == 16,
        uuid_bytes(id)[6] / 16 == 4,
        uuid_bytes(id)[8] / 64 == 2,
{
    Uuid::new_v4()
}

/// Calls `Uuid::to_simple` and formats the adapter: thirty-two lower-case
/// hexadecimal digits. `Uuid::parse_str` is documented to read every form
/// that the crate writes.
#[verifier::external_body]
fn simple_text(id: &Uuid) -> (text: String)
    ensures
        text@ == simple_form(uuid_bytes(*id)),
        parsed_uuid(text@) == Some(*id),
{
    id.to_simple().to_string()
}

/// Formats an identifier with `Display`, which writes the hyphenated
/// lower-case form. `Uuid::parse_str` is documented to read every form that
/// the crate writes.
#[verifier::external_body]
pub(crate) fn hyphenated_text(id: &Uuid) -> (text: String)
    ensures
        text@ == hyphenated_form(uuid_bytes(*id)),
        parsed_uuid(text@) == Some(*id),
{
    id.to_string()
}

/// Calls `Uuid::parse_str`.
#[verifier::external_body]
pub(crate) fn parse_uuid(text: &str) -> (r: Result<Uuid, uuid::Error>)
    ensures
        match r {
            Ok(id) => parsed_uuid(text@) == Some(id),
            Err(_) => parsed_uuid(text@) is None,
        },
{
    Uuid::parse_str(text)
}

/// The label of an identifier: its bytes as thirty-two hexadecimal digits.
pub fn uuid_to_label(id: &Uuid) -> (label: String)
    ensures
        label@ == simple_form(uuid_bytes(*id)),
        parsed_uuid(label@) == Some(*id),
{
    simple_text(id)
}

/// What a parse comes to: the identifier, or the one message that stands for
/// every failure.
pub fn label_from_parse(parsed: Result<Uuid, uuid::Error>) -> (r: Result<
    Uuid,
    String,
>)
    ensures
        match parsed {
            Ok(id) => r == Ok::<Uuid, String>(id),
            Err(_) => r is Err && r->Err_0@ == invalid_form_message(),
        },
{
    match parsed {
        Ok(id) => Ok(id),
        Err(_) => Err("Invalid uuid form".to_owned()),
    }
}

/// Reads an identifier from a label in any of the forms that identifiers are
/// written in.
pub fn label_to_uuid(id: &str) -> (r: Result<Uuid, String>)
    ensures
        match parsed_uuid(id@) {
            Some(u) => r == Ok::<Uuid, String>(u),
            None => r is Err && r->Err_0@ == invalid_form_message(),
        },
{
    label_from_parse(parse_uuid(id))
}

/// The identifier that stands for "none": all bytes zero.
pub fn empty_uuid() -> (id: Uuid)
    ensures
        uuid_bytes(id) == zero_bytes(),
{
    nil_uuid()
}

} // verus!
