//! Identifiers that the bridge makes up: of responses and of commands.

use vstd::prelude::*;

verus! {

broadcast use vstd::string::group_string_axioms;

/// Whether `c` is a lower-case hexadecimal digit.
pub open spec fn hex_digit(c: char) -> bool {
    '0' <= c <= '9' || 'a' <= c <= 'f'
}

/// Whether `text` is a random UUID written with hyphens.
pub open spec fn hyphenated_uuid(text: Seq<char>) -> bool {
    &&& text.len() == 36
    &&& forall|i: int|
        0 <= i < 36 ==> if i == 8 || i == 13 || i == 18 || i == 23 {
            #[trigger] text[i] == '-'
        } else {
            hex_digit(text[i])
        }
    &&& text[14] == '4'
    &&& text[19] == '8' || text[19] == '9' || text[19] == 'a' || text[19] == 'b'
}

/// Whether `text` is a random UUID written without hyphens.
pub open spec fn simple_uuid(text: Seq<char>) -> bool {
    &&& text.len() == 32
    &&& forall|i: int| 0 <= i < 32 ==> hex_digit(#[trigger] text[i])
    &&& text[12] == '4'
    &&& text[16] == '8' || text[16] == '9' || text[16] == 'a' || text[16] == 'b'
}

/// Calls `uuid::Uuid::new_v4` and displays the result. The digits are random
/// but for the version, which is 4, and the variant, whose digit is one of
/// four; they are written in lower case with hyphens in their four places. The
/// call panics only where the system has no random bytes to give.
#[verifier::external_body]
fn random_hyphenated() -> (text: String)
    ensures
        hyphenated_uuid(text@),
{
    uuid::Uuid::new_v4().to_string()
}

/// Calls `uuid::Uuid::new_v4` and displays its `simple` form: the digits as
/// they come, without hyphens. The call panics only where the system has no
/// random bytes to give.
#[verifier::external_body]
fn random_simple() -> (text: String)
    ensures
        simple_uuid(text@),
{
    uuid::Uuid::new_v4().simple().to_string()
}

/// The response id that belongs to a UUID.
pub fn request_id_from(uuid: &str) -> (id: String)
    ensures
        id@ == "zcode_warm_"@ + uuid@,
{
    "zcode_warm_".to_owned().concat(uuid)
}

/// A fresh response id.
pub fn new_request_id() -> (id: String)
    ensures
        exists|uuid: Seq<char>| hyphenated_uuid(uuid) && id@ == #[trigger] ("zcode_warm_"@ + uuid),
{
    let uuid = random_hyphenated();
    let id = request_id_from(uuid.as_str());
    assert(hyphenated_uuid(uuid@) && id@ == "zcode_warm_"@ + uuid@);
    id
}

/// A fresh command id.
pub fn new_command_id() -> (id: String)
    ensures
        simple_uuid(id@),
{
    random_simple()
}

/// A response id is its UUID behind a fixed prefix, so that two responses share
/// an id only if they share the UUID.
pub proof fn law_response_ids_differ_as_their_uuids(
    first: &str,
    second: &str,
    first_id: String,
    second_id: String,
)
    requires
        call_ensures(request_id_from, (first,), first_id),
        call_ensures(request_id_from, (second,), second_id),
    ensures
        first_id@ == "zcode_warm_"@ + first@,
        first_id@ == second_id@ ==> first@ == second@,
{
    let prefix = "zcode_warm_"@;
    assert(first_id@.subrange(prefix.len() as int, first_id@.len() as int) =~= first@);
    assert(second_id@.subrange(prefix.len() as int, second_id@.len() as int) =~= second@);
}

} // verus!
