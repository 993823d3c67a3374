use vstd::prelude::*;
use vstd::string::StringExecFns;

verus! {

/// Tag that starts every sandbox and claim name.
pub const NAME_PREFIX: &'static str = "resalloc-";

/// The claim name shared by every sandbox of one namespace and storage class.
pub open spec fn claim_name_of(namespace: Seq<char>, class: Seq<char>) -> Seq<char> {
    NAME_PREFIX@ + namespace + "-"@ + class
}

/// Name of the persistent volume claim for `namespace` and `additional_volume_class`.
pub fn get_pvc_name(namespace: &str, additional_volume_class: &str) -> (r: String)
    ensures
        r@ == claim_name_of(namespace@, additional_volume_class@),
{
    let mut r = String::from_str(NAME_PREFIX);
    r.append(namespace);
    r.append("-");
    r.append(additional_volume_class);
    r
}

pub open spec fn is_lower_hex(c: char) -> bool {
    ('0' <= c && c <= '9') || ('a' <= c && c <= 'f')
}

/// The positions of the four '-' in the hyphenated form of a UUID.
pub open spec fn is_hyphen_position(i: int) -> bool {
    i == 8 || i == 13 || i == 18 || i == 23
}

/// The lowercase hyphenated form of a UUID: 32 hex digits in groups of
/// 8, 4, 4, 4 and 12, joined by '-'.
pub open spec fn is_uuid_text(s: Seq<char>) -> bool {
    &&& s.len() == 36
    &&& forall|i: int|
        0 <= i < 36 ==> if is_hyphen_position(i) {
            #[trigger] s[i] == '-'
        } else {
            is_lower_hex(s[i])
        }
}

/// A sandbox name: the prefix, then a random UUID.
pub open spec fn is_sandbox_name(s: Seq<char>) -> bool {
    &&& s.len() == NAME_PREFIX@.len() + 36
    &&& s.subrange(0, NAME_PREFIX@.len() as int) == NAME_PREFIX@
    &&& is_uuid_text(s.subrange(NAME_PREFIX@.len() as int, s.len() as int))
}

/// Relies on uuid::Uuid::new_v4, a random version-4 UUID, and on its `Display`,
/// which writes the lowercase hyphenated form.
#[verifier::external_body]
fn random_token() -> (r: String)
    ensures
        is_uuid_text(r@),
{
    uuid::Uuid::new_v4().to_string()
}

/// The sandbox name that carries `token`.
pub fn sandbox_name(token: &str) -> (r: String)
    ensures
        r@ == NAME_PREFIX@ + token@,
{
    let mut r = String::from_str(NAME_PREFIX);
    r.append(token);
    r
}

/// A fresh sandbox name. Two calls give different names in practice (122 random
/// bits); no collision test is made.
pub fn new_sandbox_id() -> (r: String)
    ensures
        is_sandbox_name(r@),
{
    let token = random_token();
    let r = sandbox_name(token.as_str());
    assert(r@.subrange(0, NAME_PREFIX@.len() as int) =~= NAME_PREFIX@);
    assert(r@.subrange(NAME_PREFIX@.len() as int, r@.len() as int) =~= token@);
    r
}

} // verus!
