use vstd::prelude::*;

verus! {

use vstd::string::StringExecFns;

/// A lower-case hexadecimal digit.
pub open spec fn is_lower_hex_digit(c: char) -> bool {
    ('0' <= c && c <= '9') || ('a' <= c && c <= 'f')
}

/// The text of a hyphenated UUID: 36 characters, hyphens at positions
/// 8, 13, 18 and 23, lower-case hexadecimal digits everywhere else.
pub open spec fn is_uuid_text(s: Seq<char>) -> bool {
    &&& s.len() == 36
    &&& forall|i: int|
        0 <= i < 36 ==> (if i == 8 || i == 13 || i == 18 || i == 23 {
            s[i] == '-'
        } else {
            is_lower_hex_digit(s[i])
        })
}

/// A generated asset file name: a UUID text, a dot, then the extension.
pub open spec fn is_generated_name(n: Seq<char>, ext: Seq<char>) -> bool {
    &&& n.len() == 37 + ext.len()
    &&& is_uuid_text(n.subrange(0, 36))
    &&& n[36] == '.'
    &&& n.subrange(37, n.len() as int) == ext
}

/// Relies on `uuid::Uuid::new_v4` and the `Display` form of `uuid::Uuid`:
/// a freshly drawn random UUID rendered hyphenated and lower-case, which is
/// always 36 characters with hyphens at positions 8, 13, 18 and 23 and
/// lower-case hexadecimal digits elsewhere. The value drawn is random, so
/// nothing beyond that shape is stated.
#[verifier::external_body]
fn fresh_uuid_text() -> (r: String)
    ensures
        is_uuid_text(r@),
{
    uuid::Uuid::new_v4().to_string()
}

/// Generates a storage name for a new asset: a freshly drawn UUID joined
/// with the caller's extension. Collision freedom rests on the UUID draw;
/// no existence check is made.
pub fn generate_asset_name(extension: &str) -> (r: String)
    ensures
        is_generated_name(r@, extension@),
{
    let mut r = fresh_uuid_text();
    let ghost u = r@;
    r.append(".");
    r.append(extension);
    proof {
        reveal_strlit(".");
        assert(r@.subrange(0, 36) =~= u);
        assert(r@.subrange(37, r@.len() as int) =~= extension@);
    }
    r
}

/// Joins the serving directory and a generated file name into the stable
/// reference stored on a post.
pub fn asset_reference(dir: &str, file_name: &str) -> (r: String)
    ensures
        r@ == dir@ + seq!['/'] + file_name@,
{
    let mut r = dir.to_owned();
    r.append("/");
    r.append(file_name);
    proof {
        reveal_strlit("/");
        assert(r@ =~= dir@ + seq!['/'] + file_name@);
    }
    r
}

/// Two generated names with the same extension differ whenever their UUID
/// parts differ: the construction never maps distinct draws to one name.
/// Distinctness of the draws themselves is probabilistic and is not stated.
pub proof fn lemma_distinct_uuid_distinct_name(n1: Seq<char>, n2: Seq<char>, ext: Seq<char>)
    requires
        is_generated_name(n1, ext),
        is_generated_name(n2, ext),
        n1.subrange(0, 36) != n2.subrange(0, 36),
    ensures
        n1 != n2,
{
    if n1 == n2 {
        assert(n1.subrange(0, 36) =~= n2.subrange(0, 36));
    }
}

} // verus!
