//! The directory that a build works in.
use crate::paths::{below, join_path, PathStyle};
use crate::text::cat2;
use vstd::prelude::*;
use vstd::string::*;

verus! {

/// A hexadecimal digit in lower case.
pub open spec fn is_hex(c: char) -> bool {
    '0' <= c <= '9' || 'a' <= c <= 'f'
}

/// The text of a random UUID: thirty-two hexadecimal digits in five groups, with
/// the marks of its version and its variant.
pub open spec fn is_random_uuid(s: Seq<char>) -> bool {
    &&& s.len() == 36
    &&& s[8] == '-' && s[13] == '-' && s[18] == '-' && s[23] == '-'
    &&& s[14] == '4'
    &&& s[19] == '8' || s[19] == '9' || s[19] == 'a' || s[19] == 'b'
    &&& forall|i: int|
        0 <= i < 36 && i != 8 && i != 13 && i != 18 && i != 23 ==> is_hex(#[trigger] s[i])
}

/// `uuid::Uuid::new_v4`, as its `Display` writes it: lower case, with hyphens.
/// Which one it is depends on chance.
#[verifier::external_body]
fn random_uuid() -> (r: String)
    ensures
        is_random_uuid(r@),
{
    uuid::Uuid::new_v4().to_string()
}

/// The directory of the build with that identifier.
pub open spec fn build_dir_of(temp_dir: Seq<char>, id: Seq<char>, style: PathStyle) -> Seq<char> {
    below(temp_dir, "perry-build-"@ + id, style)
}

/// The directory of the build with that identifier.
pub fn build_dir(temp_dir: &str, id: &str, style: PathStyle) -> (r: String)
    ensures
        r@ == build_dir_of(temp_dir@, id@, style),
{
    join_path(temp_dir, &cat2("perry-build-", id), style)
}

/// A fresh directory for a build, below the directory for temporary files.
pub fn create_build_tmpdir(temp_dir: &str, style: PathStyle) -> (r: String)
    ensures
        exists|id: Seq<char>|
            #[trigger] is_random_uuid(id) && r@ == build_dir_of(temp_dir@, id, style),
{
    let id = random_uuid();
    let r = build_dir(temp_dir, &id, style);
    assert(is_random_uuid(id@));
    r
}

/// Builds with different identifiers work in different directories.
pub proof fn lemma_builds_do_not_share_directories(
    temp_dir: Seq<char>,
    a: Seq<char>,
    b: Seq<char>,
    style: PathStyle,
)
    requires
        a != b,
    ensures
        build_dir_of(temp_dir, a, style) != build_dir_of(temp_dir, b, style),
{
    reveal_strlit("perry-build-");
    let front = "perry-build-"@;
    assert((front + a)[0] == 'p' && (front + a)[1] == 'e');
    assert((front + b)[0] == 'p' && (front + b)[1] == 'e');
    let p = build_dir_of(temp_dir, a, style);
    let q = build_dir_of(temp_dir, b, style);
    if p == q {
        let start = p.len() - a.len();
        assert(p.skip(start) =~= a);
        assert(q.skip(start) =~= b);
    }
}

/// A build works in a directory of its own below that for temporary files, which
/// is named after a random identifier.
pub proof fn lemma_builds_work_in_fresh_directories(
    temp_dir: &str,
    style: PathStyle,
    dir: String,
) -> (id: Seq<char>)
    requires
        call_ensures(create_build_tmpdir, (temp_dir, style), dir),
    ensures
        is_random_uuid(id),
        dir@ == below(temp_dir@, "perry-build-"@ + id, style),
{
    choose|id: Seq<char>|
        #[trigger] is_random_uuid(id) && dir@ == build_dir_of(temp_dir@, id, style)
}

} // verus!
