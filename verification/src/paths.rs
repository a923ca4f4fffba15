//! Relative paths, as the strings they are. Joining is delegated to the
//! path library; its behaviour is small enough to state exactly.
use vstd::prelude::*;

verus! {

/// What joining two relative paths yields: one leading separator of the
/// right operand is dropped, and a single separator stands between the two
/// parts when the left one is neither empty nor already ending in one.
pub open spec fn spec_path_join(a: Seq<char>, b: Seq<char>) -> Seq<char> {
    let bb = if b.len() > 0 && b[0] == '/' {
        b.skip(1)
    } else {
        b
    };
    if a.len() == 0 {
        bb
    } else if a[a.len() - 1] == '/' {
        a + bb
    } else {
        a + seq!['/'] + bb
    }
}

/// Relies on `relative_path::RelativePath::join` (via `RelativePathBuf::push`):
/// it strips one leading separator from the right operand and inserts a
/// single separator when the left operand is non-empty and lacks one.
#[verifier::external_body]
pub fn rel_join(a: &str, b: &str) -> (r: String)
    ensures
        r@ == spec_path_join(a@, b@),
{
    relative_path::RelativePath::new(a).join(b).into_string()
}

} // verus!
