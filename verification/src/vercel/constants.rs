use vstd::prelude::*;

verus! {

/// The base URL of the artifact endpoints of the remote cache.
pub const REMOTE_CACHE_ENDPOINT: &'static str = "https://api.vercel.com/v8/artifacts";

/// The hash under which the build artifacts of a project are stored.
pub const FASTN_VERCEL_REMOTE_CACHE_HASH: &'static str = "fastn-vercel-remote-cache";

/// The artifact hash names a single artifact: it holds no `/`.
pub proof fn lemma_cache_hash_has_no_slash()
    ensures
        !FASTN_VERCEL_REMOTE_CACHE_HASH@.contains('/'),
{
    reveal_strlit("fastn-vercel-remote-cache");
    assert(FASTN_VERCEL_REMOTE_CACHE_HASH@.len() == 25);
    assert forall|i: int| 0 <= i < 25 implies FASTN_VERCEL_REMOTE_CACHE_HASH@[i] != '/' by {
        reveal_strlit("fastn-vercel-remote-cache");
    }
}

} // verus!
