//! What holds of tiers, sandbox configurations and the in-memory store
//! across their operations.
use vstd::prelude::*;

use super::mock::{creation, moved_to, snapshot_stored, MockStore};
use super::{
    same_sandbox, same_snapshot, tier_cpus, tier_memory, tier_name, tier_named, NanovmsError,
    Sandbox, SandboxConfig, SandboxState, Snapshot, Tier,
};
use crate::common::clock::Timestamp;
use crate::common::text::{ascii_lowered, is_ascii_text};

verus! {

/// The name of every tier is read back as that tier: `Display` and
/// `FromStr` agree.
pub proof fn law_tier_names_parse_back(t: Tier)
    ensures
        is_ascii_text(tier_name(t)),
        tier_named(ascii_lowered(tier_name(t))) == Some(t),
{
    reveal_strlit("wasm");
    reveal_strlit("gvisor");
    reveal_strlit("firecracker");
    reveal_strlit("tier1");
    reveal_strlit("tier_1");
    reveal_strlit("tier2");
    reveal_strlit("tier_2");
    let n = tier_name(t);
    assert(ascii_lowered(n) =~= n);
    match t {
        Tier::Wasm => {},
        Tier::Gvisor => {
            assert(n != "wasm"@ && n != "tier1"@);
            assert(n[0] != "tier_1"@[0]);
        },
        Tier::Firecracker => {
            assert(n.len() == 11);
            assert(n != "wasm"@ && n != "tier1"@ && n != "tier_1"@);
            assert(n != "gvisor"@ && n != "tier2"@ && n != "tier_2"@);
        },
    }
}

/// Higher tiers isolate more and get at least as much by default: memory
/// grows with the tier, and so does the CPU count.
pub proof fn law_tier_defaults_grow()
    ensures
        tier_memory(Tier::Wasm) < tier_memory(Tier::Gvisor),
        tier_memory(Tier::Gvisor) < tier_memory(Tier::Firecracker),
        tier_cpus(Tier::Wasm) <= tier_cpus(Tier::Gvisor),
        tier_cpus(Tier::Gvisor) <= tier_cpus(Tier::Firecracker),
{
}

/// A sandbox just created is found under its identifier, as it was handed
/// back.
pub proof fn law_created_sandbox_is_found(
    m: Map<Seq<char>, Sandbox>,
    n: Map<Seq<char>, Sandbox>,
    config: SandboxConfig,
    fallback: Seq<char>,
    now: Timestamp,
    s: Sandbox,
)
    requires
        creation(m, n, config, fallback, now, Ok(s)),
    ensures
        n.contains_key(s.id@),
        same_sandbox(n[s.id@], s),
        s.state == SandboxState::Running,
{
}

/// Creating a second sandbox with an identifier already used fails and
/// leaves the sandboxes as they were.
pub proof fn law_duplicate_identifier_refused(
    m: Map<Seq<char>, Sandbox>,
    n: Map<Seq<char>, Sandbox>,
    n2: Map<Seq<char>, Sandbox>,
    config: SandboxConfig,
    f1: Seq<char>,
    f2: Seq<char>,
    t1: Timestamp,
    t2: Timestamp,
    s: Sandbox,
    r2: Result<Sandbox, NanovmsError>,
)
    requires
        config.id is Some,
        creation(m, n, config, f1, t1, Ok(s)),
        creation(n, n2, config, f2, t2, r2),
    ensures
        r2 matches Err(NanovmsError::SandboxAlreadyExists(id)) && id@ == s.id@,
        n2 == n,
{
}

/// Stopping and then starting a sandbox leaves it running, with everything
/// else as it was.
pub proof fn law_stop_then_start_runs(a: Sandbox, stopped: Sandbox, started: Sandbox)
    requires
        moved_to(stopped, a, SandboxState::Stopped),
        moved_to(started, stopped, SandboxState::Running),
    ensures
        moved_to(started, a, SandboxState::Running),
{
}

/// A deleted sandbox is no longer found, and no other sandbox goes: where
/// the store after a delete holds the sandboxes of the store before less
/// the deleted identifier, that identifier is gone and every other stays.
pub proof fn law_deleted_sandbox_is_gone(pre: MockStore, post: MockStore, id: Seq<char>)
    requires
        post.sandboxes() == pre.sandboxes().remove(id),
    ensures
        !post.sandboxes().contains_key(id),
        forall|k: Seq<char>|
            k != id && #[trigger] pre.sandboxes().contains_key(k) ==> post.sandboxes().contains_key(k)
                && post.sandboxes()[k] == pre.sandboxes()[k],
{
}

/// A deleted snapshot is no longer found, and no other snapshot goes.
pub proof fn law_deleted_snapshot_is_gone(pre: MockStore, post: MockStore, id: Seq<char>)
    requires
        post.snapshots() == pre.snapshots().remove(id),
    ensures
        !post.snapshots().contains_key(id),
        forall|k: Seq<char>|
            k != id && #[trigger] pre.snapshots().contains_key(k) ==> post.snapshots().contains_key(k)
                && post.snapshots()[k] == pre.snapshots()[k],
{
}

/// A snapshot just taken is found under its identifier, as it was handed
/// back.
pub proof fn law_taken_snapshot_is_found(
    m: Map<Seq<char>, Snapshot>,
    n: Map<Seq<char>, Snapshot>,
    k: Seq<char>,
    s: Snapshot,
)
    requires
        snapshot_stored(m, n, k, s),
    ensures
        n.contains_key(k),
        same_snapshot(n[k], s),
{
}

} // verus!
