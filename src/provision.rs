//! Making sure the audio asset is on disk. The file system is the cache: a
//! file that exists is used as it is, and only a missing one is fetched, with
//! the bytes written capped whatever the remote side sends.
use vstd::prelude::*;

verus! {

/// The most bytes ever written for a fetched asset.
pub const MAX_ASSET_BYTES: u64 = 10_000_000;

/// What `ensure` does for a path.
#[derive(Clone, Copy, Debug, PartialEq, Eq, Structural)]
pub enum ProvisionStep {
    /// The file is there: use it, with no network access.
    UseExisting,
    /// The file is missing: fetch it, writing at most `MAX_ASSET_BYTES`.
    Fetch,
}

pub open spec fn ensure_step_spec(exists: bool) -> ProvisionStep {
    if exists {
        ProvisionStep::UseExisting
    } else {
        ProvisionStep::Fetch
    }
}

/// The step for a path, given whether a file exists there.
pub fn ensure_step(exists: bool) -> (r: ProvisionStep)
    ensures
        r == ensure_step_spec(exists),
{
    if exists {
        ProvisionStep::UseExisting
    } else {
        ProvisionStep::Fetch
    }
}

/// Whether the file is there after `ensure`, given whether it was there before
/// and whether a fetch, had there been one, succeeded.
pub open spec fn present_after(exists: bool, fetch_ok: bool) -> bool {
    match ensure_step_spec(exists) {
        ProvisionStep::UseExisting => true,
        ProvisionStep::Fetch => fetch_ok,
    }
}

/// `ensure` is idempotent: on a path where a file exists it fetches nothing and
/// the file stays, so a second call fetches nothing either; and after any call
/// that succeeded, the next one fetches nothing.
pub proof fn lemma_ensure_idempotent(exists: bool, fetch_ok: bool)
    ensures
        ensure_step_spec(true) == ProvisionStep::UseExisting,
        present_after(true, fetch_ok),
        present_after(exists, fetch_ok) ==> ensure_step_spec(present_after(exists, fetch_ok))
            == ProvisionStep::UseExisting,
{
}

/// The bytes admitted so far for a fetched asset; never over the cap.
pub struct DownloadBudget {
    written: u64,
}

pub open spec fn min_nat(a: nat, b: nat) -> nat {
    if a <= b {
        a
    } else {
        b
    }
}

/// How many of `offered` bytes may still be written after `written`.
pub open spec fn admitted(written: nat, offered: nat) -> nat {
    min_nat(offered, (MAX_ASSET_BYTES - written) as nat)
}

impl DownloadBudget {
    pub closed spec fn written_spec(&self) -> nat {
        self.written as nat
    }

    /// The cap holds.
    pub closed spec fn wf(&self) -> bool {
        self.written <= MAX_ASSET_BYTES
    }

    /// Nothing written yet.
    pub fn new() -> (r: DownloadBudget)
        ensures
            r.wf(),
            r.written_spec() == 0,
    {
        DownloadBudget { written: 0 }
    }

    /// The bytes admitted so far.
    pub fn written(&self) -> (r: u64)
        ensures
            r == self.written_spec(),
    {
        self.written
    }

    /// Of a chunk of `offered` bytes, how many to write: all of them while
    /// they fit under the cap, else as many as fit.
    pub fn take(&mut self, offered: usize) -> (n: usize)
        requires
            old(self).wf(),
        ensures
            final(self).wf(),
            n == admitted(old(self).written_spec(), offered as nat),
            final(self).written_spec() == old(self).written_spec() + n,
            final(self).written_spec() <= MAX_ASSET_BYTES,
    {
        let room: u64 = MAX_ASSET_BYTES - self.written;
        let n: usize = if (offered as u64) <= room {
            offered
        } else {
            room as usize
        };
        self.written = self.written + n as u64;
        n
    }
}

/// The bytes offered in a sequence of chunks.
pub open spec fn total(sizes: Seq<nat>) -> nat
    decreases sizes.len(),
{
    if sizes.len() == 0 {
        0
    } else {
        sizes[0] + total(sizes.drop_first())
    }
}

/// The bytes written after admitting each chunk of `sizes` in turn, starting
/// from `written`.
pub open spec fn written_after(written: nat, sizes: Seq<nat>) -> nat
    decreases sizes.len(),
{
    if sizes.len() == 0 {
        written
    } else {
        written_after(written + admitted(written, sizes[0]), sizes.drop_first())
    }
}

proof fn lemma_written_after(written: nat, sizes: Seq<nat>)
    requires
        written <= MAX_ASSET_BYTES,
    ensures
        written_after(written, sizes) == min_nat(written + total(sizes), MAX_ASSET_BYTES as nat),
    decreases sizes.len(),
{
    if sizes.len() > 0 {
        lemma_written_after(written + admitted(written, sizes[0]), sizes.drop_first());
    }
}

/// However large the remote asset and however it is cut into chunks, the bytes
/// written are all of it when it fits under the cap, and exactly the cap when
/// it does not: never more than `MAX_ASSET_BYTES`.
pub proof fn lemma_fetch_is_capped(sizes: Seq<nat>)
    ensures
        written_after(0, sizes) == min_nat(total(sizes), MAX_ASSET_BYTES as nat),
        written_after(0, sizes) <= MAX_ASSET_BYTES,
{
    lemma_written_after(0, sizes);
}

} // verus!
