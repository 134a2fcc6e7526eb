//! The world channel: a version-counted single-slot mailbox carrying the
//! latest world snapshot from the simulation loop to the visual loop.
//!
//! This is the channel's functional core, verified sequentially: publishing
//! replaces the slot and bumps the version, snapshotting hands out the slot
//! exactly when the reader's last seen version differs. The embedding
//! application wraps a channel in its lock for the two threads and keeps the
//! latest-wins behaviour: readers are free to miss intermediate versions.

use vstd::prelude::*;

verus! {

/// The mailbox: one world and its version count.
pub struct WorldChannel<W> {
    world: W,
    version: u64,
}

/// The channel after publishing `w`: the slot replaced, the version one
/// higher (see [`lemma_published_views`]).
pub closed spec fn published<W>(c: WorldChannel<W>, w: W) -> WorldChannel<W> {
    WorldChannel { world: w, version: (c.view_version() + 1) as u64 }
}

/// What publishing does to the two views.
pub proof fn lemma_published_views<W>(c: WorldChannel<W>, w: W)
    requires
        c.view_version() < u64::MAX,
    ensures
        published(c, w).view_world() == w,
        published(c, w).view_version() == c.view_version() + 1,
{
}

/// What a reader who last saw `last_seen` gets: nothing while the version
/// still matches, otherwise the current version and world.
pub open spec fn snapshot_view<W>(c: WorldChannel<W>, last_seen: u64) -> Option<(u64, W)> {
    if last_seen == c.view_version() {
        None
    } else {
        Some((c.view_version(), c.view_world()))
    }
}

impl<W> WorldChannel<W> {
    /// The world currently in the slot.
    pub closed spec fn view_world(self) -> W {
        self.world
    }

    /// The number of publishes so far.
    pub closed spec fn view_version(self) -> u64 {
        self.version
    }

    /// A channel holding the initial world at version 0.
    pub fn new(world: W) -> (r: WorldChannel<W>)
        ensures
            r.view_world() == world,
            r.view_version() == 0,
    {
        WorldChannel { world, version: 0 }
    }

    /// The current version; monotonically non-decreasing over the channel's
    /// life, since only [`WorldChannel::publish`] changes it.
    pub fn version(&self) -> (r: u64)
        ensures
            r == self.view_version(),
    {
        self.version
    }

    /// Replaces the slot with a fresh world and then bumps the version, so a
    /// reader observing the new version finds this world or a later one.
    pub fn publish(&mut self, world: W)
        requires
            old(self).view_version() < u64::MAX,
        ensures
            *final(self) == published(*old(self), world),
            final(self).view_world() == world,
            final(self).view_version() == old(self).view_version() + 1,
    {
        self.world = world;
        self.version = self.version + 1;
    }

    /// Compares the reader's last seen version with the current one; on a
    /// difference, hands out the current version and a reference to the
    /// world.
    pub fn snapshot(&self, last_seen: u64) -> (r: Option<(u64, &W)>)
        ensures
            r is Some <==> snapshot_view(*self, last_seen) is Some,
            r is Some ==> r.unwrap().0 == snapshot_view(*self, last_seen).unwrap().0
                && *r.unwrap().1 == snapshot_view(*self, last_seen).unwrap().1,
    {
        if last_seen == self.version {
            None
        } else {
            Some((self.version, &self.world))
        }
    }
}

/// How a channel evolves: `b` is `a` after exactly `k` publishes.
pub open spec fn steps_to<W>(a: WorldChannel<W>, b: WorldChannel<W>, k: nat) -> bool
    decreases k,
{
    if k == 0 {
        a == b
    } else {
        exists|mid: WorldChannel<W>, w: W|
            steps_to(a, mid, (k - 1) as nat) && mid.view_version() < u64::MAX && b == #[trigger] published(
                mid,
                w,
            )
    }
}

/// The version never decreases, and a later channel state showing the same
/// version as an earlier one is that state: equal versions pin equal worlds,
/// so two snapshots reporting one version report one world.
pub proof fn lemma_version_pins_world<W>(a: WorldChannel<W>, b: WorldChannel<W>, k: nat)
    requires
        steps_to(a, b, k),
    ensures
        a.view_version() <= b.view_version(),
        a.view_version() == b.view_version() ==> a == b,
    decreases k,
{
    if k > 0 {
        let (mid, w) = choose|mid: WorldChannel<W>, w: W|
            steps_to(a, mid, (k - 1) as nat) && mid.view_version() < u64::MAX && b == #[trigger] published(
                mid,
                w,
            );
        lemma_version_pins_world(a, mid, (k - 1) as nat);
    }
}

/// Every publish becomes observable: a reader whose last seen version is not
/// the new one is handed exactly the published world.
pub proof fn lemma_publish_observable<W>(c: WorldChannel<W>, w: W, last_seen: u64)
    requires
        c.view_version() < u64::MAX,
        last_seen != c.view_version() + 1,
    ensures
        snapshot_view(published(c, w), last_seen) == Some((
            (c.view_version() + 1) as u64,
            w,
        )),
{
}

} // verus!
