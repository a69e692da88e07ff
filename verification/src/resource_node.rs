//! Resource nodes and the six platforms around each of them, which players claim.

use vstd::prelude::*;
use crate::identifiers::{EntityId, Snowflake};
use crate::slim::Slim;
use crate::team::TeamPlayer;

verus! {

/// The number of platforms around a resource node.
pub const PLATFORM_COUNT: usize = 6;

/// A platform around a resource node: free, or claimed by a player (the
/// snowflake is that of the claimed platform object).
#[derive(Debug, Clone, Copy, PartialEq, Eq, Structural)]
pub enum ResourcePlatform {
    Unclaimed,
    Claimed(Snowflake, TeamPlayer),
}

impl Default for ResourcePlatform {
    fn default() -> (r: Self)
        ensures
            r == ResourcePlatform::Unclaimed,
    {
        Self::Unclaimed
    }
}

/// The platforms around one resource node.
#[derive(Debug, Clone, Copy)]
pub struct ResourceNodePlatforms(pub [ResourcePlatform; 6]);

impl Default for ResourceNodePlatforms {
    fn default() -> (r: Self)
        ensures
            forall|i: int| 0 <= i < 6 ==> r.0@[i] == ResourcePlatform::Unclaimed,
    {
        ResourceNodePlatforms([ResourcePlatform::Unclaimed; 6])
    }
}

/// No platform of the node is claimed.
pub open spec fn all_unclaimed(platforms: Seq<ResourcePlatform>) -> bool {
    forall|i: int| 0 <= i < platforms.len() ==> #[trigger] platforms[i] == ResourcePlatform::Unclaimed
}

impl ResourceNodePlatforms {
    /// Marks platform `index` as claimed by `player`, whose platform object is
    /// named `snowflake`.
    pub fn claim(&mut self, index: usize, snowflake: Snowflake, player: TeamPlayer)
        requires
            index < PLATFORM_COUNT,
        ensures
            final(self).0@ == old(self).0@.update(index as int, ResourcePlatform::Claimed(snowflake, player)),
    {
        self.0[index] = ResourcePlatform::Claimed(snowflake, player);
    }

    /// Marks platform `index` as free again.
    pub fn release(&mut self, index: usize)
        requires
            index < PLATFORM_COUNT,
        ensures
            final(self).0@ == old(self).0@.update(index as int, ResourcePlatform::Unclaimed),
    {
        self.0[index] = ResourcePlatform::Unclaimed;
    }
}

impl Slim for ResourceNodePlatforms {
    /// A node none of whose platforms is claimed is saved as the default.
    open spec fn nothing_to_save(&self) -> bool {
        all_unclaimed(self.0@)
    }

    /// The copy has the same platforms.
    open spec fn same_content(&self, copy: &Self) -> bool {
        copy.0@ == self.0@
    }

    fn slim(&self) -> (r: Option<Self>) {
        let mut i: usize = 0;
        while i < PLATFORM_COUNT
            invariant
                0 <= i <= PLATFORM_COUNT,
                self.0@.len() == PLATFORM_COUNT,
                forall|j: int| 0 <= j < i ==> #[trigger] self.0@[j] == ResourcePlatform::Unclaimed,
            decreases PLATFORM_COUNT - i,
        {
            if let ResourcePlatform::Claimed(_, _) = self.0[i] {
                return Some(*self);
            }
            i = i + 1;
        }
        None
    }
}

/// The resource node (entity) and the index of the platform that a platform
/// object stands for.
#[derive(Debug, Default, Clone, Copy)]
pub struct ResourcePlatformOwner(pub Option<(EntityId, usize)>);

/// Claiming a platform and then releasing it leaves the node as it was before
/// when that platform was free; either operation touches only its own platform.
pub proof fn lemma_claim_release(platforms: Seq<ResourcePlatform>, index: int, snowflake: Snowflake, player: TeamPlayer, other: int)
    requires
        platforms.len() == PLATFORM_COUNT,
        0 <= index < PLATFORM_COUNT,
        0 <= other < PLATFORM_COUNT,
        other != index,
    ensures
        platforms[index] == ResourcePlatform::Unclaimed ==>
            platforms.update(index, ResourcePlatform::Claimed(snowflake, player)).update(index, ResourcePlatform::Unclaimed) == platforms,
        platforms.update(index, ResourcePlatform::Claimed(snowflake, player))[other] == platforms[other],
        platforms.update(index, ResourcePlatform::Unclaimed)[other] == platforms[other],
        !all_unclaimed(platforms.update(index, ResourcePlatform::Claimed(snowflake, player))),
{
    if platforms[index] == ResourcePlatform::Unclaimed {
        assert(platforms.update(index, ResourcePlatform::Claimed(snowflake, player)).update(index, ResourcePlatform::Unclaimed) =~= platforms);
    }
    assert(platforms.update(index, ResourcePlatform::Claimed(snowflake, player))[index] != ResourcePlatform::Unclaimed);
}

} // verus!
