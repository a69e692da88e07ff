//! Progress of loading a saved match: which parts have arrived.

use vstd::prelude::*;

verus! {

/// Which parts of a match have been loaded. An object kind is `None` when the
/// save holds none of it, `Some(false)` while its objects are being loaded and
/// `Some(true)` once they are.
#[derive(Debug, Clone, Copy)]
pub struct LoadingStatus {
    pub level_loaded: bool,
    pub map_loaded: bool,
    pub crane_yards_loaded: Option<bool>,
    pub resource_nodes_loaded: Option<bool>,
    pub barracks_loaded: Option<bool>,
    pub factories_loaded: Option<bool>,
    pub marines_loaded: Option<bool>,
    pub tanks_loaded: Option<bool>,
}

impl Default for LoadingStatus {
    fn default() -> (r: Self)
        ensures
            !r.level_loaded,
            !r.map_loaded,
            r.crane_yards_loaded is None,
            r.resource_nodes_loaded is None,
            r.barracks_loaded is None,
            r.factories_loaded is None,
            r.marines_loaded is None,
            r.tanks_loaded is None,
    {
        LoadingStatus {
            level_loaded: false,
            map_loaded: false,
            crane_yards_loaded: None,
            resource_nodes_loaded: None,
            barracks_loaded: None,
            factories_loaded: None,
            marines_loaded: None,
            tanks_loaded: None,
        }
    }
}

/// An object kind is done loading: it was never expected, or it has arrived.
pub open spec fn kind_done(flag: Option<bool>) -> bool {
    match flag {
        Some(b) => b,
        None => true,
    }
}

/// The match is loaded: the level and the map, and every object kind that is
/// checked. Barracks are not waited for.
pub open spec fn loading_complete(s: LoadingStatus) -> bool {
    s.level_loaded && s.map_loaded && kind_done(s.crane_yards_loaded) && kind_done(s.resource_nodes_loaded)
        && kind_done(s.factories_loaded) && kind_done(s.marines_loaded) && kind_done(s.tanks_loaded)
}

fn done(flag: Option<bool>) -> (r: bool)
    ensures
        r == kind_done(flag),
{
    match flag {
        Some(b) => b,
        None => true,
    }
}

impl LoadingStatus {
    /// Whether the match is fully loaded.
    pub fn complete(&self) -> (r: bool)
        ensures
            r == loading_complete(*self),
    {
        self.level_loaded && self.map_loaded && done(self.crane_yards_loaded) && done(self.resource_nodes_loaded)
            && done(self.factories_loaded) && done(self.marines_loaded) && done(self.tanks_loaded)
    }

    /// Marks every object kind of which the save holds at least one object as
    /// being loaded; the other fields are kept.
    pub fn expect_objects(
        &mut self,
        crane_yards: usize,
        resource_nodes: usize,
        factories: usize,
        marine_squads: usize,
        tanks: usize,
    )
        ensures
            final(self).level_loaded == old(self).level_loaded,
            final(self).map_loaded == old(self).map_loaded,
            final(self).barracks_loaded == old(self).barracks_loaded,
            final(self).crane_yards_loaded == (if crane_yards > 0 { Some(false) } else { old(self).crane_yards_loaded }),
            final(self).resource_nodes_loaded == (if resource_nodes > 0 { Some(false) } else { old(self).resource_nodes_loaded }),
            final(self).factories_loaded == (if factories > 0 { Some(false) } else { old(self).factories_loaded }),
            final(self).marines_loaded == (if marine_squads > 0 { Some(false) } else { old(self).marines_loaded }),
            final(self).tanks_loaded == (if tanks > 0 { Some(false) } else { old(self).tanks_loaded }),
    {
        if crane_yards > 0 { self.crane_yards_loaded = Some(false); }
        if resource_nodes > 0 { self.resource_nodes_loaded = Some(false); }
        if factories > 0 { self.factories_loaded = Some(false); }
        if marine_squads > 0 { self.marines_loaded = Some(false); }
        if tanks > 0 { self.tanks_loaded = Some(false); }
    }
}

/// While objects of a checked kind are still expected, the match is not loaded.
pub proof fn lemma_expected_objects_block_completion(
    before: LoadingStatus,
    after: LoadingStatus,
    crane_yards: usize,
    resource_nodes: usize,
    factories: usize,
    marine_squads: usize,
    tanks: usize,
)
    requires
        after.crane_yards_loaded == (if crane_yards > 0 { Some(false) } else { before.crane_yards_loaded }),
        after.resource_nodes_loaded == (if resource_nodes > 0 { Some(false) } else { before.resource_nodes_loaded }),
        after.factories_loaded == (if factories > 0 { Some(false) } else { before.factories_loaded }),
        after.marines_loaded == (if marine_squads > 0 { Some(false) } else { before.marines_loaded }),
        after.tanks_loaded == (if tanks > 0 { Some(false) } else { before.tanks_loaded }),
        crane_yards > 0 || resource_nodes > 0 || factories > 0 || marine_squads > 0 || tanks > 0,
    ensures
        !loading_complete(after),
{
}


/// The match is loaded only once both the level and the map are: whatever the
/// object kinds say, a missing level or map means not loaded. With both loaded
/// and no object kind expected, it is loaded; barracks are never waited for.
pub proof fn lemma_level_and_map_required(s: LoadingStatus)
    ensures
        !s.level_loaded ==> !loading_complete(s),
        !s.map_loaded ==> !loading_complete(s),
        (s.level_loaded && s.map_loaded && s.crane_yards_loaded is None && s.resource_nodes_loaded is None
            && s.factories_loaded is None && s.marines_loaded is None && s.tanks_loaded is None)
            ==> loading_complete(s),
        s.crane_yards_loaded == Some(false) ==> !loading_complete(s),
        s.resource_nodes_loaded == Some(false) ==> !loading_complete(s),
        s.factories_loaded == Some(false) ==> !loading_complete(s),
        s.marines_loaded == Some(false) ==> !loading_complete(s),
        s.tanks_loaded == Some(false) ==> !loading_complete(s),
        loading_complete(s) == loading_complete(LoadingStatus { barracks_loaded: Some(false), ..s }),
{
}

} // verus!
