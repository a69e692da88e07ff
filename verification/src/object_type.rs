//! The kinds of maps and objects of the game, their names, and the ground they
//! block for path finding.

use vstd::prelude::*;
use vstd::std_specs::convert::{FromSpecImpl, TryFromSpecImpl};

verus! {

/// The kinds of game objects.
#[derive(Debug, Clone, Copy, PartialEq, Eq, Structural, Hash)]
pub enum ObjectType {
    CraneYard,
    ResourceNode,
    ResourcePlatformUnclaimed,
    ResourcePlatformClaimed,
    Factory,
    MarineSquad,
    Marine,
    TankBase,
    TankGun,
}

/// The maps of the game.
#[derive(Debug, Clone, Copy, PartialEq, Eq, Structural, Hash)]
pub enum MapType {
    Developer,
}

/// Anything that is loaded from an asset: a map or an object.
#[derive(Debug, Clone, Copy, PartialEq, Eq, Structural)]
pub enum AssetType {
    GameMap(MapType),
    Object(ObjectType),
}

/// The name under which an object kind is written in asset and save files.
pub open spec fn object_name(t: ObjectType) -> Seq<char> {
    match t {
        ObjectType::CraneYard => "crane_yard"@,
        ObjectType::ResourceNode => "resource_node"@,
        ObjectType::ResourcePlatformUnclaimed => "resource_platform_unclaimed"@,
        ObjectType::ResourcePlatformClaimed => "resource_platform_claimed"@,
        ObjectType::Factory => "factory"@,
        ObjectType::MarineSquad => "marine_squad"@,
        ObjectType::Marine => "marine"@,
        ObjectType::TankBase => "tank_base"@,
        ObjectType::TankGun => "tank_gun"@,
    }
}

/// The object kind whose file name is `s`, if any.
pub open spec fn object_from_name(s: Seq<char>) -> Option<ObjectType> {
    if s == "crane_yard"@ {
        Some(ObjectType::CraneYard)
    } else if s == "resource_node"@ {
        Some(ObjectType::ResourceNode)
    } else if s == "resource_platform_claimed"@ {
        Some(ObjectType::ResourcePlatformClaimed)
    } else if s == "resource_platform_unclaimed"@ {
        Some(ObjectType::ResourcePlatformUnclaimed)
    } else if s == "factory"@ {
        Some(ObjectType::Factory)
    } else if s == "marine_squad"@ {
        Some(ObjectType::MarineSquad)
    } else if s == "marine"@ {
        Some(ObjectType::Marine)
    } else if s == "tank_base"@ {
        Some(ObjectType::TankBase)
    } else if s == "tank_gun"@ {
        Some(ObjectType::TankGun)
    } else {
        None
    }
}

/// The message of the error returned for a name that names no object kind.
pub open spec fn unknown_object_message() -> Seq<char> {
    "'Tryfrom<String> for ObjectType' did not work"@
}

/// The name under which an object kind is shown to players.
pub open spec fn object_display_name(t: ObjectType) -> Seq<char> {
    match t {
        ObjectType::CraneYard => "Crane Yard"@,
        ObjectType::ResourceNode => "Resource Node"@,
        ObjectType::ResourcePlatformUnclaimed => "Resource Platform Unclaimed"@,
        ObjectType::ResourcePlatformClaimed => "Resource Platform"@,
        ObjectType::Factory => "Factory"@,
        ObjectType::MarineSquad => "Marine Squad"@,
        ObjectType::Marine => "Marine"@,
        ObjectType::TankBase => "Tank"@,
        ObjectType::TankGun => "Tank Gun"@,
    }
}

fn same_text(value: &String, name: &str) -> (r: bool)
    ensures
        r == (value@ == name@),
{
    let owned = name.to_owned();
    *value == owned
}

impl TryFrom<String> for ObjectType {
    type Error = String;

    /// The object kind named `value`, or an error for any other text.
    fn try_from(value: String) -> (r: Result<Self, Self::Error>)
        ensures
            r matches Ok(t) ==> object_from_name(value@) == Some(t),
            r matches Err(e) ==> object_from_name(value@) is None && e@ == unknown_object_message(),
    {
        if same_text(&value, "crane_yard") {
            return Ok(ObjectType::CraneYard);
        } else if same_text(&value, "resource_node") {
            return Ok(ObjectType::ResourceNode);
        } else if same_text(&value, "resource_platform_claimed") {
            return Ok(ObjectType::ResourcePlatformClaimed);
        } else if same_text(&value, "resource_platform_unclaimed") {
            return Ok(ObjectType::ResourcePlatformUnclaimed);
        } else if same_text(&value, "factory") {
            return Ok(ObjectType::Factory);
        } else if same_text(&value, "marine_squad") {
            return Ok(ObjectType::MarineSquad);
        } else if same_text(&value, "marine") {
            return Ok(ObjectType::Marine);
        } else if same_text(&value, "tank_base") {
            return Ok(ObjectType::TankBase);
        } else if same_text(&value, "tank_gun") {
            return Ok(ObjectType::TankGun);
        }
        Err("'Tryfrom<String> for ObjectType' did not work".to_owned())
    }
}

impl TryFromSpecImpl<String> for ObjectType {
    open spec fn obeys_try_from_spec() -> bool {
        false
    }

    open spec fn try_from_spec(v: String) -> Result<Self, Self::Error> {
        match object_from_name(v@) {
            Some(t) => Ok(t),
            None => Err(choose|e: String| e@ == unknown_object_message()),
        }
    }
}

impl From<ObjectType> for String {
    /// The file name of the object kind.
    fn from(value: ObjectType) -> (r: Self)
        ensures
            r@ == object_name(value),
    {
        match value {
            ObjectType::CraneYard => "crane_yard".to_owned(),
            ObjectType::ResourceNode => "resource_node".to_owned(),
            ObjectType::ResourcePlatformClaimed => "resource_platform_claimed".to_owned(),
            ObjectType::ResourcePlatformUnclaimed => "resource_platform_unclaimed".to_owned(),
            ObjectType::Factory => "factory".to_owned(),
            ObjectType::MarineSquad => "marine_squad".to_owned(),
            ObjectType::Marine => "marine".to_owned(),
            ObjectType::TankBase => "tank_base".to_owned(),
            ObjectType::TankGun => "tank_gun".to_owned(),
        }
    }
}

impl FromSpecImpl<ObjectType> for String {
    open spec fn obeys_from_spec() -> bool {
        false
    }

    open spec fn from_spec(v: ObjectType) -> Self {
        choose|s: String| s@ == object_name(v)
    }
}

impl From<ObjectType> for AssetType {
    fn from(object_type: ObjectType) -> (r: Self)
        ensures
            r == AssetType::Object(object_type),
    {
        Self::Object(object_type)
    }
}

impl FromSpecImpl<ObjectType> for AssetType {
    open spec fn obeys_from_spec() -> bool {
        true
    }

    open spec fn from_spec(v: ObjectType) -> Self {
        AssetType::Object(v)
    }
}

impl From<MapType> for AssetType {
    fn from(map_type: MapType) -> (r: Self)
        ensures
            r == AssetType::GameMap(map_type),
    {
        Self::GameMap(map_type)
    }
}

impl FromSpecImpl<MapType> for AssetType {
    open spec fn obeys_from_spec() -> bool {
        true
    }

    open spec fn from_spec(v: MapType) -> Self {
        AssetType::GameMap(v)
    }
}

/// The name under which a map is shown to players.
pub open spec fn map_display_name(m: MapType) -> Seq<char> {
    match m {
        MapType::Developer => "Developer"@,
    }
}

impl ObjectType {
    /// The name under which the object kind is shown to players.
    pub fn display_name(&self) -> (r: String)
        ensures
            r@ == object_display_name(*self),
    {
        match self {
            ObjectType::CraneYard => "Crane Yard".to_owned(),
            ObjectType::ResourceNode => "Resource Node".to_owned(),
            ObjectType::ResourcePlatformUnclaimed => "Resource Platform Unclaimed".to_owned(),
            ObjectType::ResourcePlatformClaimed => "Resource Platform".to_owned(),
            ObjectType::Factory => "Factory".to_owned(),
            ObjectType::MarineSquad => "Marine Squad".to_owned(),
            ObjectType::Marine => "Marine".to_owned(),
            ObjectType::TankBase => "Tank".to_owned(),
            ObjectType::TankGun => "Tank Gun".to_owned(),
        }
    }
}

impl MapType {
    /// The name under which the map is shown to players.
    pub fn display_name(&self) -> (r: String)
        ensures
            r@ == map_display_name(*self),
    {
        match self {
            MapType::Developer => "Developer".to_owned(),
        }
    }
}

impl AssetType {
    /// The name of the map or object kind, as shown to players.
    pub fn display_name(&self) -> (r: String)
        ensures
            r@ == match *self {
                AssetType::GameMap(m) => map_display_name(m),
                AssetType::Object(o) => object_display_name(o),
            },
    {
        match self {
            AssetType::GameMap(map) => map.display_name(),
            AssetType::Object(object) => object.display_name(),
        }
    }
}


/// Every object kind is read back from the name it is written under.
pub proof fn lemma_name_round_trip(t: ObjectType)
    ensures
        object_from_name(object_name(t)) == Some(t),
{
    reveal_strlit("crane_yard");
    assert("crane_yard"@.len() == 10);
    reveal_strlit("resource_node");
    assert("resource_node"@.len() == 13);
    reveal_strlit("resource_platform_claimed");
    assert("resource_platform_claimed"@.len() == 25);
    reveal_strlit("resource_platform_unclaimed");
    assert("resource_platform_unclaimed"@.len() == 27);
    reveal_strlit("factory");
    assert("factory"@.len() == 7);
    reveal_strlit("marine_squad");
    assert("marine_squad"@.len() == 12);
    reveal_strlit("marine");
    assert("marine"@.len() == 6);
    reveal_strlit("tank_base");
    assert("tank_base"@.len() == 9);
    reveal_strlit("tank_gun");
    assert("tank_gun"@.len() == 8);
}


/// Each object kind is written under its fixed file name, and each of those
/// names is read back as that kind: the names that save and asset files use.
pub proof fn lemma_file_names(t: ObjectType)
    ensures
        t == ObjectType::CraneYard ==> object_name(t) == "crane_yard"@,
        t == ObjectType::ResourceNode ==> object_name(t) == "resource_node"@,
        t == ObjectType::ResourcePlatformUnclaimed ==> object_name(t) == "resource_platform_unclaimed"@,
        t == ObjectType::ResourcePlatformClaimed ==> object_name(t) == "resource_platform_claimed"@,
        t == ObjectType::Factory ==> object_name(t) == "factory"@,
        t == ObjectType::MarineSquad ==> object_name(t) == "marine_squad"@,
        t == ObjectType::Marine ==> object_name(t) == "marine"@,
        t == ObjectType::TankBase ==> object_name(t) == "tank_base"@,
        t == ObjectType::TankGun ==> object_name(t) == "tank_gun"@,
        object_from_name("crane_yard"@) == Some(ObjectType::CraneYard),
        object_from_name("resource_node"@) == Some(ObjectType::ResourceNode),
        object_from_name("resource_platform_unclaimed"@) == Some(ObjectType::ResourcePlatformUnclaimed),
        object_from_name("resource_platform_claimed"@) == Some(ObjectType::ResourcePlatformClaimed),
        object_from_name("factory"@) == Some(ObjectType::Factory),
        object_from_name("marine_squad"@) == Some(ObjectType::MarineSquad),
        object_from_name("marine"@) == Some(ObjectType::Marine),
        object_from_name("tank_base"@) == Some(ObjectType::TankBase),
        object_from_name("tank_gun"@) == Some(ObjectType::TankGun),
{
    lemma_name_round_trip(ObjectType::CraneYard);
    lemma_name_round_trip(ObjectType::ResourceNode);
    lemma_name_round_trip(ObjectType::ResourcePlatformUnclaimed);
    lemma_name_round_trip(ObjectType::ResourcePlatformClaimed);
    lemma_name_round_trip(ObjectType::Factory);
    lemma_name_round_trip(ObjectType::MarineSquad);
    lemma_name_round_trip(ObjectType::Marine);
    lemma_name_round_trip(ObjectType::TankBase);
    lemma_name_round_trip(ObjectType::TankGun);
}

/// The half extents, in grid cells along x and y, of the ground that an object
/// kind blocks for path finding; kinds that block nothing have none.
pub open spec fn footprint_spec(t: ObjectType) -> Option<(i32, i32)> {
    match t {
        ObjectType::CraneYard => Some((8i32, 8i32)),
        ObjectType::Factory => Some((11i32, 11i32)),
        ObjectType::ResourceNode => Some((9i32, 9i32)),
        _ => None,
    }
}

/// The largest half extent that a footprint may have.
pub const MAX_FOOTPRINT: i32 = 1000;

/// One row of offsets: `(x, y)` for `y` from `-y_max` to `y_max`.
pub open spec fn offset_row(x: i32, y_max: i32) -> Seq<(i32, i32)> {
    Seq::new((2 * y_max + 1) as nat, |j: int| (x, (j - y_max) as i32))
}

/// The first `rows` rows of offsets, for `x` from `-x_max` upwards.
pub open spec fn offset_rows(x_max: i32, y_max: i32, rows: nat) -> Seq<(i32, i32)>
    decreases rows,
{
    if rows == 0 {
        Seq::empty()
    } else {
        offset_rows(x_max, y_max, (rows - 1) as nat) + offset_row((rows - 1 - x_max) as i32, y_max)
    }
}

/// Every offset `(x, y)` with `-x_max <= x <= x_max` and `-y_max <= y <= y_max`,
/// by rows of equal `x`, both coordinates rising.
pub open spec fn footprint_offsets_spec(x_max: i32, y_max: i32) -> Seq<(i32, i32)> {
    offset_rows(x_max, y_max, (2 * x_max + 1) as nat)
}

impl ObjectType {
    /// The half extents of the ground the object kind blocks, if it blocks any.
    pub fn footprint(&self) -> (r: Option<(i32, i32)>)
        ensures
            r == footprint_spec(*self),
    {
        match self {
            ObjectType::CraneYard => Some((8, 8)),
            ObjectType::Factory => Some((11, 11)),
            ObjectType::ResourceNode => Some((9, 9)),
            _ => None,
        }
    }
}

/// The grid offsets, around an object's cell, of the cells its footprint covers.
pub fn footprint_offsets(x_max: i32, y_max: i32) -> (r: Vec<(i32, i32)>)
    requires
        0 <= x_max <= MAX_FOOTPRINT,
        0 <= y_max <= MAX_FOOTPRINT,
    ensures
        r@ == footprint_offsets_spec(x_max, y_max),
{
    let mut blocks: Vec<(i32, i32)> = Vec::new();
    let mut x: i32 = -x_max;
    while x <= x_max
        invariant
            0 <= x_max <= MAX_FOOTPRINT,
            0 <= y_max <= MAX_FOOTPRINT,
            -x_max <= x <= x_max + 1,
            blocks@ == offset_rows(x_max, y_max, (x + x_max) as nat),
        decreases x_max + 1 - x,
    {
        let ghost before = blocks@;
        let mut y: i32 = -y_max;
        while y <= y_max
            invariant
                0 <= y_max <= MAX_FOOTPRINT,
                -x_max <= x <= x_max,
                -y_max <= y <= y_max + 1,
                blocks@ == before + offset_row(x, y_max).take((y + y_max) as int),
            decreases y_max + 1 - y,
        {
            blocks.push((x, y));
            proof {
                assert(offset_row(x, y_max).take((y + y_max + 1) as int)
                    =~= offset_row(x, y_max).take((y + y_max) as int).push((x, y)));
            }
            y = y + 1;
        }
        proof {
            assert(offset_row(x, y_max).take((2 * y_max + 1) as int) =~= offset_row(x, y_max));
            assert((((x + x_max + 1) as nat) - 1 - x_max) as i32 == x);
        }
        x = x + 1;
    }
    blocks
}

proof fn lemma_offset_rows(x_max: i32, y_max: i32, rows: nat)
    requires
        0 <= x_max <= MAX_FOOTPRINT,
        0 <= y_max <= MAX_FOOTPRINT,
        rows <= 2 * x_max + 1,
    ensures
        offset_rows(x_max, y_max, rows).len() == rows * (2 * y_max + 1),
        forall|k: int, j: int| 0 <= k < rows && 0 <= j < 2 * y_max + 1 ==>
            #[trigger] offset_rows(x_max, y_max, rows)[k * (2 * y_max + 1) + j] == ((k - x_max) as i32, (j - y_max) as i32),
    decreases rows,
{
    let w = 2 * y_max + 1;
    if rows > 0 {
        let prev = offset_rows(x_max, y_max, (rows - 1) as nat);
        lemma_offset_rows(x_max, y_max, (rows - 1) as nat);
        let row = offset_row((rows - 1 - x_max) as i32, y_max);
        assert((rows - 1) * w + w == rows * w) by (nonlinear_arith);
        assert forall|k: int, j: int| 0 <= k < rows && 0 <= j < w implies
            #[trigger] offset_rows(x_max, y_max, rows)[k * w + j] == ((k - x_max) as i32, (j - y_max) as i32) by {
            if k < rows - 1 {
                assert(k * w + j < (rows - 1) * w) by (nonlinear_arith)
                    requires k < rows - 1, 0 <= j < w, k >= 0;
                assert(k * w + j >= 0) by (nonlinear_arith) requires k >= 0, j >= 0, w >= 1;
            } else {
                assert(k * w + j - (rows - 1) * w == j) by (nonlinear_arith) requires k == rows - 1;
            }
        }
    }
}

/// The footprint offsets are every offset of the rectangle, once each, by rows:
/// offset number `k * (2 * y_max + 1) + j` is `(k - x_max, j - y_max)`.
pub proof fn lemma_footprint_offsets(x_max: i32, y_max: i32)
    requires
        0 <= x_max <= MAX_FOOTPRINT,
        0 <= y_max <= MAX_FOOTPRINT,
    ensures
        footprint_offsets_spec(x_max, y_max).len() == (2 * x_max + 1) * (2 * y_max + 1),
        forall|k: int, j: int| 0 <= k < 2 * x_max + 1 && 0 <= j < 2 * y_max + 1 ==>
            #[trigger] footprint_offsets_spec(x_max, y_max)[k * (2 * y_max + 1) + j] == ((k - x_max) as i32, (j - y_max) as i32),
{
    lemma_offset_rows(x_max, y_max, (2 * x_max + 1) as nat);
}

/// The model slot in which the scene of a map or object kind is kept.
#[derive(Debug, Clone, Copy, PartialEq, Eq, Structural)]
pub enum SceneSlot {
    Developer,
    CraneYard,
    ResourceNode,
    ResourcePlatformUnclaimed,
    ResourcePlatformClaimed,
    Factory,
    Marine,
    TankBase,
    TankGun,
}

/// The scene that is shown for a map or object kind; squads have none of their
/// own (their members do).
pub open spec fn scene_slot_spec(asset: AssetType) -> Option<SceneSlot> {
    match asset {
        AssetType::GameMap(MapType::Developer) => Some(SceneSlot::Developer),
        AssetType::Object(o) => match o {
            ObjectType::CraneYard => Some(SceneSlot::CraneYard),
            ObjectType::ResourceNode => Some(SceneSlot::ResourceNode),
            ObjectType::ResourcePlatformUnclaimed => Some(SceneSlot::ResourcePlatformUnclaimed),
            ObjectType::ResourcePlatformClaimed => Some(SceneSlot::ResourcePlatformClaimed),
            ObjectType::Factory => Some(SceneSlot::Factory),
            ObjectType::Marine => Some(SceneSlot::Marine),
            ObjectType::TankBase => Some(SceneSlot::TankBase),
            ObjectType::TankGun => Some(SceneSlot::TankGun),
            ObjectType::MarineSquad => None,
        },
    }
}

/// The slot of the scene shown for `asset`, if it has one.
pub fn scene_slot(asset: AssetType) -> (r: Option<SceneSlot>)
    ensures
        r == scene_slot_spec(asset),
{
    match asset {
        AssetType::GameMap(map) => match map {
            MapType::Developer => Some(SceneSlot::Developer),
        },
        AssetType::Object(object) => match object {
            ObjectType::CraneYard => Some(SceneSlot::CraneYard),
            ObjectType::ResourceNode => Some(SceneSlot::ResourceNode),
            ObjectType::ResourcePlatformUnclaimed => Some(SceneSlot::ResourcePlatformUnclaimed),
            ObjectType::ResourcePlatformClaimed => Some(SceneSlot::ResourcePlatformClaimed),
            ObjectType::Factory => Some(SceneSlot::Factory),
            ObjectType::Marine => Some(SceneSlot::Marine),
            ObjectType::TankBase => Some(SceneSlot::TankBase),
            ObjectType::TankGun => Some(SceneSlot::TankGun),
            _ => None,
        },
    }
}

} // verus!
