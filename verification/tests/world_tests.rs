use t5f::identifiers::Snowflake;
use t5f::loading::LoadingStatus;
use t5f::object_type::{ObjectType, MapType, AssetType, SceneSlot, scene_slot, footprint_offsets};
use t5f::resource_node::{ResourceNodePlatforms, ResourcePlatform};
use t5f::slim::Slim;
use t5f::team::TeamPlayer;

#[test]
fn resource_platforms_claim_and_release() {
    let mut node = ResourceNodePlatforms::default();
    assert!(node.slim().is_none());
    node.claim(3, Snowflake(5), TeamPlayer::new(1, 0));
    assert_eq!(node.0[3], ResourcePlatform::Claimed(Snowflake(5), TeamPlayer::new(1, 0)));
    let saved = node.slim().expect("a claimed platform is saved");
    assert_eq!(saved.0, node.0);
    node.release(3);
    assert_eq!(node.0, [ResourcePlatform::Unclaimed; 6]);
    assert!(node.slim().is_none());
}

#[test]
fn loading_completes_when_expected_objects_arrive() {
    let mut status = LoadingStatus::default();
    assert!(!status.complete());
    status.level_loaded = true;
    status.map_loaded = true;
    assert!(status.complete());
    status.expect_objects(1, 0, 0, 2, 0);
    assert_eq!(status.crane_yards_loaded, Some(false));
    assert_eq!(status.marines_loaded, Some(false));
    assert_eq!(status.tanks_loaded, None);
    assert!(!status.complete());
    status.crane_yards_loaded = Some(true);
    status.marines_loaded = Some(true);
    assert!(status.complete());
    status.barracks_loaded = Some(false);
    assert!(status.complete());
}

#[test]
fn object_names_round_trip() {
    let all = [
        ObjectType::CraneYard, ObjectType::ResourceNode, ObjectType::ResourcePlatformUnclaimed,
        ObjectType::ResourcePlatformClaimed, ObjectType::Factory, ObjectType::MarineSquad,
        ObjectType::Marine, ObjectType::TankBase, ObjectType::TankGun,
    ];
    for t in all {
        let name: String = t.into();
        assert_eq!(ObjectType::try_from(name), Ok(t));
    }
    let name: String = ObjectType::ResourcePlatformClaimed.into();
    assert_eq!(name, "resource_platform_claimed");
    assert_eq!(ObjectType::try_from("marine".to_string()), Ok(ObjectType::Marine));
    assert_eq!(
        ObjectType::try_from("barracks".to_string()),
        Err("'Tryfrom<String> for ObjectType' did not work".to_string())
    );
}

#[test]
fn display_names() {
    assert_eq!(ObjectType::TankBase.display_name(), "Tank");
    assert_eq!(ObjectType::ResourcePlatformClaimed.display_name(), "Resource Platform");
    assert_eq!(AssetType::GameMap(MapType::Developer).display_name(), "Developer");
    assert_eq!(AssetType::from(ObjectType::Factory).display_name(), "Factory");
}

#[test]
fn scene_slots() {
    assert_eq!(scene_slot(AssetType::GameMap(MapType::Developer)), Some(SceneSlot::Developer));
    assert_eq!(scene_slot(AssetType::Object(ObjectType::TankGun)), Some(SceneSlot::TankGun));
    assert_eq!(scene_slot(AssetType::Object(ObjectType::MarineSquad)), None);
}

#[test]
fn footprints_and_their_offsets() {
    assert_eq!(ObjectType::CraneYard.footprint(), Some((8, 8)));
    assert_eq!(ObjectType::Factory.footprint(), Some((11, 11)));
    assert_eq!(ObjectType::ResourceNode.footprint(), Some((9, 9)));
    assert_eq!(ObjectType::Marine.footprint(), None);
    assert_eq!(footprint_offsets(0, 0), vec![(0, 0)]);
    assert_eq!(footprint_offsets(1, 0), vec![(-1, 0), (0, 0), (1, 0)]);
    let offsets = footprint_offsets(8, 8);
    assert_eq!(offsets.len(), 17 * 17);
    assert_eq!(offsets[0], (-8, -8));
    assert_eq!(offsets[17 * 3 + 5], (-5, -3));
    assert_eq!(offsets[17 * 17 - 1], (8, 8));
}
