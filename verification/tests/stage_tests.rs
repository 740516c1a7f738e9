//! Stage opening, path lookup, traversal and property navigation.

use openusd::scene::SceneData;
use openusd::scene::SceneSource;
use openusd::sdf::Path;
use openusd::sdf::Variability;
use openusd::usd::Error;
use openusd::usd::Object;
use openusd::usd::PrimRange;
use openusd::usd::PropertyEx;
use openusd::usd::PropertyKind;
use openusd::usd::Stage;
use openusd::vt::ValueMember;

fn demo_scene() -> SceneData {
    let mut scene = SceneData::new();
    let world = scene.add_prim(0, "World", "Xform").unwrap();
    let counter = scene.add_prim(world, "Counter", "Cube").unwrap();
    let answer = <i32 as ValueMember>::from(&42);
    scene
        .add_attribute(counter, "size", "int", Variability::Varying, Some(answer))
        .unwrap();
    scene
}

#[test]
fn open_valid_location_yields_stage_and_pseudo_root() {
    let mut source = SceneSource::new();
    assert!(source.add_scene("scene://main", demo_scene()));
    let stage = Stage::open(&source, "scene://main").unwrap();
    let root = stage.pseudo_root();
    assert_eq!(root.ptr(), 0);
    assert_eq!(root.path().text(), "/");
}

#[test]
fn open_invalid_location_yields_open_failure_with_location() {
    let mut source = SceneSource::new();
    assert!(source.add_scene("scene://main", demo_scene()));
    let err = match Stage::open(&source, "scene://missing") {
        Ok(_) => panic!("open of a missing location must fail"),
        Err(e) => e,
    };
    match err {
        Error::StageOpen { filename } => assert_eq!(filename, "scene://missing"),
        other => panic!("unexpected error: {:?}", other),
    }
    let empty = SceneSource::new();
    assert!(matches!(
        Stage::open(&empty, "anything"),
        Err(Error::StageOpen { .. })
    ));
}

#[test]
fn duplicate_location_is_rejected() {
    let mut source = SceneSource::new();
    assert!(source.add_scene("scene://main", demo_scene()));
    assert!(!source.add_scene("scene://main", demo_scene()));
}

#[test]
fn prim_at_path_finds_existing_prim() {
    let mut source = SceneSource::new();
    assert!(source.add_scene("scene://main", demo_scene()));
    let stage = Stage::open(&source, "scene://main").unwrap();
    let prim = stage.prim_at_path(&Path::from_text("/World/Counter")).unwrap();
    assert_eq!(prim.path().text(), "/World/Counter");
    assert_eq!(prim.name().text(), "Counter");
    assert_eq!(prim.type_token().text(), "Cube");
}

#[test]
fn prim_at_path_absent_yields_lookup_failure_with_path() {
    let mut source = SceneSource::new();
    assert!(source.add_scene("scene://main", demo_scene()));
    let stage = Stage::open(&source, "scene://main").unwrap();
    let err = match stage.prim_at_path(&Path::from_text("/Nowhere")) {
        Ok(_) => panic!("lookup of an absent path must fail"),
        Err(e) => e,
    };
    match err {
        Error::NoPrimAtPath { path } => assert_eq!(path, "/Nowhere"),
        other => panic!("unexpected error: {:?}", other),
    }
}

#[test]
fn duplicate_prim_path_is_rejected() {
    let mut scene = SceneData::new();
    let world = scene.add_prim(0, "World", "Xform").unwrap();
    assert!(scene.add_prim(0, "World", "Scope").is_none());
    assert!(scene.add_prim(world, "Child", "").is_some());
    assert!(scene.add_prim(world, "Child", "").is_none());
    assert!(scene.add_prim(99, "Orphan", "").is_none());
}

#[test]
fn sibling_range_produces_each_child_once_then_terminates() {
    let mut scene = SceneData::new();
    let world = scene.add_prim(0, "World", "Xform").unwrap();
    let a = scene.add_prim(world, "A", "").unwrap();
    let b = scene.add_prim(world, "B", "").unwrap();
    let c = scene.add_prim(world, "C", "").unwrap();
    let mut source = SceneSource::new();
    assert!(source.add_scene("s", scene));
    let stage = Stage::open(&source, "s").unwrap();
    let prim = stage.prim_at_path(&Path::from_text("/World")).unwrap();

    let mut range = prim.children();
    let mut seen = Vec::new();
    while let Some(child) = range.next() {
        seen.push(child.ptr());
    }
    assert_eq!(seen, vec![a, b, c]);
    assert!(range.next().is_none());
    assert!(range.next().is_none());

    // A fresh range must be requested to traverse again.
    let mut again = range;
    assert!(again.next().is_none());
    let mut fresh = prim.children();
    assert_eq!(fresh.next().unwrap().ptr(), a);
    assert!(fresh.begin() != fresh.end());
}

#[test]
fn subtree_range_is_preorder_and_exact() {
    let mut scene = SceneData::new();
    let world = scene.add_prim(0, "World", "").unwrap();
    let a = scene.add_prim(world, "A", "").unwrap();
    let b = scene.add_prim(world, "B", "").unwrap();
    let a1 = scene.add_prim(a, "A1", "").unwrap();
    let a2 = scene.add_prim(a, "A2", "").unwrap();
    let mut source = SceneSource::new();
    assert!(source.add_scene("s", scene));
    let stage = Stage::open(&source, "s").unwrap();
    let prim = stage.prim_at_path(&Path::from_text("/World")).unwrap();

    let mut range = PrimRange::from_prim(&prim);
    let mut seen = Vec::new();
    while let Some(p) = range.next() {
        seen.push(p.ptr());
    }
    assert_eq!(seen, vec![world, a, a1, a2, b]);
    assert!(range.next().is_none());

    let whole = PrimRange::from_prim(&stage.pseudo_root());
    let mut count = 0;
    let mut whole_range = whole;
    while whole_range.next().is_some() {
        count += 1;
    }
    assert_eq!(count, 6);
}

#[test]
fn indexed_property_collection_is_stable_and_restartable() {
    let mut source = SceneSource::new();
    assert!(source.add_scene("s", demo_scene()));
    let stage = Stage::open(&source, "s").unwrap();
    let prim = stage.prim_at_path(&Path::from_text("/World/Counter")).unwrap();
    let props = prim.properties();
    assert_eq!(props.size(), 1);
    assert_eq!(props.size(), props.size());
    let first = props.at(0).property();
    let second = props.at(0).property();
    assert_eq!(first.path().text(), second.path().text());
    assert_eq!(first.name().text(), "size");

    let mut it = props.iter();
    assert!(it.next().is_some());
    assert!(it.next().is_none());
    let mut it2 = props.iter();
    assert!(it2.next().is_some());
}

#[test]
fn property_kind_probe_finds_attribute_and_value() {
    let mut source = SceneSource::new();
    assert!(source.add_scene("s", demo_scene()));
    let stage = Stage::open(&source, "s").unwrap();
    let prim = stage.prim_at_path(&Path::from_text("/World/Counter")).unwrap();
    let props = prim.properties();
    let property = props.at(0).property();
    assert!(property.is_authored());
    assert_eq!(property.path().text(), "/World/Counter.size");
    match property.property_kind() {
        PropertyKind::Attribute(attr) => {
            assert_eq!(attr.value_type().as_token().text(), "int");
            let value = attr.get().unwrap();
            assert!(<i32 as ValueMember>::is_holding(&value));
            assert!(!<bool as ValueMember>::is_holding(&value));
            assert_eq!(*value.get::<i32>().unwrap(), 42);
        }
        PropertyKind::Relationship(_) => panic!("expected an attribute"),
    }
}

#[test]
fn relationship_targets_in_declaration_order() {
    let mut scene = SceneData::new();
    let world = scene.add_prim(0, "World", "").unwrap();
    scene
        .add_relationship(
            world,
            "binding",
            Some(vec![Path::from_text("/A"), Path::from_text("/B")]),
        )
        .unwrap();
    let mut source = SceneSource::new();
    assert!(source.add_scene("s", scene));
    let stage = Stage::open(&source, "s").unwrap();
    let prim = stage.prim_at_path(&Path::from_text("/World")).unwrap();
    let props = prim.properties();
    match props.at(0).property().property_kind() {
        PropertyKind::Relationship(rel) => {
            let targets = rel.targets().unwrap();
            assert_eq!(targets.size(), 2);
            assert_eq!(targets.at(0).text(), "/A");
            assert_eq!(targets.at(1).text(), "/B");
            let mut it = targets.iter();
            assert_eq!(it.next().unwrap().text(), "/A");
            assert_eq!(it.next().unwrap().text(), "/B");
            assert!(it.next().is_none());
        }
        PropertyKind::Attribute(_) => panic!("expected a relationship"),
    }
}

#[test]
fn unauthored_relationship_yields_none_never_some_empty() {
    let mut scene = SceneData::new();
    let world = scene.add_prim(0, "World", "").unwrap();
    scene.add_relationship(world, "binding", None).unwrap();
    // An authored empty target list is rejected outright.
    assert!(scene.add_relationship(world, "other", Some(Vec::new())).is_none());
    let mut source = SceneSource::new();
    assert!(source.add_scene("s", scene));
    let stage = Stage::open(&source, "s").unwrap();
    let prim = stage.prim_at_path(&Path::from_text("/World")).unwrap();
    let props = prim.properties();
    assert_eq!(props.size(), 1);
    match props.at(0).property().property_kind() {
        PropertyKind::Relationship(rel) => {
            assert!(!rel.is_authored());
            assert!(rel.targets().is_none());
        }
        PropertyKind::Attribute(_) => panic!("expected a relationship"),
    }
}

#[test]
fn display_names_and_groups_are_recorded() {
    let mut scene = SceneData::new();
    let world = scene.add_prim(0, "World", "").unwrap();
    assert!(scene.set_display_name(world, "The World"));
    assert!(!scene.set_display_name(17, "nobody"));
    let p = scene
        .add_attribute(world, "size", "int", Variability::Uniform, None)
        .unwrap();
    assert!(scene.set_prop_display_name(p, "Size"));
    assert!(scene.set_display_group(p, "Geometry"));
    let mut source = SceneSource::new();
    assert!(source.add_scene("s", scene));
    let stage = Stage::open(&source, "s").unwrap();
    let prim = stage.prim_at_path(&Path::from_text("/World")).unwrap();
    assert_eq!(prim.display_name(), "The World");
    let props = prim.properties();
    let property = props.at(0).property();
    assert_eq!(property.display_name(), "Size");
    assert_eq!(property.display_group(), "Geometry");
    assert!(!property.is_authored());
    match property.property_kind() {
        PropertyKind::Attribute(attr) => {
            assert!(attr.get().is_none());
        }
        PropertyKind::Relationship(_) => panic!("expected an attribute"),
    }
}

#[test]
fn fresh_scene_has_only_the_pseudo_root() {
    let scene = SceneData::new();
    let mut source = SceneSource::new();
    assert!(source.add_scene("s", scene));
    let stage = Stage::open(&source, "s").unwrap();
    let root = stage.pseudo_root();
    // The pseudo-root is addressable by its own path.
    let found = stage.prim_at_path(&Path::from_text("/")).unwrap();
    assert_eq!(found.ptr(), root.ptr());
    // A childless prim's sibling range terminates at once.
    let mut range = root.children();
    assert!(range.next().is_none());
    assert_eq!(root.properties().size(), 0);
}

#[test]
fn namespaced_property_names_split() {
    let mut scene = SceneData::new();
    let world = scene.add_prim(0, "World", "").unwrap();
    scene
        .add_attribute(world, "material:binding:strength", "int", Variability::Varying, None)
        .unwrap();
    let mut source = SceneSource::new();
    assert!(source.add_scene("s", scene));
    let stage = Stage::open(&source, "s").unwrap();
    let prim = stage.prim_at_path(&Path::from_text("/World")).unwrap();
    let props = prim.properties();
    let property = props.at(0).property();
    assert_eq!(
        property.split_name(),
        vec!["material".to_string(), "binding".to_string(), "strength".to_string()]
    );
    assert_eq!(property.base_name().text(), "strength");
    assert_eq!(property.namespace().text(), "material:binding");
}

#[test]
fn plain_property_name_splits_to_itself() {
    let mut scene = SceneData::new();
    let world = scene.add_prim(0, "World", "").unwrap();
    scene.add_attribute(world, "size", "int", Variability::Varying, None).unwrap();
    scene.add_attribute(world, "a:", "int", Variability::Varying, None).unwrap();
    let mut source = SceneSource::new();
    assert!(source.add_scene("s", scene));
    let stage = Stage::open(&source, "s").unwrap();
    let prim = stage.prim_at_path(&Path::from_text("/World")).unwrap();
    let props = prim.properties();
    let plain = props.at(0).property();
    assert_eq!(plain.split_name(), vec!["size".to_string()]);
    assert_eq!(plain.base_name().text(), "size");
    assert_eq!(plain.namespace().text(), "");
    let trailing = props.at(1).property();
    assert_eq!(trailing.split_name(), vec!["a".to_string(), String::new()]);
    assert_eq!(trailing.base_name().text(), "");
    assert_eq!(trailing.namespace().text(), "a");
}
