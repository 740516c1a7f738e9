//! The opaque value container: probe-then-extract, round trips,
//! writes, and the small value types.

use openusd::ar::ResolvedPath;
use openusd::ar::Timestamp;
use openusd::scene::SceneData;
use openusd::scene::SceneSource;
use openusd::sdf::AssetPath;
use openusd::sdf::Path;
use openusd::sdf::Variability;
use openusd::tf::Token;
use openusd::usd::Object;
use openusd::usd::PropertyKind;
use openusd::usd::Stage;
use openusd::usd::TimeCode;
use openusd::usd_geom::Mesh;
use openusd::vt::DoubleArray;
use openusd::vt::Float32;
use openusd::vt::Float64;
use openusd::vt::FloatArray;
use openusd::vt::IntArray;
use openusd::vt::TokenArray;
use openusd::vt::Value;
use openusd::vt::ValueMember;
use openusd::vt::Vec2Array;
use openusd::vt::Vec2f;
use openusd::vt::Vec3Array;
use openusd::vt::Vec3d;
use openusd::vt::Vec3f;
use openusd::vt::Vec4Array;
use openusd::vt::Vec4f;

#[test]
fn scalar_round_trip_int() {
    let v = <i32 as ValueMember>::from(&42);
    assert!(<i32 as ValueMember>::is_holding(&v));
    assert_eq!(*v.get::<i32>().unwrap(), 42);
    assert!(!<bool as ValueMember>::is_holding(&v));
    assert!(!<Float32 as ValueMember>::is_holding(&v));
    assert!(!<Float64 as ValueMember>::is_holding(&v));
    assert!(!<Vec2f as ValueMember>::is_holding(&v));
    assert!(!<Vec3f as ValueMember>::is_holding(&v));
    assert!(!<Vec3d as ValueMember>::is_holding(&v));
    assert!(!<Vec4f as ValueMember>::is_holding(&v));
    assert!(v.as_token().is_none());
    assert!(v.as_int_array().is_none());
    assert!(v.as_asset_path().is_none());
    assert!(!v.is_empty());
}

#[test]
fn scalar_round_trip_bool() {
    let v = <bool as ValueMember>::from(&true);
    assert!(<bool as ValueMember>::is_holding(&v));
    assert_eq!(*v.get::<bool>().unwrap(), true);
    assert!(v.get::<i32>().is_none());
}

#[test]
fn scalar_round_trip_floats_as_bits() {
    let f = Float32 { bits: 1.5f32.to_bits() };
    let v = <Float32 as ValueMember>::from(&f);
    assert_eq!(*v.get::<Float32>().unwrap(), f);
    assert_eq!(f32::from_bits(v.get::<Float32>().unwrap().bits), 1.5);

    let d = Float64 { bits: 2.25f64.to_bits() };
    let w = <Float64 as ValueMember>::from(&d);
    assert_eq!(*w.get::<Float64>().unwrap(), d);
    assert!(w.get::<Float32>().is_none());
}

#[test]
fn scalar_round_trip_vectors() {
    let v2 = Vec2f { x: 1.0f32.to_bits(), y: 2.0f32.to_bits() };
    let v3 = Vec3f { x: 1, y: 2, z: 3 };
    let v3d = Vec3d { x: 4, y: 5, z: 6 };
    let v4 = Vec4f { x: 7, y: 8, z: 9, w: 10 };
    assert_eq!(*<Vec2f as ValueMember>::from(&v2).get::<Vec2f>().unwrap(), v2);
    assert_eq!(*<Vec3f as ValueMember>::from(&v3).get::<Vec3f>().unwrap(), v3);
    assert_eq!(*<Vec3d as ValueMember>::from(&v3d).get::<Vec3d>().unwrap(), v3d);
    assert_eq!(*<Vec4f as ValueMember>::from(&v4).get::<Vec4f>().unwrap(), v4);
    assert!(<Vec3f as ValueMember>::from(&v3).get::<Vec3d>().is_none());
}

#[test]
fn empty_value_holds_nothing() {
    let v = Value::new();
    assert!(v.is_empty());
    assert!(v.get::<i32>().is_none());
    assert!(!<bool as ValueMember>::is_holding(&v));
    assert!(v.as_token().is_none());
    assert!(v.as_token_array().is_none());
    assert_eq!(v.type_token(), "");
}

#[test]
fn token_value_extraction() {
    let t = Token::new("up");
    let v = Value::from_token(&t);
    assert_eq!(v.as_token().unwrap().text(), "up");
    assert_eq!(v.type_token(), "token");
    assert!(v.get::<i32>().is_none());
}

#[test]
fn asset_path_value_extraction() {
    let a = AssetPath::new("ref.usd", "/resolved/ref.usd");
    let v = Value::from_asset_path(&a);
    let r = v.as_asset_path().unwrap();
    assert_eq!(r.asset_path(), "ref.usd");
    assert_eq!(r.resolved_path(), "/resolved/ref.usd");
    assert_eq!(v.type_token(), "asset");
}

#[test]
fn array_values_extract_and_exclude_each_other() {
    let ia = IntArray::from_items(vec![1, 2, 3]);
    let v = Value::from_int_array(ia);
    let back = v.as_int_array().unwrap();
    assert_eq!(back.array().size(), 3);
    assert_eq!(back.array().at(0), 1);
    assert_eq!(back.array().at(2), 3);
    assert_eq!(back.array().as_slice(), &[1, 2, 3]);
    assert!(v.as_float_array().is_none());
    assert!(v.as_double_array().is_none());
    assert!(v.as_vec2_array().is_none());
    assert!(v.as_vec3_array().is_none());
    assert!(v.as_vec4_array().is_none());
    assert!(v.as_token_array().is_none());
    assert_eq!(v.type_token(), "int[]");

    let fa = FloatArray::from_items(vec![Float32 { bits: 1 }, Float32 { bits: 2 }]);
    let vf = Value::from_float_array(fa);
    assert_eq!(vf.as_float_array().unwrap().array().size(), 2);
    assert_eq!(vf.type_token(), "float[]");

    let da = DoubleArray::from_items(vec![Float64 { bits: 9 }]);
    assert_eq!(Value::from_double_array(da).type_token(), "double[]");
    let v2a = Vec2Array::from_items(vec![Vec2f { x: 0, y: 1 }]);
    assert_eq!(Value::from_vec2_array(v2a).type_token(), "float2[]");
    let v3a = Vec3Array::from_items(vec![Vec3f { x: 0, y: 1, z: 2 }]);
    assert_eq!(Value::from_vec3_array(v3a).type_token(), "float3[]");
    let v4a = Vec4Array::from_items(vec![Vec4f { x: 0, y: 1, z: 2, w: 3 }]);
    assert_eq!(Value::from_vec4_array(v4a).type_token(), "float4[]");
}

#[test]
fn token_array_iteration_is_exact_and_restartable() {
    let arr = TokenArray::from_tokens(vec![Token::new("a"), Token::new("b")]);
    assert_eq!(arr.size(), 2);
    assert_eq!(arr.at(0).text(), "a");
    assert_eq!(arr.at(0).text(), arr.at(0).text());
    let mut it = arr.iter();
    assert_eq!(it.next().unwrap().text(), "a");
    assert_eq!(it.next().unwrap().text(), "b");
    assert!(it.next().is_none());
    assert!(it.next().is_none());
    let mut it2 = arr.iter();
    assert_eq!(it2.next().unwrap().text(), "a");

    let v = Value::from_token_array(arr);
    let back = v.as_token_array().unwrap();
    assert_eq!(back.array().size(), 2);
    assert_eq!(back.array().at(1).text(), "b");
    assert_eq!(v.type_token(), "token[]");
}

fn counter_attribute() -> openusd::usd::Attribute {
    let mut scene = SceneData::new();
    let world = scene.add_prim(0, "World", "").unwrap();
    let answer = <i32 as ValueMember>::from(&42);
    scene
        .add_attribute(world, "size", "int", Variability::Varying, Some(answer))
        .unwrap();
    let mut source = SceneSource::new();
    assert!(source.add_scene("s", scene));
    let stage = Stage::open(&source, "s").unwrap();
    let prim = stage.prim_at_path(&Path::from_text("/World")).unwrap();
    let props = prim.properties();
    match props.at(0).property().property_kind() {
        PropertyKind::Attribute(attr) => attr,
        PropertyKind::Relationship(_) => panic!("expected an attribute"),
    }
}

#[test]
fn attribute_set_accepts_matching_type_and_stores_value() {
    let mut attr = counter_attribute();
    assert_eq!(*attr.get().unwrap().get::<i32>().unwrap(), 42);
    let seven = <i32 as ValueMember>::from(&7);
    assert!(attr.set(&seven));
    assert_eq!(*attr.get().unwrap().get::<i32>().unwrap(), 7);
}

#[test]
fn attribute_set_rejects_mismatched_or_empty_value() {
    let mut attr = counter_attribute();
    let wrong = <bool as ValueMember>::from(&true);
    assert!(!attr.set(&wrong));
    assert!(!attr.set(&Value::new()));
    assert_eq!(*attr.get().unwrap().get::<i32>().unwrap(), 42);
}

#[test]
fn attribute_time_samples_read_back_exactly() {
    let mut attr = counter_attribute();
    let t1 = TimeCode::from_bits(1.0f64.to_bits());
    let t2 = TimeCode::from_bits(2.0f64.to_bits());
    let v1 = <i32 as ValueMember>::from(&10);
    let v2 = <i32 as ValueMember>::from(&20);
    assert!(attr.set_at(&v1, t1));
    assert!(attr.set_at(&v2, t2));
    assert_eq!(*attr.get_at(t1).unwrap().get::<i32>().unwrap(), 10);
    assert_eq!(*attr.get_at(t2).unwrap().get::<i32>().unwrap(), 20);
    // An unsampled ordinate falls back to the default value.
    let t3 = TimeCode::from_bits(3.0f64.to_bits());
    assert_eq!(*attr.get_at(t3).unwrap().get::<i32>().unwrap(), 42);
    // Rewriting a sampled ordinate replaces the sample.
    let v3 = <i32 as ValueMember>::from(&11);
    assert!(attr.set_at(&v3, t1));
    assert_eq!(*attr.get_at(t1).unwrap().get::<i32>().unwrap(), 11);
    assert_eq!(*attr.get_at(t2).unwrap().get::<i32>().unwrap(), 20);
    // The default ordinate reads the default value.
    assert_eq!(*attr.get_at(TimeCode::default()).unwrap().get::<i32>().unwrap(), 42);
}

#[test]
fn attribute_set_at_default_ordinate_writes_the_default() {
    let mut attr = counter_attribute();
    let nine = <i32 as ValueMember>::from(&9);
    assert!(attr.set_at(&nine, TimeCode::default()));
    assert_eq!(*attr.get().unwrap().get::<i32>().unwrap(), 9);
    let wrong = <bool as ValueMember>::from(&false);
    assert!(!attr.set_at(&wrong, TimeCode::from_bits(7)));
    assert!(attr.get_at(TimeCode::from_bits(7)).map(|v| *v.get::<i32>().unwrap()) == Some(9));
}

#[test]
fn token_and_asset_values_flow_through_attributes() {
    let mut scene = SceneData::new();
    let world = scene.add_prim(0, "World", "").unwrap();
    let up = Value::from_token(&Token::new("up"));
    scene.add_attribute(world, "axis", "token", Variability::Uniform, Some(up)).unwrap();
    let asset = Value::from_asset_path(&AssetPath::new("tex.png", ""));
    scene.add_attribute(world, "file", "asset", Variability::Uniform, Some(asset)).unwrap();
    let mut source = SceneSource::new();
    assert!(source.add_scene("s", scene));
    let stage = Stage::open(&source, "s").unwrap();
    let prim = stage.prim_at_path(&Path::from_text("/World")).unwrap();
    let props = prim.properties();
    match props.at(0).property().property_kind() {
        PropertyKind::Attribute(attr) => {
            let value = attr.get().unwrap();
            assert_eq!(value.as_token().unwrap().text(), "up");
        }
        PropertyKind::Relationship(_) => panic!("expected an attribute"),
    }
    match props.at(1).property().property_kind() {
        PropertyKind::Attribute(attr) => {
            let value = attr.get().unwrap();
            let a = value.as_asset_path().unwrap();
            assert_eq!(a.asset_path(), "tex.png");
            assert!(a.resolved_path().is_empty());
        }
        PropertyKind::Relationship(_) => panic!("expected an attribute"),
    }
}

#[test]
fn attribute_identity_is_its_record() {
    let attr = counter_attribute();
    assert_eq!(attr.path().text(), "/World.size");
    assert_eq!(attr.name().text(), "size");
    assert_eq!(attr.value_type().as_token().text(), "int");
    assert_eq!(attr.value_type().role().text(), "");
}

#[test]
fn mesh_schema_reaches_named_attributes() {
    let mut scene = SceneData::new();
    let world = scene.add_prim(0, "World", "").unwrap();
    let mesh_prim = scene.add_prim(world, "Grid", "Mesh").unwrap();
    scene
        .add_attribute(mesh_prim, "points", "float3[]", Variability::Varying, None)
        .unwrap();
    scene
        .add_attribute(mesh_prim, "faceVertexCounts", "int[]", Variability::Varying, None)
        .unwrap();
    let mut source = SceneSource::new();
    assert!(source.add_scene("s", scene));
    let stage = Stage::open(&source, "s").unwrap();

    let not_a_mesh = stage.prim_at_path(&Path::from_text("/World")).unwrap();
    assert!(Mesh::from_prim(not_a_mesh).is_none());

    let prim = stage.prim_at_path(&Path::from_text("/World/Grid")).unwrap();
    let mesh = Mesh::from_prim(prim).unwrap();
    assert_eq!(mesh.points_attr().unwrap().name().text(), "points");
    assert_eq!(mesh.face_vertex_counts_attr().unwrap().name().text(), "faceVertexCounts");
    assert!(mesh.extent_attr().is_none());
    assert!(mesh.face_vertex_indices_attr().is_none());
}

#[test]
fn resolved_path_and_timestamp() {
    let empty = ResolvedPath::new("");
    assert!(empty.is_empty());
    let full = ResolvedPath::new("/assets/cube.usd");
    assert!(!full.is_empty());
    assert_eq!(full.get_path_string(), "/assets/cube.usd");
    let ts = Timestamp::from_bits(123.5f64.to_bits());
    assert_eq!(f64::from_bits(ts.bits), 123.5);
}

#[test]
fn time_code_default_is_distinguished() {
    let d = TimeCode::default();
    assert!(d.is_default);
    let n = TimeCode::from_bits(0);
    assert!(!n.is_default);
    assert!(d != n);
    assert_eq!(TimeCode::from_bits(5), TimeCode::from_bits(5));
}
