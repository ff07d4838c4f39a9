use glfwproject::graphics::shader::error::ShaderError;
use glfwproject::graphics::shader::uniform_map::{UniformData, UniformKind, UniformMap, UniformValue};
use glfwproject::graphics::utility::FloatBits;

fn float(value: f32) -> FloatBits {
    FloatBits(value.to_bits())
}

#[test]
fn new_map_is_empty() {
    let map = UniformMap::new();
    assert!(!map.contains("k"));
    assert!(!map.contains(""));
    assert_eq!(map.get::<i32>("k"), None);
}

#[test]
fn insert_then_get_returns_the_value() {
    let mut map = UniformMap::new();
    assert_eq!(map.insert("scale", float(2.5)), Ok(()));
    assert!(map.contains("scale"));
    assert_eq!(map.get::<FloatBits>("scale"), Some(&float(2.5)));
    assert_eq!(f32::from_bits(map.get::<FloatBits>("scale").unwrap().0), 2.5);
}

#[test]
fn second_insert_keeps_the_first_value() {
    let mut map = UniformMap::new();
    assert_eq!(map.insert("n", 1i32), Ok(()));
    assert_eq!(
        map.insert("n", 2i32),
        Err(ShaderError::UniformAlreadyExists { name: "n".to_string() })
    );
    assert_eq!(map.get::<i32>("n"), Some(&1));
}

#[test]
fn second_insert_of_another_type_is_refused_too() {
    let mut map = UniformMap::new();
    assert_eq!(map.insert("n", 1i32), Ok(()));
    assert_eq!(
        map.insert("n", float(1.0)),
        Err(ShaderError::UniformAlreadyExists { name: "n".to_string() })
    );
    assert_eq!(map.get::<i32>("n"), Some(&1));
    assert_eq!(map.get::<FloatBits>("n"), None);
}

#[test]
fn get_of_another_type_is_none() {
    let mut map = UniformMap::new();
    map.insert("v", 7u32).unwrap();
    assert_eq!(map.get::<i32>("v"), None);
    assert_eq!(map.get::<FloatBits>("v"), None);
    assert_eq!(map.get::<[FloatBits; 3]>("v"), None);
    assert_eq!(map.get::<u32>("v"), Some(&7));
}

#[test]
fn get_mut_changes_the_value_in_place() {
    let mut map = UniformMap::new();
    map.insert("a", 1i32).unwrap();
    map.insert("b", 2i32).unwrap();
    *map.get_mut::<i32>("a").unwrap() = 10;
    assert_eq!(map.get::<i32>("a"), Some(&10));
    assert_eq!(map.get::<i32>("b"), Some(&2));
}

#[test]
fn get_mut_of_another_type_is_none() {
    let mut map = UniformMap::new();
    map.insert("a", 1i32).unwrap();
    assert!(map.get_mut::<u32>("a").is_none());
    assert!(map.get_mut::<i32>("missing").is_none());
    assert_eq!(map.get::<i32>("a"), Some(&1));
}

#[test]
fn remove_returns_the_slot() {
    let mut map = UniformMap::new();
    map.insert("a", 1i32).unwrap();
    map.insert("b", float(0.5)).unwrap();
    assert_eq!(map.remove("a"), Some(UniformValue::Int(1)));
    assert_eq!(map.remove("a"), None);
    assert!(!map.contains("a"));
    assert!(map.contains("b"));
    assert_eq!(map.remove("b"), Some(UniformValue::Float(float(0.5))));
}

#[test]
fn a_removed_name_can_be_inserted_with_another_type() {
    let mut map = UniformMap::new();
    map.insert("a", 1i32).unwrap();
    map.remove("a");
    assert_eq!(map.insert("a", float(3.0)), Ok(()));
    assert_eq!(map.get::<FloatBits>("a"), Some(&float(3.0)));
    assert_eq!(map.get::<i32>("a"), None);
}

#[test]
fn clear_empties_the_map() {
    let mut map = UniformMap::new();
    map.insert("a", 1i32).unwrap();
    map.insert("b", 2i32).unwrap();
    map.clear();
    assert!(!map.contains("a"));
    assert!(!map.contains("b"));
    assert_eq!(map.insert("a", 3i32), Ok(()));
}

#[test]
fn the_empty_name_is_a_key() {
    let mut map = UniformMap::new();
    assert_eq!(map.insert("", 5i32), Ok(()));
    assert!(map.contains(""));
    assert_eq!(map.get::<i32>(""), Some(&5));
    assert!(!map.contains(" "));
}

#[test]
fn names_are_not_normalised() {
    let mut map = UniformMap::new();
    map.insert("\u{e9}", 1i32).unwrap();
    assert!(!map.contains("e\u{301}"));
    assert_eq!(map.insert("e\u{301}", 2i32), Ok(()));
    assert_eq!(map.get::<i32>("\u{e9}"), Some(&1));
    assert_eq!(map.get::<i32>("e\u{301}"), Some(&2));
}

#[test]
fn vectors_and_matrices_are_stored_whole() {
    let mut map = UniformMap::new();
    let v2 = [float(1.0), float(2.0)];
    let v3 = [float(1.0), float(2.0), float(3.0)];
    let v4 = [float(1.0), float(2.0), float(3.0), float(4.0)];
    let mut m4 = [float(0.0); 16];
    m4[0] = float(1.0);
    m4[5] = float(1.0);
    m4[10] = float(1.0);
    m4[15] = float(1.0);
    map.insert("v2", v2).unwrap();
    map.insert("v3", v3).unwrap();
    map.insert("v4", v4).unwrap();
    map.insert("m4", m4).unwrap();
    assert_eq!(map.get::<[FloatBits; 2]>("v2"), Some(&v2));
    assert_eq!(map.get::<[FloatBits; 3]>("v3"), Some(&v3));
    assert_eq!(map.get::<[FloatBits; 4]>("v4"), Some(&v4));
    assert_eq!(map.get::<[FloatBits; 16]>("m4"), Some(&m4));
    assert_eq!(map.get::<[FloatBits; 4]>("v3"), None);
    map.get_mut::<[FloatBits; 3]>("v3").unwrap()[1] = float(-2.0);
    assert_eq!(
        map.get::<[FloatBits; 3]>("v3"),
        Some(&[float(1.0), float(-2.0), float(3.0)])
    );
}

#[test]
fn kinds_of_the_host_types() {
    assert_eq!(<FloatBits as UniformData>::kind(), UniformKind::Float);
    assert_eq!(<i32 as UniformData>::kind(), UniformKind::Int);
    assert_eq!(<u32 as UniformData>::kind(), UniformKind::UnsignedInt);
    assert_eq!(<[FloatBits; 2] as UniformData>::kind(), UniformKind::Vec2);
    assert_eq!(<[FloatBits; 3] as UniformData>::kind(), UniformKind::Vec3);
    assert_eq!(<[FloatBits; 4] as UniformData>::kind(), UniformKind::Vec4);
    assert_eq!(<[FloatBits; 16] as UniformData>::kind(), UniformKind::Mat4);
    assert_eq!(7i32.wrap(), UniformValue::Int(7));
    assert_eq!(7i32.wrap().kind(), UniformKind::Int);
    assert_eq!(7u32.wrap().kind(), UniformKind::UnsignedInt);
    assert_eq!(float(7.0).wrap().kind(), UniformKind::Float);
    assert_eq!(<i32 as UniformData>::peek(&UniformValue::Int(3)), Some(&3));
    assert_eq!(<i32 as UniformData>::peek(&UniformValue::UnsignedInt(3)), None);
}
