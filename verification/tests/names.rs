use khzeb::component::Component;
use khzeb::name::Name;

#[test]
fn test_creation() {
    let from_str = Name::new("Bumblebee");
    let from_string = Name::new(&"Wasp".to_string());

    assert_eq!(from_str, "Bumblebee");
    assert_eq!(from_string, "Wasp");
}

#[test]
fn test_eq() {
    let a = Name::new("unit");
    let b = Name::new("unit");
    let z = Name::new("UNIT BUT IN CAPS");

    assert_eq!(a, b);
    assert_ne!(a, z);
    assert_ne!(b, z);
}

#[test]
fn name_keeps_its_text() {
    let name = Name::new("textures/world00");
    assert_eq!(name.as_str(), "textures/world00");
    assert_eq!(Name::new("").as_str(), "");
    assert_eq!(Name::new("żółw 🐢").as_str(), "żółw 🐢");
}

#[test]
fn name_differs_from_other_text() {
    let name = Name::new("Bumblebee");
    assert_ne!(name, "bumblebee");
    assert_ne!(name, "Bumblebe");
    assert_ne!(name, "");
}

#[test]
fn cloned_name_is_equal() {
    let name = Name::new("Shared");
    let copy = name.clone();
    assert_eq!(name, copy);
    assert_eq!(copy.as_str(), "Shared");
}

#[test]
fn components_name_themselves() {
    assert_eq!(().name(), "()");
    let label = Name::new("A");
    assert_eq!(Component::name(&label), label);
}
