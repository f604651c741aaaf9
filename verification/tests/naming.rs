use smart_naming::generator::generate_smart_default_name;
use smart_naming::kind::ObjectKind;
use smart_naming::registry::get_object_type_name;
use smart_naming::table::NameTable;

fn all_kinds() -> Vec<ObjectKind> {
    vec![
        ObjectKind::WorkingSet,
        ObjectKind::DataMask,
        ObjectKind::AlarmMask,
        ObjectKind::Container,
        ObjectKind::SoftKeyMask,
        ObjectKind::Key,
        ObjectKind::Button,
        ObjectKind::InputBoolean,
        ObjectKind::InputString,
        ObjectKind::InputNumber,
        ObjectKind::InputList,
        ObjectKind::OutputString,
        ObjectKind::OutputNumber,
        ObjectKind::OutputList,
        ObjectKind::OutputLine,
        ObjectKind::OutputRectangle,
        ObjectKind::OutputEllipse,
        ObjectKind::OutputPolygon,
        ObjectKind::OutputMeter,
        ObjectKind::OutputLinearBarGraph,
        ObjectKind::OutputArchedBarGraph,
        ObjectKind::PictureGraphic,
        ObjectKind::NumberVariable,
        ObjectKind::StringVariable,
        ObjectKind::FontAttributes,
        ObjectKind::LineAttributes,
        ObjectKind::FillAttributes,
        ObjectKind::InputAttributes,
        ObjectKind::ObjectPointer,
        ObjectKind::Macro,
        ObjectKind::AuxiliaryFunctionType1,
        ObjectKind::AuxiliaryInputType1,
        ObjectKind::AuxiliaryFunctionType2,
        ObjectKind::AuxiliaryInputType2,
        ObjectKind::AuxiliaryControlDesignatorType2,
        ObjectKind::ColourMap,
        ObjectKind::GraphicsContext,
        ObjectKind::ColourPalette,
        ObjectKind::GraphicData,
        ObjectKind::WorkingSetSpecialControls,
        ObjectKind::ScaledGraphic,
        ObjectKind::WindowMask,
        ObjectKind::KeyGroup,
        ObjectKind::ExtendedInputAttributes,
        ObjectKind::ObjectLabelReferenceList,
        ObjectKind::ExternalObjectDefinition,
        ObjectKind::ExternalReferenceName,
        ObjectKind::ExternalObjectPointer,
        ObjectKind::Animation,
    ]
}

#[test]
fn display_names_nonempty_for_all_kinds() {
    for kind in all_kinds() {
        assert!(!get_object_type_name(kind).is_empty());
    }
}

#[test]
fn display_name_expected_values() {
    assert_eq!(get_object_type_name(ObjectKind::Button), "Button");
    assert_eq!(get_object_type_name(ObjectKind::WorkingSet), "Working Set");
    assert_eq!(get_object_type_name(ObjectKind::OutputLine), "Line");
    assert_eq!(get_object_type_name(ObjectKind::OutputLinearBarGraph), "Linear Bar");
    assert_eq!(get_object_type_name(ObjectKind::PictureGraphic), "Picture");
    assert_eq!(
        get_object_type_name(ObjectKind::AuxiliaryControlDesignatorType2),
        "Aux Control v2"
    );
    assert_eq!(
        get_object_type_name(ObjectKind::WorkingSetSpecialControls),
        "Special Controls"
    );
    assert_eq!(
        get_object_type_name(ObjectKind::ObjectLabelReferenceList),
        "Label Reference List"
    );
}

#[test]
fn repeated_calls_yield_identical_output() {
    for kind in all_kinds() {
        assert_eq!(get_object_type_name(kind), get_object_type_name(kind));
    }
    let mut table = NameTable::new();
    table.insert(String::from("Button"), ObjectKind::Button);
    table.insert(String::from("Key"), ObjectKind::Key);
    let first = generate_smart_default_name(ObjectKind::Button, &table);
    let second = generate_smart_default_name(ObjectKind::Button, &table);
    assert_eq!(first, second);
}

#[test]
fn generated_name_is_absent_from_table() {
    let mut table = NameTable::new();
    table.insert(String::from("Key"), ObjectKind::Key);
    table.insert(String::from("Key 2"), ObjectKind::Key);
    table.insert(String::from("Data Mask"), ObjectKind::DataMask);
    table.insert(String::from("odd name"), ObjectKind::Container);
    for kind in all_kinds() {
        let name = generate_smart_default_name(kind, &table);
        assert!(!table.contains_key(&name));
    }
}

#[test]
fn sequential_naming_from_empty_table() {
    let mut table = NameTable::new();
    let first = generate_smart_default_name(ObjectKind::Key, &table);
    assert_eq!(first, "Key");
    table.insert(first, ObjectKind::Key);
    let second = generate_smart_default_name(ObjectKind::Key, &table);
    assert_eq!(second, "Key 2");
    table.insert(second, ObjectKind::Key);
    let third = generate_smart_default_name(ObjectKind::Key, &table);
    assert_eq!(third, "Key 3");
}

#[test]
fn counter_is_seeded_from_same_kind_count() {
    let mut table = NameTable::new();
    table.insert(String::from("Button"), ObjectKind::Button);
    table.insert(String::from("Button 2"), ObjectKind::Button);
    let name = generate_smart_default_name(ObjectKind::Button, &table);
    assert_eq!(name, "Button 3");
}

#[test]
fn gaps_left_by_renames_are_not_avoided() {
    let mut table = NameTable::new();
    table.insert(String::from("Key"), ObjectKind::Key);
    table.insert(String::from("Key 5"), ObjectKind::Key);
    let name = generate_smart_default_name(ObjectKind::Key, &table);
    assert_eq!(name, "Key 3");
}

#[test]
fn other_kinds_do_not_affect_the_seed() {
    let mut table = NameTable::new();
    table.insert(String::from("Button"), ObjectKind::Button);
    table.insert(String::from("Button 2"), ObjectKind::Button);
    table.insert(String::from("Data Mask"), ObjectKind::DataMask);
    table.insert(String::from("Meter"), ObjectKind::OutputMeter);
    let name = generate_smart_default_name(ObjectKind::Key, &table);
    assert_eq!(name, "Key");
}

#[test]
fn collision_with_unrelated_name_is_skipped() {
    let mut table = NameTable::new();
    table.insert(String::from("Button"), ObjectKind::Button);
    table.insert(String::from("Button 2"), ObjectKind::Button);
    table.insert(String::from("Button 3"), ObjectKind::NumberVariable);
    let name = generate_smart_default_name(ObjectKind::Button, &table);
    assert_eq!(name, "Button 4");
}

#[test]
fn two_digit_suffixes_render_correctly() {
    let mut table = NameTable::new();
    for _ in 0..10 {
        let name = generate_smart_default_name(ObjectKind::Key, &table);
        table.insert(name, ObjectKind::Key);
    }
    let name = generate_smart_default_name(ObjectKind::Key, &table);
    assert_eq!(name, "Key 11");
}

#[test]
fn table_basics() {
    let mut table = NameTable::new();
    assert_eq!(table.len(), 0);
    assert!(!table.contains_key(&String::from("Key")));
    table.insert(String::from("Key"), ObjectKind::Key);
    assert_eq!(table.len(), 1);
    assert!(table.contains_key(&String::from("Key")));
    assert!(!table.contains_key(&String::from("Key 2")));
    assert_eq!(table.count_of_kind(ObjectKind::Key), 1);
    assert_eq!(table.count_of_kind(ObjectKind::Button), 0);
}
