use gfx_backend::remap::BindingTypes;
use gfx_backend::remap::DescRemapData;

#[test]
fn reserve_binding_slots_strictly_increase() {
    let mut table = DescRemapData::new();
    let a = table.reserve_binding(BindingTypes::UniformBuffers);
    let b = table.reserve_binding(BindingTypes::UniformBuffers);
    let c = table.reserve_binding(BindingTypes::UniformBuffers);
    assert_eq!((a, b, c), (0, 1, 2));
    assert!(a < b && b < c);
}

#[test]
fn reserve_binding_classes_are_independent() {
    let mut table = DescRemapData::new();
    let u0 = table.reserve_binding(BindingTypes::UniformBuffers);
    let i0 = table.reserve_binding(BindingTypes::Images);
    let u1 = table.reserve_binding(BindingTypes::UniformBuffers);
    let i1 = table.reserve_binding(BindingTypes::Images);
    assert_eq!((u0, u1), (0, 1));
    assert_eq!((i0, i1), (0, 1));
}

#[test]
fn insert_missing_binding_is_found_by_get_binding() {
    let mut table = DescRemapData::new();
    let list = table.insert_missing_binding(7, BindingTypes::Images, 2, 3);
    assert_eq!(list, vec![7]);
    let got = table.get_binding(BindingTypes::Images, 2, 3).expect("recorded binding");
    assert!(got.contains(&7));
}

#[test]
fn insert_missing_binding_appends_to_slot_list() {
    let mut table = DescRemapData::new();
    table.insert_missing_binding(4, BindingTypes::UniformBuffers, 0, 1);
    let list = table.insert_missing_binding(9, BindingTypes::UniformBuffers, 0, 1);
    assert_eq!(list, vec![4, 9]);
    assert_eq!(
        table.get_binding(BindingTypes::UniformBuffers, 0, 1).cloned(),
        Some(vec![4, 9])
    );
}

#[test]
fn insert_missing_binding_into_spare_reserves_and_records() {
    let mut table = DescRemapData::new();
    let first = table.insert_missing_binding_into_spare(BindingTypes::Images, 0, 0);
    assert_eq!(first, vec![0]);
    let second = table.insert_missing_binding_into_spare(BindingTypes::Images, 0, 0);
    assert_eq!(second, vec![0, 1]);
    let reserved = table.reserve_binding(BindingTypes::Images);
    assert_eq!(reserved, 2);
}

#[test]
fn get_binding_absent_key_is_none() {
    let table = DescRemapData::new();
    assert!(table.get_binding(BindingTypes::Images, 0, 0).is_none());
}

#[test]
fn slots_are_global_per_class_not_per_set() {
    let mut table = DescRemapData::new();
    let set0 = table.insert_missing_binding_into_spare(BindingTypes::UniformBuffers, 0, 0);
    assert_eq!(set0, vec![0]);
    let set1 = table.insert_missing_binding_into_spare(BindingTypes::UniformBuffers, 1, 0);
    assert_eq!(set1, vec![1]);
    assert_eq!(
        table.get_binding(BindingTypes::UniformBuffers, 0, 0).cloned(),
        Some(vec![0])
    );
    assert_eq!(
        table.get_binding(BindingTypes::UniformBuffers, 1, 0).cloned(),
        Some(vec![1])
    );
}
