use dyngpu::collections::type_map::TypeMap;
use dyngpu::resource::shaders::{ModuleTable, Shaders};
use dyngpu::resource::{Resource, Resources};
use std::cell::Cell;
use std::rc::Rc;
use std::sync::Arc;

/// A device that counts what was made from it.
#[derive(Clone)]
struct Workshop {
    made: Rc<Cell<u32>>,
}

impl Workshop {
    fn fresh() -> Workshop {
        Workshop { made: Rc::new(Cell::new(0)) }
    }
}

/// A resource that knows its id and the how-manieth it was.
#[derive(Debug, PartialEq)]
struct Part {
    id: u64,
    serial: u32,
    uses: u32,
}

impl Resource<Workshop> for Part {
    fn create(id: u64, device: &Workshop) -> Part {
        device.made.set(device.made.get() + 1);
        Part { id, serial: device.made.get(), uses: 0 }
    }
}

#[test]
fn type_map_starts_empty() {
    let map: TypeMap<i32> = TypeMap::new();
    assert!(!map.contains_id(0));
    assert!(!map.contains_id(7));
    assert_eq!(map.get_by_id(7), None);
}

#[test]
fn set_by_id_puts_and_replaces() {
    let mut map = TypeMap::new();
    map.set_by_id(7, "seven");
    map.set_by_id(8, "eight");
    assert_eq!(map.get_by_id(7), Some(&"seven"));
    assert_eq!(map.get_by_id(8), Some(&"eight"));
    assert_eq!(map.get_by_id(9), None);
    map.set_by_id(7, "sieben");
    assert_eq!(map.get_by_id(7), Some(&"sieben"));
    assert_eq!(map.get_by_id(8), Some(&"eight"));
    assert!(map.contains_id(7) && map.contains_id(8) && !map.contains_id(9));
}

#[test]
fn with_id_chains() {
    let map = TypeMap::new().with_id(1, 10).with_id(2, 20).with_id(1, 11);
    assert_eq!(map.get_by_id(1), Some(&11));
    assert_eq!(map.get_by_id(2), Some(&20));
    assert_eq!(*map.require(2), 20);
}

#[test]
fn add_by_id_keeps_what_is_there() {
    let mut map = TypeMap::new();
    map.add_by_id(1, 10);
    map.add_by_id(1, 99);
    map.add_by_id(2, 20);
    assert_eq!(map.get_by_id(1), Some(&10));
    assert_eq!(map.get_by_id(2), Some(&20));
}

#[test]
fn get_mut_by_id_changes_one_value() {
    let mut map = TypeMap::new().with_id(1, 10).with_id(2, 20).with_id(3, 30);
    *map.get_mut_by_id(2).unwrap() += 5;
    *map.require_mut(3) += 1;
    assert!(map.get_mut_by_id(4).is_none());
    assert_eq!(map.get_by_id(1), Some(&10));
    assert_eq!(map.get_by_id(2), Some(&25));
    assert_eq!(map.get_by_id(3), Some(&31));
}

#[test]
fn defaults_fill_only_what_is_missing() {
    let mut map: TypeMap<u32> = TypeMap::new().with_id(1, 10).with_default(2);
    assert_eq!(map.get_by_id(2), Some(&0));
    map.add_default(1);
    assert_eq!(map.get_by_id(1), Some(&10));
    map.set_default(1);
    assert_eq!(map.get_by_id(1), Some(&0));
    assert_eq!(*map.get_defaulted(3), 0);
    *map.get_mut_defaulted(3) += 4;
    *map.get_mut_defaulted(4) += 9;
    assert_eq!(*map.get_defaulted(3), 4);
    assert_eq!(*map.get_defaulted(4), 9);
}

#[test]
fn many_tags_keep_their_own_values() {
    let mut map = TypeMap::new();
    for id in 0..500u64 {
        map.set_by_id(id * 7919, id);
    }
    for id in 0..500u64 {
        assert_eq!(map.get_by_id(id * 7919), Some(&id));
    }
    assert!(!map.contains_id(1));
}

#[test]
fn a_resource_is_made_once() {
    let workshop = Workshop::fresh();
    let mut resources: Resources<Workshop, Part> = Resources::new(workshop.clone());
    assert!(!resources.contains(5));
    assert_eq!(workshop.made.get(), 0);
    assert_eq!(*resources.get(5), Part { id: 5, serial: 1, uses: 0 });
    assert_eq!(workshop.made.get(), 1);
    assert_eq!(*resources.get(5), Part { id: 5, serial: 1, uses: 0 });
    assert_eq!(*resources.get(5), Part { id: 5, serial: 1, uses: 0 });
    assert_eq!(workshop.made.get(), 1);
    assert!(resources.contains(5));
}

#[test]
fn resources_of_other_ids_do_not_disturb() {
    let workshop = Workshop::fresh();
    let mut resources: Resources<Workshop, Part> = Resources::new(workshop.clone());
    resources.get_mut(1).uses += 1;
    resources.get_mut(2).uses += 10;
    resources.get_mut(1).uses += 1;
    assert_eq!(*resources.get(1), Part { id: 1, serial: 1, uses: 2 });
    assert_eq!(*resources.get(2), Part { id: 2, serial: 2, uses: 10 });
    assert_eq!(workshop.made.get(), 2);
}

#[test]
fn module_table_by_name() {
    let mut table: ModuleTable<u32> = ModuleTable::new();
    assert!(table.get("triangle").is_none());
    let first = table.insert(String::from("triangle"), 3);
    let second = table.insert(String::from("rainbow"), 7);
    assert_eq!((*first, *second), (3, 7));
    assert_eq!(table.get("triangle").map(|m| *m), Some(3));
    assert_eq!(table.get("rainbow").map(|m| *m), Some(7));
    assert!(table.get("").is_none());
    table.insert(String::from("triangle"), 4);
    assert_eq!(table.get("triangle").map(|m| *m), Some(4));
    assert_eq!(table.get("rainbow").map(|m| *m), Some(7));
}

#[test]
fn shaders_hand_out_the_module_that_was_put_in() {
    let mut shaders: Shaders<u8, String> = Shaders::new(1);
    assert_eq!(*shaders.device(), 1);
    assert!(shaders.get_module("rainbow").is_none());
    let handle = shaders.insert(String::from("rainbow"), String::from("wgsl"));
    let again = shaders.module("rainbow");
    assert!(Arc::ptr_eq(&handle, &again));
    assert!(Arc::ptr_eq(&handle, &shaders.get_module("rainbow").unwrap()));
    assert!(shaders.get_module("triangle").is_none());
}

#[test]
fn shaders_are_a_resource_of_the_device() {
    let shaders: Shaders<u8, String> = Resource::create(0, &9);
    assert_eq!(*shaders.device(), 9);
    assert!(shaders.get_module("any").is_none());
}
