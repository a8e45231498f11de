pub mod type_map;
