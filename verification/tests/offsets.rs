use honkai_dumper::il2cpp::module::Module;
use honkai_dumper::outputs::methoddumper::{
    describe, dump, render, report, verify_pointer, MethodOffsets,
};
use honkai_dumper::protocol::DumpError;

fn module() -> Module {
    Module { handle: 0x1000, size: 0x100 }
}

fn keys(map: &MethodOffsets) -> Vec<(String, u64)> {
    let mut out = Vec::new();
    let mut i = 0;
    while i < map.len() {
        out.push((map.key(i).clone(), map.rva(i)));
        i += 1;
    }
    out
}

fn pair(key: &str, rva: u64) -> (String, u64) {
    (String::from(key), rva)
}

#[test]
fn a_pointer_counts_inside_the_half_open_range() {
    let m = module();
    assert!(!verify_pointer(&m, 0));
    assert!(!verify_pointer(&m, 0xfff));
    assert!(verify_pointer(&m, 0x1000));
    assert!(verify_pointer(&m, 0x10ff));
    assert!(!verify_pointer(&m, 0x1100));
    assert!(!verify_pointer(&m, usize::MAX));
    assert!(m.holds(0x1080));
}

#[test]
fn a_module_at_the_top_of_memory_does_not_wrap() {
    let m = Module { handle: usize::MAX - 0x10, size: 0x100 };
    assert!(verify_pointer(&m, usize::MAX));
    assert!(!verify_pointer(&m, 0));
    assert!(!verify_pointer(&m, 0x20));
}

#[test]
fn a_name_is_qualified_by_namespace_and_class() {
    assert_eq!(describe("UnityEngine", "GameObject", "get_name"), "UnityEngine.GameObject::get_name");
    assert_eq!(describe("", "Program", "Main"), "Program::Main");
    assert_eq!(describe("A.B", "C", ""), "A.B.C::");
}

#[test]
fn a_new_map_is_empty() {
    let map = MethodOffsets::new(module());
    assert_eq!(map.len(), 0);
    assert_eq!(map.module, module());
    assert_eq!(map.summary(), "0 valid methods found and saved to methods.json");
}

#[test]
fn methods_are_filed_in_the_order_they_come() {
    let mut map = MethodOffsets::new(module());
    assert!(map.record(String::from("b"), 0x1010));
    assert!(map.record(String::from("a"), 0x1020));
    assert!(map.record(String::from("c"), 0x1000));
    assert_eq!(keys(&map), vec![pair("b", 0x10), pair("a", 0x20), pair("c", 0)]);
    assert_eq!(map.find(&String::from("a")), Some(1));
    assert_eq!(map.find(&String::from("z")), None);
}

#[test]
fn a_method_outside_the_module_is_dropped() {
    let mut map = MethodOffsets::new(module());
    assert!(!map.record(String::from("a"), 0xfff));
    assert!(!map.record(String::from("a"), 0x1100));
    assert!(!map.record(String::from("a"), 0));
    assert_eq!(map.len(), 0);
    assert!(map.record(String::from("a"), 0x10ff));
    assert_eq!(keys(&map), vec![pair("a", 0xff)]);
}

#[test]
fn repeated_names_get_rising_numbers() {
    let mut map = MethodOffsets::new(module());
    for offset in 0..12usize {
        assert!(map.record(String::from("N.C::m"), 0x1000 + offset));
    }
    let filed = keys(&map);
    assert_eq!(filed.len(), 12);
    assert_eq!(filed[0], pair("N.C::m", 0));
    for n in 1..12u64 {
        assert_eq!(filed[n as usize], (format!("N.C::m_{}", n), n));
    }
    assert_eq!(map.summary(), "12 valid methods found and saved to methods.json");
}

#[test]
fn each_name_has_its_own_numbers() {
    let mut map = MethodOffsets::new(module());
    map.record(String::from("a"), 0x1001);
    map.record(String::from("b"), 0x1002);
    map.record(String::from("a"), 0x1003);
    map.record(String::from("b"), 0x1004);
    map.record(String::from("a"), 0x1005);
    assert_eq!(keys(&map), vec![pair("a", 1), pair("b", 2), pair("a_1", 3), pair("b_1", 4), pair("a_2", 5)]);
}

#[test]
fn a_numbered_key_that_is_taken_gets_the_new_offset() {
    let mut map = MethodOffsets::new(module());
    map.record(String::from("a_1"), 0x1001);
    map.record(String::from("a"), 0x1002);
    map.record(String::from("a"), 0x1003);
    assert_eq!(keys(&map), vec![pair("a_1", 3), pair("a", 2)]);
    assert_eq!(map.len(), 2);
    assert_eq!(map.summary(), "2 valid methods found and saved to methods.json");
}

#[test]
fn a_name_that_is_taken_when_it_first_comes_is_numbered_at_once() {
    let mut map = MethodOffsets::new(module());
    map.record(String::from("a"), 0x1001);
    map.record(String::from("a"), 0x1002);
    map.record(String::from("a_1"), 0x1003);
    assert_eq!(keys(&map), vec![pair("a", 1), pair("a_1", 2), pair("a_1_1", 3)]);
}

#[test]
fn keys_stay_unique_and_offsets_inside() {
    let mut map = MethodOffsets::new(module());
    let names = ["x", "x", "x_1", "y", "x_1", "x", "y_1", "y", "y"];
    let mut pointer = 0x0ff0;
    for name in names {
        map.record(String::from(name), pointer);
        pointer += 0x11;
    }
    let filed = keys(&map);
    for i in 0..filed.len() {
        assert!(filed[i].1 < 0x100);
        for j in 0..i {
            assert_ne!(filed[i].0, filed[j].0);
        }
    }
}

#[test]
fn the_map_is_rendered_in_its_own_order() {
    let mut map = MethodOffsets::new(module());
    map.record(String::from("z::last"), 0x10ab);
    map.record(String::from("a::first"), 0x1000);
    let text = render(&map).unwrap();
    assert_eq!(text, "{\n  \"z::last\": \"0xab\",\n  \"a::first\": \"0x0\"\n}");
    let parsed: serde_json::Value = serde_json::from_str(&text).unwrap();
    let object = parsed.as_object().unwrap();
    assert_eq!(object.len(), map.len());
    let names: Vec<&String> = object.keys().collect();
    assert_eq!(names, vec!["z::last", "a::first"]);
}

#[test]
fn keys_are_escaped_as_json_asks() {
    let mut map = MethodOffsets::new(module());
    map.record(String::from("N.C::<Run>b__0\"\\"), 0x1001);
    let text = render(&map).unwrap();
    assert_eq!(text, "{\n  \"N.C::<Run>b__0\\\"\\\\\": \"0x1\"\n}");
}

#[test]
fn an_empty_map_is_an_empty_object() {
    let map = MethodOffsets::new(module());
    assert_eq!(render(&map).unwrap(), "{}");
}

#[test]
fn the_dump_counts_the_keys_of_the_file() {
    let mut map = MethodOffsets::new(module());
    map.record(String::from("a"), 0x1001);
    map.record(String::from("a"), 0x1002);
    map.record(String::from("gone"), 0x2000);
    let dumped = dump(&map).unwrap();
    assert_eq!(dumped.summary, "2 valid methods found and saved to methods.json");
    let parsed: serde_json::Value = serde_json::from_str(&dumped.json).unwrap();
    assert_eq!(parsed.as_object().unwrap().len(), 2);
}

#[test]
fn a_failed_serializer_is_reported() {
    let map = MethodOffsets::new(module());
    let broken = serde_json::from_str::<serde_json::Value>("{").map(|_| String::new());
    assert!(matches!(report(&map, broken), Err(DumpError::Serialize)));
    let fine = report(&map, Ok(String::from("{}"))).unwrap();
    assert_eq!(fine.json, "{}");
    assert_eq!(fine.summary, "0 valid methods found and saved to methods.json");
}
