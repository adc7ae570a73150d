use honkai_dumper::dumper::{Config, Emitters, HonkaiDumper, Stage};
use honkai_dumper::il2cpp::api::{Il2CppApi, Il2CppError, Library};
use honkai_dumper::il2cpp::functions::{Entry, TableLayout};
use honkai_dumper::il2cpp::module::{Module, ModuleError, Signature};
use honkai_dumper::il2cpp::types::MethodLayout;
use honkai_dumper::protocol::{DumpError, Query, Request, Response, Step};
use honkai_dumper::walker::{Mode, Phase, Walker};

const GAME_BASE: usize = 0x4000_0000;
const GAME_SIZE: u32 = 0x10_0000;
const PLAYER_BASE: usize = 0x2000_0000;
const DOMAIN: usize = 0x1000;
const ASSEMBLIES: usize = 0x2000;
const THUNKS: usize = 0x5000;
const OBJECTS: usize = 0x100_0000;

const PUBLIC_TYPE: i32 = 0x1;
const ABSTRACT_TYPE: i32 = 0x80;
const SEALED_TYPE: i32 = 0x100;
const PUBLIC_MEMBER: u16 = 0x7;
const PRIVATE_MEMBER: u16 = 0x1;
const VIRTUAL: u16 = 0x40;
const NEW_SLOT: u16 = 0x100;
const PARAM_OUT: u32 = 0x2;

struct MockType {
    name: Option<Vec<u8>>,
    byref: bool,
    attrs: u32,
}

struct MockField {
    flags: i32,
    name: &'static str,
    offset: usize,
    field_type: usize,
}

struct MockMethod {
    pointer: usize,
    flags: u16,
    name: &'static str,
    return_type: usize,
    params: Vec<usize>,
}

struct MockClass {
    name: &'static str,
    namespace: &'static str,
    flags: i32,
    is_valuetype: bool,
    is_enum: bool,
    parent: usize,
    fields: Vec<usize>,
    methods: Vec<usize>,
}

struct MockImage {
    name: &'static str,
    classes: Vec<usize>,
}

enum Object {
    Assembly { image: usize },
    Image(MockImage),
    Class(MockClass),
    Field(MockField),
    Method(MockMethod),
    Type(MockType),
}

struct Runtime {
    objects: Vec<Object>,
    assemblies: Vec<usize>,
    domain: usize,
    unbound: Vec<usize>,
    asked: Vec<usize>,
}

fn runtime() -> Runtime {
    Runtime { objects: Vec::new(), assemblies: Vec::new(), domain: DOMAIN, unbound: Vec::new(), asked: Vec::new() }
}

fn add(runtime: &mut Runtime, object: Object) -> usize {
    runtime.objects.push(object);
    OBJECTS + runtime.objects.len() * 0x100
}

fn object(runtime: &Runtime, handle: usize) -> &Object {
    &runtime.objects[(handle - OBJECTS) / 0x100 - 1]
}

fn add_type(runtime: &mut Runtime, name: &str, byref: bool, attrs: u32) -> usize {
    add(runtime, Object::Type(MockType { name: Some(name.as_bytes().to_vec()), byref, attrs }))
}

fn add_method(runtime: &mut Runtime, name: &'static str, pointer: usize, flags: u16) -> usize {
    let void = add_type(runtime, "System.Void", false, 0);
    add(runtime, Object::Method(MockMethod { pointer, flags, name, return_type: void, params: Vec::new() }))
}

fn add_class(runtime: &mut Runtime, namespace: &'static str, name: &'static str, flags: i32, methods: Vec<usize>) -> usize {
    add(
        runtime,
        Object::Class(MockClass {
            name,
            namespace,
            flags,
            is_valuetype: false,
            is_enum: false,
            parent: 0,
            fields: Vec::new(),
            methods,
        }),
    )
}

fn add_assembly(runtime: &mut Runtime, image_name: &'static str, classes: Vec<usize>) {
    let image = add(runtime, Object::Image(MockImage { name: image_name, classes }));
    let assembly = add(runtime, Object::Assembly { image });
    runtime.assemblies.push(assembly);
}

fn text(s: &str) -> Response {
    Response::Text(Some(s.as_bytes().to_vec()))
}

fn slot_of(function: usize) -> usize {
    function - THUNKS
}

fn call(runtime: &mut Runtime, function: usize, argument: usize, index: usize) -> Response {
    let layout = TableLayout::standard();
    let slot = slot_of(function);
    runtime.asked.push(slot);
    if slot == layout.domain_get {
        Response::Word(runtime.domain)
    } else if slot == layout.domain_get_assemblies {
        Response::Counted { list: ASSEMBLIES, count: runtime.assemblies.len() }
    } else if slot == layout.assembly_get_image {
        match object(runtime, argument) {
            Object::Assembly { image } => Response::Word(*image),
            _ => panic!("not an assembly"),
        }
    } else if slot == layout.image_get_name {
        match object(runtime, argument) {
            Object::Image(image) => text(image.name),
            _ => panic!("not an image"),
        }
    } else if slot == layout.image_get_class_count {
        match object(runtime, argument) {
            Object::Image(image) => Response::Word(image.classes.len()),
            _ => panic!("not an image"),
        }
    } else if slot == layout.image_get_class {
        match object(runtime, argument) {
            Object::Image(image) => Response::Word(image.classes[index]),
            _ => panic!("not an image"),
        }
    } else if slot == layout.class_get_name {
        match object(runtime, argument) {
            Object::Class(class) => text(class.name),
            _ => panic!("not a class"),
        }
    } else if slot == layout.class_get_namespace {
        match object(runtime, argument) {
            Object::Class(class) => text(class.namespace),
            _ => panic!("not a class"),
        }
    } else if slot == layout.class_get_flags {
        match object(runtime, argument) {
            Object::Class(class) => Response::Signed(class.flags),
            _ => panic!("not a class"),
        }
    } else if slot == layout.class_is_valuetype {
        match object(runtime, argument) {
            Object::Class(class) => Response::Flag(class.is_valuetype),
            _ => panic!("not a class"),
        }
    } else if slot == layout.class_is_enum {
        match object(runtime, argument) {
            Object::Class(class) => Response::Flag(class.is_enum),
            _ => panic!("not a class"),
        }
    } else if slot == layout.class_get_parent {
        match object(runtime, argument) {
            Object::Class(class) => Response::Word(class.parent),
            _ => panic!("not a class"),
        }
    } else if slot == layout.class_get_fields {
        match object(runtime, argument) {
            Object::Class(class) => {
                let item = if index < class.fields.len() { class.fields[index] } else { 0 };
                Response::Cursor { item, cursor: index + 1 }
            },
            _ => panic!("not a class"),
        }
    } else if slot == layout.class_get_methods {
        match object(runtime, argument) {
            Object::Class(class) => {
                let item = if index < class.methods.len() { class.methods[index] } else { 0 };
                Response::Cursor { item, cursor: index + 1 }
            },
            _ => panic!("not a class"),
        }
    } else if slot == layout.field_get_flags {
        match object(runtime, argument) {
            Object::Field(field) => Response::Signed(field.flags),
            _ => panic!("not a field"),
        }
    } else if slot == layout.field_get_name {
        match object(runtime, argument) {
            Object::Field(field) => text(field.name),
            _ => panic!("not a field"),
        }
    } else if slot == layout.field_get_offset {
        match object(runtime, argument) {
            Object::Field(field) => Response::Word(field.offset),
            _ => panic!("not a field"),
        }
    } else if slot == layout.field_get_type {
        match object(runtime, argument) {
            Object::Field(field) => Response::Word(field.field_type),
            _ => panic!("not a field"),
        }
    } else if slot == layout.method_get_return_type {
        match object(runtime, argument) {
            Object::Method(method) => Response::Word(method.return_type),
            _ => panic!("not a method"),
        }
    } else if slot == layout.method_get_name {
        match object(runtime, argument) {
            Object::Method(method) => text(method.name),
            _ => panic!("not a method"),
        }
    } else if slot == layout.method_get_param_count {
        match object(runtime, argument) {
            Object::Method(method) => Response::Unsigned(method.params.len() as u32),
            _ => panic!("not a method"),
        }
    } else if slot == layout.method_get_param {
        match object(runtime, argument) {
            Object::Method(method) => Response::Word(method.params[index]),
            _ => panic!("not a method"),
        }
    } else if slot == layout.type_get_name {
        match object(runtime, argument) {
            Object::Type(t) => Response::Text(t.name.clone()),
            _ => panic!("not a type"),
        }
    } else if slot == layout.type_is_byref {
        match object(runtime, argument) {
            Object::Type(t) => Response::Flag(t.byref),
            _ => panic!("not a type"),
        }
    } else if slot == layout.type_get_attrs {
        match object(runtime, argument) {
            Object::Type(t) => Response::Unsigned(t.attrs),
            _ => panic!("not a type"),
        }
    } else {
        panic!("unexpected slot {}", slot)
    }
}

fn answer(runtime: &mut Runtime, query: Query) -> Response {
    match query {
        Query::Call { function, argument, index } => call(runtime, function.ptr, argument, index),
        Query::ReadElement { base, index } => {
            assert_eq!(base, ASSEMBLIES);
            Response::Word(runtime.assemblies[index])
        },
        Query::ReadPointer { base, offset } => {
            assert_eq!(offset, 8);
            match object(runtime, base) {
                Object::Method(method) => Response::Word(method.pointer),
                _ => panic!("not a method"),
            }
        },
        Query::ReadHalf { base, offset } => {
            assert_eq!(offset, 0x30);
            match object(runtime, base) {
                Object::Method(method) => Response::Half(method.flags),
                _ => panic!("not a method"),
            }
        },
    }
}

fn table(runtime: &Runtime, count: usize) -> Vec<usize> {
    let mut slots = Vec::new();
    let mut slot = 0;
    while slot < count {
        if runtime.unbound.contains(&slot) {
            slots.push(0);
        } else {
            slots.push(THUNKS + slot);
        }
        slot += 1;
    }
    slots
}

struct Outcome {
    lines: Vec<String>,
    files: Vec<(String, String)>,
    error: Option<(DumpError, String)>,
    slept: Vec<u64>,
    consoles: usize,
    requests: usize,
}

fn run(runtime: &mut Runtime, config: Config) -> Outcome {
    let mut outcome = Outcome { lines: Vec::new(), files: Vec::new(), error: None, slept: Vec::new(), consoles: 0, requests: 0 };
    let (mut dumper, mut request) = HonkaiDumper::new(config);
    loop {
        outcome.requests += 1;
        let response = match request {
            Request::Sleep { seconds } => {
                outcome.slept.push(seconds);
                Response::Nothing
            },
            Request::OpenConsole => {
                outcome.consoles += 1;
                Response::Nothing
            },
            Request::Print { line } => {
                outcome.lines.push(line);
                Response::Nothing
            },
            Request::Root => Response::Flag(true),
            Request::Exists { .. } => Response::Flag(true),
            Request::Path { library } => Response::Path(Some(format!("C:\\game\\{}", library.file_name()))),
            Request::Load { name } => {
                if name == b"C:\\game\\GameAssembly.dll\0".to_vec() {
                    Response::Word(GAME_BASE)
                } else if name == b"C:\\game\\UnityPlayer.dll\0".to_vec() {
                    Response::Word(PLAYER_BASE)
                } else {
                    Response::Word(0)
                }
            },
            Request::Image { handle } => {
                if handle == GAME_BASE {
                    Response::Image(Some(GAME_SIZE))
                } else {
                    Response::Image(Some(0x300_0000))
                }
            },
            Request::ReadTable { base, offset, count } => {
                assert_eq!(base, PLAYER_BASE);
                assert_eq!(offset, 0x1ed4ee8);
                assert_eq!(count, 171);
                Response::Table(table(runtime, count))
            },
            Request::Ask(query) => answer(runtime, query),
            Request::Write { file, contents } => {
                outcome.files.push((file, contents));
                Response::Flag(true)
            },
            Request::Finish => {
                assert!(dumper.is_over());
                return outcome;
            },
            Request::Fail { error, line } => {
                assert!(dumper.is_over());
                outcome.error = Some((error, line));
                return outcome;
            },
        };
        let next = dumper.dump(response);
        dumper = next.0;
        request = next.1;
    }
}

fn offsets_only() -> Config {
    let mut config = Config::standard();
    config.emitters = Emitters::OffsetOnly;
    config
}

fn file<'a>(outcome: &'a Outcome, name: &str) -> &'a str {
    for (file, contents) in &outcome.files {
        if file == name {
            return contents;
        }
    }
    panic!("no file {}", name)
}

#[test]
fn one_method_is_filed_at_its_offset() {
    let mut rt = runtime();
    let method = add_method(&mut rt, "get_name", GAME_BASE + 0x1234, PUBLIC_MEMBER);
    let class = add_class(&mut rt, "UnityEngine", "GameObject", PUBLIC_TYPE, vec![method]);
    add_assembly(&mut rt, "UnityEngine.CoreModule.dll", vec![class]);
    let outcome = run(&mut rt, offsets_only());
    assert!(outcome.error.is_none());
    assert_eq!(file(&outcome, "methods.json"), "{\n  \"UnityEngine.GameObject::get_name\": \"0x1234\"\n}");
    assert_eq!(outcome.lines.last().unwrap(), "done");
    assert_eq!(outcome.lines[outcome.lines.len() - 2], "1 valid methods found and saved to methods.json");
    let parsed: serde_json::Value = serde_json::from_str(file(&outcome, "methods.json")).unwrap();
    assert_eq!(parsed["UnityEngine.GameObject::get_name"].as_str(), Some("0x1234"));
    assert_eq!(parsed.as_object().unwrap().len(), 1);
}

#[test]
fn a_repeated_name_is_numbered_from_one() {
    let mut rt = runtime();
    let first = add_method(&mut rt, "foo", GAME_BASE + 0x10, PUBLIC_MEMBER);
    let second = add_method(&mut rt, "foo", GAME_BASE + 0x20, PUBLIC_MEMBER);
    let third = add_method(&mut rt, "foo", GAME_BASE + 0x30, PUBLIC_MEMBER);
    let class = add_class(&mut rt, "", "C", PUBLIC_TYPE, vec![first, second, third]);
    add_assembly(&mut rt, "a.dll", vec![class]);
    let outcome = run(&mut rt, offsets_only());
    assert!(outcome.error.is_none());
    assert_eq!(
        file(&outcome, "methods.json"),
        "{\n  \"C::foo\": \"0x10\",\n  \"C::foo_1\": \"0x20\",\n  \"C::foo_2\": \"0x30\"\n}"
    );
    assert!(outcome.lines.contains(&String::from("3 valid methods found and saved to methods.json")));
}

#[test]
fn a_pointer_below_the_module_is_left_out() {
    let mut rt = runtime();
    let outside = add_method(&mut rt, "below", GAME_BASE - 1, PUBLIC_MEMBER);
    let class = add_class(&mut rt, "N", "C", PUBLIC_TYPE, vec![outside]);
    add_assembly(&mut rt, "a.dll", vec![class]);
    let outcome = run(&mut rt, offsets_only());
    assert!(outcome.error.is_none());
    assert_eq!(file(&outcome, "methods.json"), "{}");
    assert!(outcome.lines.contains(&String::from("0 valid methods found and saved to methods.json")));
    let layout = TableLayout::standard();
    assert!(!rt.asked.contains(&layout.method_get_name));
}

#[test]
fn the_module_range_is_half_open() {
    let mut rt = runtime();
    let first = add_method(&mut rt, "first", GAME_BASE, PUBLIC_MEMBER);
    let last = add_method(&mut rt, "last", GAME_BASE + GAME_SIZE as usize - 1, PUBLIC_MEMBER);
    let end = add_method(&mut rt, "end", GAME_BASE + GAME_SIZE as usize, PUBLIC_MEMBER);
    let null = add_method(&mut rt, "null", 0, PUBLIC_MEMBER);
    let class = add_class(&mut rt, "N", "C", PUBLIC_TYPE, vec![first, last, end, null]);
    add_assembly(&mut rt, "a.dll", vec![class]);
    let outcome = run(&mut rt, offsets_only());
    assert_eq!(file(&outcome, "methods.json"), "{\n  \"N.C::first\": \"0x0\",\n  \"N.C::last\": \"0xfffff\"\n}");
    assert!(outcome.lines.contains(&String::from("2 valid methods found and saved to methods.json")));
}

#[test]
fn a_static_class_is_written_as_such() {
    let mut rt = runtime();
    let class = add_class(&mut rt, "Game", "Utils", ABSTRACT_TYPE | SEALED_TYPE | PUBLIC_TYPE, Vec::new());
    add_assembly(&mut rt, "a.dll", vec![class]);
    let outcome = run(&mut rt, Config::standard());
    assert!(outcome.error.is_none());
    let source = file(&outcome, "dump.cs");
    assert!(source.contains("\npublic static class Utils\n{"));
    assert_eq!(
        source,
        "// Image 0: a.dll\n\n// Namespace: Game\npublic static class Utils\n{\n\t// Fields\n\n\t// Methods\n}\n"
    );
}

#[test]
fn a_virtual_method_with_an_out_parameter() {
    let mut rt = runtime();
    let int = add_type(&mut rt, "System.Int32", false, 0);
    let string = add_type(&mut rt, "System.String&", true, PARAM_OUT);
    let method = add(
        &mut rt,
        Object::Method(MockMethod {
            pointer: GAME_BASE + 0x40,
            flags: PUBLIC_MEMBER | VIRTUAL | NEW_SLOT,
            name: "M",
            return_type: int,
            params: vec![string],
        }),
    );
    let class = add_class(&mut rt, "", "C", PUBLIC_TYPE, vec![method]);
    add_assembly(&mut rt, "a.dll", vec![class]);
    let outcome = run(&mut rt, Config::standard());
    assert!(outcome.error.is_none());
    let source = file(&outcome, "dump.cs");
    assert!(source.contains("\n\t// RVA: 0x40 VA: 0x180000040\n\tpublic virtual int M(out string) { }\n"));
}

#[test]
fn an_empty_assembly_slot_is_passed_over() {
    let mut rt = runtime();
    let method = add_method(&mut rt, "run", GAME_BASE + 0x99, PRIVATE_MEMBER);
    let class = add_class(&mut rt, "N", "C", PUBLIC_TYPE, vec![method]);
    rt.assemblies.push(0);
    add_assembly(&mut rt, "second.dll", vec![class]);
    let outcome = run(&mut rt, Config::standard());
    assert!(outcome.error.is_none());
    assert_eq!(file(&outcome, "methods.json"), "{\n  \"N.C::run\": \"0x99\"\n}");
    let source = file(&outcome, "dump.cs");
    assert!(source.starts_with("// Image 1: second.dll\n"));
    assert!(!source.contains("// Image 0"));
    assert!(source.contains("\tprivate void run() { }\n"));
}

#[test]
fn an_empty_class_slot_is_passed_over() {
    let mut rt = runtime();
    let method = add_method(&mut rt, "run", GAME_BASE + 0x5, PUBLIC_MEMBER);
    let class = add_class(&mut rt, "", "Only", PUBLIC_TYPE, vec![method]);
    add_assembly(&mut rt, "a.dll", vec![0, class, 0]);
    let outcome = run(&mut rt, Config::standard());
    assert!(outcome.error.is_none());
    assert_eq!(file(&outcome, "methods.json"), "{\n  \"Only::run\": \"0x5\"\n}");
    assert_eq!(file(&outcome, "dump.cs").matches("// Namespace: ").count(), 1);
}

#[test]
fn the_run_follows_its_order() {
    let mut rt = runtime();
    add_assembly(&mut rt, "a.dll", Vec::new());
    let outcome = run(&mut rt, Config::standard());
    assert!(outcome.error.is_none());
    assert_eq!(outcome.slept, vec![10]);
    assert_eq!(outcome.consoles, 1);
    assert_eq!(
        outcome.lines,
        vec![
            String::from("honkai-dumper"),
            String::from("0 valid methods found and saved to methods.json"),
            String::from("done"),
        ]
    );
    assert_eq!(outcome.files.len(), 2);
    assert_eq!(outcome.files[0].0, "methods.json");
    assert_eq!(outcome.files[1].0, "dump.cs");
    assert_eq!(outcome.files[1].1, "// Image 0: a.dll\n");
}

#[test]
fn offsets_alone_write_one_file() {
    let mut rt = runtime();
    add_assembly(&mut rt, "a.dll", Vec::new());
    let outcome = run(&mut rt, offsets_only());
    assert_eq!(outcome.files.len(), 1);
    let layout = TableLayout::standard();
    assert!(!rt.asked.contains(&layout.image_get_name));
}

#[test]
fn two_runs_give_the_same_files() {
    let mut files = Vec::new();
    for _ in 0..2 {
        let mut rt = runtime();
        let int = add_type(&mut rt, "System.Int32", false, 0);
        let field = add(&mut rt, Object::Field(MockField { flags: 0x16, name: "count", offset: 0x18, field_type: int }));
        let a = add_method(&mut rt, "a", GAME_BASE + 0x100, PUBLIC_MEMBER);
        let b = add_method(&mut rt, "a", GAME_BASE + 0x200, PUBLIC_MEMBER);
        let class = add(
            &mut rt,
            Object::Class(MockClass {
                name: "C",
                namespace: "N",
                flags: PUBLIC_TYPE,
                is_valuetype: false,
                is_enum: false,
                parent: 0,
                fields: vec![field],
                methods: vec![a, b],
            }),
        );
        add_assembly(&mut rt, "a.dll", vec![class]);
        files.push(run(&mut rt, Config::standard()).files);
    }
    assert_eq!(files[0], files[1]);
    assert_eq!(files[0].len(), 2);
}

#[test]
fn a_class_with_base_fields_and_methods() {
    let mut rt = runtime();
    let int = add_type(&mut rt, "System.Int32", false, 0);
    let text_type = add_type(&mut rt, "System.String", false, 0);
    let count = add(&mut rt, Object::Field(MockField { flags: 0x17, name: "count", offset: 0x18, field_type: int }));
    let label = add(&mut rt, Object::Field(MockField { flags: 0x41, name: "LABEL", offset: 0, field_type: text_type }));
    let method = add_method(&mut rt, "Tick", 0, PRIVATE_MEMBER | 0x10);
    let base = add_class(&mut rt, "N", "Base", PUBLIC_TYPE, Vec::new());
    let class = add(
        &mut rt,
        Object::Class(MockClass {
            name: "Derived",
            namespace: "N",
            flags: PUBLIC_TYPE | SEALED_TYPE | 0x2000,
            is_valuetype: false,
            is_enum: false,
            parent: base,
            fields: vec![count, label],
            methods: vec![method],
        }),
    );
    add_assembly(&mut rt, "a.dll", vec![class]);
    let outcome = run(&mut rt, Config::standard());
    assert!(outcome.error.is_none());
    assert_eq!(
        file(&outcome, "dump.cs"),
        "// Image 0: a.dll\n\n// Namespace: N\n[Serializable]\npublic sealed class Derived : Base\n{\n\t// Fields\n\tpublic static int count; // 0x18\n\tprivate const string LABEL; // 0x0\n\n\t// Methods\n\n\t// RVA: 0x0 VA: 0x0\n\tprivate static void Tick() { }\n}\n"
    );
}

#[test]
fn an_unbound_parent_entry_means_no_base() {
    let mut rt = runtime();
    let base = add_class(&mut rt, "N", "Base", PUBLIC_TYPE, Vec::new());
    let class = add(
        &mut rt,
        Object::Class(MockClass {
            name: "Derived",
            namespace: "N",
            flags: PUBLIC_TYPE,
            is_valuetype: false,
            is_enum: false,
            parent: base,
            fields: Vec::new(),
            methods: Vec::new(),
        }),
    );
    add_assembly(&mut rt, "a.dll", vec![class]);
    rt.unbound.push(TableLayout::standard().class_get_parent);
    let outcome = run(&mut rt, Config::standard());
    assert!(outcome.error.is_none());
    assert!(file(&outcome, "dump.cs").contains("public class Derived\n{"));
}

#[test]
fn an_unbound_entry_fails_where_it_is_called() {
    let mut rt = runtime();
    add_assembly(&mut rt, "a.dll", Vec::new());
    rt.unbound.push(TableLayout::standard().image_get_name);
    let outcome = run(&mut rt, Config::standard());
    let (error, line) = outcome.error.unwrap();
    assert_eq!(error, DumpError::Runtime(Il2CppError::FunctionNotFound(Entry::ImageGetName)));
    assert_eq!(line, "honkai-dumper encountered an error: function not found il2cpp_image_get_name");
    assert_eq!(outcome.files.len(), 1);
    assert_eq!(outcome.files[0].0, "methods.json");
    assert!(!outcome.lines.contains(&String::from("done")));
}

#[test]
fn a_null_domain_fails_the_run() {
    let mut rt = runtime();
    rt.domain = 0;
    let outcome = run(&mut rt, Config::standard());
    let (error, line) = outcome.error.unwrap();
    assert_eq!(error, DumpError::Runtime(Il2CppError::ReturnedNull(Entry::DomainGet)));
    assert_eq!(line, "honkai-dumper encountered an error: function returned null il2cpp_domain_get");
    assert!(outcome.files.is_empty());
}

#[test]
fn text_that_is_not_utf8_fails_the_run() {
    let mut rt = runtime();
    let broken = add(&mut rt, Object::Type(MockType { name: Some(vec![0x53, 0xff, 0xfe]), byref: false, attrs: 0 }));
    let method = add(
        &mut rt,
        Object::Method(MockMethod { pointer: GAME_BASE + 1, flags: PUBLIC_MEMBER, name: "m", return_type: broken, params: Vec::new() }),
    );
    let class = add_class(&mut rt, "", "C", PUBLIC_TYPE, vec![method]);
    add_assembly(&mut rt, "a.dll", vec![class]);
    let outcome = run(&mut rt, Config::standard());
    let (error, _) = outcome.error.unwrap();
    assert_eq!(error, DumpError::Runtime(Il2CppError::Utf8));
    assert_eq!(outcome.files.len(), 1);
}

#[test]
fn a_null_type_name_fails_the_run() {
    let mut rt = runtime();
    let nameless = add(&mut rt, Object::Type(MockType { name: None, byref: false, attrs: 0 }));
    let method = add(
        &mut rt,
        Object::Method(MockMethod { pointer: GAME_BASE + 1, flags: PUBLIC_MEMBER, name: "m", return_type: nameless, params: Vec::new() }),
    );
    let class = add_class(&mut rt, "", "C", PUBLIC_TYPE, vec![method]);
    add_assembly(&mut rt, "a.dll", vec![class]);
    let outcome = run(&mut rt, Config::standard());
    let (error, _) = outcome.error.unwrap();
    assert_eq!(error, DumpError::Runtime(Il2CppError::ReturnedNull(Entry::TypeGetName)));
}

fn drive(config: Config, answers: Vec<Response>) -> (HonkaiDumper, Request) {
    let (mut dumper, mut request) = HonkaiDumper::new(config);
    for response in answers {
        let next = dumper.dump(response);
        dumper = next.0;
        request = next.1;
    }
    (dumper, request)
}

fn failure(request: Request) -> (DumpError, String) {
    match request {
        Request::Fail { error, line } => (error, line),
        _ => panic!("the run goes on"),
    }
}

#[test]
fn a_missing_root_fails_the_run() {
    let (dumper, request) = drive(Config::standard(), vec![Response::Nothing, Response::Nothing, Response::Nothing, Response::Flag(false)]);
    assert!(matches!(dumper.stage, Stage::Failed));
    let (error, line) = failure(request);
    assert_eq!(error, DumpError::Runtime(Il2CppError::RootNotFound));
    assert_eq!(line, "honkai-dumper encountered an error: root path not found");
}

#[test]
fn a_missing_library_fails_the_run() {
    let mut game = started();
    game.push(Response::Flag(false));
    let (error, line) = failure(drive(Config::standard(), game).1);
    assert_eq!(error, DumpError::Runtime(Il2CppError::FileNotFound(Library::GameAssembly)));
    assert_eq!(line, "honkai-dumper encountered an error: file not found GameAssembly.dll");
    let mut player = started();
    player.push(Response::Flag(true));
    player.push(Response::Flag(false));
    let (error, line) = failure(drive(Config::standard(), player).1);
    assert_eq!(error, DumpError::Runtime(Il2CppError::FileNotFound(Library::UnityPlayer)));
    assert_eq!(line, "honkai-dumper encountered an error: file not found UnityPlayer.dll");
}

fn started() -> Vec<Response> {
    vec![Response::Nothing, Response::Nothing, Response::Nothing, Response::Flag(true)]
}

fn located() -> Vec<Response> {
    vec![
        Response::Nothing,
        Response::Nothing,
        Response::Nothing,
        Response::Flag(true),
        Response::Flag(true),
        Response::Flag(true),
    ]
}

#[test]
fn a_path_that_is_no_text_fails_the_load() {
    let mut answers = located();
    answers.push(Response::Path(None));
    let (error, line) = failure(drive(Config::standard(), answers).1);
    assert_eq!(error, DumpError::Runtime(Il2CppError::Module(ModuleError::PathBufToStr)));
    assert_eq!(line, "honkai-dumper encountered an error: failed to convert PathBuf to str");
}

#[test]
fn a_path_with_a_zero_byte_fails_the_load() {
    let mut answers = located();
    answers.push(Response::Path(Some(String::from("C:\\ga\0me\\GameAssembly.dll"))));
    let (error, line) = failure(drive(Config::standard(), answers).1);
    assert_eq!(error, DumpError::Runtime(Il2CppError::Module(ModuleError::CreateCString)));
    assert_eq!(line, "honkai-dumper encountered an error: failed to create a CString");
}

#[test]
fn a_null_handle_fails_the_load() {
    let mut asked = located();
    asked.push(Response::Path(Some(String::from("GameAssembly.dll"))));
    let (_, request) = drive(Config::standard(), asked);
    match request {
        Request::Load { name } => assert_eq!(name, b"GameAssembly.dll\0".to_vec()),
        _ => panic!("no load"),
    }
    let mut answers = located();
    answers.push(Response::Path(Some(String::from("GameAssembly.dll"))));
    answers.push(Response::Word(0));
    let (error, line) = failure(drive(Config::standard(), answers).1);
    assert_eq!(error, DumpError::Runtime(Il2CppError::Module(ModuleError::LoadLibrary)));
    assert_eq!(line, "honkai-dumper encountered an error: failed to load a library");
}

#[test]
fn a_failed_image_query_fails_the_load() {
    let mut answers = located();
    answers.push(Response::Path(Some(String::from("GameAssembly.dll"))));
    answers.push(Response::Word(GAME_BASE));
    answers.push(Response::Image(None));
    let (error, line) = failure(drive(Config::standard(), answers).1);
    assert_eq!(error, DumpError::Runtime(Il2CppError::Module(ModuleError::ModuleInformation)));
    assert_eq!(line, "honkai-dumper encountered an error: failed to get module information");
}

#[test]
fn an_answer_of_the_wrong_kind_breaks_the_protocol() {
    let mut answers = located();
    answers.push(Response::Word(7));
    let (error, line) = failure(drive(Config::standard(), answers).1);
    assert_eq!(error, DumpError::Protocol);
    assert_eq!(line, "honkai-dumper encountered an error: unexpected answer to a request");
}

#[test]
fn a_run_that_is_over_takes_no_answer() {
    let (dumper, _) = drive(Config::standard(), vec![Response::Nothing, Response::Nothing, Response::Nothing, Response::Flag(false)]);
    let (dumper, request) = dumper.dump(Response::Nothing);
    assert!(dumper.is_over());
    assert_eq!(failure(request).0, DumpError::Protocol);
}

#[test]
fn a_file_that_cannot_be_written_fails_the_run() {
    let mut rt = runtime();
    add_assembly(&mut rt, "a.dll", Vec::new());
    let (mut dumper, mut request) = HonkaiDumper::new(offsets_only());
    loop {
        let response = match request {
            Request::Sleep { .. } | Request::OpenConsole | Request::Print { .. } => Response::Nothing,
            Request::Root | Request::Exists { .. } => Response::Flag(true),
            Request::Path { library } => Response::Path(Some(String::from(library.file_name()))),
            Request::Load { name } => Response::Word(if name.starts_with(b"Game") { GAME_BASE } else { PLAYER_BASE }),
            Request::Image { .. } => Response::Image(Some(GAME_SIZE)),
            Request::ReadTable { count, .. } => Response::Table(table(&rt, count)),
            Request::Ask(query) => answer(&mut rt, query),
            Request::Write { .. } => Response::Flag(false),
            Request::Finish => panic!("the run went well"),
            Request::Fail { error, line } => {
                assert_eq!(error, DumpError::Io);
                assert_eq!(line, "honkai-dumper encountered an error: failed to write an output file");
                return;
            },
        };
        let next = dumper.dump(response);
        dumper = next.0;
        request = next.1;
    }
}

#[test]
fn a_walk_asks_for_the_domain_first() {
    let slots = table(&runtime(), 171);
    let game = Module { handle: GAME_BASE, size: GAME_SIZE as usize };
    let player = Module { handle: PLAYER_BASE, size: 0x300_0000 };
    let api = Il2CppApi::new(game, player, &slots, &TableLayout::standard());
    let (walker, step) = Walker::new(api, MethodLayout::standard(), Mode::Offsets);
    assert!(matches!(walker.at.phase, Phase::Domain));
    match step {
        Step::Ask(Query::Call { function, argument, index }) => {
            assert_eq!(function.ptr, THUNKS + 63);
            assert_eq!(function.signature, Signature::Nullary);
            assert_eq!(argument, 0);
            assert_eq!(index, 0);
        },
        _ => panic!("no call"),
    }
    let (walker, step) = walker.resume(Response::Word(DOMAIN));
    assert!(matches!(walker.at.phase, Phase::Assemblies));
    assert!(matches!(step, Step::Ask(Query::Call { argument: DOMAIN, .. })));
    let (walker, step) = walker.resume(Response::Counted { list: ASSEMBLIES, count: 0 });
    assert!(walker.is_done());
    assert_eq!(step, Step::Finished);
    let (walker, step) = walker.resume(Response::Nothing);
    assert!(matches!(walker.at.phase, Phase::Failed));
    assert_eq!(step, Step::Failed(DumpError::Protocol));
}

#[test]
fn a_walk_without_entries_fails_at_once() {
    let game = Module { handle: GAME_BASE, size: GAME_SIZE as usize };
    let api = Il2CppApi::new(game, game, &Vec::new(), &TableLayout::standard());
    let (_, step) = Walker::new(api, MethodLayout::standard(), Mode::Classes);
    assert_eq!(step, Step::Failed(DumpError::Runtime(Il2CppError::FunctionNotFound(Entry::DomainGet))));
}

#[test]
fn the_method_layout_is_configurable() {
    let slots = table(&runtime(), 171);
    let game = Module { handle: GAME_BASE, size: GAME_SIZE as usize };
    let api = Il2CppApi::new(game, game, &slots, &TableLayout::standard());
    let layout = MethodLayout { method_pointer: 0x10, flags: 0x48 };
    let (walker, _) = Walker::new(api, layout, Mode::Classes);
    let (walker, _) = walker.resume(Response::Word(DOMAIN));
    let (walker, _) = walker.resume(Response::Counted { list: ASSEMBLIES, count: 1 });
    let (walker, _) = walker.resume(Response::Word(0x700));
    let (walker, _) = walker.resume(Response::Word(0x800));
    let (walker, _) = walker.resume(Response::Word(1));
    let (walker, _) = walker.resume(Response::Word(0x900));
    let (walker, _) = walker.resume(text("N"));
    let (walker, _) = walker.resume(Response::Signed(1));
    let (walker, _) = walker.resume(Response::Flag(false));
    let (walker, _) = walker.resume(Response::Flag(false));
    let (walker, _) = walker.resume(text("C"));
    let (walker, _) = walker.resume(Response::Word(0));
    let (walker, step) = walker.resume(Response::Cursor { item: 0, cursor: 0 });
    assert!(matches!(step, Step::Ask(Query::Call { argument: 0x900, index: 0, .. })));
    let (walker, step) = walker.resume(Response::Cursor { item: 0xa00, cursor: 0x77 });
    assert_eq!(step, Step::Ask(Query::ReadPointer { base: 0xa00, offset: 0x10 }));
    let (_, step) = walker.resume(Response::Word(GAME_BASE));
    assert_eq!(step, Step::Ask(Query::ReadHalf { base: 0xa00, offset: 0x48 }));
}
