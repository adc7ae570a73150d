use honkai_dumper::dumper::{Config, Emitters};
use honkai_dumper::il2cpp::api::{Assemblies, Il2CppApi, Il2CppError, Library};
use honkai_dumper::il2cpp::functions::{Entry, Il2CppFunctions, TableLayout};
use honkai_dumper::il2cpp::module::{FunctionPtr, Module, ModuleError, Signature};
use honkai_dumper::il2cpp::types::{
    FieldInfo, Il2CppAssembly, Il2CppClass, Il2CppDomain, Il2CppImage, Il2CppType, MethodInfo,
    MethodLayout,
};
use honkai_dumper::protocol::DumpError;

fn full_table() -> Vec<usize> {
    (0..171).map(|slot| 0x9000 + slot * 8).collect()
}

fn api(table: &Vec<usize>) -> Il2CppApi {
    let game = Module { handle: 0x10000, size: 0x1000 };
    let player = Module { handle: 0x20000, size: 0x2000 };
    Il2CppApi::new(game, player, table, &TableLayout::standard())
}

#[test]
fn the_standard_layout_names_the_slots() {
    let layout = TableLayout::standard();
    assert_eq!(layout.offset, 0x1ed4ee8);
    assert_eq!(layout.slot_of(Entry::AssemblyGetImage), 22);
    assert_eq!(layout.slot_of(Entry::ClassGetFields), 31);
    assert_eq!(layout.slot_of(Entry::ClassGetInterfaces), 33);
    assert_eq!(layout.slot_of(Entry::ClassGetMethods), 35);
    assert_eq!(layout.slot_of(Entry::ClassGetName), 37);
    assert_eq!(layout.slot_of(Entry::ClassGetNamespace), 39);
    assert_eq!(layout.slot_of(Entry::ClassGetParent), 40);
    assert_eq!(layout.slot_of(Entry::ClassIsValuetype), 43);
    assert_eq!(layout.slot_of(Entry::ClassGetFlags), 45);
    assert_eq!(layout.slot_of(Entry::ClassFromType), 49);
    assert_eq!(layout.slot_of(Entry::ClassIsEnum), 53);
    assert_eq!(layout.slot_of(Entry::DomainGet), 63);
    assert_eq!(layout.slot_of(Entry::DomainGetAssemblies), 65);
    assert_eq!(layout.slot_of(Entry::FieldGetFlags), 72);
    assert_eq!(layout.slot_of(Entry::FieldGetName), 73);
    assert_eq!(layout.slot_of(Entry::FieldGetOffset), 75);
    assert_eq!(layout.slot_of(Entry::FieldGetType), 76);
    assert_eq!(layout.slot_of(Entry::MethodGetReturnType), 116);
    assert_eq!(layout.slot_of(Entry::MethodGetName), 117);
    assert_eq!(layout.slot_of(Entry::MethodGetParamCount), 123);
    assert_eq!(layout.slot_of(Entry::MethodGetParam), 124);
    assert_eq!(layout.slot_of(Entry::TypeGetName), 161);
    assert_eq!(layout.slot_of(Entry::TypeIsByref), 162);
    assert_eq!(layout.slot_of(Entry::TypeGetAttrs), 163);
    assert_eq!(layout.slot_of(Entry::ImageGetName), 168);
    assert_eq!(layout.slot_of(Entry::ImageGetClassCount), 169);
    assert_eq!(layout.slot_of(Entry::ImageGetClass), 170);
    assert_eq!(layout.span(), 171);
}

#[test]
fn the_span_reaches_the_largest_slot() {
    let mut layout = TableLayout::standard();
    layout.class_get_name = 500;
    assert_eq!(layout.span(), 501);
    layout.domain_get = usize::MAX;
    assert_eq!(layout.span(), usize::MAX);
}

#[test]
fn a_slot_binds_to_what_it_holds() {
    let mut table = full_table();
    table[63] = 0;
    let functions = Il2CppFunctions::new(&table, &TableLayout::standard());
    assert_eq!(functions.get(Entry::DomainGet), None);
    assert_eq!(functions.il2cpp_domain_get, None);
    assert_eq!(
        functions.get(Entry::DomainGetAssemblies),
        Some(FunctionPtr { ptr: 0x9000 + 65 * 8, signature: Signature::Counted })
    );
    assert_eq!(functions.get(Entry::ImageGetClass), Some(FunctionPtr { ptr: 0x9000 + 170 * 8, signature: Signature::Indexed }));
    assert_eq!(functions.get(Entry::MethodGetParam).unwrap().signature, Signature::Indexed32);
    assert_eq!(functions.get(Entry::ClassGetName).unwrap().signature, Signature::Text);
    assert_eq!(functions.get(Entry::ClassGetMethods).unwrap().signature, Signature::Cursor);
    assert_eq!(functions.get(Entry::ClassIsEnum).unwrap().signature, Signature::Flag);
    assert_eq!(functions.get(Entry::ClassGetFlags).unwrap().signature, Signature::Signed);
    assert_eq!(functions.get(Entry::TypeGetAttrs).unwrap().signature, Signature::Unsigned);
    assert_eq!(functions.get(Entry::FieldGetOffset).unwrap().signature, Signature::Word);
    assert_eq!(functions.get(Entry::AssemblyGetImage).unwrap().signature, Signature::Handle);
    assert_eq!(Entry::DomainGet.call_signature(), Signature::Nullary);
}

#[test]
fn a_short_table_leaves_the_far_slots_unbound() {
    let table: Vec<usize> = (0..100).map(|slot| 0x9000 + slot).collect();
    let functions = Il2CppFunctions::new(&table, &TableLayout::standard());
    assert!(functions.get(Entry::DomainGet).is_some());
    assert!(functions.get(Entry::FieldGetType).is_some());
    assert!(functions.get(Entry::MethodGetName).is_none());
    assert!(functions.get(Entry::ImageGetClass).is_none());
}

#[test]
fn a_layout_of_another_build_binds_other_slots() {
    let mut layout = TableLayout::standard();
    layout.domain_get = 2;
    let functions = Il2CppFunctions::new(&vec![0, 0, 0x77], &layout);
    assert_eq!(functions.get(Entry::DomainGet), Some(FunctionPtr::new(0x77, Signature::Nullary)));
    assert_eq!(functions.get(Entry::ClassGetName), None);
}

#[test]
fn entries_have_their_exported_names() {
    assert_eq!(Entry::DomainGet.name(), "il2cpp_domain_get");
    assert_eq!(Entry::ClassGetInterfaces.name(), "il2cpp_class_get_interfaces");
    assert_eq!(Entry::MethodGetParamCount.name(), "il2cpp_method_get_param_count");
    assert_eq!(Entry::ImageGetClass.name(), "il2cpp_image_get_class");
    assert_eq!(Entry::TypeIsByref.name(), "il2cpp_type_is_byref");
}

#[test]
fn a_handle_that_is_owed_may_not_be_null() {
    let api = api(&full_table());
    assert_eq!(api.domain_get(0x55), Ok(Il2CppDomain { address: 0x55 }));
    assert_eq!(api.domain_get(0), Err(Il2CppError::ReturnedNull(Entry::DomainGet)));
    assert_eq!(api.domain_get_assemblies(0x66, 3), Ok(Assemblies { list: 0x66, count: 3 }));
    assert_eq!(api.domain_get_assemblies(0, 3), Err(Il2CppError::ReturnedNull(Entry::DomainGetAssemblies)));
    assert_eq!(api.assembly_get_image(0x77), Ok(Il2CppImage { address: 0x77 }));
    assert_eq!(api.assembly_get_image(0), Err(Il2CppError::ReturnedNull(Entry::AssemblyGetImage)));
    assert_eq!(api.class_get_parent(0x88), Ok(Il2CppClass { address: 0x88 }));
    assert_eq!(api.class_get_parent(0), Err(Il2CppError::ReturnedNull(Entry::ClassGetParent)));
    assert_eq!(api.class_from_type(0), Err(Il2CppError::ReturnedNull(Entry::ClassFromType)));
    assert_eq!(api.class_from_type(9), Ok(Il2CppClass { address: 9 }));
    assert_eq!(api.field_get_type(0), Err(Il2CppError::ReturnedNull(Entry::FieldGetType)));
    assert_eq!(api.field_get_type(9), Ok(Il2CppType { address: 9 }));
    assert_eq!(api.method_get_return_type(0), Err(Il2CppError::ReturnedNull(Entry::MethodGetReturnType)));
    assert_eq!(api.method_get_param(0), Err(Il2CppError::ReturnedNull(Entry::MethodGetParam)));
    assert_eq!(api.method_get_param(4), Ok(Il2CppType { address: 4 }));
}

#[test]
fn a_null_item_ends_a_sequence() {
    let api = api(&full_table());
    assert_eq!(api.class_get_methods(0), Ok(None));
    assert_eq!(api.class_get_methods(0x40), Ok(Some(MethodInfo { address: 0x40 })));
    assert_eq!(api.class_get_fields(0), Ok(None));
    assert_eq!(api.class_get_fields(0x41), Ok(Some(FieldInfo { address: 0x41 })));
    assert_eq!(api.image_get_class(0), Ok(None));
    assert_eq!(api.image_get_class(0x42), Ok(Some(Il2CppClass { address: 0x42 })));
}

#[test]
fn text_is_decoded_as_utf8() {
    let api = api(&full_table());
    let name = "Se\u{f1}or\u{4e2d}".as_bytes().to_vec();
    assert_eq!(api.class_get_name(Some(&name)), Ok(String::from("Se\u{f1}or\u{4e2d}")));
    assert_eq!(api.class_get_name(Some(&Vec::new())), Ok(String::new()));
    assert_eq!(api.class_get_name(None), Err(Il2CppError::ReturnedNull(Entry::ClassGetName)));
    assert_eq!(api.class_get_name(Some(&vec![0x41, 0xc3])), Err(Il2CppError::Utf8));
    assert_eq!(api.class_get_namespace(Some(&vec![0xff])), Err(Il2CppError::Utf8));
    assert_eq!(api.class_get_namespace(None), Err(Il2CppError::ReturnedNull(Entry::ClassGetNamespace)));
    assert_eq!(api.image_get_name(None), Err(Il2CppError::ReturnedNull(Entry::ImageGetName)));
    assert_eq!(api.field_get_name(Some(&b"x".to_vec())), Ok(String::from("x")));
    assert_eq!(api.method_get_name(None), Err(Il2CppError::ReturnedNull(Entry::MethodGetName)));
}

#[test]
fn type_names_are_rewritten_after_decoding() {
    let api = api(&full_table());
    assert_eq!(api.type_get_name(Some(&b"System.Int32&".to_vec())), Ok(String::from("int")));
    assert_eq!(api.type_get_name(Some(&b"Game.Thing".to_vec())), Ok(String::from("Game.Thing")));
    assert_eq!(api.type_get_name(None), Err(Il2CppError::ReturnedNull(Entry::TypeGetName)));
    assert_eq!(api.type_get_name(Some(&vec![0x80])), Err(Il2CppError::Utf8));
}

#[test]
fn plain_values_pass_through() {
    let api = api(&full_table());
    assert_eq!(api.image_get_class_count(0), Ok(0));
    assert_eq!(api.image_get_class_count(12), Ok(12));
    assert_eq!(api.class_get_flags(-1), Ok(-1));
    assert_eq!(api.class_is_enum(true), Ok(true));
    assert_eq!(api.class_is_valuetype(false), Ok(false));
    assert_eq!(api.field_get_flags(0x16), Ok(0x16));
    assert_eq!(api.field_get_offset(0x20), Ok(0x20));
    assert_eq!(api.method_get_param_count(3), Ok(3));
    assert_eq!(api.type_is_byref(true), Ok(true));
    assert_eq!(api.type_get_attrs(2), Ok(2));
}

#[test]
fn an_unbound_entry_is_reported_before_anything_else() {
    let api = api(&Vec::new());
    assert_eq!(api.function(Entry::DomainGet), Err(Il2CppError::FunctionNotFound(Entry::DomainGet)));
    assert_eq!(api.domain_get(0), Err(Il2CppError::FunctionNotFound(Entry::DomainGet)));
    assert_eq!(api.domain_get(5), Err(Il2CppError::FunctionNotFound(Entry::DomainGet)));
    assert_eq!(api.class_get_methods(0), Err(Il2CppError::FunctionNotFound(Entry::ClassGetMethods)));
    assert_eq!(api.class_get_name(None), Err(Il2CppError::FunctionNotFound(Entry::ClassGetName)));
    assert_eq!(api.type_get_name(Some(&vec![0xff])), Err(Il2CppError::FunctionNotFound(Entry::TypeGetName)));
    assert_eq!(api.class_get_flags(1), Err(Il2CppError::FunctionNotFound(Entry::ClassGetFlags)));
    assert_eq!(api.type_is_byref(true), Err(Il2CppError::FunctionNotFound(Entry::TypeIsByref)));
    let bound = self::api(&full_table());
    assert_eq!(bound.function(Entry::DomainGet), Ok(FunctionPtr { ptr: 0x9000 + 63 * 8, signature: Signature::Nullary }));
}

#[test]
fn errors_describe_themselves() {
    assert_eq!(Il2CppError::Module(ModuleError::LoadLibrary).message(), "failed to load a library");
    assert_eq!(Il2CppError::Utf8.message(), "invalid utf-8 sequence");
    assert_eq!(Il2CppError::FileNotFound(Library::GameAssembly).message(), "file not found GameAssembly.dll");
    assert_eq!(Il2CppError::FileNotFound(Library::UnityPlayer).message(), "file not found UnityPlayer.dll");
    assert_eq!(Il2CppError::FunctionNotFound(Entry::ClassGetName).message(), "function not found il2cpp_class_get_name");
    assert_eq!(Il2CppError::RootNotFound.message(), "root path not found");
    assert_eq!(Il2CppError::ReturnedNull(Entry::DomainGet).message(), "function returned null il2cpp_domain_get");
    assert_eq!(ModuleError::PathBufToStr.message(), "failed to convert PathBuf to str");
    assert_eq!(ModuleError::CreateCString.message(), "failed to create a CString");
    assert_eq!(ModuleError::LoadLibrary.message(), "failed to load a library");
    assert_eq!(ModuleError::ModuleInformation.message(), "failed to get module information");
    assert_eq!(DumpError::Runtime(Il2CppError::RootNotFound).message(), "root path not found");
    assert_eq!(DumpError::Serialize.message(), "failed to serialize the method offsets");
    assert_eq!(DumpError::Io.message(), "failed to write an output file");
    assert_eq!(DumpError::Protocol.message(), "unexpected answer to a request");
    assert_eq!(Library::GameAssembly.file_name(), "GameAssembly.dll");
    assert_eq!(Library::UnityPlayer.file_name(), "UnityPlayer.dll");
}

#[test]
fn a_path_is_made_native() {
    assert_eq!(Module::native_name(Some("C:\\a\\b.dll")), Ok(b"C:\\a\\b.dll\0".to_vec()));
    assert_eq!(Module::native_name(Some("")), Ok(vec![0]));
    assert_eq!(Module::native_name(Some("a\0b")), Err(ModuleError::CreateCString));
    assert_eq!(Module::native_name(None), Err(ModuleError::PathBufToStr));
}

#[test]
fn a_module_is_recorded_from_handle_and_size() {
    assert_eq!(Module::load(0x1000, Some(0x200)), Ok(Module { handle: 0x1000, size: 0x200 }));
    assert_eq!(Module::load(0, Some(0x200)), Err(ModuleError::LoadLibrary));
    assert_eq!(Module::load(0, None), Err(ModuleError::LoadLibrary));
    assert_eq!(Module::load(0x1000, None), Err(ModuleError::ModuleInformation));
    assert_eq!(Module::load(0x1000, Some(u32::MAX)).unwrap().size, u32::MAX as usize);
}

#[test]
fn the_standard_configuration() {
    let config = Config::standard();
    assert_eq!(config.delay, 10);
    assert_eq!(config.emitters, Emitters::OffsetAndSource);
    assert_eq!(config.table, TableLayout::standard());
    assert_eq!(config.method, MethodLayout::standard());
    assert_eq!(MethodLayout::standard(), MethodLayout { method_pointer: 8, flags: 0x30 });
}

#[test]
fn handles_carry_their_address() {
    assert_eq!(Il2CppAssembly { address: 5 }.address, 5);
    assert_eq!(Il2CppClass { address: 5 }, Il2CppClass { address: 5 });
    assert_ne!(Il2CppType { address: 5 }, Il2CppType { address: 6 });
}
