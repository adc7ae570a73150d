use honkai_dumper::metadata::{ClassRecord, FieldRecord, ImageRecord, MethodRecord, ParamRecord};
use honkai_dumper::outputs::csdumper::{
    compute_image_offset, compute_virtual_address, decide_class_kind, decide_param_modifier, dump,
    write_class, write_classes, write_fields, write_images, write_methods, ClassKind,
    ParamModifier,
};

fn method(flags: u16) -> MethodRecord {
    MethodRecord {
        pointer: 0,
        flags,
        return_type: String::from("void"),
        return_byref: false,
        name: String::from("M"),
        params: Vec::new(),
    }
}

fn line(flags: u16) -> String {
    let text = write_methods(&vec![method(flags)], 0);
    let prefix = "\n\t// Methods\n\n\t// RVA: 0x0 VA: 0x0\n\t";
    assert!(text.starts_with(prefix));
    String::from(&text[prefix.len()..])
}

fn class(flags: i32, is_valuetype: bool, is_enum: bool) -> ClassRecord {
    ClassRecord {
        namespace: String::new(),
        flags,
        is_valuetype,
        is_enum,
        name: String::from("T"),
        parent: None,
        fields: Vec::new(),
        methods: Vec::new(),
    }
}

fn header(flags: i32, is_valuetype: bool, is_enum: bool) -> String {
    let text = write_class(&class(flags, is_valuetype, is_enum), 0);
    let prefix = "\n// Namespace: \n";
    let suffix = "\n{\n\t// Fields\n\n\t// Methods\n}\n";
    assert!(text.starts_with(prefix));
    assert!(text.ends_with(suffix));
    String::from(&text[prefix.len()..text.len() - suffix.len()])
}

fn field(flags: i32) -> String {
    write_fields(&vec![FieldRecord { flags, type_text: String::from("int"), name: String::from("f"), offset: 0x1c }])
}

fn param(type_text: &str, attrs: u32, is_byref: bool) -> ParamRecord {
    ParamRecord { type_text: String::from(type_text), attrs, is_byref }
}

#[test]
fn method_access_follows_the_access_bits() {
    assert_eq!(line(0), "void M() { }\n");
    assert_eq!(line(1), "private void M() { }\n");
    assert_eq!(line(2), "void M() { }\n");
    assert_eq!(line(3), "internal void M() { }\n");
    assert_eq!(line(4), "internal void M() { }\n");
    assert_eq!(line(5), "protected void M() { }\n");
    assert_eq!(line(6), "protected internal void M() { }\n");
    assert_eq!(line(7), "public void M() { }\n");
}

#[test]
fn method_modifiers_follow_the_flags() {
    assert_eq!(line(0x7 | 0x10), "public static void M() { }\n");
    assert_eq!(line(0x7 | 0x400), "public abstract override void M() { }\n");
    assert_eq!(line(0x7 | 0x400 | 0x100), "public abstract void M() { }\n");
    assert_eq!(line(0x7 | 0x20), "public sealed override void M() { }\n");
    assert_eq!(line(0x7 | 0x20 | 0x40), "public sealed override void M() { }\n");
    assert_eq!(line(0x7 | 0x20 | 0x100), "public void M() { }\n");
    assert_eq!(line(0x7 | 0x20 | 0x40 | 0x100), "public virtual void M() { }\n");
    assert_eq!(line(0x7 | 0x40 | 0x100), "public virtual void M() { }\n");
    assert_eq!(line(0x7 | 0x40), "public override void M() { }\n");
    assert_eq!(line(0x7 | 0x2000), "public extern void M() { }\n");
    assert_eq!(line(0x1 | 0x10 | 0x2000), "private static extern void M() { }\n");
    assert_eq!(line(0x7 | 0x400 | 0x40 | 0x20), "public abstract override void M() { }\n");
}

#[test]
fn no_method_line_holds_virtual_and_override() {
    for flags in 0..=0xffffu16 {
        if flags & 0xda88 != 0 {
            continue;
        }
        let text = line(flags);
        let is_virtual = text.contains("virtual ");
        let is_override = text.contains("override ");
        let is_abstract = text.contains("abstract ");
        let is_sealed = text.contains("sealed ");
        assert!(!(is_virtual && is_override));
        assert!(!(is_virtual && is_abstract));
        assert!(!(is_virtual && is_sealed));
        assert!(!(is_abstract && is_sealed));
        assert!(!is_sealed || is_override);
    }
}

#[test]
fn the_offset_comment_shows_offset_and_address() {
    let mut m = method(7);
    m.pointer = 0x7ff6_0000_1234;
    let text = write_methods(&vec![m], 0x7ff6_0000_0000);
    assert_eq!(text, "\n\t// Methods\n\n\t// RVA: 0x1234 VA: 0x180001234\n\tpublic void M() { }\n");
}

#[test]
fn offsets_wrap_below_the_base() {
    assert_eq!(compute_image_offset(0x1234, 0x1000), 0x234);
    assert_eq!(compute_image_offset(0x1000, 0x1000), 0);
    assert_eq!(compute_image_offset(0xfff, 0x1000), u64::MAX);
    assert_eq!(compute_image_offset(1, 3), 1u64.wrapping_sub(3));
    assert_eq!(compute_virtual_address(0), 0x180000000);
    assert_eq!(compute_virtual_address(0x1234), 0x180001234);
    assert_eq!(compute_virtual_address(u64::MAX), 0x17fffffff);
    assert_eq!(compute_virtual_address(u64::MAX - 0x180000000), u64::MAX);
    assert_eq!(compute_virtual_address(u64::MAX - 0x17fffffff), 0);
}

#[test]
fn parameters_are_separated_by_commas() {
    let mut m = method(7);
    m.return_type = String::from("int");
    m.return_byref = true;
    m.params = vec![param("string", 0, false), param("int", 0, true), param("T", 1, true)];
    let text = write_methods(&vec![m], 0);
    assert!(text.ends_with("\tpublic ref int M(string, ref int, in T) { }\n"));
}

#[test]
fn parameter_modifiers_follow_type_and_attributes() {
    assert_eq!(decide_param_modifier(false, 0), ParamModifier::Plain);
    assert_eq!(decide_param_modifier(false, 1), ParamModifier::AttrIn);
    assert_eq!(decide_param_modifier(false, 2), ParamModifier::AttrOut);
    assert_eq!(decide_param_modifier(false, 3), ParamModifier::AttrInOut);
    assert_eq!(decide_param_modifier(true, 0), ParamModifier::Ref);
    assert_eq!(decide_param_modifier(true, 1), ParamModifier::In);
    assert_eq!(decide_param_modifier(true, 2), ParamModifier::Out);
    assert_eq!(decide_param_modifier(true, 3), ParamModifier::Ref);
    assert_eq!(decide_param_modifier(true, 0x12), ParamModifier::Out);
    let mut m = method(0);
    m.params = vec![
        param("a", 0, false),
        param("b", 1, false),
        param("c", 2, false),
        param("d", 3, false),
        param("e", 0, true),
        param("f", 1, true),
        param("g", 2, true),
        param("h", 3, true),
    ];
    let text = write_methods(&vec![m], 0);
    assert!(text.ends_with("\tvoid M(a, [In] b, [Out] c, [In] [Out] d, ref e, in f, out g, ref h) { }\n"));
}

#[test]
fn methods_follow_each_other_with_a_blank_line() {
    let mut second = method(1);
    second.name = String::from("N");
    let text = write_methods(&vec![method(7), second], 0);
    assert_eq!(
        text,
        "\n\t// Methods\n\n\t// RVA: 0x0 VA: 0x0\n\tpublic void M() { }\n\n\t// RVA: 0x0 VA: 0x0\n\tprivate void N() { }\n"
    );
    assert_eq!(write_methods(&Vec::new(), 0), "\n\t// Methods\n");
}

#[test]
fn field_lines_follow_the_flags() {
    let head = "\n\t// Fields\n\t";
    assert_eq!(field(0), format!("{}int f; // 0x1c\n", head));
    assert_eq!(field(1), format!("{}private int f; // 0x1c\n", head));
    assert_eq!(field(2), format!("{}int f; // 0x1c\n", head));
    assert_eq!(field(3), format!("{}internal int f; // 0x1c\n", head));
    assert_eq!(field(4), format!("{}internal int f; // 0x1c\n", head));
    assert_eq!(field(5), format!("{}protected int f; // 0x1c\n", head));
    assert_eq!(field(6), format!("{}protected internal int f; // 0x1c\n", head));
    assert_eq!(field(7), format!("{}public int f; // 0x1c\n", head));
    assert_eq!(field(7 | 0x10), format!("{}public static int f; // 0x1c\n", head));
    assert_eq!(field(7 | 0x20), format!("{}public readonly int f; // 0x1c\n", head));
    assert_eq!(field(7 | 0x30), format!("{}public static readonly int f; // 0x1c\n", head));
    assert_eq!(field(7 | 0x40), format!("{}public const int f; // 0x1c\n", head));
    assert_eq!(field(7 | 0x70), format!("{}public const int f; // 0x1c\n", head));
    assert_eq!(write_fields(&Vec::new()), "\n\t// Fields\n");
}

#[test]
fn type_visibility_follows_the_visibility_bits() {
    assert_eq!(header(0, false, false), "internal class T");
    assert_eq!(header(1, false, false), "public class T");
    assert_eq!(header(2, false, false), "public class T");
    assert_eq!(header(3, false, false), "private class T");
    assert_eq!(header(4, false, false), "protected class T");
    assert_eq!(header(5, false, false), "internal class T");
    assert_eq!(header(6, false, false), "internal class T");
    assert_eq!(header(7, false, false), "protected internal class T");
}

#[test]
fn type_modifiers_and_kinds_follow_the_flags() {
    assert_eq!(header(1 | 0x80 | 0x100, false, false), "public static class T");
    assert_eq!(header(1 | 0x80, false, false), "public abstract class T");
    assert_eq!(header(1 | 0x100, false, false), "public sealed class T");
    assert_eq!(header(1 | 0x100, true, false), "public struct T");
    assert_eq!(header(1 | 0x100, true, true), "public enum T");
    assert_eq!(header(1 | 0x100, false, true), "public enum T");
    assert_eq!(header(1 | 0x20 | 0x80, false, false), "public interface T");
    assert_eq!(header(1 | 0x20, true, true), "public interface T");
    assert_eq!(header(1 | 0x2000, false, false), "[Serializable]\npublic class T");
    assert_eq!(decide_class_kind(0x20, true, true), ClassKind::Interface);
    assert_eq!(decide_class_kind(0, true, true), ClassKind::Enum);
    assert_eq!(decide_class_kind(0, true, false), ClassKind::Struct);
    assert_eq!(decide_class_kind(0, false, false), ClassKind::Class);
}

#[test]
fn no_type_header_holds_two_of_static_abstract_sealed() {
    for bits in 0..8 {
        for shape in 0..4 {
            let flags = 1 | if bits & 1 != 0 { 0x80 } else { 0 } | if bits & 2 != 0 { 0x100 } else { 0 } | if bits & 4 != 0 { 0x20 } else { 0 };
            let text = header(flags, shape & 1 != 0, shape & 2 != 0);
            let count = ["static ", "abstract ", "sealed "].iter().filter(|token| text.contains(*token)).count();
            assert!(count <= 1);
            let kinds = ["interface ", "enum ", "struct ", "class "].iter().filter(|token| text.contains(*token)).count();
            assert_eq!(kinds, 1);
        }
    }
}

#[test]
fn the_namespace_comment_is_always_written() {
    let mut c = class(1, false, false);
    assert!(write_class(&c, 0).starts_with("\n// Namespace: \npublic class T\n{"));
    c.namespace = String::from("A.B");
    c.parent = Some(String::from("Base"));
    assert!(write_class(&c, 0).starts_with("\n// Namespace: A.B\npublic class T : Base\n{"));
}

#[test]
fn images_are_listed_with_their_index() {
    let images = vec![
        ImageRecord { index: 0, name: String::from("mscorlib.dll") },
        ImageRecord { index: 12, name: String::from("Assembly-CSharp.dll") },
    ];
    assert_eq!(write_images(&images), "// Image 0: mscorlib.dll\n// Image 12: Assembly-CSharp.dll\n");
    assert_eq!(write_images(&Vec::new()), "");
}

#[test]
fn the_dump_is_header_and_blocks() {
    let images = vec![ImageRecord { index: 3, name: String::from("a.dll") }];
    let classes = vec![class(1, false, false), class(0, true, false)];
    let blocks = write_classes(&classes, 0x10);
    assert_eq!(blocks, format!("{}{}", write_class(&classes[0], 0x10), write_class(&classes[1], 0x10)));
    assert_eq!(dump(&images, &classes, 0x10), format!("// Image 3: a.dll\n{}", blocks));
}
