use honkai_dumper::il2cpp::api::rewrite;
use honkai_dumper::text::{chars_of, push_dec, push_hex, replace_token, string_of};

fn hex(n: u64) -> String {
    let mut out = String::new();
    push_hex(&mut out, n);
    out
}

fn dec(n: u64) -> String {
    let mut out = String::new();
    push_dec(&mut out, n);
    out
}

fn replace(text: &str, from: &str, to: &str) -> String {
    string_of(&replace_token(&chars_of(text), &chars_of(from), &chars_of(to)))
}

#[test]
fn hex_is_lower_case_without_padding() {
    assert_eq!(hex(0), "0");
    assert_eq!(hex(9), "9");
    assert_eq!(hex(10), "a");
    assert_eq!(hex(15), "f");
    assert_eq!(hex(16), "10");
    assert_eq!(hex(0x1234), "1234");
    assert_eq!(hex(0xDEADBEEF), "deadbeef");
    assert_eq!(hex(u64::MAX), "ffffffffffffffff");
    assert_eq!(hex(0x180001234), format!("{:x}", 0x180001234u64));
}

#[test]
fn hex_appends_to_what_is_there() {
    let mut out = String::from("0x");
    push_hex(&mut out, 0xabc);
    assert_eq!(out, "0xabc");
}

#[test]
fn decimal_has_no_padding() {
    assert_eq!(dec(0), "0");
    assert_eq!(dec(7), "7");
    assert_eq!(dec(10), "10");
    assert_eq!(dec(1203), "1203");
    assert_eq!(dec(u64::MAX), "18446744073709551615");
}

#[test]
fn characters_round_trip() {
    let chars = chars_of("a\u{e9}\u{4e2d}z");
    assert_eq!(chars, vec!['a', '\u{e9}', '\u{4e2d}', 'z']);
    assert_eq!(string_of(&chars), "a\u{e9}\u{4e2d}z");
    assert_eq!(chars_of(""), Vec::<char>::new());
}

#[test]
fn replacing_goes_from_the_left_without_overlap() {
    assert_eq!(replace("aaa", "aa", "b"), "ba");
    assert_eq!(replace("abcabc", "bc", "X"), "aXaX");
    assert_eq!(replace("abc", "x", "y"), "abc");
    assert_eq!(replace("", "x", "y"), "");
    assert_eq!(replace("aaaa", "a", "aa"), "aaaaaaaa");
    assert_eq!(replace("a&b&", "&", ""), "ab");
    assert_eq!(replace("abcabc", "bc", "X"), "abcabc".replace("bc", "X"));
    assert_eq!(replace("aaa", "aa", "b"), "aaa".replace("aa", "b"));
}

#[test]
fn an_empty_token_replaces_nothing() {
    assert_eq!(replace("abc", "", "x"), "abc");
}

#[test]
fn every_primitive_type_is_rewritten() {
    assert_eq!(rewrite("System.Void"), "void");
    assert_eq!(rewrite("System.Boolean"), "bool");
    assert_eq!(rewrite("System.Char"), "char");
    assert_eq!(rewrite("System.SByte"), "sbyte");
    assert_eq!(rewrite("System.Byte"), "byte");
    assert_eq!(rewrite("System.Int16"), "short");
    assert_eq!(rewrite("System.UInt16"), "ushort");
    assert_eq!(rewrite("System.Int32"), "int");
    assert_eq!(rewrite("System.UInt32"), "uint");
    assert_eq!(rewrite("System.Int64"), "long");
    assert_eq!(rewrite("System.UInt64"), "ulong");
    assert_eq!(rewrite("System.Single"), "float");
    assert_eq!(rewrite("System.Double"), "double");
    assert_eq!(rewrite("System.String"), "string");
    assert_eq!(rewrite("System.IntPtr"), "IntPtr");
    assert_eq!(rewrite("System.UIntPtr"), "UIntPtr");
    assert_eq!(rewrite("System.Object"), "object");
    assert_eq!(rewrite("System.Int32&"), "int");
}

#[test]
fn rewriting_reaches_inside_generic_names() {
    assert_eq!(
        rewrite("System.Collections.Generic.Dictionary<System.String,System.Int32[]>"),
        "System.Collections.Generic.Dictionary<string,int[]>"
    );
    assert_eq!(rewrite("UnityEngine.Vector3&"), "UnityEngine.Vector3");
    assert_eq!(rewrite("Game.Player"), "Game.Player");
    assert_eq!(rewrite(""), "");
}

#[test]
fn rewriting_a_rewritten_name_changes_nothing() {
    for name in ["System.Int32", "System.Collections.Generic.List<System.Object>", "Game.Player&", "System.Byte[]"] {
        let once = rewrite(name);
        assert_eq!(rewrite(&once), once);
    }
}

#[test]
fn a_name_that_rewrites_into_a_token_is_rewritten_again() {
    let once = rewrite("System.System.IntPtrIntPtr");
    assert_eq!(once, "System.IntPtrIntPtr");
    assert_eq!(rewrite(&once), "IntPtrIntPtr");
}
