//! The pseudo-source emitter: type headers, field lines and method
//! signatures in a C#-like layout, each method annotated with its offset.

use crate::il2cpp::constants::{
    TYPE_ATTRIBUTE_VISIBILITY_MASK, TYPE_ATTRIBUTE_NOT_PUBLIC, TYPE_ATTRIBUTE_PUBLIC,
    TYPE_ATTRIBUTE_NESTED_PUBLIC, TYPE_ATTRIBUTE_NESTED_PRIVATE, TYPE_ATTRIBUTE_NESTED_FAMILY,
    TYPE_ATTRIBUTE_NESTED_ASSEMBLY, TYPE_ATTRIBUTE_NESTED_FAM_AND_ASSEM,
    TYPE_ATTRIBUTE_NESTED_FAM_OR_ASSEM, TYPE_ATTRIBUTE_INTERFACE, TYPE_ATTRIBUTE_ABSTRACT,
    TYPE_ATTRIBUTE_SEALED, TYPE_ATTRIBUTE_SERIALIZABLE, FIELD_ATTRIBUTE_FIELD_ACCESS_MASK,
    FIELD_ATTRIBUTE_PRIVATE, FIELD_ATTRIBUTE_FAM_AND_ASSEM, FIELD_ATTRIBUTE_ASSEMBLY,
    FIELD_ATTRIBUTE_FAMILY, FIELD_ATTRIBUTE_FAM_OR_ASSEM, FIELD_ATTRIBUTE_PUBLIC,
    FIELD_ATTRIBUTE_STATIC, FIELD_ATTRIBUTE_INIT_ONLY, FIELD_ATTRIBUTE_LITERAL,
    METHOD_ATTRIBUTE_MEMBER_ACCESS_MASK, METHOD_ATTRIBUTE_PRIVATE, METHOD_ATTRIBUTE_FAM_AND_ASSEM,
    METHOD_ATTRIBUTE_ASSEM, METHOD_ATTRIBUTE_FAMILY, METHOD_ATTRIBUTE_FAM_OR_ASSEM,
    METHOD_ATTRIBUTE_PUBLIC, METHOD_ATTRIBUTE_STATIC, METHOD_ATTRIBUTE_FINAL,
    METHOD_ATTRIBUTE_VIRTUAL, METHOD_ATTRIBUTE_VTABLE_LAYOUT_MASK, METHOD_ATTRIBUTE_REUSE_SLOT,
    METHOD_ATTRIBUTE_NEW_SLOT, METHOD_ATTRIBUTE_ABSTRACT, METHOD_ATTRIBUTE_PINVOKE_IMPL,
    PARAM_ATTRIBUTE_IN, PARAM_ATTRIBUTE_OUT,
};
use crate::metadata::{
    field_views, method_views, param_views, ClassRecord, ClassView, FieldRecord, FieldView,
    ImageRecord, ImageView, MethodRecord, MethodView, ParamRecord, ParamView, class_views,
    image_views,
};
use crate::text::{dec_digits, hex_digits, push_dec, push_hex};
use vstd::prelude::*;
use vstd::string::*;

verus! {

/// The preferred image base of a 64-bit module, under which virtual
/// addresses are printed.
pub const PREFERRED_IMAGE_BASE: u64 = 0x180000000;

/// Offset of `pointer` from `base`, wrapping where the pointer lies below
/// the base.
pub open spec fn image_offset(pointer: usize, base: usize) -> u64 {
    if pointer >= base {
        (pointer - base) as u64
    } else {
        (pointer + 0x1_0000_0000_0000_0000 - base) as u64
    }
}

/// The address of `offset` under the preferred image base, wrapping at 64
/// bits.
pub open spec fn virtual_address(offset: u64) -> u64 {
    if offset + PREFERRED_IMAGE_BASE <= u64::MAX {
        (offset + PREFERRED_IMAGE_BASE) as u64
    } else {
        (offset + PREFERRED_IMAGE_BASE - 0x1_0000_0000_0000_0000) as u64
    }
}

pub fn compute_image_offset(pointer: usize, base: usize) -> (offset: u64)
    ensures
        offset == image_offset(pointer, base),
{
    if pointer >= base {
        (pointer - base) as u64
    } else {
        let below: u64 = (base - pointer) as u64;
        (u64::MAX - below) + 1
    }
}

pub fn compute_virtual_address(offset: u64) -> (address: u64)
    ensures
        address == virtual_address(offset),
{
    if offset <= u64::MAX - PREFERRED_IMAGE_BASE {
        offset + PREFERRED_IMAGE_BASE
    } else {
        offset - (u64::MAX - PREFERRED_IMAGE_BASE) - 1
    }
}

/// The comment line above a method: its offset and virtual address, or
/// zeros for a method without code.
pub open spec fn rva_comment(pointer: usize, base: usize) -> Seq<char> {
    if pointer != 0 {
        "\t// RVA: 0x"@ + hex_digits(image_offset(pointer, base) as nat) + " VA: 0x"@ + hex_digits(
            virtual_address(image_offset(pointer, base)) as nat,
        ) + "\n\t"@
    } else {
        "\t// RVA: 0x0 VA: 0x0\n\t"@
    }
}

/// The access token of a member, from the access bits of its flags.
pub open spec fn method_access(flags: i32) -> Seq<char> {
    let access = flags & METHOD_ATTRIBUTE_MEMBER_ACCESS_MASK;
    if access == METHOD_ATTRIBUTE_PRIVATE {
        "private "@
    } else if access == METHOD_ATTRIBUTE_PUBLIC {
        "public "@
    } else if access == METHOD_ATTRIBUTE_FAMILY {
        "protected "@
    } else if access == METHOD_ATTRIBUTE_ASSEM || access == METHOD_ATTRIBUTE_FAM_AND_ASSEM {
        "internal "@
    } else if access == METHOD_ATTRIBUTE_FAM_OR_ASSEM {
        "protected internal "@
    } else {
        Seq::empty()
    }
}

pub open spec fn method_reuses_slot(flags: i32) -> bool {
    flags & METHOD_ATTRIBUTE_VTABLE_LAYOUT_MASK == METHOD_ATTRIBUTE_REUSE_SLOT
}

pub open spec fn method_new_slot(flags: i32) -> bool {
    flags & METHOD_ATTRIBUTE_VTABLE_LAYOUT_MASK == METHOD_ATTRIBUTE_NEW_SLOT
}

/// Whether the method line carries `static`.
pub open spec fn method_is_static(flags: i32) -> bool {
    flags & METHOD_ATTRIBUTE_STATIC != 0
}

/// Whether the method line carries `abstract`.
pub open spec fn method_is_abstract(flags: i32) -> bool {
    flags & METHOD_ATTRIBUTE_ABSTRACT != 0
}

/// Whether the method line carries `sealed`: a final method that reuses a
/// slot, unless it is abstract.
pub open spec fn method_is_sealed(flags: i32) -> bool {
    !method_is_abstract(flags) && flags & METHOD_ATTRIBUTE_FINAL != 0 && method_reuses_slot(
        flags,
    )
}

/// Whether the method line carries `virtual`: a virtual method in a new
/// slot that is neither abstract nor sealed.
pub open spec fn method_is_virtual(flags: i32) -> bool {
    !method_is_abstract(flags) && !method_is_sealed(flags) && flags & METHOD_ATTRIBUTE_VIRTUAL
        != 0 && method_new_slot(flags)
}

/// Whether the method line carries `override`.
pub open spec fn method_is_override(flags: i32) -> bool {
    if method_is_abstract(flags) {
        method_reuses_slot(flags)
    } else if method_is_sealed(flags) {
        true
    } else {
        flags & METHOD_ATTRIBUTE_VIRTUAL != 0 && !method_new_slot(flags)
    }
}

/// Whether the method line carries `extern`.
pub open spec fn method_is_extern(flags: i32) -> bool {
    flags & METHOD_ATTRIBUTE_PINVOKE_IMPL != 0
}

pub open spec fn token_if(present: bool, token: Seq<char>) -> Seq<char> {
    if present {
        token
    } else {
        Seq::empty()
    }
}

/// The modifier tokens of a method, in the order they are written.
pub open spec fn method_modifiers(flags: i32) -> Seq<char> {
    token_if(method_is_static(flags), "static "@) + token_if(
        method_is_abstract(flags),
        "abstract "@,
    ) + token_if(method_is_sealed(flags), "sealed "@) + token_if(
        method_is_virtual(flags),
        "virtual "@,
    ) + token_if(method_is_override(flags), "override "@) + token_if(
        method_is_extern(flags),
        "extern "@,
    )
}

pub open spec fn param_has_in(attrs: u32) -> bool {
    (attrs as i32) & PARAM_ATTRIBUTE_IN != 0
}

pub open spec fn param_has_out(attrs: u32) -> bool {
    (attrs as i32) & PARAM_ATTRIBUTE_OUT != 0
}

/// How a parameter is passed, as the signature spells it.
#[derive(PartialEq, Eq, Structural, Clone, Copy, Debug)]
pub enum ParamModifier {
    Plain,
    Ref,
    In,
    Out,
    AttrIn,
    AttrOut,
    AttrInOut,
}

/// The modifier of a parameter: for a by-reference type one of `out`, `in`
/// and `ref`; otherwise the attributes that are set.
pub open spec fn param_modifier(is_byref: bool, attrs: u32) -> ParamModifier {
    if is_byref {
        if param_has_out(attrs) && !param_has_in(attrs) {
            ParamModifier::Out
        } else if param_has_in(attrs) && !param_has_out(attrs) {
            ParamModifier::In
        } else {
            ParamModifier::Ref
        }
    } else if param_has_in(attrs) && param_has_out(attrs) {
        ParamModifier::AttrInOut
    } else if param_has_in(attrs) {
        ParamModifier::AttrIn
    } else if param_has_out(attrs) {
        ParamModifier::AttrOut
    } else {
        ParamModifier::Plain
    }
}

pub open spec fn param_modifier_token(modifier: ParamModifier) -> Seq<char> {
    match modifier {
        ParamModifier::Plain => Seq::empty(),
        ParamModifier::Ref => "ref "@,
        ParamModifier::In => "in "@,
        ParamModifier::Out => "out "@,
        ParamModifier::AttrIn => "[In] "@,
        ParamModifier::AttrOut => "[Out] "@,
        ParamModifier::AttrInOut => "[In] [Out] "@,
    }
}

pub open spec fn param_text(p: ParamView) -> Seq<char> {
    param_modifier_token(param_modifier(p.is_byref, p.attrs)) + p.type_text
}

/// The parameters of a signature, separated by a comma and a space.
pub open spec fn params_text(params: Seq<ParamView>) -> Seq<char>
    decreases params.len(),
{
    if params.len() == 0 {
        Seq::empty()
    } else {
        params_text(params.drop_last()) + token_if(params.len() > 1, ", "@) + param_text(
            params.last(),
        )
    }
}

/// One method: a blank line, the offset comment and the signature with an
/// empty body.
pub open spec fn method_text(m: MethodView, base: usize) -> Seq<char> {
    "\n"@ + rva_comment(m.pointer, base) + method_access(m.flags as i32) + method_modifiers(
        m.flags as i32,
    ) + token_if(m.return_byref, "ref "@) + m.return_type + " "@ + m.name + "("@ + params_text(
        m.params,
    ) + ") { }\n"@
}

pub open spec fn methods_text(methods: Seq<MethodView>, base: usize) -> Seq<char>
    decreases methods.len(),
{
    if methods.len() == 0 {
        Seq::empty()
    } else {
        methods_text(methods.drop_last(), base) + method_text(methods.last(), base)
    }
}

/// The methods block of a class.
pub open spec fn methods_block(methods: Seq<MethodView>, base: usize) -> Seq<char> {
    "\n\t// Methods\n"@ + methods_text(methods, base)
}

/// The access token of a field.
pub open spec fn field_access(flags: i32) -> Seq<char> {
    let access = flags & FIELD_ATTRIBUTE_FIELD_ACCESS_MASK;
    if access == FIELD_ATTRIBUTE_PRIVATE {
        "private "@
    } else if access == FIELD_ATTRIBUTE_PUBLIC {
        "public "@
    } else if access == FIELD_ATTRIBUTE_FAMILY {
        "protected "@
    } else if access == FIELD_ATTRIBUTE_ASSEMBLY || access == FIELD_ATTRIBUTE_FAM_AND_ASSEM {
        "internal "@
    } else if access == FIELD_ATTRIBUTE_FAM_OR_ASSEM {
        "protected internal "@
    } else {
        Seq::empty()
    }
}

/// Whether the field line carries `const`.
pub open spec fn field_is_const(flags: i32) -> bool {
    flags & FIELD_ATTRIBUTE_LITERAL != 0
}

/// Whether the field line carries `static`.
pub open spec fn field_is_static(flags: i32) -> bool {
    !field_is_const(flags) && flags & FIELD_ATTRIBUTE_STATIC != 0
}

/// Whether the field line carries `readonly`.
pub open spec fn field_is_readonly(flags: i32) -> bool {
    !field_is_const(flags) && flags & FIELD_ATTRIBUTE_INIT_ONLY != 0
}

pub open spec fn field_storage(flags: i32) -> Seq<char> {
    token_if(field_is_const(flags), "const "@) + token_if(field_is_static(flags), "static "@)
        + token_if(field_is_readonly(flags), "readonly "@)
}

/// One field line: access, storage, type, name and the offset in a comment.
pub open spec fn field_text(f: FieldView) -> Seq<char> {
    "\t"@ + field_access(f.flags) + field_storage(f.flags) + f.type_text + " "@ + f.name
        + "; // 0x"@ + hex_digits(f.offset as nat) + "\n"@
}

pub open spec fn fields_text(fields: Seq<FieldView>) -> Seq<char>
    decreases fields.len(),
{
    if fields.len() == 0 {
        Seq::empty()
    } else {
        fields_text(fields.drop_last()) + field_text(fields.last())
    }
}

/// The fields block of a class.
pub open spec fn fields_block(fields: Seq<FieldView>) -> Seq<char> {
    "\n\t// Fields\n"@ + fields_text(fields)
}

/// The visibility token of a type.
pub open spec fn class_visibility(flags: i32) -> Seq<char> {
    let visibility = flags & TYPE_ATTRIBUTE_VISIBILITY_MASK;
    if visibility == TYPE_ATTRIBUTE_PUBLIC || visibility == TYPE_ATTRIBUTE_NESTED_PUBLIC {
        "public "@
    } else if visibility == TYPE_ATTRIBUTE_NOT_PUBLIC || visibility
        == TYPE_ATTRIBUTE_NESTED_FAM_AND_ASSEM || visibility == TYPE_ATTRIBUTE_NESTED_ASSEMBLY {
        "internal "@
    } else if visibility == TYPE_ATTRIBUTE_NESTED_PRIVATE {
        "private "@
    } else if visibility == TYPE_ATTRIBUTE_NESTED_FAMILY {
        "protected "@
    } else if visibility == TYPE_ATTRIBUTE_NESTED_FAM_OR_ASSEM {
        "protected internal "@
    } else {
        Seq::empty()
    }
}

pub open spec fn class_is_interface(flags: i32) -> bool {
    flags & TYPE_ATTRIBUTE_INTERFACE != 0
}

/// Whether the type header carries `static`: abstract and sealed at once.
pub open spec fn class_is_static(flags: i32) -> bool {
    flags & TYPE_ATTRIBUTE_ABSTRACT != 0 && flags & TYPE_ATTRIBUTE_SEALED != 0
}

/// Whether the type header carries `abstract`.
pub open spec fn class_is_abstract(flags: i32) -> bool {
    !class_is_static(flags) && !class_is_interface(flags) && flags & TYPE_ATTRIBUTE_ABSTRACT != 0
}

/// Whether the type header carries `sealed`.
pub open spec fn class_is_sealed(flags: i32, is_valuetype: bool, is_enum: bool) -> bool {
    !class_is_static(flags) && !class_is_abstract(flags) && !is_valuetype && !is_enum && flags
        & TYPE_ATTRIBUTE_SEALED != 0
}

pub open spec fn class_modifiers(flags: i32, is_valuetype: bool, is_enum: bool) -> Seq<char> {
    token_if(class_is_static(flags), "static "@) + token_if(class_is_abstract(flags), "abstract "@)
        + token_if(class_is_sealed(flags, is_valuetype, is_enum), "sealed "@)
}

/// The kind of a type, as its header names it.
#[derive(PartialEq, Eq, Structural, Clone, Copy, Debug)]
pub enum ClassKind {
    Interface,
    Enum,
    Struct,
    Class,
}

pub open spec fn class_kind(flags: i32, is_valuetype: bool, is_enum: bool) -> ClassKind {
    if class_is_interface(flags) {
        ClassKind::Interface
    } else if is_enum {
        ClassKind::Enum
    } else if is_valuetype {
        ClassKind::Struct
    } else {
        ClassKind::Class
    }
}

pub open spec fn class_kind_token(kind: ClassKind) -> Seq<char> {
    match kind {
        ClassKind::Interface => "interface "@,
        ClassKind::Enum => "enum "@,
        ClassKind::Struct => "struct "@,
        ClassKind::Class => "class "@,
    }
}

pub open spec fn class_parent(parent: Option<Seq<char>>) -> Seq<char> {
    match parent {
        Some(name) => " : "@ + name,
        None => Seq::empty(),
    }
}

/// The declaration line of a type, from the visibility to the base class.
pub open spec fn class_header(c: ClassView) -> Seq<char> {
    class_visibility(c.flags) + class_modifiers(c.flags, c.is_valuetype, c.is_enum)
        + class_kind_token(class_kind(c.flags, c.is_valuetype, c.is_enum)) + c.name + class_parent(
        c.parent,
    )
}

/// One class block: the namespace comment, the attribute line, the header
/// and the two member blocks between braces.
pub open spec fn class_text(c: ClassView, base: usize) -> Seq<char> {
    "\n// Namespace: "@ + c.namespace + "\n"@ + token_if(
        c.flags & TYPE_ATTRIBUTE_SERIALIZABLE != 0,
        "[Serializable]\n"@,
    ) + class_header(c) + "\n{"@ + fields_block(c.fields) + methods_block(c.methods, base)
        + "}\n"@
}

pub open spec fn classes_text(classes: Seq<ClassView>, base: usize) -> Seq<char>
    decreases classes.len(),
{
    if classes.len() == 0 {
        Seq::empty()
    } else {
        classes_text(classes.drop_last(), base) + class_text(classes.last(), base)
    }
}

/// One line of the image header.
pub open spec fn image_text(i: ImageView) -> Seq<char> {
    "// Image "@ + dec_digits(i.index as nat) + ": "@ + i.name + "\n"@
}

pub open spec fn images_text(images: Seq<ImageView>) -> Seq<char>
    decreases images.len(),
{
    if images.len() == 0 {
        Seq::empty()
    } else {
        images_text(images.drop_last()) + image_text(images.last())
    }
}

/// The whole pseudo-source: the image header followed by the class blocks.
pub open spec fn dump_text(images: Seq<ImageView>, classes: Seq<ClassView>, base: usize) -> Seq<
    char,
> {
    images_text(images) + classes_text(classes, base)
}

fn push_token_if(out: &mut String, present: bool, token: &str)
    ensures
        final(out)@ == old(out)@ + token_if(present, token@),
{
    if present {
        out.append(token);
    }
}

fn push_rva_comment(out: &mut String, pointer: usize, base: usize)
    ensures
        final(out)@ == old(out)@ + rva_comment(pointer, base),
{
    if pointer != 0 {
        let offset: u64 = compute_image_offset(pointer, base);
        let address: u64 = compute_virtual_address(offset);
        out.append("\t// RVA: 0x");
        push_hex(out, offset);
        out.append(" VA: 0x");
        push_hex(out, address);
        out.append("\n\t");
        assert(out@ =~= old(out)@ + rva_comment(pointer, base));
    } else {
        out.append("\t// RVA: 0x0 VA: 0x0\n\t");
    }
}

fn push_method_access(out: &mut String, flags: i32)
    ensures
        final(out)@ == old(out)@ + method_access(flags),
{
    let access: i32 = flags & METHOD_ATTRIBUTE_MEMBER_ACCESS_MASK;
    if access == METHOD_ATTRIBUTE_PRIVATE {
        out.append("private ");
    } else if access == METHOD_ATTRIBUTE_PUBLIC {
        out.append("public ");
    } else if access == METHOD_ATTRIBUTE_FAMILY {
        out.append("protected ");
    } else if access == METHOD_ATTRIBUTE_ASSEM || access == METHOD_ATTRIBUTE_FAM_AND_ASSEM {
        out.append("internal ");
    } else if access == METHOD_ATTRIBUTE_FAM_OR_ASSEM {
        out.append("protected internal ");
    }
}

fn push_method_modifiers(out: &mut String, flags: i32)
    ensures
        final(out)@ == old(out)@ + method_modifiers(flags),
{
    if flags & METHOD_ATTRIBUTE_STATIC != 0 {
        out.append("static ");
    }
    if flags & METHOD_ATTRIBUTE_ABSTRACT != 0 {
        out.append("abstract ");
        if flags & METHOD_ATTRIBUTE_VTABLE_LAYOUT_MASK == METHOD_ATTRIBUTE_REUSE_SLOT {
            out.append("override ");
        }
    } else if flags & METHOD_ATTRIBUTE_FINAL != 0 && flags & METHOD_ATTRIBUTE_VTABLE_LAYOUT_MASK
        == METHOD_ATTRIBUTE_REUSE_SLOT {
        out.append("sealed override ");
        proof {
            reveal_strlit("sealed override ");
            reveal_strlit("sealed ");
            reveal_strlit("override ");
            assert("sealed override "@ =~= "sealed "@ + "override "@);
        }
    } else if flags & METHOD_ATTRIBUTE_VIRTUAL != 0 {
        if flags & METHOD_ATTRIBUTE_VTABLE_LAYOUT_MASK == METHOD_ATTRIBUTE_NEW_SLOT {
            out.append("virtual ");
        } else {
            out.append("override ");
        }
    }
    if flags & METHOD_ATTRIBUTE_PINVOKE_IMPL != 0 {
        out.append("extern ");
    }
    assert(out@ =~= old(out)@ + method_modifiers(flags));
}

/// Decides how a parameter is passed.
pub fn decide_param_modifier(is_byref: bool, attrs: u32) -> (modifier: ParamModifier)
    ensures
        modifier == param_modifier(is_byref, attrs),
{
    let bits: i32 = attrs as i32;
    let has_in: bool = bits & PARAM_ATTRIBUTE_IN != 0;
    let has_out: bool = bits & PARAM_ATTRIBUTE_OUT != 0;
    if is_byref {
        if has_out && !has_in {
            ParamModifier::Out
        } else if has_in && !has_out {
            ParamModifier::In
        } else {
            ParamModifier::Ref
        }
    } else if has_in && has_out {
        ParamModifier::AttrInOut
    } else if has_in {
        ParamModifier::AttrIn
    } else if has_out {
        ParamModifier::AttrOut
    } else {
        ParamModifier::Plain
    }
}

fn push_param(out: &mut String, param: &ParamRecord)
    ensures
        final(out)@ == old(out)@ + param_text(param@),
{
    match decide_param_modifier(param.is_byref, param.attrs) {
        ParamModifier::Plain => {},
        ParamModifier::Ref => {
            out.append("ref ");
        },
        ParamModifier::In => {
            out.append("in ");
        },
        ParamModifier::Out => {
            out.append("out ");
        },
        ParamModifier::AttrIn => {
            out.append("[In] ");
        },
        ParamModifier::AttrOut => {
            out.append("[Out] ");
        },
        ParamModifier::AttrInOut => {
            out.append("[In] [Out] ");
        },
    }
    out.append(param.type_text.as_str());
    assert(out@ =~= old(out)@ + param_text(param@));
}

fn push_params(out: &mut String, params: &Vec<ParamRecord>)
    ensures
        final(out)@ == old(out)@ + params_text(param_views(params@)),
{
    let ghost views = param_views(params@);
    let mut i: usize = 0;
    while i < params.len()
        invariant
            i <= params.len(),
            views == param_views(params@),
            out@ == old(out)@ + params_text(views.take(i as int)),
        decreases params.len() - i,
    {
        push_token_if(out, i != 0, ", ");
        push_param(out, &params[i]);
        proof {
            let next = views.take(i + 1);
            assert(next.drop_last() =~= views.take(i as int));
            assert(next.last() == params@[i as int]@);
            assert(out@ =~= old(out)@ + params_text(next));
        }
        i = i + 1;
    }
    proof {
        assert(views.take(i as int) =~= views);
    }
}

fn push_method(out: &mut String, method: &MethodRecord, base: usize)
    ensures
        final(out)@ == old(out)@ + method_text(method@, base),
{
    let flags: i32 = method.flags as i32;
    out.append("\n");
    push_rva_comment(out, method.pointer, base);
    push_method_access(out, flags);
    push_method_modifiers(out, flags);
    push_token_if(out, method.return_byref, "ref ");
    out.append(method.return_type.as_str());
    out.append(" ");
    out.append(method.name.as_str());
    out.append("(");
    push_params(out, &method.params);
    out.append(") { }\n");
    assert(out@ =~= old(out)@ + method_text(method@, base));
}

/// Writes the methods block of a class: the heading, then one entry for
/// each method in the order given.
pub fn write_methods(methods: &Vec<MethodRecord>, base: usize) -> (out: String)
    ensures
        out@ == methods_block(method_views(methods@), base),
{
    let ghost views = method_views(methods@);
    let mut out = String::new();
    out.append("\n\t// Methods\n");
    let mut i: usize = 0;
    while i < methods.len()
        invariant
            i <= methods.len(),
            views == method_views(methods@),
            out@ == "\n\t// Methods\n"@ + methods_text(views.take(i as int), base),
        decreases methods.len() - i,
    {
        push_method(&mut out, &methods[i], base);
        proof {
            let next = views.take(i + 1);
            assert(next.drop_last() =~= views.take(i as int));
            assert(next.last() == methods@[i as int]@);
            assert(out@ =~= "\n\t// Methods\n"@ + methods_text(next, base));
        }
        i = i + 1;
    }
    proof {
        assert(views.take(i as int) =~= views);
    }
    out
}

fn push_field_access(out: &mut String, flags: i32)
    ensures
        final(out)@ == old(out)@ + field_access(flags),
{
    let access: i32 = flags & FIELD_ATTRIBUTE_FIELD_ACCESS_MASK;
    if access == FIELD_ATTRIBUTE_PRIVATE {
        out.append("private ");
    } else if access == FIELD_ATTRIBUTE_PUBLIC {
        out.append("public ");
    } else if access == FIELD_ATTRIBUTE_FAMILY {
        out.append("protected ");
    } else if access == FIELD_ATTRIBUTE_ASSEMBLY || access == FIELD_ATTRIBUTE_FAM_AND_ASSEM {
        out.append("internal ");
    } else if access == FIELD_ATTRIBUTE_FAM_OR_ASSEM {
        out.append("protected internal ");
    }
}

fn push_field_storage(out: &mut String, flags: i32)
    ensures
        final(out)@ == old(out)@ + field_storage(flags),
{
    if flags & FIELD_ATTRIBUTE_LITERAL != 0 {
        out.append("const ");
    } else {
        if flags & FIELD_ATTRIBUTE_STATIC != 0 {
            out.append("static ");
        }
        if flags & FIELD_ATTRIBUTE_INIT_ONLY != 0 {
            out.append("readonly ");
        }
    }
    assert(out@ =~= old(out)@ + field_storage(flags));
}

fn push_field(out: &mut String, field: &FieldRecord)
    ensures
        final(out)@ == old(out)@ + field_text(field@),
{
    out.append("\t");
    push_field_access(out, field.flags);
    push_field_storage(out, field.flags);
    out.append(field.type_text.as_str());
    out.append(" ");
    out.append(field.name.as_str());
    out.append("; // 0x");
    push_hex(out, field.offset as u64);
    out.append("\n");
    assert(out@ =~= old(out)@ + field_text(field@));
}

/// Writes the fields block of a class: the heading, then one line for each
/// field in the order given.
pub fn write_fields(fields: &Vec<FieldRecord>) -> (out: String)
    ensures
        out@ == fields_block(field_views(fields@)),
{
    let ghost views = field_views(fields@);
    let mut out = String::new();
    out.append("\n\t// Fields\n");
    let mut i: usize = 0;
    while i < fields.len()
        invariant
            i <= fields.len(),
            views == field_views(fields@),
            out@ == "\n\t// Fields\n"@ + fields_text(views.take(i as int)),
        decreases fields.len() - i,
    {
        push_field(&mut out, &fields[i]);
        proof {
            let next = views.take(i + 1);
            assert(next.drop_last() =~= views.take(i as int));
            assert(next.last() == fields@[i as int]@);
            assert(out@ =~= "\n\t// Fields\n"@ + fields_text(next));
        }
        i = i + 1;
    }
    proof {
        assert(views.take(i as int) =~= views);
    }
    out
}

fn push_class_visibility(out: &mut String, flags: i32)
    ensures
        final(out)@ == old(out)@ + class_visibility(flags),
{
    let visibility: i32 = flags & TYPE_ATTRIBUTE_VISIBILITY_MASK;
    if visibility == TYPE_ATTRIBUTE_PUBLIC || visibility == TYPE_ATTRIBUTE_NESTED_PUBLIC {
        out.append("public ");
    } else if visibility == TYPE_ATTRIBUTE_NOT_PUBLIC || visibility
        == TYPE_ATTRIBUTE_NESTED_FAM_AND_ASSEM || visibility == TYPE_ATTRIBUTE_NESTED_ASSEMBLY {
        out.append("internal ");
    } else if visibility == TYPE_ATTRIBUTE_NESTED_PRIVATE {
        out.append("private ");
    } else if visibility == TYPE_ATTRIBUTE_NESTED_FAMILY {
        out.append("protected ");
    } else if visibility == TYPE_ATTRIBUTE_NESTED_FAM_OR_ASSEM {
        out.append("protected internal ");
    }
}

fn push_class_modifiers(out: &mut String, flags: i32, is_valuetype: bool, is_enum: bool)
    ensures
        final(out)@ == old(out)@ + class_modifiers(flags, is_valuetype, is_enum),
{
    if flags & TYPE_ATTRIBUTE_ABSTRACT != 0 && flags & TYPE_ATTRIBUTE_SEALED != 0 {
        out.append("static ");
    } else if !(flags & TYPE_ATTRIBUTE_INTERFACE != 0) && flags & TYPE_ATTRIBUTE_ABSTRACT != 0 {
        out.append("abstract ");
    } else if !is_valuetype && !is_enum && flags & TYPE_ATTRIBUTE_SEALED != 0 {
        out.append("sealed ");
    }
    assert(out@ =~= old(out)@ + class_modifiers(flags, is_valuetype, is_enum));
}

/// Decides the kind of a type.
pub fn decide_class_kind(flags: i32, is_valuetype: bool, is_enum: bool) -> (kind: ClassKind)
    ensures
        kind == class_kind(flags, is_valuetype, is_enum),
{
    if flags & TYPE_ATTRIBUTE_INTERFACE != 0 {
        ClassKind::Interface
    } else if is_enum {
        ClassKind::Enum
    } else if is_valuetype {
        ClassKind::Struct
    } else {
        ClassKind::Class
    }
}

fn push_class_header(out: &mut String, class: &ClassRecord)
    ensures
        final(out)@ == old(out)@ + class_header(class@),
{
    push_class_visibility(out, class.flags);
    push_class_modifiers(out, class.flags, class.is_valuetype, class.is_enum);
    match decide_class_kind(class.flags, class.is_valuetype, class.is_enum) {
        ClassKind::Interface => {
            out.append("interface ");
        },
        ClassKind::Enum => {
            out.append("enum ");
        },
        ClassKind::Struct => {
            out.append("struct ");
        },
        ClassKind::Class => {
            out.append("class ");
        },
    }
    out.append(class.name.as_str());
    match &class.parent {
        Some(parent) => {
            out.append(" : ");
            out.append(parent.as_str());
        },
        None => {},
    }
    assert(out@ =~= old(out)@ + class_header(class@));
}

/// Writes one class block.
pub fn write_class(class: &ClassRecord, base: usize) -> (out: String)
    ensures
        out@ == class_text(class@, base),
{
    let mut out = String::new();
    out.append("\n// Namespace: ");
    out.append(class.namespace.as_str());
    out.append("\n");
    push_token_if(&mut out, class.flags & TYPE_ATTRIBUTE_SERIALIZABLE != 0, "[Serializable]\n");
    push_class_header(&mut out, class);
    out.append("\n{");
    let fields = write_fields(&class.fields);
    out.append(fields.as_str());
    let methods = write_methods(&class.methods, base);
    out.append(methods.as_str());
    out.append("}\n");
    assert(out@ =~= class_text(class@, base));
    out
}

/// Writes the class blocks of all classes, in the order given.
pub fn write_classes(classes: &Vec<ClassRecord>, base: usize) -> (out: String)
    ensures
        out@ == classes_text(class_views(classes@), base),
{
    let ghost views = class_views(classes@);
    let mut out = String::new();
    let mut i: usize = 0;
    while i < classes.len()
        invariant
            i <= classes.len(),
            views == class_views(classes@),
            out@ == classes_text(views.take(i as int), base),
        decreases classes.len() - i,
    {
        let block = write_class(&classes[i], base);
        out.append(block.as_str());
        proof {
            let next = views.take(i + 1);
            assert(next.drop_last() =~= views.take(i as int));
            assert(next.last() == classes@[i as int]@);
        }
        i = i + 1;
    }
    proof {
        assert(views.take(i as int) =~= views);
    }
    out
}

/// Writes the header line of one image.
pub fn write_image(image: &ImageRecord) -> (out: String)
    ensures
        out@ == image_text(image@),
{
    let mut out = String::new();
    push_image(&mut out, image);
    out
}

fn push_image(out: &mut String, image: &ImageRecord)
    ensures
        final(out)@ == old(out)@ + image_text(image@),
{
    out.append("// Image ");
    push_dec(out, image.index as u64);
    out.append(": ");
    out.append(image.name.as_str());
    out.append("\n");
    assert(out@ =~= old(out)@ + image_text(image@));
}

/// Writes the image header: one line for each image, in the order given.
pub fn write_images(images: &Vec<ImageRecord>) -> (out: String)
    ensures
        out@ == images_text(image_views(images@)),
{
    let ghost views = image_views(images@);
    let mut out = String::new();
    let mut i: usize = 0;
    while i < images.len()
        invariant
            i <= images.len(),
            views == image_views(images@),
            out@ == images_text(views.take(i as int)),
        decreases images.len() - i,
    {
        push_image(&mut out, &images[i]);
        proof {
            let next = views.take(i + 1);
            assert(next.drop_last() =~= views.take(i as int));
            assert(next.last() == images@[i as int]@);
        }
        i = i + 1;
    }
    proof {
        assert(views.take(i as int) =~= views);
    }
    out
}

/// Builds the whole pseudo-source text from the images and classes that a
/// walk has gathered.
pub fn dump(images: &Vec<ImageRecord>, classes: &Vec<ClassRecord>, base: usize) -> (out: String)
    ensures
        out@ == dump_text(image_views(images@), class_views(classes@), base),
{
    let mut out = write_images(images);
    let blocks = write_classes(classes, base);
    out.append(blocks.as_str());
    out
}

/// A method line never carries two modifiers that contradict each other:
/// `virtual` never stands with `override`, `abstract` or `sealed`,
/// `abstract` never with `sealed`, and `sealed` only with `override`.
pub proof fn lemma_method_modifiers_agree(flags: i32)
    ensures
        !(method_is_virtual(flags) && method_is_override(flags)),
        !(method_is_virtual(flags) && method_is_abstract(flags)),
        !(method_is_virtual(flags) && method_is_sealed(flags)),
        !(method_is_abstract(flags) && method_is_sealed(flags)),
        method_is_sealed(flags) ==> method_is_override(flags),
{
}

/// A type header carries at most one of `static`, `abstract` and `sealed`,
/// and an interface is never `abstract`.
pub proof fn lemma_class_modifiers_agree(flags: i32, is_valuetype: bool, is_enum: bool)
    ensures
        !(class_is_static(flags) && class_is_abstract(flags)),
        !(class_is_static(flags) && class_is_sealed(flags, is_valuetype, is_enum)),
        !(class_is_abstract(flags) && class_is_sealed(flags, is_valuetype, is_enum)),
        class_is_abstract(flags) ==> class_kind(flags, is_valuetype, is_enum)
            != ClassKind::Interface,
        class_is_sealed(flags, is_valuetype, is_enum) ==> class_kind(flags, is_valuetype, is_enum)
            == ClassKind::Class || class_kind(flags, is_valuetype, is_enum)
            == ClassKind::Interface,
{
}

/// A field line that carries `const` carries neither `static` nor
/// `readonly`.
pub proof fn lemma_field_storage_agrees(flags: i32)
    ensures
        field_is_const(flags) ==> !field_is_static(flags) && !field_is_readonly(flags),
{
}

/// A parameter of a by-reference type is spelled with exactly one of
/// `out`, `in` and `ref`; any other parameter with none of them.
pub proof fn lemma_param_modifier_agrees(is_byref: bool, attrs: u32)
    ensures
        is_byref <==> param_modifier(is_byref, attrs) == ParamModifier::Out || param_modifier(
            is_byref,
            attrs,
        ) == ParamModifier::In || param_modifier(is_byref, attrs) == ParamModifier::Ref,
        param_modifier(is_byref, attrs) == ParamModifier::Out ==> param_has_out(attrs)
            && !param_has_in(attrs),
        param_modifier(is_byref, attrs) == ParamModifier::In ==> param_has_in(attrs)
            && !param_has_out(attrs),
{
}

/// The blocks of two lists of classes, one after the other, are the
/// blocks of the two lists joined.
pub proof fn lemma_classes_text_concat(first: Seq<ClassView>, second: Seq<ClassView>, base: usize)
    ensures
        classes_text(first + second, base) == classes_text(first, base) + classes_text(
            second,
            base,
        ),
    decreases second.len(),
{
    if second.len() == 0 {
        assert(first + second =~= first);
        assert(classes_text(first, base) + classes_text(second, base) =~= classes_text(
            first,
            base,
        ));
    } else {
        lemma_classes_text_concat(first, second.drop_last(), base);
        assert((first + second).drop_last() =~= first + second.drop_last());
        assert((first + second).last() == second.last());
        assert(classes_text(first + second, base) =~= classes_text(first, base) + classes_text(
            second,
            base,
        ));
    }
}

} // verus!
