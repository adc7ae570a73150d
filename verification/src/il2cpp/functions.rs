//! The function table: which entry points the runtime offers, in which
//! slot each one stands and how the bound table is read.

use crate::il2cpp::module::{FunctionPtr, Signature};
use vstd::prelude::*;
use vstd::string::*;

verus! {

/// The entry points of the runtime that the dumper knows.
#[derive(PartialEq, Eq, Structural, Clone, Copy, Debug)]
pub enum Entry {
    AssemblyGetImage,
    ClassGetFields,
    ClassGetInterfaces,
    ClassGetMethods,
    ClassGetName,
    ClassGetNamespace,
    ClassGetParent,
    ClassIsValuetype,
    ClassGetFlags,
    ClassFromType,
    ClassIsEnum,
    DomainGet,
    DomainGetAssemblies,
    FieldGetFlags,
    FieldGetName,
    FieldGetOffset,
    FieldGetType,
    MethodGetReturnType,
    MethodGetName,
    MethodGetParamCount,
    MethodGetParam,
    TypeGetName,
    TypeIsByref,
    TypeGetAttrs,
    ImageGetName,
    ImageGetClassCount,
    ImageGetClass,
}

impl Entry {
    /// The exported name of the entry point.
    pub open spec fn name_text(self) -> Seq<char> {
        match self {
            Entry::AssemblyGetImage => "il2cpp_assembly_get_image"@,
            Entry::ClassGetFields => "il2cpp_class_get_fields"@,
            Entry::ClassGetInterfaces => "il2cpp_class_get_interfaces"@,
            Entry::ClassGetMethods => "il2cpp_class_get_methods"@,
            Entry::ClassGetName => "il2cpp_class_get_name"@,
            Entry::ClassGetNamespace => "il2cpp_class_get_namespace"@,
            Entry::ClassGetParent => "il2cpp_class_get_parent"@,
            Entry::ClassIsValuetype => "il2cpp_class_is_valuetype"@,
            Entry::ClassGetFlags => "il2cpp_class_get_flags"@,
            Entry::ClassFromType => "il2cpp_class_from_type"@,
            Entry::ClassIsEnum => "il2cpp_class_is_enum"@,
            Entry::DomainGet => "il2cpp_domain_get"@,
            Entry::DomainGetAssemblies => "il2cpp_domain_get_assemblies"@,
            Entry::FieldGetFlags => "il2cpp_field_get_flags"@,
            Entry::FieldGetName => "il2cpp_field_get_name"@,
            Entry::FieldGetOffset => "il2cpp_field_get_offset"@,
            Entry::FieldGetType => "il2cpp_field_get_type"@,
            Entry::MethodGetReturnType => "il2cpp_method_get_return_type"@,
            Entry::MethodGetName => "il2cpp_method_get_name"@,
            Entry::MethodGetParamCount => "il2cpp_method_get_param_count"@,
            Entry::MethodGetParam => "il2cpp_method_get_param"@,
            Entry::TypeGetName => "il2cpp_type_get_name"@,
            Entry::TypeIsByref => "il2cpp_type_is_byref"@,
            Entry::TypeGetAttrs => "il2cpp_type_get_attrs"@,
            Entry::ImageGetName => "il2cpp_image_get_name"@,
            Entry::ImageGetClassCount => "il2cpp_image_get_class_count"@,
            Entry::ImageGetClass => "il2cpp_image_get_class"@,
        }
    }

    /// How the entry point is called.
    pub open spec fn signature(self) -> Signature {
        match self {
            Entry::AssemblyGetImage => Signature::Handle,
            Entry::ClassGetFields => Signature::Cursor,
            Entry::ClassGetInterfaces => Signature::Cursor,
            Entry::ClassGetMethods => Signature::Cursor,
            Entry::ClassGetName => Signature::Text,
            Entry::ClassGetNamespace => Signature::Text,
            Entry::ClassGetParent => Signature::Handle,
            Entry::ClassIsValuetype => Signature::Flag,
            Entry::ClassGetFlags => Signature::Signed,
            Entry::ClassFromType => Signature::Handle,
            Entry::ClassIsEnum => Signature::Flag,
            Entry::DomainGet => Signature::Nullary,
            Entry::DomainGetAssemblies => Signature::Counted,
            Entry::FieldGetFlags => Signature::Signed,
            Entry::FieldGetName => Signature::Text,
            Entry::FieldGetOffset => Signature::Word,
            Entry::FieldGetType => Signature::Handle,
            Entry::MethodGetReturnType => Signature::Handle,
            Entry::MethodGetName => Signature::Text,
            Entry::MethodGetParamCount => Signature::Unsigned,
            Entry::MethodGetParam => Signature::Indexed32,
            Entry::TypeGetName => Signature::Text,
            Entry::TypeIsByref => Signature::Flag,
            Entry::TypeGetAttrs => Signature::Unsigned,
            Entry::ImageGetName => Signature::Text,
            Entry::ImageGetClassCount => Signature::Word,
            Entry::ImageGetClass => Signature::Indexed,
        }
    }

    /// The exported name of the entry point.
    pub fn name(self) -> (name: &'static str)
        ensures
            name@ == self.name_text(),
    {
        match self {
            Entry::AssemblyGetImage => "il2cpp_assembly_get_image",
            Entry::ClassGetFields => "il2cpp_class_get_fields",
            Entry::ClassGetInterfaces => "il2cpp_class_get_interfaces",
            Entry::ClassGetMethods => "il2cpp_class_get_methods",
            Entry::ClassGetName => "il2cpp_class_get_name",
            Entry::ClassGetNamespace => "il2cpp_class_get_namespace",
            Entry::ClassGetParent => "il2cpp_class_get_parent",
            Entry::ClassIsValuetype => "il2cpp_class_is_valuetype",
            Entry::ClassGetFlags => "il2cpp_class_get_flags",
            Entry::ClassFromType => "il2cpp_class_from_type",
            Entry::ClassIsEnum => "il2cpp_class_is_enum",
            Entry::DomainGet => "il2cpp_domain_get",
            Entry::DomainGetAssemblies => "il2cpp_domain_get_assemblies",
            Entry::FieldGetFlags => "il2cpp_field_get_flags",
            Entry::FieldGetName => "il2cpp_field_get_name",
            Entry::FieldGetOffset => "il2cpp_field_get_offset",
            Entry::FieldGetType => "il2cpp_field_get_type",
            Entry::MethodGetReturnType => "il2cpp_method_get_return_type",
            Entry::MethodGetName => "il2cpp_method_get_name",
            Entry::MethodGetParamCount => "il2cpp_method_get_param_count",
            Entry::MethodGetParam => "il2cpp_method_get_param",
            Entry::TypeGetName => "il2cpp_type_get_name",
            Entry::TypeIsByref => "il2cpp_type_is_byref",
            Entry::TypeGetAttrs => "il2cpp_type_get_attrs",
            Entry::ImageGetName => "il2cpp_image_get_name",
            Entry::ImageGetClassCount => "il2cpp_image_get_class_count",
            Entry::ImageGetClass => "il2cpp_image_get_class",
        }
    }

    /// How the entry point is called.
    pub fn call_signature(self) -> (signature: Signature)
        ensures
            signature == self.signature(),
    {
        match self {
            Entry::AssemblyGetImage => Signature::Handle,
            Entry::ClassGetFields => Signature::Cursor,
            Entry::ClassGetInterfaces => Signature::Cursor,
            Entry::ClassGetMethods => Signature::Cursor,
            Entry::ClassGetName => Signature::Text,
            Entry::ClassGetNamespace => Signature::Text,
            Entry::ClassGetParent => Signature::Handle,
            Entry::ClassIsValuetype => Signature::Flag,
            Entry::ClassGetFlags => Signature::Signed,
            Entry::ClassFromType => Signature::Handle,
            Entry::ClassIsEnum => Signature::Flag,
            Entry::DomainGet => Signature::Nullary,
            Entry::DomainGetAssemblies => Signature::Counted,
            Entry::FieldGetFlags => Signature::Signed,
            Entry::FieldGetName => Signature::Text,
            Entry::FieldGetOffset => Signature::Word,
            Entry::FieldGetType => Signature::Handle,
            Entry::MethodGetReturnType => Signature::Handle,
            Entry::MethodGetName => Signature::Text,
            Entry::MethodGetParamCount => Signature::Unsigned,
            Entry::MethodGetParam => Signature::Indexed32,
            Entry::TypeGetName => Signature::Text,
            Entry::TypeIsByref => Signature::Flag,
            Entry::TypeGetAttrs => Signature::Unsigned,
            Entry::ImageGetName => Signature::Text,
            Entry::ImageGetClassCount => Signature::Word,
            Entry::ImageGetClass => Signature::Indexed,
        }
    }
}

/// Where the function table lies in the runtime module and in which slot
/// of it each entry point stands. Both differ between builds of a game.
#[derive(PartialEq, Eq, Structural, Clone, Copy, Debug)]
pub struct TableLayout {
    /// Offset of the table from the first byte of the runtime module.
    pub offset: usize,
    pub assembly_get_image: usize,
    pub class_get_fields: usize,
    pub class_get_interfaces: usize,
    pub class_get_methods: usize,
    pub class_get_name: usize,
    pub class_get_namespace: usize,
    pub class_get_parent: usize,
    pub class_is_valuetype: usize,
    pub class_get_flags: usize,
    pub class_from_type: usize,
    pub class_is_enum: usize,
    pub domain_get: usize,
    pub domain_get_assemblies: usize,
    pub field_get_flags: usize,
    pub field_get_name: usize,
    pub field_get_offset: usize,
    pub field_get_type: usize,
    pub method_get_return_type: usize,
    pub method_get_name: usize,
    pub method_get_param_count: usize,
    pub method_get_param: usize,
    pub type_get_name: usize,
    pub type_is_byref: usize,
    pub type_get_attrs: usize,
    pub image_get_name: usize,
    pub image_get_class_count: usize,
    pub image_get_class: usize,
}

impl TableLayout {
    /// The slot of an entry point.
    pub open spec fn slot(self, entry: Entry) -> usize {
        match entry {
            Entry::AssemblyGetImage => self.assembly_get_image,
            Entry::ClassGetFields => self.class_get_fields,
            Entry::ClassGetInterfaces => self.class_get_interfaces,
            Entry::ClassGetMethods => self.class_get_methods,
            Entry::ClassGetName => self.class_get_name,
            Entry::ClassGetNamespace => self.class_get_namespace,
            Entry::ClassGetParent => self.class_get_parent,
            Entry::ClassIsValuetype => self.class_is_valuetype,
            Entry::ClassGetFlags => self.class_get_flags,
            Entry::ClassFromType => self.class_from_type,
            Entry::ClassIsEnum => self.class_is_enum,
            Entry::DomainGet => self.domain_get,
            Entry::DomainGetAssemblies => self.domain_get_assemblies,
            Entry::FieldGetFlags => self.field_get_flags,
            Entry::FieldGetName => self.field_get_name,
            Entry::FieldGetOffset => self.field_get_offset,
            Entry::FieldGetType => self.field_get_type,
            Entry::MethodGetReturnType => self.method_get_return_type,
            Entry::MethodGetName => self.method_get_name,
            Entry::MethodGetParamCount => self.method_get_param_count,
            Entry::MethodGetParam => self.method_get_param,
            Entry::TypeGetName => self.type_get_name,
            Entry::TypeIsByref => self.type_is_byref,
            Entry::TypeGetAttrs => self.type_get_attrs,
            Entry::ImageGetName => self.image_get_name,
            Entry::ImageGetClassCount => self.image_get_class_count,
            Entry::ImageGetClass => self.image_get_class,
        }
    }

    /// The layout of the build the dumper was made for.
    pub open spec fn standard_layout() -> TableLayout {
        TableLayout {
            offset: 0x1ed4ee8,
            assembly_get_image: 22,
            class_get_fields: 31,
            class_get_interfaces: 33,
            class_get_methods: 35,
            class_get_name: 37,
            class_get_namespace: 39,
            class_get_parent: 40,
            class_is_valuetype: 43,
            class_get_flags: 45,
            class_from_type: 49,
            class_is_enum: 53,
            domain_get: 63,
            domain_get_assemblies: 65,
            field_get_flags: 72,
            field_get_name: 73,
            field_get_offset: 75,
            field_get_type: 76,
            method_get_return_type: 116,
            method_get_name: 117,
            method_get_param_count: 123,
            method_get_param: 124,
            type_get_name: 161,
            type_is_byref: 162,
            type_get_attrs: 163,
            image_get_name: 168,
            image_get_class_count: 169,
            image_get_class: 170,
        }
    }

    /// The layout of the build the dumper was made for.
    pub fn standard() -> (layout: TableLayout)
        ensures
            layout == TableLayout::standard_layout(),
    {
        TableLayout {
            offset: 0x1ed4ee8,
            assembly_get_image: 22,
            class_get_fields: 31,
            class_get_interfaces: 33,
            class_get_methods: 35,
            class_get_name: 37,
            class_get_namespace: 39,
            class_get_parent: 40,
            class_is_valuetype: 43,
            class_get_flags: 45,
            class_from_type: 49,
            class_is_enum: 53,
            domain_get: 63,
            domain_get_assemblies: 65,
            field_get_flags: 72,
            field_get_name: 73,
            field_get_offset: 75,
            field_get_type: 76,
            method_get_return_type: 116,
            method_get_name: 117,
            method_get_param_count: 123,
            method_get_param: 124,
            type_get_name: 161,
            type_is_byref: 162,
            type_get_attrs: 163,
            image_get_name: 168,
            image_get_class_count: 169,
            image_get_class: 170,
        }
    }

    /// The slot of an entry point.
    pub fn slot_of(&self, entry: Entry) -> (slot: usize)
        ensures
            slot == self.slot(entry),
    {
        match entry {
            Entry::AssemblyGetImage => self.assembly_get_image,
            Entry::ClassGetFields => self.class_get_fields,
            Entry::ClassGetInterfaces => self.class_get_interfaces,
            Entry::ClassGetMethods => self.class_get_methods,
            Entry::ClassGetName => self.class_get_name,
            Entry::ClassGetNamespace => self.class_get_namespace,
            Entry::ClassGetParent => self.class_get_parent,
            Entry::ClassIsValuetype => self.class_is_valuetype,
            Entry::ClassGetFlags => self.class_get_flags,
            Entry::ClassFromType => self.class_from_type,
            Entry::ClassIsEnum => self.class_is_enum,
            Entry::DomainGet => self.domain_get,
            Entry::DomainGetAssemblies => self.domain_get_assemblies,
            Entry::FieldGetFlags => self.field_get_flags,
            Entry::FieldGetName => self.field_get_name,
            Entry::FieldGetOffset => self.field_get_offset,
            Entry::FieldGetType => self.field_get_type,
            Entry::MethodGetReturnType => self.method_get_return_type,
            Entry::MethodGetName => self.method_get_name,
            Entry::MethodGetParamCount => self.method_get_param_count,
            Entry::MethodGetParam => self.method_get_param,
            Entry::TypeGetName => self.type_get_name,
            Entry::TypeIsByref => self.type_is_byref,
            Entry::TypeGetAttrs => self.type_get_attrs,
            Entry::ImageGetName => self.image_get_name,
            Entry::ImageGetClassCount => self.image_get_class_count,
            Entry::ImageGetClass => self.image_get_class,
        }
    }

    /// The largest slot that an entry point stands in.
    pub open spec fn last_slot(self) -> usize {
        let last = self.assembly_get_image;
        let last = larger_slot(last, self.class_get_fields);
        let last = larger_slot(last, self.class_get_interfaces);
        let last = larger_slot(last, self.class_get_methods);
        let last = larger_slot(last, self.class_get_name);
        let last = larger_slot(last, self.class_get_namespace);
        let last = larger_slot(last, self.class_get_parent);
        let last = larger_slot(last, self.class_is_valuetype);
        let last = larger_slot(last, self.class_get_flags);
        let last = larger_slot(last, self.class_from_type);
        let last = larger_slot(last, self.class_is_enum);
        let last = larger_slot(last, self.domain_get);
        let last = larger_slot(last, self.domain_get_assemblies);
        let last = larger_slot(last, self.field_get_flags);
        let last = larger_slot(last, self.field_get_name);
        let last = larger_slot(last, self.field_get_offset);
        let last = larger_slot(last, self.field_get_type);
        let last = larger_slot(last, self.method_get_return_type);
        let last = larger_slot(last, self.method_get_name);
        let last = larger_slot(last, self.method_get_param_count);
        let last = larger_slot(last, self.method_get_param);
        let last = larger_slot(last, self.type_get_name);
        let last = larger_slot(last, self.type_is_byref);
        let last = larger_slot(last, self.type_get_attrs);
        let last = larger_slot(last, self.image_get_name);
        let last = larger_slot(last, self.image_get_class_count);
        let last = larger_slot(last, self.image_get_class);
        last
    }

    /// The number of slots from the start of the table up to the last one
    /// that an entry point stands in: one more than the largest slot, or
    /// that slot itself where there is no larger number.
    pub open spec fn slots(self) -> usize {
        bump_slot(self.last_slot())
    }

    /// No entry point stands behind the last slot.
    pub proof fn lemma_last_slot(self, entry: Entry)
        ensures
            self.slot(entry) <= self.last_slot(),
    {
        let last = self.assembly_get_image;
        lemma_larger_slot(last, self.class_get_fields);
        let last = larger_slot(last, self.class_get_fields);
        lemma_larger_slot(last, self.class_get_interfaces);
        let last = larger_slot(last, self.class_get_interfaces);
        lemma_larger_slot(last, self.class_get_methods);
        let last = larger_slot(last, self.class_get_methods);
        lemma_larger_slot(last, self.class_get_name);
        let last = larger_slot(last, self.class_get_name);
        lemma_larger_slot(last, self.class_get_namespace);
        let last = larger_slot(last, self.class_get_namespace);
        lemma_larger_slot(last, self.class_get_parent);
        let last = larger_slot(last, self.class_get_parent);
        lemma_larger_slot(last, self.class_is_valuetype);
        let last = larger_slot(last, self.class_is_valuetype);
        lemma_larger_slot(last, self.class_get_flags);
        let last = larger_slot(last, self.class_get_flags);
        lemma_larger_slot(last, self.class_from_type);
        let last = larger_slot(last, self.class_from_type);
        lemma_larger_slot(last, self.class_is_enum);
        let last = larger_slot(last, self.class_is_enum);
        lemma_larger_slot(last, self.domain_get);
        let last = larger_slot(last, self.domain_get);
        lemma_larger_slot(last, self.domain_get_assemblies);
        let last = larger_slot(last, self.domain_get_assemblies);
        lemma_larger_slot(last, self.field_get_flags);
        let last = larger_slot(last, self.field_get_flags);
        lemma_larger_slot(last, self.field_get_name);
        let last = larger_slot(last, self.field_get_name);
        lemma_larger_slot(last, self.field_get_offset);
        let last = larger_slot(last, self.field_get_offset);
        lemma_larger_slot(last, self.field_get_type);
        let last = larger_slot(last, self.field_get_type);
        lemma_larger_slot(last, self.method_get_return_type);
        let last = larger_slot(last, self.method_get_return_type);
        lemma_larger_slot(last, self.method_get_name);
        let last = larger_slot(last, self.method_get_name);
        lemma_larger_slot(last, self.method_get_param_count);
        let last = larger_slot(last, self.method_get_param_count);
        lemma_larger_slot(last, self.method_get_param);
        let last = larger_slot(last, self.method_get_param);
        lemma_larger_slot(last, self.type_get_name);
        let last = larger_slot(last, self.type_get_name);
        lemma_larger_slot(last, self.type_is_byref);
        let last = larger_slot(last, self.type_is_byref);
        lemma_larger_slot(last, self.type_get_attrs);
        let last = larger_slot(last, self.type_get_attrs);
        lemma_larger_slot(last, self.image_get_name);
        let last = larger_slot(last, self.image_get_name);
        lemma_larger_slot(last, self.image_get_class_count);
        let last = larger_slot(last, self.image_get_class_count);
        lemma_larger_slot(last, self.image_get_class);
        let last = larger_slot(last, self.image_get_class);
    }

    /// The number of slots that a copy of the table must hold.
    pub fn span(&self) -> (count: usize)
        ensures
            count == self.slots(),
    {
        let mut last: usize = self.assembly_get_image;
        last = larger(last, self.class_get_fields);
        last = larger(last, self.class_get_interfaces);
        last = larger(last, self.class_get_methods);
        last = larger(last, self.class_get_name);
        last = larger(last, self.class_get_namespace);
        last = larger(last, self.class_get_parent);
        last = larger(last, self.class_is_valuetype);
        last = larger(last, self.class_get_flags);
        last = larger(last, self.class_from_type);
        last = larger(last, self.class_is_enum);
        last = larger(last, self.domain_get);
        last = larger(last, self.domain_get_assemblies);
        last = larger(last, self.field_get_flags);
        last = larger(last, self.field_get_name);
        last = larger(last, self.field_get_offset);
        last = larger(last, self.field_get_type);
        last = larger(last, self.method_get_return_type);
        last = larger(last, self.method_get_name);
        last = larger(last, self.method_get_param_count);
        last = larger(last, self.method_get_param);
        last = larger(last, self.type_get_name);
        last = larger(last, self.type_is_byref);
        last = larger(last, self.type_get_attrs);
        last = larger(last, self.image_get_name);
        last = larger(last, self.image_get_class_count);
        last = larger(last, self.image_get_class);
        if last < usize::MAX {
            last + 1
        } else {
            last
        }
    }
}

/// The larger of two slots.
#[verifier::opaque]
pub open spec fn larger_slot(a: usize, b: usize) -> usize {
    if b > a {
        b
    } else {
        a
    }
}

/// The larger of two slots is not below either.
pub proof fn lemma_larger_slot(a: usize, b: usize)
    ensures
        larger_slot(a, b) >= a,
        larger_slot(a, b) >= b,
        larger_slot(a, b) == a || larger_slot(a, b) == b,
{
    reveal(larger_slot);
}

fn larger(a: usize, b: usize) -> (result: usize)
    ensures
        result == larger_slot(a, b),
{
    reveal(larger_slot);
    if b > a {
        b
    } else {
        a
    }
}

/// One more than a slot, or the slot itself where there is no larger
/// number.
pub open spec fn bump_slot(slot: usize) -> usize {
    if slot < usize::MAX {
        (slot + 1) as usize
    } else {
        slot
    }
}

/// What a slot of the table binds to: nothing where the table does not
/// reach the slot or the slot holds a null pointer, otherwise the code
/// pointer found there.
pub open spec fn bound(table: Seq<usize>, slot: usize, signature: Signature) -> Option<
    FunctionPtr,
> {
    if slot < table.len() && table[slot as int] != 0 {
        Some(FunctionPtr { ptr: table[slot as int], signature })
    } else {
        None
    }
}

fn index(table: &Vec<usize>, slot: usize, signature: Signature) -> (function: Option<FunctionPtr>)
    ensures
        function == bound(table@, slot, signature),
{
    if slot < table.len() && table[slot] != 0 {
        Some(FunctionPtr::new(table[slot], signature))
    } else {
        None
    }
}

/// The bound function table: for each entry point the code pointer found
/// in its slot, or nothing where the slot was empty.
#[derive(PartialEq, Eq, Structural, Clone, Copy, Debug)]
pub struct Il2CppFunctions {
    pub il2cpp_assembly_get_image: Option<FunctionPtr>,
    pub il2cpp_class_get_fields: Option<FunctionPtr>,
    pub il2cpp_class_get_interfaces: Option<FunctionPtr>,
    pub il2cpp_class_get_methods: Option<FunctionPtr>,
    pub il2cpp_class_get_name: Option<FunctionPtr>,
    pub il2cpp_class_get_namespace: Option<FunctionPtr>,
    pub il2cpp_class_get_parent: Option<FunctionPtr>,
    pub il2cpp_class_is_valuetype: Option<FunctionPtr>,
    pub il2cpp_class_get_flags: Option<FunctionPtr>,
    pub il2cpp_class_from_type: Option<FunctionPtr>,
    pub il2cpp_class_is_enum: Option<FunctionPtr>,
    pub il2cpp_domain_get: Option<FunctionPtr>,
    pub il2cpp_domain_get_assemblies: Option<FunctionPtr>,
    pub il2cpp_field_get_flags: Option<FunctionPtr>,
    pub il2cpp_field_get_name: Option<FunctionPtr>,
    pub il2cpp_field_get_offset: Option<FunctionPtr>,
    pub il2cpp_field_get_type: Option<FunctionPtr>,
    pub il2cpp_method_get_return_type: Option<FunctionPtr>,
    pub il2cpp_method_get_name: Option<FunctionPtr>,
    pub il2cpp_method_get_param_count: Option<FunctionPtr>,
    pub il2cpp_method_get_param: Option<FunctionPtr>,
    pub il2cpp_type_get_name: Option<FunctionPtr>,
    pub il2cpp_type_is_byref: Option<FunctionPtr>,
    pub il2cpp_type_get_attrs: Option<FunctionPtr>,
    pub il2cpp_image_get_name: Option<FunctionPtr>,
    pub il2cpp_image_get_class_count: Option<FunctionPtr>,
    pub il2cpp_image_get_class: Option<FunctionPtr>,
}

impl Il2CppFunctions {
    /// What the table holds for an entry point.
    pub open spec fn entry(self, entry: Entry) -> Option<FunctionPtr> {
        match entry {
            Entry::AssemblyGetImage => self.il2cpp_assembly_get_image,
            Entry::ClassGetFields => self.il2cpp_class_get_fields,
            Entry::ClassGetInterfaces => self.il2cpp_class_get_interfaces,
            Entry::ClassGetMethods => self.il2cpp_class_get_methods,
            Entry::ClassGetName => self.il2cpp_class_get_name,
            Entry::ClassGetNamespace => self.il2cpp_class_get_namespace,
            Entry::ClassGetParent => self.il2cpp_class_get_parent,
            Entry::ClassIsValuetype => self.il2cpp_class_is_valuetype,
            Entry::ClassGetFlags => self.il2cpp_class_get_flags,
            Entry::ClassFromType => self.il2cpp_class_from_type,
            Entry::ClassIsEnum => self.il2cpp_class_is_enum,
            Entry::DomainGet => self.il2cpp_domain_get,
            Entry::DomainGetAssemblies => self.il2cpp_domain_get_assemblies,
            Entry::FieldGetFlags => self.il2cpp_field_get_flags,
            Entry::FieldGetName => self.il2cpp_field_get_name,
            Entry::FieldGetOffset => self.il2cpp_field_get_offset,
            Entry::FieldGetType => self.il2cpp_field_get_type,
            Entry::MethodGetReturnType => self.il2cpp_method_get_return_type,
            Entry::MethodGetName => self.il2cpp_method_get_name,
            Entry::MethodGetParamCount => self.il2cpp_method_get_param_count,
            Entry::MethodGetParam => self.il2cpp_method_get_param,
            Entry::TypeGetName => self.il2cpp_type_get_name,
            Entry::TypeIsByref => self.il2cpp_type_is_byref,
            Entry::TypeGetAttrs => self.il2cpp_type_get_attrs,
            Entry::ImageGetName => self.il2cpp_image_get_name,
            Entry::ImageGetClassCount => self.il2cpp_image_get_class_count,
            Entry::ImageGetClass => self.il2cpp_image_get_class,
        }
    }

    /// Every bound entry holds a code pointer that is not null, with the
    /// signature of its entry point.
    pub open spec fn wf(self) -> bool {
        forall|entry: Entry| #[trigger]
            self.entry(entry) matches Some(function) ==> function.ptr != 0 && function.signature
                == entry.signature()
    }

    /// The entry points as bound from a copy of the table.
    pub open spec fn bind(table: Seq<usize>, layout: TableLayout) -> Il2CppFunctions {
        Il2CppFunctions {
            il2cpp_assembly_get_image: bound(table, layout.assembly_get_image, Signature::Handle),
            il2cpp_class_get_fields: bound(table, layout.class_get_fields, Signature::Cursor),
            il2cpp_class_get_interfaces: bound(table, layout.class_get_interfaces, Signature::Cursor),
            il2cpp_class_get_methods: bound(table, layout.class_get_methods, Signature::Cursor),
            il2cpp_class_get_name: bound(table, layout.class_get_name, Signature::Text),
            il2cpp_class_get_namespace: bound(table, layout.class_get_namespace, Signature::Text),
            il2cpp_class_get_parent: bound(table, layout.class_get_parent, Signature::Handle),
            il2cpp_class_is_valuetype: bound(table, layout.class_is_valuetype, Signature::Flag),
            il2cpp_class_get_flags: bound(table, layout.class_get_flags, Signature::Signed),
            il2cpp_class_from_type: bound(table, layout.class_from_type, Signature::Handle),
            il2cpp_class_is_enum: bound(table, layout.class_is_enum, Signature::Flag),
            il2cpp_domain_get: bound(table, layout.domain_get, Signature::Nullary),
            il2cpp_domain_get_assemblies: bound(table, layout.domain_get_assemblies, Signature::Counted),
            il2cpp_field_get_flags: bound(table, layout.field_get_flags, Signature::Signed),
            il2cpp_field_get_name: bound(table, layout.field_get_name, Signature::Text),
            il2cpp_field_get_offset: bound(table, layout.field_get_offset, Signature::Word),
            il2cpp_field_get_type: bound(table, layout.field_get_type, Signature::Handle),
            il2cpp_method_get_return_type: bound(table, layout.method_get_return_type, Signature::Handle),
            il2cpp_method_get_name: bound(table, layout.method_get_name, Signature::Text),
            il2cpp_method_get_param_count: bound(table, layout.method_get_param_count, Signature::Unsigned),
            il2cpp_method_get_param: bound(table, layout.method_get_param, Signature::Indexed32),
            il2cpp_type_get_name: bound(table, layout.type_get_name, Signature::Text),
            il2cpp_type_is_byref: bound(table, layout.type_is_byref, Signature::Flag),
            il2cpp_type_get_attrs: bound(table, layout.type_get_attrs, Signature::Unsigned),
            il2cpp_image_get_name: bound(table, layout.image_get_name, Signature::Text),
            il2cpp_image_get_class_count: bound(table, layout.image_get_class_count, Signature::Word),
            il2cpp_image_get_class: bound(table, layout.image_get_class, Signature::Indexed),
        }
    }

    /// Binds the entry points from a copy of the function table, which
    /// holds the table's slots from the first one on.
    pub fn new(table: &Vec<usize>, layout: &TableLayout) -> (functions: Il2CppFunctions)
        ensures
            functions == Il2CppFunctions::bind(table@, *layout),
            forall|entry: Entry| #[trigger]
                functions.entry(entry) == bound(table@, layout.slot(entry), entry.signature()),
            functions.wf(),
    {
        let functions = Il2CppFunctions {
            il2cpp_assembly_get_image: index(table, layout.assembly_get_image, Signature::Handle),
            il2cpp_class_get_fields: index(table, layout.class_get_fields, Signature::Cursor),
            il2cpp_class_get_interfaces: index(table, layout.class_get_interfaces, Signature::Cursor),
            il2cpp_class_get_methods: index(table, layout.class_get_methods, Signature::Cursor),
            il2cpp_class_get_name: index(table, layout.class_get_name, Signature::Text),
            il2cpp_class_get_namespace: index(table, layout.class_get_namespace, Signature::Text),
            il2cpp_class_get_parent: index(table, layout.class_get_parent, Signature::Handle),
            il2cpp_class_is_valuetype: index(table, layout.class_is_valuetype, Signature::Flag),
            il2cpp_class_get_flags: index(table, layout.class_get_flags, Signature::Signed),
            il2cpp_class_from_type: index(table, layout.class_from_type, Signature::Handle),
            il2cpp_class_is_enum: index(table, layout.class_is_enum, Signature::Flag),
            il2cpp_domain_get: index(table, layout.domain_get, Signature::Nullary),
            il2cpp_domain_get_assemblies: index(table, layout.domain_get_assemblies, Signature::Counted),
            il2cpp_field_get_flags: index(table, layout.field_get_flags, Signature::Signed),
            il2cpp_field_get_name: index(table, layout.field_get_name, Signature::Text),
            il2cpp_field_get_offset: index(table, layout.field_get_offset, Signature::Word),
            il2cpp_field_get_type: index(table, layout.field_get_type, Signature::Handle),
            il2cpp_method_get_return_type: index(table, layout.method_get_return_type, Signature::Handle),
            il2cpp_method_get_name: index(table, layout.method_get_name, Signature::Text),
            il2cpp_method_get_param_count: index(table, layout.method_get_param_count, Signature::Unsigned),
            il2cpp_method_get_param: index(table, layout.method_get_param, Signature::Indexed32),
            il2cpp_type_get_name: index(table, layout.type_get_name, Signature::Text),
            il2cpp_type_is_byref: index(table, layout.type_is_byref, Signature::Flag),
            il2cpp_type_get_attrs: index(table, layout.type_get_attrs, Signature::Unsigned),
            il2cpp_image_get_name: index(table, layout.image_get_name, Signature::Text),
            il2cpp_image_get_class_count: index(table, layout.image_get_class_count, Signature::Word),
            il2cpp_image_get_class: index(table, layout.image_get_class, Signature::Indexed),
        };
        assert forall|entry: Entry| #[trigger]
            functions.entry(entry) == bound(table@, layout.slot(entry), entry.signature()) by {
            match entry {
                Entry::AssemblyGetImage => {},
                Entry::ClassGetFields => {},
                Entry::ClassGetInterfaces => {},
                Entry::ClassGetMethods => {},
                Entry::ClassGetName => {},
                Entry::ClassGetNamespace => {},
                Entry::ClassGetParent => {},
                Entry::ClassIsValuetype => {},
                Entry::ClassGetFlags => {},
                Entry::ClassFromType => {},
                Entry::ClassIsEnum => {},
                Entry::DomainGet => {},
                Entry::DomainGetAssemblies => {},
                Entry::FieldGetFlags => {},
                Entry::FieldGetName => {},
                Entry::FieldGetOffset => {},
                Entry::FieldGetType => {},
                Entry::MethodGetReturnType => {},
                Entry::MethodGetName => {},
                Entry::MethodGetParamCount => {},
                Entry::MethodGetParam => {},
                Entry::TypeGetName => {},
                Entry::TypeIsByref => {},
                Entry::TypeGetAttrs => {},
                Entry::ImageGetName => {},
                Entry::ImageGetClassCount => {},
                Entry::ImageGetClass => {},
            }
        }
        functions
    }

    /// What the table holds for an entry point.
    pub fn get(&self, entry: Entry) -> (function: Option<FunctionPtr>)
        ensures
            function == self.entry(entry),
    {
        match entry {
            Entry::AssemblyGetImage => self.il2cpp_assembly_get_image,
            Entry::ClassGetFields => self.il2cpp_class_get_fields,
            Entry::ClassGetInterfaces => self.il2cpp_class_get_interfaces,
            Entry::ClassGetMethods => self.il2cpp_class_get_methods,
            Entry::ClassGetName => self.il2cpp_class_get_name,
            Entry::ClassGetNamespace => self.il2cpp_class_get_namespace,
            Entry::ClassGetParent => self.il2cpp_class_get_parent,
            Entry::ClassIsValuetype => self.il2cpp_class_is_valuetype,
            Entry::ClassGetFlags => self.il2cpp_class_get_flags,
            Entry::ClassFromType => self.il2cpp_class_from_type,
            Entry::ClassIsEnum => self.il2cpp_class_is_enum,
            Entry::DomainGet => self.il2cpp_domain_get,
            Entry::DomainGetAssemblies => self.il2cpp_domain_get_assemblies,
            Entry::FieldGetFlags => self.il2cpp_field_get_flags,
            Entry::FieldGetName => self.il2cpp_field_get_name,
            Entry::FieldGetOffset => self.il2cpp_field_get_offset,
            Entry::FieldGetType => self.il2cpp_field_get_type,
            Entry::MethodGetReturnType => self.il2cpp_method_get_return_type,
            Entry::MethodGetName => self.il2cpp_method_get_name,
            Entry::MethodGetParamCount => self.il2cpp_method_get_param_count,
            Entry::MethodGetParam => self.il2cpp_method_get_param,
            Entry::TypeGetName => self.il2cpp_type_get_name,
            Entry::TypeIsByref => self.il2cpp_type_is_byref,
            Entry::TypeGetAttrs => self.il2cpp_type_get_attrs,
            Entry::ImageGetName => self.il2cpp_image_get_name,
            Entry::ImageGetClassCount => self.il2cpp_image_get_class_count,
            Entry::ImageGetClass => self.il2cpp_image_get_class,
        }
    }
}

} // verus!
