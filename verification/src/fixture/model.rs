//! The metadata graph of a runtime as plain values: what each handle
//! stands for and what the runtime tells of it.

use crate::il2cpp::api::rewritten;
use crate::metadata::{ClassView, FieldView, ImageView, MethodView, ParamView};
use vstd::prelude::*;
use vstd::utf8::{decode_utf8, valid_utf8};

verus! {

/// A type: its handle, the name the runtime reports for it, whether it is
/// passed by reference and its attribute bits.
pub struct TypeModel {
    pub handle: usize,
    pub name: Seq<u8>,
    pub byref: bool,
    pub attrs: u32,
}

impl TypeModel {
    /// The handle is not null and the name is UTF-8.
    pub open spec fn wf(self) -> bool {
        self.handle != 0 && valid_utf8(self.name)
    }

    /// The name as the pseudo-source shows it.
    pub open spec fn text(self) -> Seq<char> {
        rewritten(decode_utf8(self.name))
    }

    /// The type as a parameter of a method.
    pub open spec fn param(self) -> ParamView {
        ParamView { type_text: self.text(), attrs: self.attrs, is_byref: self.byref }
    }
}

/// The parameters that a list of types stands for.
pub open spec fn params_of(types: Seq<TypeModel>) -> Seq<ParamView> {
    types.map_values(|t: TypeModel| t.param())
}

/// Every type of the list is sound.
pub open spec fn sound_types(types: Seq<TypeModel>) -> bool {
    forall|i: int| 0 <= i < types.len() ==> (#[trigger] types[i]).wf()
}

/// A field. `cursor` is the value of the cursor after the call that
/// returned the field.
pub struct FieldModel {
    pub handle: usize,
    pub cursor: usize,
    pub flags: i32,
    pub offset: usize,
    pub name: Seq<u8>,
    pub field_type: TypeModel,
}

impl FieldModel {
    pub open spec fn wf(self) -> bool {
        self.handle != 0 && valid_utf8(self.name) && self.field_type.wf()
    }

    pub open spec fn view(self) -> FieldView {
        FieldView {
            flags: self.flags,
            type_text: self.field_type.text(),
            name: decode_utf8(self.name),
            offset: self.offset,
        }
    }
}

pub open spec fn fields_of(fields: Seq<FieldModel>) -> Seq<FieldView> {
    fields.map_values(|f: FieldModel| f.view())
}

pub open spec fn sound_fields(fields: Seq<FieldModel>) -> bool {
    forall|i: int| 0 <= i < fields.len() ==> (#[trigger] fields[i]).wf()
}

/// A method. `pointer` and `flags` are the two fields of its record;
/// `cursor` is the value of the cursor after the call that returned it.
pub struct MethodModel {
    pub handle: usize,
    pub cursor: usize,
    pub pointer: usize,
    pub flags: u16,
    pub name: Seq<u8>,
    pub return_type: TypeModel,
    pub params: Seq<TypeModel>,
}

impl MethodModel {
    pub open spec fn wf(self) -> bool {
        &&& self.handle != 0
        &&& valid_utf8(self.name)
        &&& self.return_type.wf()
        &&& self.params.len() <= u32::MAX
        &&& sound_types(self.params)
    }

    pub open spec fn view(self) -> MethodView {
        MethodView {
            pointer: self.pointer,
            flags: self.flags,
            return_type: self.return_type.text(),
            return_byref: self.return_type.byref,
            name: decode_utf8(self.name),
            params: params_of(self.params),
        }
    }
}

pub open spec fn methods_of(methods: Seq<MethodModel>) -> Seq<MethodView> {
    methods.map_values(|m: MethodModel| m.view())
}

pub open spec fn sound_methods(methods: Seq<MethodModel>) -> bool {
    forall|i: int| 0 <= i < methods.len() ==> (#[trigger] methods[i]).wf()
}

/// The base class of a class.
pub struct ParentModel {
    pub handle: usize,
    pub name: Seq<u8>,
}

/// A class. `fields_end` and `methods_end` are the values of the cursor
/// after the calls that ended the two sequences.
pub struct ClassModel {
    pub handle: usize,
    pub namespace: Seq<u8>,
    pub name: Seq<u8>,
    pub flags: i32,
    pub is_valuetype: bool,
    pub is_enum: bool,
    pub parent: Option<ParentModel>,
    pub fields: Seq<FieldModel>,
    pub fields_end: usize,
    pub methods: Seq<MethodModel>,
    pub methods_end: usize,
}

impl ClassModel {
    pub open spec fn wf(self) -> bool {
        &&& self.handle != 0
        &&& valid_utf8(self.namespace)
        &&& valid_utf8(self.name)
        &&& (self.parent matches Some(parent) ==> parent.handle != 0 && valid_utf8(parent.name))
        &&& sound_fields(self.fields)
        &&& sound_methods(self.methods)
    }

    pub open spec fn view(self) -> ClassView {
        ClassView {
            namespace: decode_utf8(self.namespace),
            flags: self.flags,
            is_valuetype: self.is_valuetype,
            is_enum: self.is_enum,
            name: decode_utf8(self.name),
            parent: match self.parent {
                Some(parent) => Some(decode_utf8(parent.name)),
                None => None,
            },
            fields: fields_of(self.fields),
            methods: methods_of(self.methods),
        }
    }
}

/// Every class in the slots is sound.
pub open spec fn sound_classes(slots: Seq<Option<ClassModel>>) -> bool {
    forall|i: int| 0 <= i < slots.len() ==> ((#[trigger] slots[i]) matches Some(c) ==> c.wf())
}

/// The classes in the slots of an image, in the order of the slots.
pub open spec fn classes_of(slots: Seq<Option<ClassModel>>) -> Seq<ClassView>
    decreases slots.len(),
{
    if slots.len() == 0 {
        Seq::empty()
    } else {
        match slots.last() {
            None => classes_of(slots.drop_last()),
            Some(class) => classes_of(slots.drop_last()).push(class.view()),
        }
    }
}

/// An image with the assembly it belongs to and the slots of its classes.
pub struct ImageModel {
    pub assembly: usize,
    pub handle: usize,
    pub name: Seq<u8>,
    pub classes: Seq<Option<ClassModel>>,
}

impl ImageModel {
    pub open spec fn wf(self) -> bool {
        &&& self.assembly != 0
        &&& self.handle != 0
        &&& valid_utf8(self.name)
        &&& self.classes.len() <= usize::MAX
        &&& sound_classes(self.classes)
    }
}

/// Every image in the slots is sound.
pub open spec fn sound_images(slots: Seq<Option<ImageModel>>) -> bool {
    forall|i: int| 0 <= i < slots.len() ==> ((#[trigger] slots[i]) matches Some(image) ==> image.wf())
}

/// The images in the slots of the assembly list, each with the index of
/// its slot.
pub open spec fn images_of(slots: Seq<Option<ImageModel>>) -> Seq<ImageView>
    decreases slots.len(),
{
    if slots.len() == 0 {
        Seq::empty()
    } else {
        match slots.last() {
            None => images_of(slots.drop_last()),
            Some(image) => images_of(slots.drop_last()).push(
                ImageView { index: (slots.len() - 1) as usize, name: decode_utf8(image.name) },
            ),
        }
    }
}

/// The classes of all images in the slots of the assembly list, image
/// after image.
pub open spec fn all_classes_of(slots: Seq<Option<ImageModel>>) -> Seq<ClassView>
    decreases slots.len(),
{
    if slots.len() == 0 {
        Seq::empty()
    } else {
        match slots.last() {
            None => all_classes_of(slots.drop_last()),
            Some(image) => all_classes_of(slots.drop_last()) + classes_of(image.classes),
        }
    }
}

/// A runtime: its domain, the address of the assembly list and the slots
/// of the list.
pub struct RuntimeModel {
    pub domain: usize,
    pub list: usize,
    pub assemblies: Seq<Option<ImageModel>>,
}

impl RuntimeModel {
    /// No handle that is owed is null, every text is UTF-8 and every
    /// count fits the number that reports it.
    pub open spec fn wf(self) -> bool {
        &&& self.domain != 0
        &&& self.list != 0
        &&& self.assemblies.len() <= usize::MAX
        &&& sound_images(self.assemblies)
    }
}

} // verus!
