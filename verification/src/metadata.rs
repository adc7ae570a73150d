//! Plain records of what the walker reads from the runtime: one value per
//! image, class, field, method and parameter.

use vstd::prelude::*;

verus! {

/// One parameter of a method: its rewritten type name, its attribute bits
/// and whether the type is passed by reference.
pub struct ParamRecord {
    pub type_text: String,
    pub attrs: u32,
    pub is_byref: bool,
}

pub struct ParamView {
    pub type_text: Seq<char>,
    pub attrs: u32,
    pub is_byref: bool,
}

impl View for ParamRecord {
    type V = ParamView;

    open spec fn view(&self) -> ParamView {
        ParamView { type_text: self.type_text@, attrs: self.attrs, is_byref: self.is_byref }
    }
}

/// One method: the two fields read from its record in memory and what the
/// runtime reports of its signature.
pub struct MethodRecord {
    pub pointer: usize,
    pub flags: u16,
    pub return_type: String,
    pub return_byref: bool,
    pub name: String,
    pub params: Vec<ParamRecord>,
}

pub struct MethodView {
    pub pointer: usize,
    pub flags: u16,
    pub return_type: Seq<char>,
    pub return_byref: bool,
    pub name: Seq<char>,
    pub params: Seq<ParamView>,
}

impl View for MethodRecord {
    type V = MethodView;

    open spec fn view(&self) -> MethodView {
        MethodView {
            pointer: self.pointer,
            flags: self.flags,
            return_type: self.return_type@,
            return_byref: self.return_byref,
            name: self.name@,
            params: param_views(self.params@),
        }
    }
}

/// One field: its attribute bits, rewritten type name, name and offset
/// inside the instance.
pub struct FieldRecord {
    pub flags: i32,
    pub type_text: String,
    pub name: String,
    pub offset: usize,
}

pub struct FieldView {
    pub flags: i32,
    pub type_text: Seq<char>,
    pub name: Seq<char>,
    pub offset: usize,
}

impl View for FieldRecord {
    type V = FieldView;

    open spec fn view(&self) -> FieldView {
        FieldView {
            flags: self.flags,
            type_text: self.type_text@,
            name: self.name@,
            offset: self.offset,
        }
    }
}

/// One class with everything the pseudo-source needs of it. `parent` is
/// the name of the base class, absent where the runtime names none.
pub struct ClassRecord {
    pub namespace: String,
    pub flags: i32,
    pub is_valuetype: bool,
    pub is_enum: bool,
    pub name: String,
    pub parent: Option<String>,
    pub fields: Vec<FieldRecord>,
    pub methods: Vec<MethodRecord>,
}

pub struct ClassView {
    pub namespace: Seq<char>,
    pub flags: i32,
    pub is_valuetype: bool,
    pub is_enum: bool,
    pub name: Seq<char>,
    pub parent: Option<Seq<char>>,
    pub fields: Seq<FieldView>,
    pub methods: Seq<MethodView>,
}

impl View for ClassRecord {
    type V = ClassView;

    open spec fn view(&self) -> ClassView {
        ClassView {
            namespace: self.namespace@,
            flags: self.flags,
            is_valuetype: self.is_valuetype,
            is_enum: self.is_enum,
            name: self.name@,
            parent: match self.parent {
                Some(p) => Some(p@),
                None => None,
            },
            fields: field_views(self.fields@),
            methods: method_views(self.methods@),
        }
    }
}

/// One image: the index of its assembly in the domain's list and its name.
pub struct ImageRecord {
    pub index: usize,
    pub name: String,
}

pub struct ImageView {
    pub index: usize,
    pub name: Seq<char>,
}

impl View for ImageRecord {
    type V = ImageView;

    open spec fn view(&self) -> ImageView {
        ImageView { index: self.index, name: self.name@ }
    }
}

pub open spec fn param_views(s: Seq<ParamRecord>) -> Seq<ParamView> {
    s.map_values(|p: ParamRecord| p@)
}

pub open spec fn method_views(s: Seq<MethodRecord>) -> Seq<MethodView> {
    s.map_values(|m: MethodRecord| m@)
}

pub open spec fn field_views(s: Seq<FieldRecord>) -> Seq<FieldView> {
    s.map_values(|f: FieldRecord| f@)
}

pub open spec fn class_views(s: Seq<ClassRecord>) -> Seq<ClassView> {
    s.map_values(|c: ClassRecord| c@)
}

pub open spec fn image_views(s: Seq<ImageRecord>) -> Seq<ImageView> {
    s.map_values(|i: ImageRecord| i@)
}

} // verus!
