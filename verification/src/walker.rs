//! The metadata walk: domain, assemblies, images, classes and, inside each
//! class, fields and methods. The walk is a state machine. Each step takes
//! the runtime's answer to the last question, checks it, and either asks
//! the next question, ends the walk or gives it up.

use crate::il2cpp::api::{
    bytes_view, checked_handle, checked_item, checked_text, rewritten_result, Assemblies, Il2CppApi,
    Il2CppError,
};
use crate::il2cpp::functions::Entry;
use crate::il2cpp::types::{
    FieldInfo, Il2CppClass, Il2CppImage, Il2CppType, MethodInfo, MethodLayout,
};
use crate::metadata::{
    field_views, method_views, param_views, ClassRecord, ClassView, FieldRecord, FieldView,
    ImageRecord, ImageView, MethodRecord, MethodView, ParamRecord, ParamView,
};
use crate::outputs::csdumper::{class_text, image_text, write_class, write_image};
use crate::outputs::methoddumper::{
    describe, qualified_name, recorded, verify_pointer, MethodOffsets, OffsetEntry,
};
use crate::protocol::{DumpError, Query, Response, ResponseView, Step};
use vstd::prelude::*;
use vstd::string::*;

verus! {

/// What a walk gathers.
#[derive(PartialEq, Eq, Structural, Clone, Copy, Debug)]
pub enum Mode {
    /// The offsets of the methods that lie inside the game module.
    Offsets,
    /// The header of the pseudo-source: one line for each image.
    Images,
    /// The class blocks of the pseudo-source.
    Classes,
}

/// Where a walk stands: the question whose answer it waits for.
#[derive(PartialEq, Eq, Structural, Clone, Copy, Debug)]
pub enum Phase {
    Start,
    Domain,
    Assemblies,
    Assembly,
    Image,
    ImageName,
    ClassCount,
    Class,
    ClassNamespace,
    ClassFlags,
    ClassValuetype,
    ClassEnum,
    ClassName,
    ClassParent,
    ParentName,
    Field,
    FieldFlags,
    FieldType,
    FieldOffset,
    FieldTypeName,
    FieldName,
    Method,
    MethodPointer,
    MethodFlags,
    ReturnType,
    ReturnByref,
    ReturnTypeName,
    MethodName,
    ParamCount,
    Param,
    ParamAttrs,
    ParamByref,
    ParamTypeName,
    Done,
    Failed,
}

impl Phase {
    /// How deep in the graph the phase lies: one inside an assembly, two
    /// inside a class, three inside the parameters of a method.
    pub open spec fn depth(self) -> nat {
        match self {
            Phase::Start | Phase::Domain | Phase::Assemblies | Phase::Done | Phase::Failed => 0,
            Phase::Assembly | Phase::Image | Phase::ImageName | Phase::ClassCount => 1,
            Phase::Param | Phase::ParamAttrs | Phase::ParamByref | Phase::ParamTypeName => 3,
            _ => 2,
        }
    }
}

/// The handles and numbers of a walk: where it stands in each list and
/// what it has read of the member it is at.
#[derive(PartialEq, Eq, Structural, Clone, Copy, Debug)]
pub struct Position {
    pub mode: Mode,
    pub phase: Phase,
    pub assemblies: Assemblies,
    pub assembly_index: usize,
    pub image: Il2CppImage,
    pub class_count: usize,
    pub class_index: usize,
    pub class: Il2CppClass,
    pub cursor: usize,
    pub field: FieldInfo,
    pub method: MethodInfo,
    pub item_type: Il2CppType,
    pub param_count: u32,
    pub param_index: u32,
    pub field_flags: i32,
    pub field_offset: usize,
    pub method_pointer: usize,
    pub method_flags: u16,
    pub return_byref: bool,
    pub param_attrs: u32,
    pub param_byref: bool,
}

/// A walk in progress.
pub struct Walker {
    pub api: Il2CppApi,
    pub layout: MethodLayout,
    pub at: Position,
    pub record: ClassRecord,
    pub field_type: String,
    pub return_type: String,
    pub method_name: String,
    pub params: Vec<ParamRecord>,
    pub offsets: MethodOffsets,
    pub text: String,
}

/// A walk as the contracts see it.
pub struct WalkerView {
    pub api: Il2CppApi,
    pub layout: MethodLayout,
    pub at: Position,
    pub record: ClassView,
    pub field_type: Seq<char>,
    pub return_type: Seq<char>,
    pub method_name: Seq<char>,
    pub params: Seq<ParamView>,
    pub offsets: Seq<OffsetEntry>,
    pub text: Seq<char>,
}

impl View for Walker {
    type V = WalkerView;

    open spec fn view(&self) -> WalkerView {
        WalkerView {
            api: self.api,
            layout: self.layout,
            at: self.at,
            record: self.record@,
            field_type: self.field_type@,
            return_type: self.return_type@,
            method_name: self.method_name@,
            params: param_views(self.params@),
            offsets: self.offsets@,
            text: self.text@,
        }
    }
}

/// A class of which nothing is known yet.
pub open spec fn blank_class() -> ClassView {
    ClassView {
        namespace: Seq::empty(),
        flags: 0,
        is_valuetype: false,
        is_enum: false,
        name: Seq::empty(),
        parent: None,
        fields: Seq::empty(),
        methods: Seq::empty(),
    }
}

/// The position before the first question.
pub open spec fn initial_position(mode: Mode) -> Position {
    Position {
        mode,
        phase: Phase::Start,
        assemblies: Assemblies { list: 0, count: 0 },
        assembly_index: 0,
        image: Il2CppImage { address: 0 },
        class_count: 0,
        class_index: 0,
        class: Il2CppClass { address: 0 },
        cursor: 0,
        field: FieldInfo { address: 0 },
        method: MethodInfo { address: 0 },
        item_type: Il2CppType { address: 0 },
        param_count: 0,
        param_index: 0,
        field_flags: 0,
        field_offset: 0,
        method_pointer: 0,
        method_flags: 0,
        return_byref: false,
        param_attrs: 0,
        param_byref: false,
    }
}

/// The bytes of a text answer.
pub open spec fn answer_bytes(text: Option<Vec<u8>>) -> Option<Seq<u8>> {
    match text {
        Some(bytes) => Some(bytes@),
        None => None,
    }
}

impl WalkerView {
    /// A walk that has asked nothing yet and gathered nothing.
    pub open spec fn initial(api: Il2CppApi, layout: MethodLayout, mode: Mode) -> WalkerView {
        WalkerView {
            api,
            layout,
            at: initial_position(mode),
            record: blank_class(),
            field_type: Seq::empty(),
            return_type: Seq::empty(),
            method_name: Seq::empty(),
            params: Seq::empty(),
            offsets: Seq::empty(),
            text: Seq::empty(),
        }
    }

    pub open spec fn at_phase(self, phase: Phase) -> WalkerView {
        WalkerView { at: Position { phase, ..self.at }, ..self }
    }

    /// The walk is given up.
    pub open spec fn failed(self, error: DumpError) -> (WalkerView, Step) {
        (self.at_phase(Phase::Failed), Step::Failed(error))
    }

    /// The walk is given up over what the runtime did.
    pub open spec fn refused(self, error: Il2CppError) -> (WalkerView, Step) {
        self.failed(DumpError::Runtime(error))
    }

    /// An entry point is called: a bound one is asked for and the walk
    /// waits in `phase`, an unbound one ends the walk.
    pub open spec fn asked(self, phase: Phase, entry: Entry, argument: usize, index: usize) -> (
        WalkerView,
        Step,
    ) {
        match self.api.functions.entry(entry) {
            Some(function) => (
                self.at_phase(phase),
                Step::Ask(Query::Call { function, argument, index }),
            ),
            None => self.refused(Il2CppError::FunctionNotFound(entry)),
        }
    }

    /// The assembly at the current index is looked at, or the walk ends
    /// behind the last one.
    pub open spec fn next_assembly(self) -> (WalkerView, Step) {
        if self.at.assembly_index < self.at.assemblies.count {
            (
                self.at_phase(Phase::Assembly),
                Step::Ask(
                    Query::ReadElement {
                        base: self.at.assemblies.list,
                        index: self.at.assembly_index,
                    },
                ),
            )
        } else {
            (self.at_phase(Phase::Done), Step::Finished)
        }
    }

    /// The walk leaves the current assembly.
    pub open spec fn after_assembly(self) -> (WalkerView, Step) {
        WalkerView {
            at: Position {
                assembly_index: (self.at.assembly_index + 1) as usize,
                ..self.at
            },
            ..self
        }.next_assembly()
    }

    /// The class at the current index is asked for, or the walk leaves the
    /// assembly behind its last class.
    pub open spec fn next_class(self) -> (WalkerView, Step) {
        if self.at.class_index < self.at.class_count {
            self.asked(
                Phase::Class,
                Entry::ImageGetClass,
                self.at.image.address,
                self.at.class_index,
            )
        } else {
            self.after_assembly()
        }
    }

    /// The walk leaves the current class.
    pub open spec fn after_class(self) -> (WalkerView, Step) {
        WalkerView {
            at: Position { class_index: (self.at.class_index + 1) as usize, ..self.at },
            ..self
        }.next_class()
    }

    pub open spec fn next_field(self) -> (WalkerView, Step) {
        self.asked(Phase::Field, Entry::ClassGetFields, self.at.class.address, self.at.cursor)
    }

    pub open spec fn next_method(self) -> (WalkerView, Step) {
        self.asked(Phase::Method, Entry::ClassGetMethods, self.at.class.address, self.at.cursor)
    }

    /// The fields of the current class are begun with a fresh cursor.
    pub open spec fn begin_fields(self) -> (WalkerView, Step) {
        WalkerView { at: Position { cursor: 0, ..self.at }, ..self }.next_field()
    }

    /// The methods of the current class are begun with a fresh cursor.
    pub open spec fn begin_methods(self) -> (WalkerView, Step) {
        WalkerView { at: Position { cursor: 0, ..self.at }, ..self }.next_method()
    }

    /// The method that has been read in full.
    pub open spec fn finished_method(self) -> MethodView {
        MethodView {
            pointer: self.at.method_pointer,
            flags: self.at.method_flags,
            return_type: self.return_type,
            return_byref: self.at.return_byref,
            name: self.method_name,
            params: self.params,
        }
    }

    /// The parameter at the current index is asked for; behind the last
    /// one the method is complete and the next method is asked for.
    pub open spec fn next_param(self) -> (WalkerView, Step) {
        if self.at.param_index < self.at.param_count {
            self.asked(
                Phase::Param,
                Entry::MethodGetParam,
                self.at.method.address,
                self.at.param_index as usize,
            )
        } else {
            WalkerView {
                record: ClassView {
                    methods: self.record.methods.push(self.finished_method()),
                    ..self.record
                },
                return_type: Seq::empty(),
                method_name: Seq::empty(),
                params: Seq::empty(),
                ..self
            }.next_method()
        }
    }

    #[verifier::opaque]
    pub open spec fn on_domain(self, response: ResponseView) -> (WalkerView, Step) {
        match response {
            ResponseView::Word(returned) => match checked_handle(
                self.api.functions,
                Entry::DomainGet,
                returned,
            ) {
                Ok(domain) => self.asked(Phase::Assemblies, Entry::DomainGetAssemblies, domain, 0),
                Err(e) => self.refused(e),
            },
            _ => self.failed(DumpError::Protocol),
        }
    }

    #[verifier::opaque]
    pub open spec fn on_assemblies(self, response: ResponseView) -> (WalkerView, Step) {
        match response {
            ResponseView::Counted { list, count } => match checked_handle(
                self.api.functions,
                Entry::DomainGetAssemblies,
                list,
            ) {
                Ok(list) => WalkerView {
                    at: Position {
                        assemblies: Assemblies { list, count },
                        assembly_index: 0,
                        ..self.at
                    },
                    ..self
                }.next_assembly(),
                Err(e) => self.refused(e),
            },
            _ => self.failed(DumpError::Protocol),
        }
    }

    /// An empty slot of the list is passed over.
    #[verifier::opaque]
    pub open spec fn on_assembly(self, response: ResponseView) -> (WalkerView, Step) {
        match response {
            ResponseView::Word(assembly) => if assembly == 0 {
                self.after_assembly()
            } else {
                self.asked(Phase::Image, Entry::AssemblyGetImage, assembly, 0)
            },
            _ => self.failed(DumpError::Protocol),
        }
    }

    #[verifier::opaque]
    pub open spec fn on_image(self, response: ResponseView) -> (WalkerView, Step) {
        match response {
            ResponseView::Word(returned) => match checked_handle(
                self.api.functions,
                Entry::AssemblyGetImage,
                returned,
            ) {
                Ok(image) => {
                    let next = WalkerView {
                        at: Position { image: Il2CppImage { address: image }, ..self.at },
                        ..self
                    };
                    if self.at.mode == Mode::Images {
                        next.asked(Phase::ImageName, Entry::ImageGetName, image, 0)
                    } else {
                        next.asked(Phase::ClassCount, Entry::ImageGetClassCount, image, 0)
                    }
                },
                Err(e) => self.refused(e),
            },
            _ => self.failed(DumpError::Protocol),
        }
    }

    /// The line of the image goes to the text.
    #[verifier::opaque]
    pub open spec fn on_image_name(self, response: ResponseView) -> (WalkerView, Step) {
        match response {
            ResponseView::Text(returned) => match checked_text(
                self.api.functions,
                Entry::ImageGetName,
                returned,
            ) {
                Ok(name) => WalkerView {
                    text: self.text + image_text(
                        ImageView { index: self.at.assembly_index, name },
                    ),
                    ..self
                }.after_assembly(),
                Err(e) => self.refused(e),
            },
            _ => self.failed(DumpError::Protocol),
        }
    }

    #[verifier::opaque]
    pub open spec fn on_class_count(self, response: ResponseView) -> (WalkerView, Step) {
        match response {
            ResponseView::Word(count) => if self.api.functions.entry(Entry::ImageGetClassCount)
                is None {
                self.refused(Il2CppError::FunctionNotFound(Entry::ImageGetClassCount))
            } else {
                WalkerView {
                    at: Position { class_count: count, class_index: 0, ..self.at },
                    ..self
                }.next_class()
            },
            _ => self.failed(DumpError::Protocol),
        }
    }

    /// An empty slot of the image is passed over. A class begins with a
    /// blank record; the offsets ask for its name first, the pseudo-source
    /// for its namespace.
    #[verifier::opaque]
    pub open spec fn on_class(self, response: ResponseView) -> (WalkerView, Step) {
        match response {
            ResponseView::Word(returned) => match checked_item(
                self.api.functions,
                Entry::ImageGetClass,
                returned,
            ) {
                Ok(Some(class)) => {
                    let next = WalkerView {
                        at: Position { class: Il2CppClass { address: class }, ..self.at },
                        record: blank_class(),
                        ..self
                    };
                    if self.at.mode == Mode::Offsets {
                        next.asked(Phase::ClassName, Entry::ClassGetName, class, 0)
                    } else {
                        next.asked(Phase::ClassNamespace, Entry::ClassGetNamespace, class, 0)
                    }
                },
                Ok(None) => self.after_class(),
                Err(e) => self.refused(e),
            },
            _ => self.failed(DumpError::Protocol),
        }
    }

    #[verifier::opaque]
    pub open spec fn on_class_namespace(self, response: ResponseView) -> (WalkerView, Step) {
        match response {
            ResponseView::Text(returned) => match checked_text(
                self.api.functions,
                Entry::ClassGetNamespace,
                returned,
            ) {
                Ok(namespace) => {
                    let next = WalkerView {
                        record: ClassView { namespace, ..self.record },
                        ..self
                    };
                    if self.at.mode == Mode::Offsets {
                        next.begin_methods()
                    } else {
                        next.asked(
                            Phase::ClassFlags,
                            Entry::ClassGetFlags,
                            self.at.class.address,
                            0,
                        )
                    }
                },
                Err(e) => self.refused(e),
            },
            _ => self.failed(DumpError::Protocol),
        }
    }

    #[verifier::opaque]
    pub open spec fn on_class_flags(self, response: ResponseView) -> (WalkerView, Step) {
        match response {
            ResponseView::Signed(flags) => if self.api.functions.entry(Entry::ClassGetFlags) is None {
                self.refused(Il2CppError::FunctionNotFound(Entry::ClassGetFlags))
            } else {
                WalkerView { record: ClassView { flags, ..self.record }, ..self }.asked(
                    Phase::ClassValuetype,
                    Entry::ClassIsValuetype,
                    self.at.class.address,
                    0,
                )
            },
            _ => self.failed(DumpError::Protocol),
        }
    }

    #[verifier::opaque]
    pub open spec fn on_class_valuetype(self, response: ResponseView) -> (WalkerView, Step) {
        match response {
            ResponseView::Flag(is_valuetype) => if self.api.functions.entry(Entry::ClassIsValuetype)
                is None {
                self.refused(Il2CppError::FunctionNotFound(Entry::ClassIsValuetype))
            } else {
                WalkerView { record: ClassView { is_valuetype, ..self.record }, ..self }.asked(
                    Phase::ClassEnum,
                    Entry::ClassIsEnum,
                    self.at.class.address,
                    0,
                )
            },
            _ => self.failed(DumpError::Protocol),
        }
    }

    #[verifier::opaque]
    pub open spec fn on_class_enum(self, response: ResponseView) -> (WalkerView, Step) {
        match response {
            ResponseView::Flag(is_enum) => if self.api.functions.entry(Entry::ClassIsEnum) is None {
                self.refused(Il2CppError::FunctionNotFound(Entry::ClassIsEnum))
            } else {
                WalkerView { record: ClassView { is_enum, ..self.record }, ..self }.asked(
                    Phase::ClassName,
                    Entry::ClassGetName,
                    self.at.class.address,
                    0,
                )
            },
            _ => self.failed(DumpError::Protocol),
        }
    }

    /// With the name known, the offsets go on to the namespace. The
    /// pseudo-source asks for the base class; where that entry point is
    /// not bound the class has no base.
    #[verifier::opaque]
    pub open spec fn on_class_name(self, response: ResponseView) -> (WalkerView, Step) {
        match response {
            ResponseView::Text(returned) => match checked_text(
                self.api.functions,
                Entry::ClassGetName,
                returned,
            ) {
                Ok(name) => {
                    let next = WalkerView { record: ClassView { name, ..self.record }, ..self };
                    if self.at.mode == Mode::Offsets {
                        next.asked(
                            Phase::ClassNamespace,
                            Entry::ClassGetNamespace,
                            self.at.class.address,
                            0,
                        )
                    } else if self.api.functions.entry(Entry::ClassGetParent) is None {
                        next.begin_fields()
                    } else {
                        next.asked(
                            Phase::ClassParent,
                            Entry::ClassGetParent,
                            self.at.class.address,
                            0,
                        )
                    }
                },
                Err(e) => self.refused(e),
            },
            _ => self.failed(DumpError::Protocol),
        }
    }

    /// A base class that cannot be had is no base class.
    #[verifier::opaque]
    pub open spec fn on_class_parent(self, response: ResponseView) -> (WalkerView, Step) {
        match response {
            ResponseView::Word(returned) => match checked_handle(
                self.api.functions,
                Entry::ClassGetParent,
                returned,
            ) {
                Ok(parent) => self.asked(Phase::ParentName, Entry::ClassGetName, parent, 0),
                Err(_) => self.begin_fields(),
            },
            _ => self.failed(DumpError::Protocol),
        }
    }

    #[verifier::opaque]
    pub open spec fn on_parent_name(self, response: ResponseView) -> (WalkerView, Step) {
        match response {
            ResponseView::Text(returned) => match checked_text(
                self.api.functions,
                Entry::ClassGetName,
                returned,
            ) {
                Ok(name) => WalkerView {
                    record: ClassView { parent: Some(name), ..self.record },
                    ..self
                }.begin_fields(),
                Err(e) => self.refused(e),
            },
            _ => self.failed(DumpError::Protocol),
        }
    }

    /// Behind the last field the methods begin.
    #[verifier::opaque]
    pub open spec fn on_field(self, response: ResponseView) -> (WalkerView, Step) {
        match response {
            ResponseView::Cursor { item, cursor } => match checked_item(
                self.api.functions,
                Entry::ClassGetFields,
                item,
            ) {
                Ok(Some(field)) => WalkerView {
                    at: Position { field: FieldInfo { address: field }, cursor, ..self.at },
                    ..self
                }.asked(Phase::FieldFlags, Entry::FieldGetFlags, field, 0),
                Ok(None) => self.begin_methods(),
                Err(e) => self.refused(e),
            },
            _ => self.failed(DumpError::Protocol),
        }
    }

    #[verifier::opaque]
    pub open spec fn on_field_flags(self, response: ResponseView) -> (WalkerView, Step) {
        match response {
            ResponseView::Signed(flags) => if self.api.functions.entry(Entry::FieldGetFlags) is None {
                self.refused(Il2CppError::FunctionNotFound(Entry::FieldGetFlags))
            } else {
                WalkerView { at: Position { field_flags: flags, ..self.at }, ..self }.asked(
                    Phase::FieldType,
                    Entry::FieldGetType,
                    self.at.field.address,
                    0,
                )
            },
            _ => self.failed(DumpError::Protocol),
        }
    }

    #[verifier::opaque]
    pub open spec fn on_field_type(self, response: ResponseView) -> (WalkerView, Step) {
        match response {
            ResponseView::Word(returned) => match checked_handle(
                self.api.functions,
                Entry::FieldGetType,
                returned,
            ) {
                Ok(item_type) => WalkerView {
                    at: Position { item_type: Il2CppType { address: item_type }, ..self.at },
                    ..self
                }.asked(Phase::FieldOffset, Entry::FieldGetOffset, self.at.field.address, 0),
                Err(e) => self.refused(e),
            },
            _ => self.failed(DumpError::Protocol),
        }
    }

    #[verifier::opaque]
    pub open spec fn on_field_offset(self, response: ResponseView) -> (WalkerView, Step) {
        match response {
            ResponseView::Word(offset) => if self.api.functions.entry(Entry::FieldGetOffset) is None {
                self.refused(Il2CppError::FunctionNotFound(Entry::FieldGetOffset))
            } else {
                WalkerView { at: Position { field_offset: offset, ..self.at }, ..self }.asked(
                    Phase::FieldTypeName,
                    Entry::TypeGetName,
                    self.at.item_type.address,
                    0,
                )
            },
            _ => self.failed(DumpError::Protocol),
        }
    }

    #[verifier::opaque]
    pub open spec fn on_field_type_name(self, response: ResponseView) -> (WalkerView, Step) {
        match response {
            ResponseView::Text(returned) => match rewritten_result(
                checked_text(self.api.functions, Entry::TypeGetName, returned),
            ) {
                Ok(name) => WalkerView { field_type: name, ..self }.asked(
                    Phase::FieldName,
                    Entry::FieldGetName,
                    self.at.field.address,
                    0,
                ),
                Err(e) => self.refused(e),
            },
            _ => self.failed(DumpError::Protocol),
        }
    }

    /// With its name the field is complete and joins the class.
    #[verifier::opaque]
    pub open spec fn on_field_name(self, response: ResponseView) -> (WalkerView, Step) {
        match response {
            ResponseView::Text(returned) => match checked_text(
                self.api.functions,
                Entry::FieldGetName,
                returned,
            ) {
                Ok(name) => WalkerView {
                    record: ClassView {
                        fields: self.record.fields.push(
                            FieldView {
                                flags: self.at.field_flags,
                                type_text: self.field_type,
                                name,
                                offset: self.at.field_offset,
                            },
                        ),
                        ..self.record
                    },
                    field_type: Seq::empty(),
                    ..self
                }.next_field(),
                Err(e) => self.refused(e),
            },
            _ => self.failed(DumpError::Protocol),
        }
    }

    /// Behind the last method the class is complete: its block goes to the
    /// text of the pseudo-source and the walk leaves the class. Of a
    /// method the code pointer is read first.
    #[verifier::opaque]
    pub open spec fn on_method(self, response: ResponseView) -> (WalkerView, Step) {
        match response {
            ResponseView::Cursor { item, cursor } => match checked_item(
                self.api.functions,
                Entry::ClassGetMethods,
                item,
            ) {
                Ok(Some(method)) => (
                    WalkerView {
                        at: Position {
                            method: MethodInfo { address: method },
                            cursor,
                            phase: Phase::MethodPointer,
                            ..self.at
                        },
                        ..self
                    },
                    Step::Ask(
                        Query::ReadPointer { base: method, offset: self.layout.method_pointer },
                    ),
                ),
                Ok(None) => if self.at.mode == Mode::Classes {
                    WalkerView {
                        text: self.text + class_text(self.record, self.api.game_assembly.handle),
                        ..self
                    }.after_class()
                } else {
                    self.after_class()
                },
                Err(e) => self.refused(e),
            },
            _ => self.failed(DumpError::Protocol),
        }
    }

    /// For the offsets a method outside the game module is passed over
    /// before anything else is asked of it.
    #[verifier::opaque]
    pub open spec fn on_method_pointer(self, response: ResponseView) -> (WalkerView, Step) {
        match response {
            ResponseView::Word(pointer) => {
                let next = WalkerView {
                    at: Position { method_pointer: pointer, ..self.at },
                    ..self
                };
                if self.at.mode == Mode::Offsets {
                    if self.api.game_assembly.contains(pointer) {
                        next.asked(
                            Phase::MethodName,
                            Entry::MethodGetName,
                            self.at.method.address,
                            0,
                        )
                    } else {
                        next.next_method()
                    }
                } else {
                    (
                        next.at_phase(Phase::MethodFlags),
                        Step::Ask(
                            Query::ReadHalf {
                                base: self.at.method.address,
                                offset: self.layout.flags,
                            },
                        ),
                    )
                }
            },
            _ => self.failed(DumpError::Protocol),
        }
    }

    #[verifier::opaque]
    pub open spec fn on_method_flags(self, response: ResponseView) -> (WalkerView, Step) {
        match response {
            ResponseView::Half(flags) => WalkerView {
                at: Position { method_flags: flags, ..self.at },
                ..self
            }.asked(Phase::ReturnType, Entry::MethodGetReturnType, self.at.method.address, 0),
            _ => self.failed(DumpError::Protocol),
        }
    }

    #[verifier::opaque]
    pub open spec fn on_return_type(self, response: ResponseView) -> (WalkerView, Step) {
        match response {
            ResponseView::Word(returned) => match checked_handle(
                self.api.functions,
                Entry::MethodGetReturnType,
                returned,
            ) {
                Ok(item_type) => WalkerView {
                    at: Position { item_type: Il2CppType { address: item_type }, ..self.at },
                    ..self
                }.asked(Phase::ReturnByref, Entry::TypeIsByref, item_type, 0),
                Err(e) => self.refused(e),
            },
            _ => self.failed(DumpError::Protocol),
        }
    }

    #[verifier::opaque]
    pub open spec fn on_return_byref(self, response: ResponseView) -> (WalkerView, Step) {
        match response {
            ResponseView::Flag(is_byref) => if self.api.functions.entry(Entry::TypeIsByref) is None {
                self.refused(Il2CppError::FunctionNotFound(Entry::TypeIsByref))
            } else {
                WalkerView { at: Position { return_byref: is_byref, ..self.at }, ..self }.asked(
                    Phase::ReturnTypeName,
                    Entry::TypeGetName,
                    self.at.item_type.address,
                    0,
                )
            },
            _ => self.failed(DumpError::Protocol),
        }
    }

    #[verifier::opaque]
    pub open spec fn on_return_type_name(self, response: ResponseView) -> (WalkerView, Step) {
        match response {
            ResponseView::Text(returned) => match rewritten_result(
                checked_text(self.api.functions, Entry::TypeGetName, returned),
            ) {
                Ok(name) => WalkerView { return_type: name, ..self }.asked(
                    Phase::MethodName,
                    Entry::MethodGetName,
                    self.at.method.address,
                    0,
                ),
                Err(e) => self.refused(e),
            },
            _ => self.failed(DumpError::Protocol),
        }
    }

    /// For the offsets the name completes the method: it is filed under
    /// its fully-qualified name. The pseudo-source goes on to the
    /// parameters.
    #[verifier::opaque]
    pub open spec fn on_method_name(self, response: ResponseView) -> (WalkerView, Step) {
        match response {
            ResponseView::Text(returned) => match checked_text(
                self.api.functions,
                Entry::MethodGetName,
                returned,
            ) {
                Ok(name) => if self.at.mode == Mode::Offsets {
                    WalkerView {
                        offsets: if self.api.game_assembly.contains(self.at.method_pointer) {
                            recorded(
                                self.offsets,
                                qualified_name(self.record.namespace, self.record.name, name),
                                (self.at.method_pointer - self.api.game_assembly.handle) as u64,
                            )
                        } else {
                            self.offsets
                        },
                        ..self
                    }.next_method()
                } else {
                    WalkerView { method_name: name, ..self }.asked(
                        Phase::ParamCount,
                        Entry::MethodGetParamCount,
                        self.at.method.address,
                        0,
                    )
                },
                Err(e) => self.refused(e),
            },
            _ => self.failed(DumpError::Protocol),
        }
    }

    #[verifier::opaque]
    pub open spec fn on_param_count(self, response: ResponseView) -> (WalkerView, Step) {
        match response {
            ResponseView::Unsigned(count) => if self.api.functions.entry(Entry::MethodGetParamCount)
                is None {
                self.refused(Il2CppError::FunctionNotFound(Entry::MethodGetParamCount))
            } else {
                WalkerView {
                    at: Position { param_count: count, param_index: 0, ..self.at },
                    params: Seq::empty(),
                    ..self
                }.next_param()
            },
            _ => self.failed(DumpError::Protocol),
        }
    }

    #[verifier::opaque]
    pub open spec fn on_param(self, response: ResponseView) -> (WalkerView, Step) {
        match response {
            ResponseView::Word(returned) => match checked_handle(
                self.api.functions,
                Entry::MethodGetParam,
                returned,
            ) {
                Ok(item_type) => WalkerView {
                    at: Position { item_type: Il2CppType { address: item_type }, ..self.at },
                    ..self
                }.asked(Phase::ParamAttrs, Entry::TypeGetAttrs, item_type, 0),
                Err(e) => self.refused(e),
            },
            _ => self.failed(DumpError::Protocol),
        }
    }

    #[verifier::opaque]
    pub open spec fn on_param_attrs(self, response: ResponseView) -> (WalkerView, Step) {
        match response {
            ResponseView::Unsigned(attrs) => if self.api.functions.entry(Entry::TypeGetAttrs) is None {
                self.refused(Il2CppError::FunctionNotFound(Entry::TypeGetAttrs))
            } else {
                WalkerView { at: Position { param_attrs: attrs, ..self.at }, ..self }.asked(
                    Phase::ParamByref,
                    Entry::TypeIsByref,
                    self.at.item_type.address,
                    0,
                )
            },
            _ => self.failed(DumpError::Protocol),
        }
    }

    #[verifier::opaque]
    pub open spec fn on_param_byref(self, response: ResponseView) -> (WalkerView, Step) {
        match response {
            ResponseView::Flag(is_byref) => if self.api.functions.entry(Entry::TypeIsByref) is None {
                self.refused(Il2CppError::FunctionNotFound(Entry::TypeIsByref))
            } else {
                WalkerView { at: Position { param_byref: is_byref, ..self.at }, ..self }.asked(
                    Phase::ParamTypeName,
                    Entry::TypeGetName,
                    self.at.item_type.address,
                    0,
                )
            },
            _ => self.failed(DumpError::Protocol),
        }
    }

    /// With the name of its type the parameter is complete and joins the
    /// method.
    #[verifier::opaque]
    pub open spec fn on_param_type_name(self, response: ResponseView) -> (WalkerView, Step) {
        match response {
            ResponseView::Text(returned) => match rewritten_result(
                checked_text(self.api.functions, Entry::TypeGetName, returned),
            ) {
                Ok(name) => WalkerView {
                    at: Position { param_index: (self.at.param_index + 1) as u32, ..self.at },
                    params: self.params.push(
                        ParamView {
                            type_text: name,
                            attrs: self.at.param_attrs,
                            is_byref: self.at.param_byref,
                        },
                    ),
                    ..self
                }.next_param(),
                Err(e) => self.refused(e),
            },
            _ => self.failed(DumpError::Protocol),
        }
    }

    /// The walk after one answer, and what it does next. A walk that has
    /// not begun, has ended or was given up has no question open: any
    /// answer to it breaks the protocol.
    pub open spec fn next(self, response: ResponseView) -> (WalkerView, Step) {
        match self.at.phase {
            Phase::Start | Phase::Done | Phase::Failed => self.failed(DumpError::Protocol),
            Phase::Domain => self.on_domain(response),
            Phase::Assemblies => self.on_assemblies(response),
            Phase::Assembly => self.on_assembly(response),
            Phase::Image => self.on_image(response),
            Phase::ImageName => self.on_image_name(response),
            Phase::ClassCount => self.on_class_count(response),
            Phase::Class => self.on_class(response),
            Phase::ClassNamespace => self.on_class_namespace(response),
            Phase::ClassFlags => self.on_class_flags(response),
            Phase::ClassValuetype => self.on_class_valuetype(response),
            Phase::ClassEnum => self.on_class_enum(response),
            Phase::ClassName => self.on_class_name(response),
            Phase::ClassParent => self.on_class_parent(response),
            Phase::ParentName => self.on_parent_name(response),
            Phase::Field => self.on_field(response),
            Phase::FieldFlags => self.on_field_flags(response),
            Phase::FieldType => self.on_field_type(response),
            Phase::FieldOffset => self.on_field_offset(response),
            Phase::FieldTypeName => self.on_field_type_name(response),
            Phase::FieldName => self.on_field_name(response),
            Phase::Method => self.on_method(response),
            Phase::MethodPointer => self.on_method_pointer(response),
            Phase::MethodFlags => self.on_method_flags(response),
            Phase::ReturnType => self.on_return_type(response),
            Phase::ReturnByref => self.on_return_byref(response),
            Phase::ReturnTypeName => self.on_return_type_name(response),
            Phase::MethodName => self.on_method_name(response),
            Phase::ParamCount => self.on_param_count(response),
            Phase::Param => self.on_param(response),
            Phase::ParamAttrs => self.on_param_attrs(response),
            Phase::ParamByref => self.on_param_byref(response),
            Phase::ParamTypeName => self.on_param_type_name(response),
        }
    }
}

fn as_bytes(text: &Option<Vec<u8>>) -> (bytes: Option<&Vec<u8>>)
    ensures
        bytes_view(bytes) == answer_bytes(*text),
{
    match text {
        Some(b) => Some(b),
        None => None,
    }
}

fn blank_record() -> (record: ClassRecord)
    ensures
        record@ == blank_class(),
{
    let record = ClassRecord {
        namespace: String::new(),
        flags: 0,
        is_valuetype: false,
        is_enum: false,
        name: String::new(),
        parent: None,
        fields: Vec::new(),
        methods: Vec::new(),
    };
    assert(record@.fields =~= Seq::<FieldView>::empty());
    assert(record@.methods =~= Seq::<MethodView>::empty());
    record
}

impl Walker {
    /// The indices that a phase relies on lie inside their lists.
    pub open spec fn fits(&self, phase: Phase) -> bool {
        &&& phase.depth() >= 1 ==> self.at.assembly_index < self.at.assemblies.count
        &&& phase.depth() >= 2 ==> self.at.class_index < self.at.class_count
        &&& phase.depth() >= 3 ==> self.at.param_index < self.at.param_count
    }

    /// The offset map is sound and belongs to the game module.
    pub open spec fn sound(&self) -> bool {
        self.offsets.wf() && self.offsets.module == self.api.game_assembly
    }

    /// The walk is sound and its indices fit its phase.
    pub open spec fn wf(&self) -> bool {
        self.sound() && self.fits(self.at.phase)
    }

    /// Begins a walk: nothing is gathered yet and the first question is
    /// the one for the domain.
    pub fn new(api: Il2CppApi, layout: MethodLayout, mode: Mode) -> (begun: (Walker, Step))
        ensures
            begun.0.wf(),
            (begun.0@, begun.1) == WalkerView::initial(api, layout, mode).asked(
                Phase::Domain,
                Entry::DomainGet,
                0,
                0,
            ),
    {
        let walker = Walker {
            api,
            layout,
            at: Position {
                mode,
                phase: Phase::Start,
                assemblies: Assemblies { list: 0, count: 0 },
                assembly_index: 0,
                image: Il2CppImage { address: 0 },
                class_count: 0,
                class_index: 0,
                class: Il2CppClass { address: 0 },
                cursor: 0,
                field: FieldInfo { address: 0 },
                method: MethodInfo { address: 0 },
                item_type: Il2CppType { address: 0 },
                param_count: 0,
                param_index: 0,
                field_flags: 0,
                field_offset: 0,
                method_pointer: 0,
                method_flags: 0,
                return_byref: false,
                param_attrs: 0,
                param_byref: false,
            },
            record: blank_record(),
            field_type: String::new(),
            return_type: String::new(),
            method_name: String::new(),
            params: Vec::new(),
            offsets: MethodOffsets::new(api.game_assembly),
            text: String::new(),
        };
        assert(walker@.params =~= Seq::<ParamView>::empty());
        assert(walker@ == WalkerView::initial(api, layout, mode));
        walker.ask(Phase::Domain, Entry::DomainGet, 0, 0)
    }

    /// Whether the walk has come to its end.
    pub fn is_done(&self) -> (done: bool)
        ensures
            done == (self.at.phase == Phase::Done),
    {
        match self.at.phase {
            Phase::Done => true,
            _ => false,
        }
    }

    /// Hands out the offsets that the walk has gathered.
    pub fn into_offsets(self) -> (offsets: MethodOffsets)
        requires
            self.wf(),
        ensures
            offsets.wf(),
            offsets.module == self.api.game_assembly,
            offsets@ == self@.offsets,
    {
        self.offsets
    }

    /// Hands out the text that the walk has gathered.
    pub fn into_text(self) -> (text: String)
        ensures
            text@ == self@.text,
    {
        self.text
    }

    fn fail(self, error: DumpError) -> (next: (Walker, Step))
        requires
            self.sound(),
        ensures
            next.0.wf(),
            (next.0@, next.1) == self@.failed(error),
    {
        let mut walker = self;
        walker.at.phase = Phase::Failed;
        (walker, Step::Failed(error))
    }

    fn refuse(self, error: Il2CppError) -> (next: (Walker, Step))
        requires
            self.sound(),
        ensures
            next.0.wf(),
            (next.0@, next.1) == self@.refused(error),
    {
        self.fail(DumpError::Runtime(error))
    }

    fn ask(self, phase: Phase, entry: Entry, argument: usize, index: usize) -> (next: (
        Walker,
        Step,
    ))
        requires
            self.sound(),
            self.fits(phase),
        ensures
            next.0.wf(),
            (next.0@, next.1) == self@.asked(phase, entry, argument, index),
    {
        match self.api.function(entry) {
            Ok(function) => {
                let mut walker = self;
                walker.at.phase = phase;
                (walker, Step::Ask(Query::Call { function, argument, index }))
            },
            Err(e) => self.refuse(e),
        }
    }

    fn next_assembly(self) -> (next: (Walker, Step))
        requires
            self.sound(),
        ensures
            next.0.wf(),
            (next.0@, next.1) == self@.next_assembly(),
    {
        let mut walker = self;
        if walker.at.assembly_index < walker.at.assemblies.count {
            walker.at.phase = Phase::Assembly;
            let query = Query::ReadElement {
                base: walker.at.assemblies.list,
                index: walker.at.assembly_index,
            };
            (walker, Step::Ask(query))
        } else {
            walker.at.phase = Phase::Done;
            (walker, Step::Finished)
        }
    }

    fn after_assembly(self) -> (next: (Walker, Step))
        requires
            self.sound(),
            self.at.assembly_index < self.at.assemblies.count,
        ensures
            next.0.wf(),
            (next.0@, next.1) == self@.after_assembly(),
    {
        let mut walker = self;
        walker.at.assembly_index = walker.at.assembly_index + 1;
        walker.next_assembly()
    }

    fn next_class(self) -> (next: (Walker, Step))
        requires
            self.sound(),
            self.at.assembly_index < self.at.assemblies.count,
        ensures
            next.0.wf(),
            (next.0@, next.1) == self@.next_class(),
    {
        if self.at.class_index < self.at.class_count {
            let image: usize = self.at.image.address;
            let index: usize = self.at.class_index;
            self.ask(Phase::Class, Entry::ImageGetClass, image, index)
        } else {
            self.after_assembly()
        }
    }

    fn after_class(self) -> (next: (Walker, Step))
        requires
            self.sound(),
            self.fits(Phase::Class),
        ensures
            next.0.wf(),
            (next.0@, next.1) == self@.after_class(),
    {
        let mut walker = self;
        walker.at.class_index = walker.at.class_index + 1;
        walker.next_class()
    }

    fn next_field(self) -> (next: (Walker, Step))
        requires
            self.sound(),
            self.fits(Phase::Class),
        ensures
            next.0.wf(),
            (next.0@, next.1) == self@.next_field(),
    {
        let class: usize = self.at.class.address;
        let cursor: usize = self.at.cursor;
        self.ask(Phase::Field, Entry::ClassGetFields, class, cursor)
    }

    fn next_method(self) -> (next: (Walker, Step))
        requires
            self.sound(),
            self.fits(Phase::Class),
        ensures
            next.0.wf(),
            (next.0@, next.1) == self@.next_method(),
    {
        let class: usize = self.at.class.address;
        let cursor: usize = self.at.cursor;
        self.ask(Phase::Method, Entry::ClassGetMethods, class, cursor)
    }

    fn begin_fields(self) -> (next: (Walker, Step))
        requires
            self.sound(),
            self.fits(Phase::Class),
        ensures
            next.0.wf(),
            (next.0@, next.1) == self@.begin_fields(),
    {
        let mut walker = self;
        walker.at.cursor = 0;
        walker.next_field()
    }

    fn begin_methods(self) -> (next: (Walker, Step))
        requires
            self.sound(),
            self.fits(Phase::Class),
        ensures
            next.0.wf(),
            (next.0@, next.1) == self@.begin_methods(),
    {
        let mut walker = self;
        walker.at.cursor = 0;
        walker.next_method()
    }

    fn next_param(self) -> (next: (Walker, Step))
        requires
            self.sound(),
            self.fits(Phase::Class),
        ensures
            next.0.wf(),
            (next.0@, next.1) == self@.next_param(),
    {
        if self.at.param_index < self.at.param_count {
            let method: usize = self.at.method.address;
            let index: usize = self.at.param_index as usize;
            self.ask(Phase::Param, Entry::MethodGetParam, method, index)
        } else {
            let ghost before = self@;
            let Walker {
                api,
                layout,
                at,
                record,
                field_type,
                return_type,
                method_name,
                params,
                offsets,
                text,
            } = self;
            let mut record = record;
            let ghost methods = record.methods@;
            record.methods.push(
                MethodRecord {
                    pointer: at.method_pointer,
                    flags: at.method_flags,
                    return_type,
                    return_byref: at.return_byref,
                    name: method_name,
                    params,
                },
            );
            assert(method_views(record.methods@) =~= method_views(methods).push(
                before.finished_method(),
            ));
            let walker = Walker {
                api,
                layout,
                at,
                record,
                field_type,
                return_type: String::new(),
                method_name: String::new(),
                params: Vec::new(),
                offsets,
                text,
            };
            assert(walker@.params =~= Seq::<ParamView>::empty());
            walker.next_method()
        }
    }

    fn on_domain(self, response: Response) -> (next: (Walker, Step))
        requires
            self.wf(),
        ensures
            next.0.wf(),
            (next.0@, next.1) == self@.on_domain(response@),
    {
        proof {
            reveal(WalkerView::on_domain);
        }
        match response {
            Response::Word(returned) => match self.api.domain_get(returned) {
                Ok(domain) => self.ask(
                    Phase::Assemblies,
                    Entry::DomainGetAssemblies,
                    domain.address,
                    0,
                ),
                Err(e) => self.refuse(e),
            },
            _ => self.fail(DumpError::Protocol),
        }
    }

    fn on_assemblies(self, response: Response) -> (next: (Walker, Step))
        requires
            self.wf(),
        ensures
            next.0.wf(),
            (next.0@, next.1) == self@.on_assemblies(response@),
    {
        proof {
            reveal(WalkerView::on_assemblies);
        }
        match response {
            Response::Counted { list, count } => match self.api.domain_get_assemblies(list, count) {
                Ok(assemblies) => {
                    let mut walker = self;
                    walker.at.assemblies = assemblies;
                    walker.at.assembly_index = 0;
                    walker.next_assembly()
                },
                Err(e) => self.refuse(e),
            },
            _ => self.fail(DumpError::Protocol),
        }
    }

    fn on_assembly(self, response: Response) -> (next: (Walker, Step))
        requires
            self.wf(),
            self.at.phase == Phase::Assembly,
        ensures
            next.0.wf(),
            (next.0@, next.1) == self@.on_assembly(response@),
    {
        proof {
            reveal(WalkerView::on_assembly);
        }
        match response {
            Response::Word(assembly) => if assembly == 0 {
                self.after_assembly()
            } else {
                self.ask(Phase::Image, Entry::AssemblyGetImage, assembly, 0)
            },
            _ => self.fail(DumpError::Protocol),
        }
    }

    fn on_image(self, response: Response) -> (next: (Walker, Step))
        requires
            self.wf(),
            self.at.phase == Phase::Image,
        ensures
            next.0.wf(),
            (next.0@, next.1) == self@.on_image(response@),
    {
        proof {
            reveal(WalkerView::on_image);
        }
        match response {
            Response::Word(returned) => match self.api.assembly_get_image(returned) {
                Ok(image) => {
                    let mut walker = self;
                    walker.at.image = image;
                    match walker.at.mode {
                        Mode::Images => walker.ask(
                            Phase::ImageName,
                            Entry::ImageGetName,
                            image.address,
                            0,
                        ),
                        _ => walker.ask(
                            Phase::ClassCount,
                            Entry::ImageGetClassCount,
                            image.address,
                            0,
                        ),
                    }
                },
                Err(e) => self.refuse(e),
            },
            _ => self.fail(DumpError::Protocol),
        }
    }

    fn on_image_name(self, response: Response) -> (next: (Walker, Step))
        requires
            self.wf(),
            self.at.phase == Phase::ImageName,
        ensures
            next.0.wf(),
            (next.0@, next.1) == self@.on_image_name(response@),
    {
        proof {
            reveal(WalkerView::on_image_name);
        }
        match response {
            Response::Text(returned) => match self.api.image_get_name(as_bytes(&returned)) {
                Ok(name) => {
                    let mut walker = self;
                    let line = write_image(&ImageRecord { index: walker.at.assembly_index, name });
                    walker.text.append(line.as_str());
                    walker.after_assembly()
                },
                Err(e) => self.refuse(e),
            },
            _ => self.fail(DumpError::Protocol),
        }
    }

    fn on_class_count(self, response: Response) -> (next: (Walker, Step))
        requires
            self.wf(),
            self.at.phase == Phase::ClassCount,
        ensures
            next.0.wf(),
            (next.0@, next.1) == self@.on_class_count(response@),
    {
        proof {
            reveal(WalkerView::on_class_count);
        }
        match response {
            Response::Word(returned) => match self.api.image_get_class_count(returned) {
                Ok(count) => {
                    let mut walker = self;
                    walker.at.class_count = count;
                    walker.at.class_index = 0;
                    walker.next_class()
                },
                Err(e) => self.refuse(e),
            },
            _ => self.fail(DumpError::Protocol),
        }
    }

    fn on_class(self, response: Response) -> (next: (Walker, Step))
        requires
            self.wf(),
            self.at.phase == Phase::Class,
        ensures
            next.0.wf(),
            (next.0@, next.1) == self@.on_class(response@),
    {
        proof {
            reveal(WalkerView::on_class);
        }
        match response {
            Response::Word(returned) => match self.api.image_get_class(returned) {
                Ok(Some(class)) => {
                    let mut walker = self;
                    walker.at.class = class;
                    walker.record = blank_record();
                    match walker.at.mode {
                        Mode::Offsets => walker.ask(
                            Phase::ClassName,
                            Entry::ClassGetName,
                            class.address,
                            0,
                        ),
                        _ => walker.ask(
                            Phase::ClassNamespace,
                            Entry::ClassGetNamespace,
                            class.address,
                            0,
                        ),
                    }
                },
                Ok(None) => self.after_class(),
                Err(e) => self.refuse(e),
            },
            _ => self.fail(DumpError::Protocol),
        }
    }

    fn on_class_namespace(self, response: Response) -> (next: (Walker, Step))
        requires
            self.wf(),
            self.at.phase == Phase::ClassNamespace,
        ensures
            next.0.wf(),
            (next.0@, next.1) == self@.on_class_namespace(response@),
    {
        proof {
            reveal(WalkerView::on_class_namespace);
        }
        match response {
            Response::Text(returned) => match self.api.class_get_namespace(as_bytes(&returned)) {
                Ok(namespace) => {
                    let mut walker = self;
                    walker.record.namespace = namespace;
                    match walker.at.mode {
                        Mode::Offsets => walker.begin_methods(),
                        _ => {
                            let class: usize = walker.at.class.address;
                            walker.ask(Phase::ClassFlags, Entry::ClassGetFlags, class, 0)
                        },
                    }
                },
                Err(e) => self.refuse(e),
            },
            _ => self.fail(DumpError::Protocol),
        }
    }

    fn on_class_flags(self, response: Response) -> (next: (Walker, Step))
        requires
            self.wf(),
            self.at.phase == Phase::ClassFlags,
        ensures
            next.0.wf(),
            (next.0@, next.1) == self@.on_class_flags(response@),
    {
        proof {
            reveal(WalkerView::on_class_flags);
        }
        match response {
            Response::Signed(returned) => match self.api.class_get_flags(returned) {
                Ok(flags) => {
                    let mut walker = self;
                    walker.record.flags = flags;
                    let class: usize = walker.at.class.address;
                    walker.ask(Phase::ClassValuetype, Entry::ClassIsValuetype, class, 0)
                },
                Err(e) => self.refuse(e),
            },
            _ => self.fail(DumpError::Protocol),
        }
    }

    fn on_class_valuetype(self, response: Response) -> (next: (Walker, Step))
        requires
            self.wf(),
            self.at.phase == Phase::ClassValuetype,
        ensures
            next.0.wf(),
            (next.0@, next.1) == self@.on_class_valuetype(response@),
    {
        proof {
            reveal(WalkerView::on_class_valuetype);
        }
        match response {
            Response::Flag(returned) => match self.api.class_is_valuetype(returned) {
                Ok(is_valuetype) => {
                    let mut walker = self;
                    walker.record.is_valuetype = is_valuetype;
                    let class: usize = walker.at.class.address;
                    walker.ask(Phase::ClassEnum, Entry::ClassIsEnum, class, 0)
                },
                Err(e) => self.refuse(e),
            },
            _ => self.fail(DumpError::Protocol),
        }
    }

    fn on_class_enum(self, response: Response) -> (next: (Walker, Step))
        requires
            self.wf(),
            self.at.phase == Phase::ClassEnum,
        ensures
            next.0.wf(),
            (next.0@, next.1) == self@.on_class_enum(response@),
    {
        proof {
            reveal(WalkerView::on_class_enum);
        }
        match response {
            Response::Flag(returned) => match self.api.class_is_enum(returned) {
                Ok(is_enum) => {
                    let mut walker = self;
                    walker.record.is_enum = is_enum;
                    let class: usize = walker.at.class.address;
                    walker.ask(Phase::ClassName, Entry::ClassGetName, class, 0)
                },
                Err(e) => self.refuse(e),
            },
            _ => self.fail(DumpError::Protocol),
        }
    }

    fn on_class_name(self, response: Response) -> (next: (Walker, Step))
        requires
            self.wf(),
            self.at.phase == Phase::ClassName,
        ensures
            next.0.wf(),
            (next.0@, next.1) == self@.on_class_name(response@),
    {
        proof {
            reveal(WalkerView::on_class_name);
        }
        match response {
            Response::Text(returned) => match self.api.class_get_name(as_bytes(&returned)) {
                Ok(name) => {
                    let mut walker = self;
                    walker.record.name = name;
                    let class: usize = walker.at.class.address;
                    match walker.at.mode {
                        Mode::Offsets => walker.ask(
                            Phase::ClassNamespace,
                            Entry::ClassGetNamespace,
                            class,
                            0,
                        ),
                        _ => if walker.api.functions.get(Entry::ClassGetParent).is_none() {
                            walker.begin_fields()
                        } else {
                            walker.ask(Phase::ClassParent, Entry::ClassGetParent, class, 0)
                        },
                    }
                },
                Err(e) => self.refuse(e),
            },
            _ => self.fail(DumpError::Protocol),
        }
    }

    fn on_class_parent(self, response: Response) -> (next: (Walker, Step))
        requires
            self.wf(),
            self.at.phase == Phase::ClassParent,
        ensures
            next.0.wf(),
            (next.0@, next.1) == self@.on_class_parent(response@),
    {
        proof {
            reveal(WalkerView::on_class_parent);
        }
        match response {
            Response::Word(returned) => match self.api.class_get_parent(returned) {
                Ok(parent) => self.ask(Phase::ParentName, Entry::ClassGetName, parent.address, 0),
                Err(_) => self.begin_fields(),
            },
            _ => self.fail(DumpError::Protocol),
        }
    }

    fn on_parent_name(self, response: Response) -> (next: (Walker, Step))
        requires
            self.wf(),
            self.at.phase == Phase::ParentName,
        ensures
            next.0.wf(),
            (next.0@, next.1) == self@.on_parent_name(response@),
    {
        proof {
            reveal(WalkerView::on_parent_name);
        }
        match response {
            Response::Text(returned) => match self.api.class_get_name(as_bytes(&returned)) {
                Ok(name) => {
                    let mut walker = self;
                    walker.record.parent = Some(name);
                    walker.begin_fields()
                },
                Err(e) => self.refuse(e),
            },
            _ => self.fail(DumpError::Protocol),
        }
    }

    fn on_field(self, response: Response) -> (next: (Walker, Step))
        requires
            self.wf(),
            self.at.phase == Phase::Field,
        ensures
            next.0.wf(),
            (next.0@, next.1) == self@.on_field(response@),
    {
        proof {
            reveal(WalkerView::on_field);
        }
        match response {
            Response::Cursor { item, cursor } => match self.api.class_get_fields(item) {
                Ok(Some(field)) => {
                    let mut walker = self;
                    walker.at.field = field;
                    walker.at.cursor = cursor;
                    walker.ask(Phase::FieldFlags, Entry::FieldGetFlags, field.address, 0)
                },
                Ok(None) => self.begin_methods(),
                Err(e) => self.refuse(e),
            },
            _ => self.fail(DumpError::Protocol),
        }
    }

    fn on_field_flags(self, response: Response) -> (next: (Walker, Step))
        requires
            self.wf(),
            self.at.phase == Phase::FieldFlags,
        ensures
            next.0.wf(),
            (next.0@, next.1) == self@.on_field_flags(response@),
    {
        proof {
            reveal(WalkerView::on_field_flags);
        }
        match response {
            Response::Signed(returned) => match self.api.field_get_flags(returned) {
                Ok(flags) => {
                    let mut walker = self;
                    walker.at.field_flags = flags;
                    let field: usize = walker.at.field.address;
                    walker.ask(Phase::FieldType, Entry::FieldGetType, field, 0)
                },
                Err(e) => self.refuse(e),
            },
            _ => self.fail(DumpError::Protocol),
        }
    }

    fn on_field_type(self, response: Response) -> (next: (Walker, Step))
        requires
            self.wf(),
            self.at.phase == Phase::FieldType,
        ensures
            next.0.wf(),
            (next.0@, next.1) == self@.on_field_type(response@),
    {
        proof {
            reveal(WalkerView::on_field_type);
        }
        match response {
            Response::Word(returned) => match self.api.field_get_type(returned) {
                Ok(item_type) => {
                    let mut walker = self;
                    walker.at.item_type = item_type;
                    let field: usize = walker.at.field.address;
                    walker.ask(Phase::FieldOffset, Entry::FieldGetOffset, field, 0)
                },
                Err(e) => self.refuse(e),
            },
            _ => self.fail(DumpError::Protocol),
        }
    }

    fn on_field_offset(self, response: Response) -> (next: (Walker, Step))
        requires
            self.wf(),
            self.at.phase == Phase::FieldOffset,
        ensures
            next.0.wf(),
            (next.0@, next.1) == self@.on_field_offset(response@),
    {
        proof {
            reveal(WalkerView::on_field_offset);
        }
        match response {
            Response::Word(returned) => match self.api.field_get_offset(returned) {
                Ok(offset) => {
                    let mut walker = self;
                    walker.at.field_offset = offset;
                    let item_type: usize = walker.at.item_type.address;
                    walker.ask(Phase::FieldTypeName, Entry::TypeGetName, item_type, 0)
                },
                Err(e) => self.refuse(e),
            },
            _ => self.fail(DumpError::Protocol),
        }
    }

    fn on_field_type_name(self, response: Response) -> (next: (Walker, Step))
        requires
            self.wf(),
            self.at.phase == Phase::FieldTypeName,
        ensures
            next.0.wf(),
            (next.0@, next.1) == self@.on_field_type_name(response@),
    {
        proof {
            reveal(WalkerView::on_field_type_name);
        }
        match response {
            Response::Text(returned) => match self.api.type_get_name(as_bytes(&returned)) {
                Ok(name) => {
                    let mut walker = self;
                    walker.field_type = name;
                    let field: usize = walker.at.field.address;
                    walker.ask(Phase::FieldName, Entry::FieldGetName, field, 0)
                },
                Err(e) => self.refuse(e),
            },
            _ => self.fail(DumpError::Protocol),
        }
    }

    fn on_field_name(self, response: Response) -> (next: (Walker, Step))
        requires
            self.wf(),
            self.at.phase == Phase::FieldName,
        ensures
            next.0.wf(),
            (next.0@, next.1) == self@.on_field_name(response@),
    {
        proof {
            reveal(WalkerView::on_field_name);
        }
        match response {
            Response::Text(returned) => match self.api.field_get_name(as_bytes(&returned)) {
                Ok(name) => {
                    let Walker {
                        api,
                        layout,
                        at,
                        record,
                        field_type,
                        return_type,
                        method_name,
                        params,
                        offsets,
                        text,
                    } = self;
                    let mut record = record;
                    let ghost fields = record.fields@;
                    let field = FieldRecord {
                        flags: at.field_flags,
                        type_text: field_type,
                        name,
                        offset: at.field_offset,
                    };
                    let ghost view = field@;
                    record.fields.push(field);
                    assert(field_views(record.fields@) =~= field_views(fields).push(view));
                    let walker = Walker {
                        api,
                        layout,
                        at,
                        record,
                        field_type: String::new(),
                        return_type,
                        method_name,
                        params,
                        offsets,
                        text,
                    };
                    walker.next_field()
                },
                Err(e) => self.refuse(e),
            },
            _ => self.fail(DumpError::Protocol),
        }
    }

    fn on_method(self, response: Response) -> (next: (Walker, Step))
        requires
            self.wf(),
            self.at.phase == Phase::Method,
        ensures
            next.0.wf(),
            (next.0@, next.1) == self@.on_method(response@),
    {
        proof {
            reveal(WalkerView::on_method);
        }
        match response {
            Response::Cursor { item, cursor } => match self.api.class_get_methods(item) {
                Ok(Some(method)) => {
                    let mut walker = self;
                    walker.at.method = method;
                    walker.at.cursor = cursor;
                    walker.at.phase = Phase::MethodPointer;
                    let query = Query::ReadPointer {
                        base: method.address,
                        offset: walker.layout.method_pointer,
                    };
                    (walker, Step::Ask(query))
                },
                Ok(None) => match self.at.mode {
                    Mode::Classes => {
                        let mut walker = self;
                        let block = write_class(&walker.record, walker.api.game_assembly.handle);
                        walker.text.append(block.as_str());
                        walker.after_class()
                    },
                    _ => self.after_class(),
                },
                Err(e) => self.refuse(e),
            },
            _ => self.fail(DumpError::Protocol),
        }
    }

    fn on_method_pointer(self, response: Response) -> (next: (Walker, Step))
        requires
            self.wf(),
            self.at.phase == Phase::MethodPointer,
        ensures
            next.0.wf(),
            (next.0@, next.1) == self@.on_method_pointer(response@),
    {
        proof {
            reveal(WalkerView::on_method_pointer);
        }
        match response {
            Response::Word(pointer) => {
                let mut walker = self;
                walker.at.method_pointer = pointer;
                let method: usize = walker.at.method.address;
                match walker.at.mode {
                    Mode::Offsets => if verify_pointer(&walker.api.game_assembly, pointer) {
                        walker.ask(Phase::MethodName, Entry::MethodGetName, method, 0)
                    } else {
                        walker.next_method()
                    },
                    _ => {
                        walker.at.phase = Phase::MethodFlags;
                        let query = Query::ReadHalf { base: method, offset: walker.layout.flags };
                        (walker, Step::Ask(query))
                    },
                }
            },
            _ => self.fail(DumpError::Protocol),
        }
    }

    fn on_method_flags(self, response: Response) -> (next: (Walker, Step))
        requires
            self.wf(),
            self.at.phase == Phase::MethodFlags,
        ensures
            next.0.wf(),
            (next.0@, next.1) == self@.on_method_flags(response@),
    {
        proof {
            reveal(WalkerView::on_method_flags);
        }
        match response {
            Response::Half(flags) => {
                let mut walker = self;
                walker.at.method_flags = flags;
                let method: usize = walker.at.method.address;
                walker.ask(Phase::ReturnType, Entry::MethodGetReturnType, method, 0)
            },
            _ => self.fail(DumpError::Protocol),
        }
    }

    fn on_return_type(self, response: Response) -> (next: (Walker, Step))
        requires
            self.wf(),
            self.at.phase == Phase::ReturnType,
        ensures
            next.0.wf(),
            (next.0@, next.1) == self@.on_return_type(response@),
    {
        proof {
            reveal(WalkerView::on_return_type);
        }
        match response {
            Response::Word(returned) => match self.api.method_get_return_type(returned) {
                Ok(item_type) => {
                    let mut walker = self;
                    walker.at.item_type = item_type;
                    walker.ask(Phase::ReturnByref, Entry::TypeIsByref, item_type.address, 0)
                },
                Err(e) => self.refuse(e),
            },
            _ => self.fail(DumpError::Protocol),
        }
    }

    fn on_return_byref(self, response: Response) -> (next: (Walker, Step))
        requires
            self.wf(),
            self.at.phase == Phase::ReturnByref,
        ensures
            next.0.wf(),
            (next.0@, next.1) == self@.on_return_byref(response@),
    {
        proof {
            reveal(WalkerView::on_return_byref);
        }
        match response {
            Response::Flag(returned) => match self.api.type_is_byref(returned) {
                Ok(is_byref) => {
                    let mut walker = self;
                    walker.at.return_byref = is_byref;
                    let item_type: usize = walker.at.item_type.address;
                    walker.ask(Phase::ReturnTypeName, Entry::TypeGetName, item_type, 0)
                },
                Err(e) => self.refuse(e),
            },
            _ => self.fail(DumpError::Protocol),
        }
    }

    fn on_return_type_name(self, response: Response) -> (next: (Walker, Step))
        requires
            self.wf(),
            self.at.phase == Phase::ReturnTypeName,
        ensures
            next.0.wf(),
            (next.0@, next.1) == self@.on_return_type_name(response@),
    {
        proof {
            reveal(WalkerView::on_return_type_name);
        }
        match response {
            Response::Text(returned) => match self.api.type_get_name(as_bytes(&returned)) {
                Ok(name) => {
                    let mut walker = self;
                    walker.return_type = name;
                    let method: usize = walker.at.method.address;
                    walker.ask(Phase::MethodName, Entry::MethodGetName, method, 0)
                },
                Err(e) => self.refuse(e),
            },
            _ => self.fail(DumpError::Protocol),
        }
    }

    fn on_method_name(self, response: Response) -> (next: (Walker, Step))
        requires
            self.wf(),
            self.at.phase == Phase::MethodName,
        ensures
            next.0.wf(),
            (next.0@, next.1) == self@.on_method_name(response@),
    {
        proof {
            reveal(WalkerView::on_method_name);
        }
        match response {
            Response::Text(returned) => match self.api.method_get_name(as_bytes(&returned)) {
                Ok(name) => {
                    let mut walker = self;
                    match walker.at.mode {
                        Mode::Offsets => {
                            let key = describe(
                                walker.record.namespace.as_str(),
                                walker.record.name.as_str(),
                                name.as_str(),
                            );
                            let pointer: usize = walker.at.method_pointer;
                            walker.offsets.record(key, pointer);
                            walker.next_method()
                        },
                        _ => {
                            walker.method_name = name;
                            let method: usize = walker.at.method.address;
                            walker.ask(Phase::ParamCount, Entry::MethodGetParamCount, method, 0)
                        },
                    }
                },
                Err(e) => self.refuse(e),
            },
            _ => self.fail(DumpError::Protocol),
        }
    }

    fn on_param_count(self, response: Response) -> (next: (Walker, Step))
        requires
            self.wf(),
            self.at.phase == Phase::ParamCount,
        ensures
            next.0.wf(),
            (next.0@, next.1) == self@.on_param_count(response@),
    {
        proof {
            reveal(WalkerView::on_param_count);
        }
        match response {
            Response::Unsigned(returned) => match self.api.method_get_param_count(returned) {
                Ok(count) => {
                    let mut walker = self;
                    walker.at.param_count = count;
                    walker.at.param_index = 0;
                    walker.params = Vec::new();
                    assert(walker@.params =~= Seq::<ParamView>::empty());
                    walker.next_param()
                },
                Err(e) => self.refuse(e),
            },
            _ => self.fail(DumpError::Protocol),
        }
    }

    fn on_param(self, response: Response) -> (next: (Walker, Step))
        requires
            self.wf(),
            self.at.phase == Phase::Param,
        ensures
            next.0.wf(),
            (next.0@, next.1) == self@.on_param(response@),
    {
        proof {
            reveal(WalkerView::on_param);
        }
        match response {
            Response::Word(returned) => match self.api.method_get_param(returned) {
                Ok(item_type) => {
                    let mut walker = self;
                    walker.at.item_type = item_type;
                    walker.ask(Phase::ParamAttrs, Entry::TypeGetAttrs, item_type.address, 0)
                },
                Err(e) => self.refuse(e),
            },
            _ => self.fail(DumpError::Protocol),
        }
    }

    fn on_param_attrs(self, response: Response) -> (next: (Walker, Step))
        requires
            self.wf(),
            self.at.phase == Phase::ParamAttrs,
        ensures
            next.0.wf(),
            (next.0@, next.1) == self@.on_param_attrs(response@),
    {
        proof {
            reveal(WalkerView::on_param_attrs);
        }
        match response {
            Response::Unsigned(returned) => match self.api.type_get_attrs(returned) {
                Ok(attrs) => {
                    let mut walker = self;
                    walker.at.param_attrs = attrs;
                    let item_type: usize = walker.at.item_type.address;
                    walker.ask(Phase::ParamByref, Entry::TypeIsByref, item_type, 0)
                },
                Err(e) => self.refuse(e),
            },
            _ => self.fail(DumpError::Protocol),
        }
    }

    fn on_param_byref(self, response: Response) -> (next: (Walker, Step))
        requires
            self.wf(),
            self.at.phase == Phase::ParamByref,
        ensures
            next.0.wf(),
            (next.0@, next.1) == self@.on_param_byref(response@),
    {
        proof {
            reveal(WalkerView::on_param_byref);
        }
        match response {
            Response::Flag(returned) => match self.api.type_is_byref(returned) {
                Ok(is_byref) => {
                    let mut walker = self;
                    walker.at.param_byref = is_byref;
                    let item_type: usize = walker.at.item_type.address;
                    walker.ask(Phase::ParamTypeName, Entry::TypeGetName, item_type, 0)
                },
                Err(e) => self.refuse(e),
            },
            _ => self.fail(DumpError::Protocol),
        }
    }

    fn on_param_type_name(self, response: Response) -> (next: (Walker, Step))
        requires
            self.wf(),
            self.at.phase == Phase::ParamTypeName,
        ensures
            next.0.wf(),
            (next.0@, next.1) == self@.on_param_type_name(response@),
    {
        proof {
            reveal(WalkerView::on_param_type_name);
        }
        match response {
            Response::Text(returned) => match self.api.type_get_name(as_bytes(&returned)) {
                Ok(name) => {
                    let mut walker = self;
                    let ghost params = walker.params@;
                    let param = ParamRecord {
                        type_text: name,
                        attrs: walker.at.param_attrs,
                        is_byref: walker.at.param_byref,
                    };
                    let ghost view = param@;
                    walker.params.push(param);
                    assert(param_views(walker.params@) =~= param_views(params).push(view));
                    walker.at.param_index = walker.at.param_index + 1;
                    walker.next_param()
                },
                Err(e) => self.refuse(e),
            },
            _ => self.fail(DumpError::Protocol),
        }
    }

    /// Takes the answer to the question that is open and says what the
    /// walk does next.
    pub fn resume(self, response: Response) -> (next: (Walker, Step))
        requires
            self.wf(),
        ensures
            next.0.wf(),
            (next.0@, next.1) == self@.next(response@),
    {
        match self.at.phase {
            Phase::Start | Phase::Done | Phase::Failed => self.fail(DumpError::Protocol),
            Phase::Domain => self.on_domain(response),
            Phase::Assemblies => self.on_assemblies(response),
            Phase::Assembly => self.on_assembly(response),
            Phase::Image => self.on_image(response),
            Phase::ImageName => self.on_image_name(response),
            Phase::ClassCount => self.on_class_count(response),
            Phase::Class => self.on_class(response),
            Phase::ClassNamespace => self.on_class_namespace(response),
            Phase::ClassFlags => self.on_class_flags(response),
            Phase::ClassValuetype => self.on_class_valuetype(response),
            Phase::ClassEnum => self.on_class_enum(response),
            Phase::ClassName => self.on_class_name(response),
            Phase::ClassParent => self.on_class_parent(response),
            Phase::ParentName => self.on_parent_name(response),
            Phase::Field => self.on_field(response),
            Phase::FieldFlags => self.on_field_flags(response),
            Phase::FieldType => self.on_field_type(response),
            Phase::FieldOffset => self.on_field_offset(response),
            Phase::FieldTypeName => self.on_field_type_name(response),
            Phase::FieldName => self.on_field_name(response),
            Phase::Method => self.on_method(response),
            Phase::MethodPointer => self.on_method_pointer(response),
            Phase::MethodFlags => self.on_method_flags(response),
            Phase::ReturnType => self.on_return_type(response),
            Phase::ReturnByref => self.on_return_byref(response),
            Phase::ReturnTypeName => self.on_return_type_name(response),
            Phase::MethodName => self.on_method_name(response),
            Phase::ParamCount => self.on_param_count(response),
            Phase::Param => self.on_param(response),
            Phase::ParamAttrs => self.on_param_attrs(response),
            Phase::ParamByref => self.on_param_byref(response),
            Phase::ParamTypeName => self.on_param_type_name(response),
        }
    }
}

/// The walk after a series of answers, each given to the question that the
/// walk had open, and what it did last.
pub open spec fn replayed(start: (WalkerView, Step), answers: Seq<ResponseView>) -> (WalkerView, Step)
    decreases answers.len(),
{
    if answers.len() == 0 {
        start
    } else {
        replayed(start, answers.drop_last()).0.next(answers.last())
    }
}

/// A walk is stable: two walks that begin alike and are given the same
/// answers stand alike at every step, with the same text and the same
/// offsets gathered, whatever else differs between the two runs.
pub proof fn lemma_walk_is_stable(first: Walker, second: Walker, answers: Seq<ResponseView>)
    requires
        first@ == second@,
    ensures
        replayed((first@, Step::Finished), answers) == replayed(
            (second@, Step::Finished),
            answers,
        ),
{
}

} // verus!
