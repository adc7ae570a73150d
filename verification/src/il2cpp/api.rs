//! The checks on what the runtime answers: a missing entry point, a null
//! where a handle is owed, text that is not UTF-8, and the rewriting of
//! primitive type names.

use crate::il2cpp::functions::{Entry, Il2CppFunctions, TableLayout};
use crate::il2cpp::module::{FunctionPtr, Module, ModuleError};
use crate::il2cpp::types::{
    FieldInfo, Il2CppClass, Il2CppDomain, Il2CppImage, Il2CppType, MethodInfo,
};
use crate::text::{
    chars_of, lemma_replace_all_absent, lemma_replace_all_never_grows, lemma_replace_all_shrinks,
    occurs, replace_all, replace_token, string_of,
};
use vstd::prelude::*;
use vstd::string::*;
use vstd::utf8::{decode_utf8, valid_utf8};

verus! {

/// The two libraries of a game: the one that holds the generated native
/// code and the one that holds the runtime.
#[derive(PartialEq, Eq, Structural, Clone, Copy, Debug)]
pub enum Library {
    GameAssembly,
    UnityPlayer,
}

impl Library {
    pub open spec fn file_name_text(self) -> Seq<char> {
        match self {
            Library::GameAssembly => "GameAssembly.dll"@,
            Library::UnityPlayer => "UnityPlayer.dll"@,
        }
    }

    /// The name of the library's file, which lies beside the executable.
    pub fn file_name(self) -> (name: &'static str)
        ensures
            name@ == self.file_name_text(),
    {
        match self {
            Library::GameAssembly => "GameAssembly.dll",
            Library::UnityPlayer => "UnityPlayer.dll",
        }
    }
}

/// Why a dump was given up.
#[derive(PartialEq, Eq, Structural, Clone, Copy, Debug)]
pub enum Il2CppError {
    /// A library could not be loaded.
    Module(ModuleError),
    /// Text from the runtime is not UTF-8.
    Utf8,
    /// A library is missing beside the executable.
    FileNotFound(Library),
    /// An entry point is called whose slot in the function table was empty.
    FunctionNotFound(Entry),
    /// The directory of the executable could not be found.
    RootNotFound,
    /// An entry point returned null where it owes a handle.
    ReturnedNull(Entry),
}

impl Il2CppError {
    pub open spec fn message_text(self) -> Seq<char> {
        match self {
            Il2CppError::Module(e) => e.message_text(),
            Il2CppError::Utf8 => "invalid utf-8 sequence"@,
            Il2CppError::FileNotFound(library) => "file not found "@ + library.file_name_text(),
            Il2CppError::FunctionNotFound(entry) => "function not found "@ + entry.name_text(),
            Il2CppError::RootNotFound => "root path not found"@,
            Il2CppError::ReturnedNull(entry) => "function returned null "@ + entry.name_text(),
        }
    }

    /// The description of the error, as it is shown to the user.
    pub fn message(&self) -> (text: String)
        ensures
            text@ == self.message_text(),
    {
        match self {
            Il2CppError::Module(e) => e.message(),
            Il2CppError::Utf8 => String::from_str("invalid utf-8 sequence"),
            Il2CppError::FileNotFound(library) => {
                let mut text = String::from_str("file not found ");
                text.append(library.file_name());
                text
            },
            Il2CppError::FunctionNotFound(entry) => {
                let mut text = String::from_str("function not found ");
                text.append(entry.name());
                text
            },
            Il2CppError::RootNotFound => String::from_str("root path not found"),
            Il2CppError::ReturnedNull(entry) => {
                let mut text = String::from_str("function returned null ");
                text.append(entry.name());
                text
            },
        }
    }
}

/// `std::str::from_utf8`, with the text copied into a string: it succeeds
/// on exactly the byte sequences that are UTF-8 and then yields the
/// characters they encode.
#[verifier::external_body]
fn from_utf8(bytes: &Vec<u8>) -> (text: Option<String>)
    ensures
        text is Some <==> valid_utf8(bytes@),
        text matches Some(s) ==> s@ == decode_utf8(bytes@),
{
    match std::str::from_utf8(bytes) {
        Ok(s) => Some(s.to_string()),
        Err(_) => None,
    }
}

/// The number of rules in the table of primitive type names.
pub const PRIMITIVE_TYPES: usize = 18;

/// One rule of the table of primitive type names: the token that is
/// looked for and what stands in its place.
pub open spec fn primitive_rule(index: int) -> (Seq<char>, Seq<char>) {
    if index == 0 {
        ("System.Void"@, "void"@)
    } else if index == 1 {
        ("System.Boolean"@, "bool"@)
    } else if index == 2 {
        ("System.Char"@, "char"@)
    } else if index == 3 {
        ("System.SByte"@, "sbyte"@)
    } else if index == 4 {
        ("System.Byte"@, "byte"@)
    } else if index == 5 {
        ("System.Int16"@, "short"@)
    } else if index == 6 {
        ("System.UInt16"@, "ushort"@)
    } else if index == 7 {
        ("System.Int32"@, "int"@)
    } else if index == 8 {
        ("System.UInt32"@, "uint"@)
    } else if index == 9 {
        ("System.Int64"@, "long"@)
    } else if index == 10 {
        ("System.UInt64"@, "ulong"@)
    } else if index == 11 {
        ("System.Single"@, "float"@)
    } else if index == 12 {
        ("System.Double"@, "double"@)
    } else if index == 13 {
        ("System.String"@, "string"@)
    } else if index == 14 {
        ("System.IntPtr"@, "IntPtr"@)
    } else if index == 15 {
        ("System.UIntPtr"@, "UIntPtr"@)
    } else if index == 16 {
        ("System.Object"@, "object"@)
    } else {
        ("&"@, ""@)
    }
}

/// `name` after the first `count` rules of the table have been applied,
/// one after the other.
pub open spec fn rewritten_through(name: Seq<char>, count: nat) -> Seq<char>
    decreases count,
{
    if count == 0 {
        name
    } else {
        replace_all(
            rewritten_through(name, (count - 1) as nat),
            primitive_rule(count - 1).0,
            primitive_rule(count - 1).1,
        )
    }
}

/// A type name with the names of the primitive types rewritten: every rule
/// of the table applied in the table's order.
pub open spec fn rewritten(name: Seq<char>) -> Seq<char> {
    rewritten_through(name, PRIMITIVE_TYPES as nat)
}

fn rule(index: usize) -> (rule: (&'static str, &'static str))
    requires
        index < PRIMITIVE_TYPES,
    ensures
        (rule.0@, rule.1@) == primitive_rule(index as int),
{
    if index == 0 {
        ("System.Void", "void")
    } else if index == 1 {
        ("System.Boolean", "bool")
    } else if index == 2 {
        ("System.Char", "char")
    } else if index == 3 {
        ("System.SByte", "sbyte")
    } else if index == 4 {
        ("System.Byte", "byte")
    } else if index == 5 {
        ("System.Int16", "short")
    } else if index == 6 {
        ("System.UInt16", "ushort")
    } else if index == 7 {
        ("System.Int32", "int")
    } else if index == 8 {
        ("System.UInt32", "uint")
    } else if index == 9 {
        ("System.Int64", "long")
    } else if index == 10 {
        ("System.UInt64", "ulong")
    } else if index == 11 {
        ("System.Single", "float")
    } else if index == 12 {
        ("System.Double", "double")
    } else if index == 13 {
        ("System.String", "string")
    } else if index == 14 {
        ("System.IntPtr", "IntPtr")
    } else if index == 15 {
        ("System.UIntPtr", "UIntPtr")
    } else if index == 16 {
        ("System.Object", "object")
    } else {
        ("&", "")
    }
}

/// Rewrites the names of the primitive types in a type name.
pub fn rewrite(name: &str) -> (out: String)
    ensures
        out@ == rewritten(name@),
{
    let mut chars = chars_of(name);
    let mut i: usize = 0;
    while i < PRIMITIVE_TYPES
        invariant
            i <= PRIMITIVE_TYPES,
            chars@ == rewritten_through(name@, i as nat),
        decreases PRIMITIVE_TYPES - i,
    {
        let (from, to) = rule(i);
        let from_chars = chars_of(from);
        let to_chars = chars_of(to);
        chars = replace_token(&chars, &from_chars, &to_chars);
        i = i + 1;
    }
    string_of(&chars)
}

/// What is made of a returned handle: an unbound entry point is reported
/// first, then a null.
pub open spec fn checked_handle(functions: Il2CppFunctions, entry: Entry, returned: usize) -> Result<
    usize,
    Il2CppError,
> {
    if functions.entry(entry) is None {
        Err(Il2CppError::FunctionNotFound(entry))
    } else if returned == 0 {
        Err(Il2CppError::ReturnedNull(entry))
    } else {
        Ok(returned)
    }
}

/// What is made of the item that a cursor call returned: null ends the
/// sequence and is no error.
pub open spec fn checked_item(functions: Il2CppFunctions, entry: Entry, returned: usize) -> Result<
    Option<usize>,
    Il2CppError,
> {
    if functions.entry(entry) is None {
        Err(Il2CppError::FunctionNotFound(entry))
    } else if returned == 0 {
        Ok(None)
    } else {
        Ok(Some(returned))
    }
}

/// What is made of returned text: an unbound entry point is reported
/// first, then a null, then bytes that are not UTF-8.
pub open spec fn checked_text(
    functions: Il2CppFunctions,
    entry: Entry,
    returned: Option<Seq<u8>>,
) -> Result<Seq<char>, Il2CppError> {
    if functions.entry(entry) is None {
        Err(Il2CppError::FunctionNotFound(entry))
    } else {
        match returned {
            None => Err(Il2CppError::ReturnedNull(entry)),
            Some(bytes) => if valid_utf8(bytes) {
                Ok(decode_utf8(bytes))
            } else {
                Err(Il2CppError::Utf8)
            },
        }
    }
}

/// The view of a text result.
pub open spec fn text_view(result: Result<String, Il2CppError>) -> Result<Seq<char>, Il2CppError> {
    match result {
        Ok(s) => Ok(s@),
        Err(e) => Err(e),
    }
}

/// The view of returned bytes.
pub open spec fn bytes_view(returned: Option<&Vec<u8>>) -> Option<Seq<u8>> {
    match returned {
        Some(bytes) => Some(bytes@),
        None => None,
    }
}

/// The rewritten form of a text result.
pub open spec fn rewritten_result(result: Result<Seq<char>, Il2CppError>) -> Result<
    Seq<char>,
    Il2CppError,
> {
    match result {
        Ok(name) => Ok(rewritten(name)),
        Err(e) => Err(e),
    }
}

/// The list of assemblies of a domain: the address of the array of handles
/// and the number of handles in it.
#[derive(PartialEq, Eq, Structural, Clone, Copy, Debug)]
pub struct Assemblies {
    pub list: usize,
    pub count: usize,
}

/// The two modules of a game and the entry points bound from the runtime
/// module. Each operation takes what the entry point of its name returned
/// and says what the dump makes of it.
#[derive(PartialEq, Eq, Structural, Clone, Copy, Debug)]
pub struct Il2CppApi {
    pub game_assembly: Module,
    pub unity_player: Module,
    pub functions: Il2CppFunctions,
}

impl Il2CppApi {
    /// Binds the entry points for two loaded modules from a copy of the
    /// function table.
    pub fn new(
        game_assembly: Module,
        unity_player: Module,
        table: &Vec<usize>,
        layout: &TableLayout,
    ) -> (api: Il2CppApi)
        ensures
            api == (Il2CppApi {
                game_assembly,
                unity_player,
                functions: Il2CppFunctions::bind(table@, *layout),
            }),
            api.functions.wf(),
            forall|entry: Entry| #[trigger]
                api.functions.entry(entry) == crate::il2cpp::functions::bound(
                    table@,
                    layout.slot(entry),
                    entry.signature(),
                ),
    {
        Il2CppApi { game_assembly, unity_player, functions: Il2CppFunctions::new(table, layout) }
    }

    /// The bound entry point, or the error of calling one that is not
    /// bound.
    pub fn function(&self, entry: Entry) -> (function: Result<FunctionPtr, Il2CppError>)
        ensures
            function == match self.functions.entry(entry) {
                Some(f) => Ok::<FunctionPtr, Il2CppError>(f),
                None => Err::<FunctionPtr, Il2CppError>(Il2CppError::FunctionNotFound(entry)),
            },
    {
        match self.functions.get(entry) {
            Some(f) => Ok(f),
            None => Err(Il2CppError::FunctionNotFound(entry)),
        }
    }

    fn handle(&self, entry: Entry, returned: usize) -> (handle: Result<usize, Il2CppError>)
        ensures
            handle == checked_handle(self.functions, entry, returned),
    {
        if self.functions.get(entry).is_none() {
            Err(Il2CppError::FunctionNotFound(entry))
        } else if returned == 0 {
            Err(Il2CppError::ReturnedNull(entry))
        } else {
            Ok(returned)
        }
    }

    fn item(&self, entry: Entry, returned: usize) -> (item: Result<Option<usize>, Il2CppError>)
        ensures
            item == checked_item(self.functions, entry, returned),
    {
        if self.functions.get(entry).is_none() {
            Err(Il2CppError::FunctionNotFound(entry))
        } else if returned == 0 {
            Ok(None)
        } else {
            Ok(Some(returned))
        }
    }

    fn text(&self, entry: Entry, returned: Option<&Vec<u8>>) -> (text: Result<String, Il2CppError>)
        ensures
            text_view(text) == checked_text(self.functions, entry, bytes_view(returned)),
    {
        if self.functions.get(entry).is_none() {
            return Err(Il2CppError::FunctionNotFound(entry));
        }
        match returned {
            None => Err(Il2CppError::ReturnedNull(entry)),
            Some(bytes) => match from_utf8(bytes) {
                Some(s) => Ok(s),
                None => Err(Il2CppError::Utf8),
            },
        }
    }

    /// The application domain; the runtime owes one.
    pub fn domain_get(&self, returned: usize) -> (result: Result<Il2CppDomain, Il2CppError>)
        ensures
            result == match checked_handle(self.functions, Entry::DomainGet, returned) {
                Ok(address) => Ok::<Il2CppDomain, Il2CppError>(Il2CppDomain { address }),
                Err(e) => Err::<Il2CppDomain, Il2CppError>(e),
            },
    {
        match self.handle(Entry::DomainGet, returned) {
            Ok(address) => Ok(Il2CppDomain { address }),
            Err(e) => Err(e),
        }
    }

    /// The assemblies of a domain: the array that was returned, which the
    /// runtime owes, and the count that the call filled in.
    pub fn domain_get_assemblies(&self, returned: usize, count: usize) -> (result: Result<
        Assemblies,
        Il2CppError,
    >)
        ensures
            result == match checked_handle(self.functions, Entry::DomainGetAssemblies, returned) {
                Ok(list) => Ok::<Assemblies, Il2CppError>(Assemblies { list, count }),
                Err(e) => Err::<Assemblies, Il2CppError>(e),
            },
    {
        match self.handle(Entry::DomainGetAssemblies, returned) {
            Ok(list) => Ok(Assemblies { list, count }),
            Err(e) => Err(e),
        }
    }

    /// The image of an assembly; every assembly has one.
    pub fn assembly_get_image(&self, returned: usize) -> (result: Result<Il2CppImage, Il2CppError>)
        ensures
            result == match checked_handle(self.functions, Entry::AssemblyGetImage, returned) {
                Ok(address) => Ok::<Il2CppImage, Il2CppError>(Il2CppImage { address }),
                Err(e) => Err::<Il2CppImage, Il2CppError>(e),
            },
    {
        match self.handle(Entry::AssemblyGetImage, returned) {
            Ok(address) => Ok(Il2CppImage { address }),
            Err(e) => Err(e),
        }
    }

    /// The name of an image.
    pub fn image_get_name(&self, returned: Option<&Vec<u8>>) -> (result: Result<String, Il2CppError>)
        ensures
            text_view(result) == checked_text(self.functions, Entry::ImageGetName, bytes_view(returned)),
    {
        self.text(Entry::ImageGetName, returned)
    }

    /// The number of classes of an image.
    pub fn image_get_class_count(&self, returned: usize) -> (result: Result<usize, Il2CppError>)
        ensures
            result == match self.functions.entry(Entry::ImageGetClassCount) {
                Some(_) => Ok::<usize, Il2CppError>(returned),
                None => Err::<usize, Il2CppError>(Il2CppError::FunctionNotFound(Entry::ImageGetClassCount)),
            },
    {
        if self.functions.get(Entry::ImageGetClassCount).is_none() {
            Err(Il2CppError::FunctionNotFound(Entry::ImageGetClassCount))
        } else {
            Ok(returned)
        }
    }

    /// The class in one slot of an image; a slot may be empty.
    pub fn image_get_class(&self, returned: usize) -> (result: Result<Option<Il2CppClass>, Il2CppError>)
        ensures
            result == match checked_item(self.functions, Entry::ImageGetClass, returned) {
                Ok(Some(address)) => Ok::<Option<Il2CppClass>, Il2CppError>(Some(Il2CppClass { address })),
                Ok(None) => Ok::<Option<Il2CppClass>, Il2CppError>(None),
                Err(e) => Err::<Option<Il2CppClass>, Il2CppError>(e),
            },
    {
        match self.item(Entry::ImageGetClass, returned) {
            Ok(Some(address)) => Ok(Some(Il2CppClass { address })),
            Ok(None) => Ok(None),
            Err(e) => Err(e),
        }
    }

    /// The next field of a class, or none at the end of the fields.
    pub fn class_get_fields(&self, returned: usize) -> (result: Result<Option<FieldInfo>, Il2CppError>)
        ensures
            result == match checked_item(self.functions, Entry::ClassGetFields, returned) {
                Ok(Some(address)) => Ok::<Option<FieldInfo>, Il2CppError>(Some(FieldInfo { address })),
                Ok(None) => Ok::<Option<FieldInfo>, Il2CppError>(None),
                Err(e) => Err::<Option<FieldInfo>, Il2CppError>(e),
            },
    {
        match self.item(Entry::ClassGetFields, returned) {
            Ok(Some(address)) => Ok(Some(FieldInfo { address })),
            Ok(None) => Ok(None),
            Err(e) => Err(e),
        }
    }

    /// The next method of a class, or none at the end of the methods.
    pub fn class_get_methods(&self, returned: usize) -> (result: Result<Option<MethodInfo>, Il2CppError>)
        ensures
            result == match checked_item(self.functions, Entry::ClassGetMethods, returned) {
                Ok(Some(address)) => Ok::<Option<MethodInfo>, Il2CppError>(Some(MethodInfo { address })),
                Ok(None) => Ok::<Option<MethodInfo>, Il2CppError>(None),
                Err(e) => Err::<Option<MethodInfo>, Il2CppError>(e),
            },
    {
        match self.item(Entry::ClassGetMethods, returned) {
            Ok(Some(address)) => Ok(Some(MethodInfo { address })),
            Ok(None) => Ok(None),
            Err(e) => Err(e),
        }
    }

    /// The name of a class.
    pub fn class_get_name(&self, returned: Option<&Vec<u8>>) -> (result: Result<String, Il2CppError>)
        ensures
            text_view(result) == checked_text(self.functions, Entry::ClassGetName, bytes_view(returned)),
    {
        self.text(Entry::ClassGetName, returned)
    }

    /// The namespace of a class.
    pub fn class_get_namespace(&self, returned: Option<&Vec<u8>>) -> (result: Result<String, Il2CppError>)
        ensures
            text_view(result) == checked_text(self.functions, Entry::ClassGetNamespace, bytes_view(returned)),
    {
        self.text(Entry::ClassGetNamespace, returned)
    }

    /// The base class of a class; a null is reported as an error, which the
    /// pseudo-source takes as a class without a base.
    pub fn class_get_parent(&self, returned: usize) -> (result: Result<Il2CppClass, Il2CppError>)
        ensures
            result == match checked_handle(self.functions, Entry::ClassGetParent, returned) {
                Ok(address) => Ok::<Il2CppClass, Il2CppError>(Il2CppClass { address }),
                Err(e) => Err::<Il2CppClass, Il2CppError>(e),
            },
    {
        match self.handle(Entry::ClassGetParent, returned) {
            Ok(address) => Ok(Il2CppClass { address }),
            Err(e) => Err(e),
        }
    }

    /// The attribute bits of a class.
    pub fn class_get_flags(&self, returned: i32) -> (result: Result<i32, Il2CppError>)
        ensures
            result == match self.functions.entry(Entry::ClassGetFlags) {
                Some(_) => Ok::<i32, Il2CppError>(returned),
                None => Err::<i32, Il2CppError>(Il2CppError::FunctionNotFound(Entry::ClassGetFlags)),
            },
    {
        if self.functions.get(Entry::ClassGetFlags).is_none() {
            Err(Il2CppError::FunctionNotFound(Entry::ClassGetFlags))
        } else {
            Ok(returned)
        }
    }

    /// The class of a type.
    pub fn class_from_type(&self, returned: usize) -> (result: Result<Il2CppClass, Il2CppError>)
        ensures
            result == match checked_handle(self.functions, Entry::ClassFromType, returned) {
                Ok(address) => Ok::<Il2CppClass, Il2CppError>(Il2CppClass { address }),
                Err(e) => Err::<Il2CppClass, Il2CppError>(e),
            },
    {
        match self.handle(Entry::ClassFromType, returned) {
            Ok(address) => Ok(Il2CppClass { address }),
            Err(e) => Err(e),
        }
    }

    /// Whether a class is an enumeration.
    pub fn class_is_enum(&self, returned: bool) -> (result: Result<bool, Il2CppError>)
        ensures
            result == match self.functions.entry(Entry::ClassIsEnum) {
                Some(_) => Ok::<bool, Il2CppError>(returned),
                None => Err::<bool, Il2CppError>(Il2CppError::FunctionNotFound(Entry::ClassIsEnum)),
            },
    {
        if self.functions.get(Entry::ClassIsEnum).is_none() {
            Err(Il2CppError::FunctionNotFound(Entry::ClassIsEnum))
        } else {
            Ok(returned)
        }
    }

    /// Whether a class is a value type.
    pub fn class_is_valuetype(&self, returned: bool) -> (result: Result<bool, Il2CppError>)
        ensures
            result == match self.functions.entry(Entry::ClassIsValuetype) {
                Some(_) => Ok::<bool, Il2CppError>(returned),
                None => Err::<bool, Il2CppError>(Il2CppError::FunctionNotFound(Entry::ClassIsValuetype)),
            },
    {
        if self.functions.get(Entry::ClassIsValuetype).is_none() {
            Err(Il2CppError::FunctionNotFound(Entry::ClassIsValuetype))
        } else {
            Ok(returned)
        }
    }

    /// The attribute bits of a field.
    pub fn field_get_flags(&self, returned: i32) -> (result: Result<i32, Il2CppError>)
        ensures
            result == match self.functions.entry(Entry::FieldGetFlags) {
                Some(_) => Ok::<i32, Il2CppError>(returned),
                None => Err::<i32, Il2CppError>(Il2CppError::FunctionNotFound(Entry::FieldGetFlags)),
            },
    {
        if self.functions.get(Entry::FieldGetFlags).is_none() {
            Err(Il2CppError::FunctionNotFound(Entry::FieldGetFlags))
        } else {
            Ok(returned)
        }
    }

    /// The name of a field.
    pub fn field_get_name(&self, returned: Option<&Vec<u8>>) -> (result: Result<String, Il2CppError>)
        ensures
            text_view(result) == checked_text(self.functions, Entry::FieldGetName, bytes_view(returned)),
    {
        self.text(Entry::FieldGetName, returned)
    }

    /// The offset of a field inside an instance.
    pub fn field_get_offset(&self, returned: usize) -> (result: Result<usize, Il2CppError>)
        ensures
            result == match self.functions.entry(Entry::FieldGetOffset) {
                Some(_) => Ok::<usize, Il2CppError>(returned),
                None => Err::<usize, Il2CppError>(Il2CppError::FunctionNotFound(Entry::FieldGetOffset)),
            },
    {
        if self.functions.get(Entry::FieldGetOffset).is_none() {
            Err(Il2CppError::FunctionNotFound(Entry::FieldGetOffset))
        } else {
            Ok(returned)
        }
    }

    /// The type of a field.
    pub fn field_get_type(&self, returned: usize) -> (result: Result<Il2CppType, Il2CppError>)
        ensures
            result == match checked_handle(self.functions, Entry::FieldGetType, returned) {
                Ok(address) => Ok::<Il2CppType, Il2CppError>(Il2CppType { address }),
                Err(e) => Err::<Il2CppType, Il2CppError>(e),
            },
    {
        match self.handle(Entry::FieldGetType, returned) {
            Ok(address) => Ok(Il2CppType { address }),
            Err(e) => Err(e),
        }
    }

    /// The type that a method returns.
    pub fn method_get_return_type(&self, returned: usize) -> (result: Result<Il2CppType, Il2CppError>)
        ensures
            result == match checked_handle(self.functions, Entry::MethodGetReturnType, returned) {
                Ok(address) => Ok::<Il2CppType, Il2CppError>(Il2CppType { address }),
                Err(e) => Err::<Il2CppType, Il2CppError>(e),
            },
    {
        match self.handle(Entry::MethodGetReturnType, returned) {
            Ok(address) => Ok(Il2CppType { address }),
            Err(e) => Err(e),
        }
    }

    /// The name of a method.
    pub fn method_get_name(&self, returned: Option<&Vec<u8>>) -> (result: Result<String, Il2CppError>)
        ensures
            text_view(result) == checked_text(self.functions, Entry::MethodGetName, bytes_view(returned)),
    {
        self.text(Entry::MethodGetName, returned)
    }

    /// The number of parameters of a method.
    pub fn method_get_param_count(&self, returned: u32) -> (result: Result<u32, Il2CppError>)
        ensures
            result == match self.functions.entry(Entry::MethodGetParamCount) {
                Some(_) => Ok::<u32, Il2CppError>(returned),
                None => Err::<u32, Il2CppError>(Il2CppError::FunctionNotFound(Entry::MethodGetParamCount)),
            },
    {
        if self.functions.get(Entry::MethodGetParamCount).is_none() {
            Err(Il2CppError::FunctionNotFound(Entry::MethodGetParamCount))
        } else {
            Ok(returned)
        }
    }

    /// The type of one parameter of a method.
    pub fn method_get_param(&self, returned: usize) -> (result: Result<Il2CppType, Il2CppError>)
        ensures
            result == match checked_handle(self.functions, Entry::MethodGetParam, returned) {
                Ok(address) => Ok::<Il2CppType, Il2CppError>(Il2CppType { address }),
                Err(e) => Err::<Il2CppType, Il2CppError>(e),
            },
    {
        match self.handle(Entry::MethodGetParam, returned) {
            Ok(address) => Ok(Il2CppType { address }),
            Err(e) => Err(e),
        }
    }

    /// The name of a type, with the names of the primitive types rewritten.
    pub fn type_get_name(&self, returned: Option<&Vec<u8>>) -> (result: Result<String, Il2CppError>)
        ensures
            text_view(result) == rewritten_result(
                checked_text(self.functions, Entry::TypeGetName, bytes_view(returned)),
            ),
    {
        match self.text(Entry::TypeGetName, returned) {
            Ok(name) => Ok(rewrite(name.as_str())),
            Err(e) => Err(e),
        }
    }

    /// Whether a type is passed by reference.
    pub fn type_is_byref(&self, returned: bool) -> (result: Result<bool, Il2CppError>)
        ensures
            result == match self.functions.entry(Entry::TypeIsByref) {
                Some(_) => Ok::<bool, Il2CppError>(returned),
                None => Err::<bool, Il2CppError>(Il2CppError::FunctionNotFound(Entry::TypeIsByref)),
            },
    {
        if self.functions.get(Entry::TypeIsByref).is_none() {
            Err(Il2CppError::FunctionNotFound(Entry::TypeIsByref))
        } else {
            Ok(returned)
        }
    }

    /// The attribute bits of a parameter's type.
    pub fn type_get_attrs(&self, returned: u32) -> (result: Result<u32, Il2CppError>)
        ensures
            result == match self.functions.entry(Entry::TypeGetAttrs) {
                Some(_) => Ok::<u32, Il2CppError>(returned),
                None => Err::<u32, Il2CppError>(Il2CppError::FunctionNotFound(Entry::TypeGetAttrs)),
            },
    {
        if self.functions.get(Entry::TypeGetAttrs).is_none() {
            Err(Il2CppError::FunctionNotFound(Entry::TypeGetAttrs))
        } else {
            Ok(returned)
        }
    }
}

/// No token of the table occurs in `name`.
pub open spec fn free_of_primitive_tokens(name: Seq<char>) -> bool {
    forall|index: int|
        0 <= index < PRIMITIVE_TYPES ==> !occurs(name, (#[trigger] primitive_rule(index)).0)
}

/// A name in which no token of the table occurs is left as it is.
pub proof fn lemma_rewrite_keeps_plain_names(name: Seq<char>)
    requires
        free_of_primitive_tokens(name),
    ensures
        rewritten(name) == name,
{
    lemma_rewrite_through_keeps_plain_names(name, PRIMITIVE_TYPES as nat);
}

proof fn lemma_rewrite_through_keeps_plain_names(name: Seq<char>, count: nat)
    requires
        free_of_primitive_tokens(name),
        count <= PRIMITIVE_TYPES,
    ensures
        rewritten_through(name, count) == name,
    decreases count,
{
    if count > 0 {
        lemma_rewrite_through_keeps_plain_names(name, (count - 1) as nat);
        let rule = primitive_rule(count - 1);
        lemma_replace_all_absent(name, rule.0, rule.1);
    }
}

/// Rewriting is idempotent on every name whose rewritten form holds no
/// token of the table any more: rewriting it a second time changes
/// nothing.
pub proof fn lemma_rewrite_idempotent(name: Seq<char>)
    requires
        free_of_primitive_tokens(rewritten(name)),
    ensures
        rewritten(rewritten(name)) == rewritten(name),
{
    lemma_rewrite_keeps_plain_names(rewritten(name));
}

/// Every rule of the table puts a shorter token in the place of the one
/// it looks for.
pub proof fn lemma_rules_shorten(index: int)
    requires
        0 <= index < PRIMITIVE_TYPES,
    ensures
        primitive_rule(index).1.len() < primitive_rule(index).0.len(),
{
    reveal_strlit("System.Void");
    reveal_strlit("System.Boolean");
    reveal_strlit("System.Char");
    reveal_strlit("System.SByte");
    reveal_strlit("System.Byte");
    reveal_strlit("System.Int16");
    reveal_strlit("System.UInt16");
    reveal_strlit("System.Int32");
    reveal_strlit("System.UInt32");
    reveal_strlit("System.Int64");
    reveal_strlit("System.UInt64");
    reveal_strlit("System.Single");
    reveal_strlit("System.Double");
    reveal_strlit("System.String");
    reveal_strlit("System.IntPtr");
    reveal_strlit("System.UIntPtr");
    reveal_strlit("System.Object");
    reveal_strlit("&");
    reveal_strlit("void");
    reveal_strlit("bool");
    reveal_strlit("char");
    reveal_strlit("sbyte");
    reveal_strlit("byte");
    reveal_strlit("short");
    reveal_strlit("ushort");
    reveal_strlit("int");
    reveal_strlit("uint");
    reveal_strlit("long");
    reveal_strlit("ulong");
    reveal_strlit("float");
    reveal_strlit("double");
    reveal_strlit("string");
    reveal_strlit("IntPtr");
    reveal_strlit("UIntPtr");
    reveal_strlit("object");
    reveal_strlit("");
}

proof fn lemma_rewrite_through_shrinks(name: Seq<char>, count: nat)
    requires
        count <= PRIMITIVE_TYPES,
    ensures
        rewritten_through(name, count).len() < name.len() || (rewritten_through(name, count)
            == name && forall|index: int|
            0 <= index < count ==> !occurs(name, (#[trigger] primitive_rule(index)).0)),
    decreases count,
{
    if count > 0 {
        lemma_rewrite_through_shrinks(name, (count - 1) as nat);
        let before = rewritten_through(name, (count - 1) as nat);
        let rule = primitive_rule(count - 1);
        lemma_rules_shorten(count - 1);
        lemma_replace_all_never_grows(before, rule.0, rule.1);
        if before == name {
            if occurs(name, rule.0) {
                lemma_replace_all_shrinks(name, rule.0, rule.1);
            } else {
                lemma_replace_all_absent(name, rule.0, rule.1);
            }
        }
    }
}

/// Rewriting leaves a name as it is exactly where no token of the table
/// occurs in it. So rewriting is idempotent on a name exactly where its
/// rewritten form holds no token any more.
pub proof fn lemma_rewrite_fixed_points(name: Seq<char>)
    ensures
        rewritten(name) == name <==> free_of_primitive_tokens(name),
        rewritten(rewritten(name)) == rewritten(name) <==> free_of_primitive_tokens(
            rewritten(name),
        ),
{
    lemma_rewrite_through_shrinks(name, PRIMITIVE_TYPES as nat);
    lemma_rewrite_through_shrinks(rewritten(name), PRIMITIVE_TYPES as nat);
    if free_of_primitive_tokens(name) {
        lemma_rewrite_keeps_plain_names(name);
    }
    if free_of_primitive_tokens(rewritten(name)) {
        lemma_rewrite_keeps_plain_names(rewritten(name));
    }
}

} // verus!
