//! Loaded modules: where a shared library sits in the process and how
//! large its mapped image is.

use vstd::prelude::*;
use vstd::string::*;

verus! {

/// Why a module could not be loaded.
#[derive(PartialEq, Eq, Structural, Clone, Copy, Debug)]
pub enum ModuleError {
    PathBufToStr,
    CreateCString,
    LoadLibrary,
    ModuleInformation,
}

impl ModuleError {
    pub open spec fn message_text(self) -> Seq<char> {
        match self {
            ModuleError::PathBufToStr => "failed to convert PathBuf to str"@,
            ModuleError::CreateCString => "failed to create a CString"@,
            ModuleError::LoadLibrary => "failed to load a library"@,
            ModuleError::ModuleInformation => "failed to get module information"@,
        }
    }

    /// The description of the error, as it is shown to the user.
    pub fn message(&self) -> (text: String)
        ensures
            text@ == self.message_text(),
    {
        match self {
            ModuleError::PathBufToStr => String::from_str("failed to convert PathBuf to str"),
            ModuleError::CreateCString => String::from_str("failed to create a CString"),
            ModuleError::LoadLibrary => String::from_str("failed to load a library"),
            ModuleError::ModuleInformation => String::from_str("failed to get module information"),
        }
    }
}

/// A shared library mapped into the process: the address of its first byte
/// and the size of its image in bytes.
#[derive(PartialEq, Eq, Structural, Clone, Copy, Debug)]
pub struct Module {
    pub handle: usize,
    pub size: usize,
}

/// The bytes of a path as the loader takes them: the path's bytes followed
/// by one zero byte.
pub open spec fn native_path(path: Seq<u8>) -> Seq<u8> {
    path.push(0u8)
}

impl Module {
    /// Whether `pointer` lies inside the image: at or above its first byte
    /// and below its end.
    pub open spec fn contains(self, pointer: usize) -> bool {
        self.handle <= pointer < self.handle + self.size
    }

    /// What the loader is given for a path: the refusal of a path that is
    /// no text or holds a zero byte, or the path with its terminating zero.
    pub open spec fn native(path: Option<Seq<u8>>) -> Result<Seq<u8>, ModuleError> {
        match path {
            None => Err(ModuleError::PathBufToStr),
            Some(bytes) => if bytes.contains(0u8) {
                Err(ModuleError::CreateCString)
            } else {
                Ok(native_path(bytes))
            },
        }
    }

    /// The module behind a handle, from the answer to the image query: a
    /// null handle is a failed load, whatever the answer; a missing size is
    /// a failed query.
    pub open spec fn loaded(handle: usize, image_size: Option<u32>) -> Result<Module, ModuleError> {
        if handle == 0 {
            Err(ModuleError::LoadLibrary)
        } else {
            match image_size {
                None => Err(ModuleError::ModuleInformation),
                Some(size) => Ok(Module { handle, size: size as usize }),
            }
        }
    }

    /// Prepares the path of a library for the loader. A path that is not
    /// text is refused, and so is one that holds a zero byte; any other
    /// path is handed back with its terminating zero.
    pub fn native_name(path: Option<&str>) -> (name: Result<Vec<u8>, ModuleError>)
        ensures
            match Module::native(
                match path {
                    Some(p) => Some(p.spec_bytes()),
                    None => None,
                },
            ) {
                Ok(bytes) => name is Ok && name->Ok_0@ == bytes,
                Err(e) => name == Err::<Vec<u8>, ModuleError>(e),
            },
    {
        match path {
            None => Err(ModuleError::PathBufToStr),
            Some(p) => {
                let mut bytes: Vec<u8> = p.as_bytes_vec();
                let mut i: usize = 0;
                while i < bytes.len()
                    invariant
                        i <= bytes.len(),
                        path == Some(p),
                        bytes@ == p.spec_bytes(),
                        forall|k: int| 0 <= k < i ==> bytes@[k] != 0u8,
                    decreases bytes.len() - i,
                {
                    if bytes[i] == 0 {
                        assert(p.spec_bytes()[i as int] == 0u8);
                        return Err(ModuleError::CreateCString);
                    }
                    i = i + 1;
                }
                bytes.push(0u8);
                Ok(bytes)
            },
        }
    }

    /// Records a module from what the loader answered: the handle it
    /// returned and, where the image could be queried, the image's size.
    pub fn load(handle: usize, image_size: Option<u32>) -> (module: Result<Module, ModuleError>)
        ensures
            module == Module::loaded(handle, image_size),
    {
        if handle == 0 {
            return Err(ModuleError::LoadLibrary);
        }
        match image_size {
            None => Err(ModuleError::ModuleInformation),
            Some(size) => Ok(Module { handle, size: size as usize }),
        }
    }

    /// Whether `pointer` lies inside the image.
    pub fn holds(&self, pointer: usize) -> (inside: bool)
        ensures
            inside == self.contains(pointer),
    {
        pointer >= self.handle && pointer - self.handle < self.size
    }
}

/// How a bound entry point is called: the shape of its arguments and of
/// what it returns.
#[derive(PartialEq, Eq, Structural, Clone, Copy, Debug)]
pub enum Signature {
    /// No argument; returns a handle.
    Nullary,
    /// One handle; returns a handle.
    Handle,
    /// One handle and an index of machine width; returns a handle.
    Indexed,
    /// One handle and a 32-bit index; returns a handle.
    Indexed32,
    /// One handle and the address of a count that the callee fills; returns
    /// the address of an array of handles.
    Counted,
    /// One handle and the address of a cursor that the callee advances;
    /// returns a handle.
    Cursor,
    /// One handle; returns the address of zero-terminated text.
    Text,
    /// One handle; returns a truth value.
    Flag,
    /// One handle; returns a signed 32-bit number.
    Signed,
    /// One handle; returns an unsigned 32-bit number.
    Unsigned,
    /// One handle; returns a machine word.
    Word,
}

/// A bound entry point: the address of its code, never null, and how to
/// call it.
#[derive(PartialEq, Eq, Structural, Clone, Copy, Debug)]
pub struct FunctionPtr {
    pub ptr: usize,
    pub signature: Signature,
}

impl FunctionPtr {
    pub fn new(address: usize, signature: Signature) -> (function: FunctionPtr)
        ensures
            function == (FunctionPtr { ptr: address, signature }),
    {
        FunctionPtr { ptr: address, signature }
    }
}

} // verus!
