//! Handles of the runtime's objects. A handle is the address of an object
//! that the runtime owns: it is carried around and handed back, never
//! released and, but for the two fields of a method record, never read.

use vstd::prelude::*;

verus! {

/// A class of the runtime.
#[derive(PartialEq, Eq, Structural, Clone, Copy, Debug)]
pub struct Il2CppClass {
    pub address: usize,
}

/// A type of the runtime: the type of a field, of a parameter or of what a
/// method returns.
#[derive(PartialEq, Eq, Structural, Clone, Copy, Debug)]
pub struct Il2CppType {
    pub address: usize,
}

/// A method of the runtime. The record behind the handle holds, at the two
/// offsets of a [`MethodLayout`], the method's code pointer and its flags.
#[derive(PartialEq, Eq, Structural, Clone, Copy, Debug)]
pub struct MethodInfo {
    pub address: usize,
}

/// A field of the runtime.
#[derive(PartialEq, Eq, Structural, Clone, Copy, Debug)]
pub struct FieldInfo {
    pub address: usize,
}

/// An assembly of the runtime.
#[derive(PartialEq, Eq, Structural, Clone, Copy, Debug)]
pub struct Il2CppAssembly {
    pub address: usize,
}

/// The application domain of the runtime.
#[derive(PartialEq, Eq, Structural, Clone, Copy, Debug)]
pub struct Il2CppDomain {
    pub address: usize,
}

/// An image of the runtime: the metadata of one assembly.
#[derive(PartialEq, Eq, Structural, Clone, Copy, Debug)]
pub struct Il2CppImage {
    pub address: usize,
}

/// Where the two fields that are read from a method record lie, in bytes
/// from the start of the record. They differ between builds of a game.
#[derive(PartialEq, Eq, Structural, Clone, Copy, Debug)]
pub struct MethodLayout {
    pub method_pointer: usize,
    pub flags: usize,
}

impl MethodLayout {
    /// The layout of the build the dumper was made for: the code pointer
    /// behind the class pointer, the flags thirty-two bytes of padding
    /// further on.
    pub fn standard() -> (layout: MethodLayout)
        ensures
            layout == (MethodLayout { method_pointer: 8, flags: 0x30 }),
    {
        MethodLayout { method_pointer: 8, flags: 0x30 }
    }
}

} // verus!
