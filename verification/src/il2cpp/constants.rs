//! Attribute bit masks of the managed metadata, as the common language
//! infrastructure defines them.

use vstd::prelude::*;

verus! {

pub const TYPE_ATTRIBUTE_VISIBILITY_MASK: i32 = 0x7;

pub const TYPE_ATTRIBUTE_NOT_PUBLIC: i32 = 0x0;

pub const TYPE_ATTRIBUTE_PUBLIC: i32 = 0x1;

pub const TYPE_ATTRIBUTE_NESTED_PUBLIC: i32 = 0x2;

pub const TYPE_ATTRIBUTE_NESTED_PRIVATE: i32 = 0x3;

pub const TYPE_ATTRIBUTE_NESTED_FAMILY: i32 = 0x4;

pub const TYPE_ATTRIBUTE_NESTED_ASSEMBLY: i32 = 0x5;

pub const TYPE_ATTRIBUTE_NESTED_FAM_AND_ASSEM: i32 = 0x6;

pub const TYPE_ATTRIBUTE_NESTED_FAM_OR_ASSEM: i32 = 0x7;

pub const TYPE_ATTRIBUTE_INTERFACE: i32 = 0x20;

pub const TYPE_ATTRIBUTE_ABSTRACT: i32 = 0x80;

pub const TYPE_ATTRIBUTE_SEALED: i32 = 0x100;

pub const TYPE_ATTRIBUTE_SERIALIZABLE: i32 = 0x2000;

pub const FIELD_ATTRIBUTE_FIELD_ACCESS_MASK: i32 = 0x7;

pub const FIELD_ATTRIBUTE_PRIVATE: i32 = 0x1;

pub const FIELD_ATTRIBUTE_FAM_AND_ASSEM: i32 = 0x4;

pub const FIELD_ATTRIBUTE_ASSEMBLY: i32 = 0x3;

pub const FIELD_ATTRIBUTE_FAMILY: i32 = 0x5;

pub const FIELD_ATTRIBUTE_FAM_OR_ASSEM: i32 = 0x6;

pub const FIELD_ATTRIBUTE_PUBLIC: i32 = 0x7;

pub const FIELD_ATTRIBUTE_STATIC: i32 = 0x10;

pub const FIELD_ATTRIBUTE_INIT_ONLY: i32 = 0x20;

pub const FIELD_ATTRIBUTE_LITERAL: i32 = 0x40;

pub const METHOD_ATTRIBUTE_MEMBER_ACCESS_MASK: i32 = 0x7;

pub const METHOD_ATTRIBUTE_PRIVATE: i32 = 0x1;

pub const METHOD_ATTRIBUTE_FAM_AND_ASSEM: i32 = 0x4;

pub const METHOD_ATTRIBUTE_ASSEM: i32 = 0x3;

pub const METHOD_ATTRIBUTE_FAMILY: i32 = 0x5;

pub const METHOD_ATTRIBUTE_FAM_OR_ASSEM: i32 = 0x6;

pub const METHOD_ATTRIBUTE_PUBLIC: i32 = 0x7;

pub const METHOD_ATTRIBUTE_STATIC: i32 = 0x10;

pub const METHOD_ATTRIBUTE_FINAL: i32 = 0x20;

pub const METHOD_ATTRIBUTE_VIRTUAL: i32 = 0x40;

pub const METHOD_ATTRIBUTE_VTABLE_LAYOUT_MASK: i32 = 0x100;

pub const METHOD_ATTRIBUTE_REUSE_SLOT: i32 = 0x0;

pub const METHOD_ATTRIBUTE_NEW_SLOT: i32 = 0x100;

pub const METHOD_ATTRIBUTE_ABSTRACT: i32 = 0x400;

pub const METHOD_ATTRIBUTE_PINVOKE_IMPL: i32 = 0x2000;

pub const PARAM_ATTRIBUTE_IN: i32 = 0x1;

pub const PARAM_ATTRIBUTE_OUT: i32 = 0x2;

} // verus!
