//! The JNA integer classes that back integer wrappers.
use vstd::prelude::*;

use crate::ir::IntKind;

verus! {

/// The JNA representation chosen for a C integer kind.
#[derive(Clone, Copy, Debug, PartialEq, Eq, Structural)]
pub enum JnaIntegerType {
    Byte,
    Short,
    Int,
    NativeLong,
    Long,
    SizeT,
}

/// The `Pointer` accessor pair through which a wrapper reads and writes memory.
pub enum Accessor {
    Byte,
    Short,
    Int,
    NativeLong,
    Long,
}

pub open spec fn accessor(t: JnaIntegerType) -> Accessor {
    match t {
        JnaIntegerType::Byte => Accessor::Byte,
        JnaIntegerType::Short => Accessor::Short,
        JnaIntegerType::Int => Accessor::Int,
        JnaIntegerType::NativeLong | JnaIntegerType::SizeT => Accessor::NativeLong,
        JnaIntegerType::Long => Accessor::Long,
    }
}

/// The call that stores `value` at offset 0 with the accessor.
pub open spec fn setter_call(a: Accessor) -> Seq<char> {
    match a {
        Accessor::Byte => "setByte(0, (byte)value.intValue())"@,
        Accessor::Short => "setShort(0, (short)value.intValue())"@,
        Accessor::Int => "setInt(0, value.intValue())"@,
        Accessor::NativeLong => "setNativeLong(0, new NativeLong(value.longValue()))"@,
        Accessor::Long => "setLong(0, value.longValue())"@,
    }
}

/// The call that loads the value at offset 0 with the accessor.
pub open spec fn getter_call(a: Accessor) -> Seq<char> {
    match a {
        Accessor::Byte => "getByte(0)"@,
        Accessor::Short => "getShort(0)"@,
        Accessor::Int => "getInt(0)"@,
        Accessor::NativeLong => "getNativeLong(0).longValue()"@,
        Accessor::Long => "getLong(0)"@,
    }
}

/// Byte width expression passed to JNA's `IntegerType`.
pub open spec fn size_text(t: JnaIntegerType) -> Seq<char> {
    match t {
        JnaIntegerType::Byte => "1"@,
        JnaIntegerType::Short => "2"@,
        JnaIntegerType::Int => "4"@,
        JnaIntegerType::NativeLong => "Native.LONG_SIZE"@,
        JnaIntegerType::Long => "8"@,
        JnaIntegerType::SizeT => "Native.SIZE_T_SIZE"@,
    }
}

pub open spec fn set_method_text(t: JnaIntegerType) -> Seq<char> {
    match t {
        JnaIntegerType::Byte => "setByte(0, (byte)value.intValue())"@,
        JnaIntegerType::Short => "setShort(0, (short)value.intValue())"@,
        JnaIntegerType::Int => "setInt(0, value.intValue())"@,
        JnaIntegerType::NativeLong => "setNativeLong(0, new NativeLong(value.longValue()))"@,
        JnaIntegerType::SizeT => "setNativeLong(0, new NativeLong(value.longValue()))"@,
        JnaIntegerType::Long => "setLong(0, value.longValue())"@,
    }
}

pub open spec fn get_method_text(t: JnaIntegerType) -> Seq<char> {
    match t {
        JnaIntegerType::Byte => "getByte(0)"@,
        JnaIntegerType::Short => "getShort(0)"@,
        JnaIntegerType::Int => "getInt(0)"@,
        JnaIntegerType::NativeLong => "getNativeLong(0).longValue()"@,
        JnaIntegerType::SizeT => "getNativeLong(0).longValue()"@,
        JnaIntegerType::Long => "getLong(0)"@,
    }
}

pub open spec fn jna_kind(k: IntKind) -> JnaIntegerType {
    match k {
        IntKind::Short | IntKind::B16 => JnaIntegerType::Short,
        IntKind::Int | IntKind::B32 => JnaIntegerType::Int,
        IntKind::Long => JnaIntegerType::NativeLong,
        IntKind::LongLong | IntKind::B64 => JnaIntegerType::Long,
        IntKind::SizeT | IntKind::Size => JnaIntegerType::SizeT,
        IntKind::B8 => JnaIntegerType::Byte,
    }
}

/// A value stored through a reference wrapper's `setValue` is read back by
/// its `getValue`: for every integer kind both go through the same memory
/// accessor, and the stored value is narrowed only to that accessor's width.
pub proof fn integer_wrapper_round_trip(t: JnaIntegerType)
    ensures
        set_method_text(t) == setter_call(accessor(t)),
        get_method_text(t) == getter_call(accessor(t)),
{
}

impl JnaIntegerType {
    pub fn size(&self) -> (r: &'static str)
        ensures
            r@ == size_text(*self),
    {
        match self {
            JnaIntegerType::Byte => "1",
            JnaIntegerType::Short => "2",
            JnaIntegerType::Int => "4",
            JnaIntegerType::NativeLong => "Native.LONG_SIZE",
            JnaIntegerType::Long => "8",
            JnaIntegerType::SizeT => "Native.SIZE_T_SIZE",
        }
    }

    pub fn set_method(&self) -> (r: &'static str)
        ensures
            r@ == set_method_text(*self),
    {
        match self {
            JnaIntegerType::Byte => "setByte(0, (byte)value.intValue())",
            JnaIntegerType::Short => "setShort(0, (short)value.intValue())",
            JnaIntegerType::Int => "setInt(0, value.intValue())",
            JnaIntegerType::NativeLong | JnaIntegerType::SizeT => {
                "setNativeLong(0, new NativeLong(value.longValue()))"
            },
            JnaIntegerType::Long => "setLong(0, value.longValue())",
        }
    }

    pub fn get_method(&self) -> (r: &'static str)
        ensures
            r@ == get_method_text(*self),
    {
        match self {
            JnaIntegerType::Byte => "getByte(0)",
            JnaIntegerType::Short => "getShort(0)",
            JnaIntegerType::Int => "getInt(0)",
            JnaIntegerType::NativeLong | JnaIntegerType::SizeT => "getNativeLong(0).longValue()",
            JnaIntegerType::Long => "getLong(0)",
        }
    }

    pub fn from_kind(kind: &IntKind) -> (r: JnaIntegerType)
        ensures
            r == jna_kind(*kind),
    {
        match kind {
            IntKind::Short => JnaIntegerType::Short,
            IntKind::Int => JnaIntegerType::Int,
            IntKind::Long => JnaIntegerType::NativeLong,
            IntKind::LongLong => JnaIntegerType::Long,
            IntKind::SizeT => JnaIntegerType::SizeT,
            IntKind::Size => JnaIntegerType::SizeT,
            IntKind::B8 => JnaIntegerType::Byte,
            IntKind::B16 => JnaIntegerType::Short,
            IntKind::B32 => JnaIntegerType::Int,
            IntKind::B64 => JnaIntegerType::Long,
        }
    }
}

} // verus!
