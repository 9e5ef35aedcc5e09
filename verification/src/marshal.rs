//! How the arguments of a probe reach it.
//!
//! A probe does not follow the C calling convention in full: each argument
//! travels in one register, the first argument in the first argument register
//! of the processor, and none on the stack. So a probe has at most as many
//! arguments as there are such registers.
use crate::error::Error;
use crate::provider::{Arch, DataType, PassingClass};
use vstd::prelude::*;

verus! {

/// The number of arguments that a probe can take.
pub const MAX_ARGUMENTS: usize = 6;

/// A register in which a probe argument travels.
#[derive(Debug, Clone, Copy, PartialEq, Eq, Structural)]
pub enum Register {
    Rdi,
    Rsi,
    Rdx,
    Rcx,
    R8,
    R9,
    X0,
    X1,
    X2,
    X3,
    X4,
    X5,
}

/// One argument of a probe, made ready for the probe's instruction.
#[derive(Debug, Clone, Copy, PartialEq, Eq, Structural)]
pub struct Argument {
    /// The argument's place among the probe's arguments, from zero.
    pub index: usize,
    /// The argument's declared type.
    pub data_type: DataType,
    /// Whether the register holds the value or its address.
    pub class: PassingClass,
    /// The register that carries it.
    pub register: Register,
}

/// The register of the argument at `index`, for `index` below
/// `MAX_ARGUMENTS`.
pub open spec fn register_of(arch: Arch, index: int) -> Register {
    match arch {
        Arch::X86_64 => if index == 0 {
            Register::Rdi
        } else if index == 1 {
            Register::Rsi
        } else if index == 2 {
            Register::Rdx
        } else if index == 3 {
            Register::Rcx
        } else if index == 4 {
            Register::R8
        } else {
            Register::R9
        },
        Arch::AArch64 => if index == 0 {
            Register::X0
        } else if index == 1 {
            Register::X1
        } else if index == 2 {
            Register::X2
        } else if index == 3 {
            Register::X3
        } else if index == 4 {
            Register::X4
        } else {
            Register::X5
        },
    }
}

/// The argument at `index` of a probe whose arguments have the given types.
pub open spec fn argument_of(types: Seq<DataType>, arch: Arch, index: int) -> Argument {
    Argument {
        index: index as usize,
        data_type: types[index],
        class: types[index].class_of(),
        register: register_of(arch, index),
    }
}

/// The arguments of a probe whose arguments have the given types, in the
/// order of declaration.
pub open spec fn arguments_of(types: Seq<DataType>, arch: Arch) -> Seq<Argument> {
    Seq::new(types.len(), |index: int| argument_of(types, arch, index))
}

impl Register {
    /// The name by which an assembler knows the register.
    pub open spec fn name_of(self) -> Seq<char> {
        match self {
            Register::Rdi => "rdi"@,
            Register::Rsi => "rsi"@,
            Register::Rdx => "rdx"@,
            Register::Rcx => "rcx"@,
            Register::R8 => "r8"@,
            Register::R9 => "r9"@,
            Register::X0 => "x0"@,
            Register::X1 => "x1"@,
            Register::X2 => "x2"@,
            Register::X3 => "x3"@,
            Register::X4 => "x4"@,
            Register::X5 => "x5"@,
        }
    }

    /// The name by which an assembler knows the register.
    pub fn name(&self) -> (name: &'static str)
        ensures
            name@ == self.name_of(),
    {
        match self {
            Register::Rdi => "rdi",
            Register::Rsi => "rsi",
            Register::Rdx => "rdx",
            Register::Rcx => "rcx",
            Register::R8 => "r8",
            Register::R9 => "r9",
            Register::X0 => "x0",
            Register::X1 => "x1",
            Register::X2 => "x2",
            Register::X3 => "x3",
            Register::X4 => "x4",
            Register::X5 => "x5",
        }
    }
}

/// The register of the argument at `index`.
pub fn argument_register(arch: Arch, index: usize) -> (register: Register)
    requires
        index < MAX_ARGUMENTS,
    ensures
        register == register_of(arch, index as int),
{
    match arch {
        Arch::X86_64 => if index == 0 {
            Register::Rdi
        } else if index == 1 {
            Register::Rsi
        } else if index == 2 {
            Register::Rdx
        } else if index == 3 {
            Register::Rcx
        } else if index == 4 {
            Register::R8
        } else {
            Register::R9
        },
        Arch::AArch64 => if index == 0 {
            Register::X0
        } else if index == 1 {
            Register::X1
        } else if index == 2 {
            Register::X2
        } else if index == 3 {
            Register::X3
        } else if index == 4 {
            Register::X4
        } else {
            Register::X5
        },
    }
}

/// The arguments of a probe, each with its class and its register, in the
/// order of declaration. A probe with more than `MAX_ARGUMENTS` arguments
/// cannot be marshaled.
pub fn construct_probe_args(types: &[DataType], arch: Arch) -> (arguments: Result<
    Vec<Argument>,
    Error,
>)
    ensures
        match arguments {
            Ok(arguments) => types@.len() <= MAX_ARGUMENTS && arguments@ == arguments_of(
                types@,
                arch,
            ),
            Err(error) => types@.len() > MAX_ARGUMENTS && error == Error::ParseFailure,
        },
{
    if types.len() > MAX_ARGUMENTS {
        return Err(Error::ParseFailure);
    }
    let mut arguments: Vec<Argument> = Vec::new();
    let mut index: usize = 0;
    while index < types.len()
        invariant
            index <= types@.len() <= MAX_ARGUMENTS,
            arguments@ == arguments_of(types@, arch).take(index as int),
        decreases types.len() - index,
    {
        let data_type = types[index];
        arguments.push(
            Argument {
                index,
                data_type,
                class: data_type.class(),
                register: argument_register(arch, index),
            },
        );
        assert(arguments@ =~= arguments_of(types@, arch).take(index + 1));
        index += 1;
    }
    assert(arguments@ =~= arguments_of(types@, arch));
    Ok(arguments)
}

/// A probe with `n` arguments, `n` at most `MAX_ARGUMENTS`, gets `n`
/// arguments made ready, in the order of declaration, each in a register of
/// its own.
pub proof fn lemma_one_register_each(types: Seq<DataType>, arch: Arch)
    requires
        types.len() <= MAX_ARGUMENTS,
    ensures
        arguments_of(types, arch).len() == types.len(),
        forall|i: int|
            0 <= i < types.len() ==> (#[trigger] arguments_of(types, arch)[i]).index == i
                && arguments_of(types, arch)[i].data_type == types[i],
        forall|i: int, j: int|
            0 <= i < j < types.len() ==> (#[trigger] arguments_of(types, arch)[i]).register
                != (#[trigger] arguments_of(types, arch)[j]).register,
{
}

} // verus!
