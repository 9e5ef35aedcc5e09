//! Providers, probes and the types of probe arguments.
use vstd::prelude::*;
use vstd::string::*;

verus! {

/// Whether an integer is signed.
#[derive(Debug, Clone, Copy, PartialEq, Eq, Structural)]
pub enum Sign {
    Signed,
    Unsigned,
}

/// The width of an integer.
#[derive(Debug, Clone, Copy, PartialEq, Eq, Structural)]
pub enum BitWidth {
    Bit8,
    Bit16,
    Bit32,
    Bit64,
    /// As wide as a pointer of the machine.
    Pointer,
}

/// The type of a probe argument.
#[derive(Debug, Clone, Copy, PartialEq, Eq, Structural)]
pub enum DataType {
    /// An integer of fixed width, or one as wide as a pointer.
    Integer(Sign, BitWidth),
    /// A string; the probe receives it terminated by a zero byte.
    String,
}

/// How an argument reaches the probe.
#[derive(Debug, Clone, Copy, PartialEq, Eq, Structural)]
pub enum PassingClass {
    /// The value itself travels in the register.
    Register,
    /// The register holds the address of the value.
    Indirect,
}

/// The processors for which probe sites can be generated.
#[derive(Debug, Clone, Copy, PartialEq, Eq, Structural)]
pub enum Arch {
    X86_64,
    AArch64,
}

impl DataType {
    /// The class in which an argument of this type is passed.
    pub open spec fn class_of(self) -> PassingClass {
        match self {
            DataType::Integer(_, _) => PassingClass::Register,
            DataType::String => PassingClass::Indirect,
        }
    }

    /// The C type that stands for this type in a provider definition.
    pub open spec fn c_type_of(self) -> Seq<char> {
        match self {
            DataType::Integer(Sign::Unsigned, BitWidth::Bit8) => "uint8_t"@,
            DataType::Integer(Sign::Unsigned, BitWidth::Bit16) => "uint16_t"@,
            DataType::Integer(Sign::Unsigned, BitWidth::Bit32) => "uint32_t"@,
            DataType::Integer(Sign::Unsigned, BitWidth::Bit64) => "uint64_t"@,
            DataType::Integer(Sign::Unsigned, BitWidth::Pointer) => "uintptr_t"@,
            DataType::Integer(Sign::Signed, BitWidth::Bit8) => "int8_t"@,
            DataType::Integer(Sign::Signed, BitWidth::Bit16) => "int16_t"@,
            DataType::Integer(Sign::Signed, BitWidth::Bit32) => "int32_t"@,
            DataType::Integer(Sign::Signed, BitWidth::Bit64) => "int64_t"@,
            DataType::Integer(Sign::Signed, BitWidth::Pointer) => "intptr_t"@,
            DataType::String => "char*"@,
        }
    }

    /// The Rust type with the layout of that C type.
    pub open spec fn rust_ffi_type_of(self) -> Seq<char> {
        match self {
            DataType::Integer(Sign::Unsigned, BitWidth::Bit8) => "::std::os::raw::c_uchar"@,
            DataType::Integer(Sign::Unsigned, BitWidth::Bit16) => "::std::os::raw::c_ushort"@,
            DataType::Integer(Sign::Unsigned, BitWidth::Bit32) => "::std::os::raw::c_uint"@,
            DataType::Integer(Sign::Unsigned, BitWidth::Bit64) => "::std::os::raw::c_ulonglong"@,
            DataType::Integer(Sign::Unsigned, BitWidth::Pointer) => "usize"@,
            DataType::Integer(Sign::Signed, BitWidth::Bit8) => "::std::os::raw::c_schar"@,
            DataType::Integer(Sign::Signed, BitWidth::Bit16) => "::std::os::raw::c_short"@,
            DataType::Integer(Sign::Signed, BitWidth::Bit32) => "::std::os::raw::c_int"@,
            DataType::Integer(Sign::Signed, BitWidth::Bit64) => "::std::os::raw::c_longlong"@,
            DataType::Integer(Sign::Signed, BitWidth::Pointer) => "isize"@,
            DataType::String => "*const ::std::os::raw::c_char"@,
        }
    }

    /// The class in which an argument of this type is passed.
    pub fn class(&self) -> (class: PassingClass)
        ensures
            class == self.class_of(),
    {
        match self {
            DataType::Integer(_, _) => PassingClass::Register,
            DataType::String => PassingClass::Indirect,
        }
    }

    /// The C type that stands for this type in a provider definition.
    pub fn to_c_type(&self) -> (name: &'static str)
        ensures
            name@ == self.c_type_of(),
    {
        match self {
            DataType::Integer(Sign::Unsigned, BitWidth::Bit8) => "uint8_t",
            DataType::Integer(Sign::Unsigned, BitWidth::Bit16) => "uint16_t",
            DataType::Integer(Sign::Unsigned, BitWidth::Bit32) => "uint32_t",
            DataType::Integer(Sign::Unsigned, BitWidth::Bit64) => "uint64_t",
            DataType::Integer(Sign::Unsigned, BitWidth::Pointer) => "uintptr_t",
            DataType::Integer(Sign::Signed, BitWidth::Bit8) => "int8_t",
            DataType::Integer(Sign::Signed, BitWidth::Bit16) => "int16_t",
            DataType::Integer(Sign::Signed, BitWidth::Bit32) => "int32_t",
            DataType::Integer(Sign::Signed, BitWidth::Bit64) => "int64_t",
            DataType::Integer(Sign::Signed, BitWidth::Pointer) => "intptr_t",
            DataType::String => "char*",
        }
    }

    /// The Rust type with the layout of that C type.
    pub fn to_rust_ffi_type(&self) -> (name: &'static str)
        ensures
            name@ == self.rust_ffi_type_of(),
    {
        match self {
            DataType::Integer(Sign::Unsigned, BitWidth::Bit8) => "::std::os::raw::c_uchar",
            DataType::Integer(Sign::Unsigned, BitWidth::Bit16) => "::std::os::raw::c_ushort",
            DataType::Integer(Sign::Unsigned, BitWidth::Bit32) => "::std::os::raw::c_uint",
            DataType::Integer(Sign::Unsigned, BitWidth::Bit64) => "::std::os::raw::c_ulonglong",
            DataType::Integer(Sign::Unsigned, BitWidth::Pointer) => "usize",
            DataType::Integer(Sign::Signed, BitWidth::Bit8) => "::std::os::raw::c_schar",
            DataType::Integer(Sign::Signed, BitWidth::Bit16) => "::std::os::raw::c_short",
            DataType::Integer(Sign::Signed, BitWidth::Bit32) => "::std::os::raw::c_int",
            DataType::Integer(Sign::Signed, BitWidth::Bit64) => "::std::os::raw::c_longlong",
            DataType::Integer(Sign::Signed, BitWidth::Pointer) => "isize",
            DataType::String => "*const ::std::os::raw::c_char",
        }
    }
}

/// A tracepoint: a name, and the types of its arguments in the order in which
/// a firing site gives them.
#[derive(Debug, Clone)]
pub struct Probe {
    pub name: String,
    pub types: Vec<DataType>,
}

/// A probe as mathematical values.
pub struct ProbeView {
    pub name: Seq<char>,
    pub types: Seq<DataType>,
}

impl View for Probe {
    type V = ProbeView;

    open spec fn view(&self) -> ProbeView {
        ProbeView { name: self.name@, types: self.types@ }
    }
}

/// A named collection of probes.
#[derive(Debug, Clone)]
pub struct Provider {
    pub name: String,
    pub probes: Vec<Probe>,
    /// Declarations that the generated code brings into scope, as source
    /// text.
    pub use_statements: Vec<String>,
}

/// A provider as mathematical values.
pub struct ProviderView {
    pub name: Seq<char>,
    pub probes: Seq<ProbeView>,
    pub use_statements: Seq<Seq<char>>,
}

impl View for Provider {
    type V = ProviderView;

    open spec fn view(&self) -> ProviderView {
        ProviderView {
            name: self.name@,
            probes: self.probes@.map_values(|probe: Probe| probe@),
            use_statements: self.use_statements@.map_values(|text: String| text@),
        }
    }
}

/// The parts, with the separator between each two neighbours.
pub open spec fn joined(parts: Seq<Seq<char>>, separator: Seq<char>) -> Seq<char>
    decreases parts.len(),
{
    if parts.len() == 0 {
        Seq::empty()
    } else if parts.len() == 1 {
        parts[0]
    } else {
        joined(parts.drop_last(), separator) + separator + parts.last()
    }
}

/// The declaration of a probe in the language of provider definitions.
pub open spec fn probe_source_of(probe: ProbeView) -> Seq<char> {
    "probe "@ + probe.name + "("@ + joined(
        probe.types.map_values(|data_type: DataType| data_type.c_type_of()),
        ", "@,
    ) + ");"@
}

/// The definition of a provider in the language of provider definitions: one
/// line for each probe, indented by a tabulator, between braces.
pub open spec fn provider_source_of(provider: ProviderView) -> Seq<char> {
    "provider "@ + provider.name + " {\n"@ + joined(
        provider.probes.map_values(|probe: ProbeView| "\t"@ + probe_source_of(probe)),
        "\n"@,
    ) + "\n};"@
}

impl Probe {
    /// The declaration of the probe in the language of provider definitions.
    pub fn to_d_source(&self) -> (source: String)
        ensures
            source@ == probe_source_of(self@),
    {
        let ghost names = self.types@.map_values(|data_type: DataType| data_type.c_type_of());
        let mut source = "probe ".to_owned();
        source.append(self.name.as_str());
        source.append("(");
        let ghost head = source@;
        let mut i: usize = 0;
        while i < self.types.len()
            invariant
                i <= self.types.len(),
                names == self.types@.map_values(|data_type: DataType| data_type.c_type_of()),
                source@ == head + joined(names.take(i as int), ", "@),
            decreases self.types.len() - i,
        {
            assert(names.take(i + 1).drop_last() =~= names.take(i as int));
            if i > 0 {
                source.append(", ");
            }
            source.append(self.types[i].to_c_type());
            i += 1;
        }
        assert(names.take(i as int) =~= names);
        source.append(");");
        source
    }
}

impl Provider {
    /// The definition of the provider in the language of provider
    /// definitions.
    pub fn to_d_source(&self) -> (source: String)
        ensures
            source@ == provider_source_of(self@),
    {
        let ghost lines = self@.probes.map_values(
            |probe: ProbeView| "\t"@ + probe_source_of(probe),
        );
        let mut source = "provider ".to_owned();
        source.append(self.name.as_str());
        source.append(" {\n");
        let ghost head = source@;
        let mut i: usize = 0;
        while i < self.probes.len()
            invariant
                i <= self.probes.len(),
                lines == self@.probes.map_values(
                    |probe: ProbeView| "\t"@ + probe_source_of(probe),
                ),
                source@ == head + joined(lines.take(i as int), "\n"@),
            decreases self.probes.len() - i,
        {
            assert(lines.take(i + 1).drop_last() =~= lines.take(i as int));
            assert(lines[i as int] == "\t"@ + probe_source_of(self.probes@[i as int]@));
            if i > 0 {
                source.append("\n");
            }
            source.append("\t");
            source.append(self.probes[i].to_d_source().as_str());
            i += 1;
        }
        assert(lines.take(i as int) =~= lines);
        source.append("\n};");
        source
    }
}

/// How the generated items of a provider are named and placed.
#[derive(Debug, Clone)]
pub struct CompileProvidersConfig {
    /// The module that holds a provider's items. Without one, the module is
    /// named after the provider. With an empty name, the items stand in no
    /// module.
    pub module: Option<String>,
}

impl CompileProvidersConfig {
    /// The module that holds the items of the provider named `provider`; empty
    /// where they stand in no module.
    pub open spec fn module_of(self, provider: Seq<char>) -> Seq<char> {
        match self.module {
            Some(module) => module@,
            None => provider,
        }
    }

    /// The name of the macro that fires the probe named `probe`.
    pub open spec fn ident_of(self, probe: Seq<char>) -> Seq<char> {
        probe
    }

    /// The module that holds the items of the provider named `provider`; empty
    /// where they stand in no module.
    pub fn provider_module(&self, provider: &str) -> (module: String)
        ensures
            module@ == self.module_of(provider@),
    {
        match &self.module {
            Some(module) => module.clone(),
            None => provider.to_owned(),
        }
    }

    /// The name of the macro that fires the probe named `probe`.
    pub fn probe_ident(&self, probe: &str) -> (ident: String)
        ensures
            ident@ == self.ident_of(probe@),
    {
        probe.to_owned()
    }
}

impl Default for CompileProvidersConfig {
    fn default() -> (config: CompileProvidersConfig)
        ensures
            config.module is None,
    {
        CompileProvidersConfig { module: None }
    }
}

} // verus!
