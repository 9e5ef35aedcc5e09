//! The probes that a program carries in its probe section, and the
//! descriptor that tells the kernel of them.
use crate::text::same_text;
use vstd::bytes::{spec_u32_to_le_bytes, spec_u64_to_le_bytes};
use vstd::prelude::*;
use vstd::string::*;
use vstd::utf8::encode_utf8;

verus! {

/// One probe of a section.
#[derive(Debug, Clone)]
pub struct SectionProbe {
    /// The probe's name.
    pub name: String,
    /// The function that holds the probe's sites.
    pub function: String,
    /// The address from which the sites are counted.
    pub address: u64,
    /// Where the probe fires, as offsets from `address`.
    pub offsets: Vec<u32>,
    /// Where it is asked whether the probe is enabled, as offsets from
    /// `address`.
    pub enabled_offsets: Vec<u32>,
    /// The types of the probe's arguments, in order.
    pub arguments: Vec<String>,
}

/// One provider of a section.
#[derive(Debug, Clone)]
pub struct SectionProvider {
    /// The provider's name.
    pub name: String,
    /// The provider's probes.
    pub probes: Vec<SectionProbe>,
}

/// The providers that a program carries.
#[derive(Debug, Clone)]
pub struct Section {
    pub providers: Vec<SectionProvider>,
}

/// The least size of a descriptor: that of its header.
pub const DESCRIPTOR_HEADER_SIZE: usize = 64;

/// Whether `bytes` begin as a descriptor does: with a header of 64 bytes,
/// whose first sixteen identify the format. These are the magic number, the
/// data model (64-bit), the encoding (marked as least significant byte
/// first), the format's version (2 or 3), the version of the intermediate
/// format (2), its two register counts (8 each), and six zeros.
pub open spec fn is_descriptor(bytes: Seq<u8>) -> bool {
    &&& bytes.len() >= DESCRIPTOR_HEADER_SIZE
    &&& bytes[0] == 0x7f
    &&& bytes[1] == 0x44
    &&& bytes[2] == 0x4f
    &&& bytes[3] == 0x46
    &&& bytes[4] == 2
    &&& bytes[5] == 1
    &&& (bytes[6] == 2 || bytes[6] == 3)
    &&& bytes[7] == 2
    &&& bytes[8] == 8
    &&& bytes[9] == 8
    &&& forall|i: int| 10 <= i < 16 ==> bytes[i] == 0
}

/// The size of the header of each of a descriptor's tables.
pub const DESCRIPTOR_TABLE_HEADER_SIZE: usize = 32;

/// Whether `text` stands in `bytes` at `at` as a descriptor holds a string:
/// the bytes of the text, and a zero byte behind them.
pub open spec fn string_at(bytes: Seq<u8>, text: Seq<char>, at: int) -> bool {
    &&& 0 <= at
    &&& at + encode_utf8(text).len() < bytes.len()
    &&& bytes.subrange(at, at + encode_utf8(text).len() + 1) == encode_utf8(text).push(0u8)
}

/// Whether `bytes` hold `text` as a descriptor holds a string.
pub open spec fn holds_string(bytes: Seq<u8>, text: Seq<char>) -> bool {
    exists|at: int| string_at(bytes, text, at)
}

/// Whether the number whose bytes are `number`, the least significant first,
/// stands in `bytes` at `at`, in that order of bytes or in the reverse.
pub open spec fn number_at(bytes: Seq<u8>, number: Seq<u8>, at: int) -> bool {
    &&& 0 <= at
    &&& at + number.len() <= bytes.len()
    &&& (bytes.subrange(at, at + number.len()) == number || bytes.subrange(
        at,
        at + number.len(),
    ) == number.reverse())
}

/// Whether `bytes` hold the number whose bytes are `number`, in either order
/// of bytes.
pub open spec fn holds_number(bytes: Seq<u8>, number: Seq<u8>) -> bool {
    exists|at: int| number_at(bytes, number, at)
}

/// Whether `bytes` can be the descriptor of `section`.
///
/// They begin as a descriptor does. They are long enough for the header and
/// for the headers of the tables that the section needs: four, and two more
/// for each provider. They hold every string of the section: the name of
/// each provider, and of each probe its name, its function and the types of
/// its arguments. And they hold every site: of each probe the address, in
/// eight bytes, and each of its offsets, in four.
pub open spec fn describes(bytes: Seq<u8>, section: Section) -> bool {
    &&& is_descriptor(bytes)
    &&& bytes.len() >= DESCRIPTOR_HEADER_SIZE + DESCRIPTOR_TABLE_HEADER_SIZE * (4 + 2
        * section.providers@.len())
    &&& forall|i: int|
        0 <= i < section.providers@.len() ==> holds_string(
            bytes,
            (#[trigger] section.providers@[i]).name@,
        )
    &&& forall|i: int, j: int|
        0 <= i < section.providers@.len() && 0 <= j < section.providers@[i].probes@.len() ==> {
            let probe = #[trigger] section.providers@[i].probes@[j];
            &&& holds_string(bytes, probe.name@)
            &&& holds_string(bytes, probe.function@)
            &&& holds_number(bytes, spec_u64_to_le_bytes(probe.address))
        }
    &&& forall|i: int, j: int, k: int|
        0 <= i < section.providers@.len() && 0 <= j < section.providers@[i].probes@.len() && 0
            <= k < section.providers@[i].probes@[j].offsets@.len() ==> holds_number(
            bytes,
            spec_u32_to_le_bytes(#[trigger] section.providers@[i].probes@[j].offsets@[k]),
        )
    &&& forall|i: int, j: int, k: int|
        0 <= i < section.providers@.len() && 0 <= j < section.providers@[i].probes@.len() && 0
            <= k < section.providers@[i].probes@[j].enabled_offsets@.len() ==> holds_number(
            bytes,
            spec_u32_to_le_bytes(
                #[trigger] section.providers@[i].probes@[j].enabled_offsets@[k],
            ),
        )
    &&& forall|i: int, j: int, k: int|
        0 <= i < section.providers@.len() && 0 <= j < section.providers@[i].probes@.len() && 0
            <= k < section.providers@[i].probes@[j].arguments@.len() ==> holds_string(
            bytes,
            (#[trigger] section.providers@[i].probes@[j].arguments@[k])@,
        )
}

impl SectionProvider {
    /// No two probes of the provider have the same name.
    pub open spec fn well_formed(&self) -> bool {
        forall|i: int, j: int|
            0 <= i < j < self.probes@.len() ==> (#[trigger] self.probes@[i]).name@ != (
            #[trigger] self.probes@[j]).name@
    }

    /// Whether no two probes of the provider have the same name.
    pub fn is_well_formed(&self) -> (well_formed: bool)
        ensures
            well_formed == self.well_formed(),
    {
        let mut j: usize = 0;
        while j < self.probes.len()
            invariant
                j <= self.probes.len(),
                forall|a: int, b: int|
                    0 <= a < b < j ==> (#[trigger] self.probes@[a]).name@ != (
                    #[trigger] self.probes@[b]).name@,
            decreases self.probes.len() - j,
        {
            let mut i: usize = 0;
            while i < j
                invariant
                    i <= j < self.probes.len(),
                    forall|a: int|
                        0 <= a < i ==> (#[trigger] self.probes@[a]).name@
                            != self.probes@[j as int].name@,
                decreases j - i,
            {
                if same_text(self.probes[i].name.as_str(), self.probes[j].name.as_str()) {
                    return false;
                }
                i += 1;
            }
            j += 1;
        }
        true
    }
}

impl Section {
    /// No two providers have the same name, and each provider is well formed.
    pub open spec fn well_formed(&self) -> bool {
        &&& forall|i: int, j: int|
            0 <= i < j < self.providers@.len() ==> (#[trigger] self.providers@[i]).name@ != (
            #[trigger] self.providers@[j]).name@
        &&& forall|i: int|
            0 <= i < self.providers@.len() ==> (#[trigger] self.providers@[i]).well_formed()
    }

    /// No provider of the section has a probe.
    pub open spec fn has_no_probe(&self) -> bool {
        forall|i: int|
            0 <= i < self.providers@.len() ==> (#[trigger] self.providers@[i]).probes@.len() == 0
    }

    /// The address of the first probe of the first provider.
    pub open spec fn first_address(&self) -> Option<u64> {
        if self.providers@.len() > 0 && self.providers@[0].probes@.len() > 0 {
            Some(self.providers@[0].probes@[0].address)
        } else {
            None
        }
    }

    /// Whether no two providers have the same name, and no two probes of a
    /// provider.
    pub fn is_well_formed(&self) -> (well_formed: bool)
        ensures
            well_formed == self.well_formed(),
    {
        let mut j: usize = 0;
        while j < self.providers.len()
            invariant
                j <= self.providers.len(),
                forall|a: int, b: int|
                    0 <= a < b < j ==> (#[trigger] self.providers@[a]).name@ != (
                    #[trigger] self.providers@[b]).name@,
                forall|a: int| 0 <= a < j ==> (#[trigger] self.providers@[a]).well_formed(),
            decreases self.providers.len() - j,
        {
            if !self.providers[j].is_well_formed() {
                return false;
            }
            let mut i: usize = 0;
            while i < j
                invariant
                    i <= j < self.providers.len(),
                    forall|a: int|
                        0 <= a < i ==> (#[trigger] self.providers@[a]).name@
                            != self.providers@[j as int].name@,
                decreases j - i,
            {
                if same_text(self.providers[i].name.as_str(), self.providers[j].name.as_str()) {
                    return false;
                }
                i += 1;
            }
            j += 1;
        }
        true
    }

    /// Whether the section holds no probe at all.
    pub fn is_empty(&self) -> (empty: bool)
        ensures
            empty == self.has_no_probe(),
    {
        let mut i: usize = 0;
        while i < self.providers.len()
            invariant
                i <= self.providers.len(),
                forall|j: int| 0 <= j < i ==> (#[trigger] self.providers@[j]).probes@.len() == 0,
            decreases self.providers.len() - i,
        {
            if self.providers[i].probes.len() > 0 {
                return false;
            }
            i += 1;
        }
        true
    }

    /// The address of one probe of the section: that of the first probe of
    /// the first provider. `None` where the first provider has no probe, or
    /// the section no provider.
    pub fn probe_address(&self) -> (address: Option<u64>)
        ensures
            address == self.first_address(),
    {
        if self.providers.len() > 0 && self.providers[0].probes.len() > 0 {
            Some(self.providers[0].probes[0].address)
        } else {
            None
        }
    }

    /// The descriptor of the section, in the format that the kernel reads;
    /// `None` where the section is not well formed.
    pub fn descriptor(&self) -> (bytes: Option<Vec<u8>>)
        ensures
            bytes is Some <==> self.well_formed(),
            bytes matches Some(bytes) ==> describes(bytes@, *self),
    {
        if self.is_well_formed() {
            Some(serialize_section(self))
        } else {
            None
        }
    }
}

/// Calls `dof::serialize_section` on the section of the `dof` crate that
/// holds the same providers and probes under their names, with that crate's
/// default identification.
///
/// The contract claims what holds of the result in every build. It begins
/// with the header, whose identification the function copies from the
/// section. Behind the header stand the headers of the tables, of which the
/// function writes four and two more for each provider, and then the tables.
/// The first table holds the strings: the function appends to it each
/// provider's name, and of each probe the function, the name and the types of
/// the arguments, each with a zero byte behind it. Into the tables behind it
/// the function copies each probe's address and offsets, in the byte order of
/// the processor for which the program is built; so the contract claims them
/// in one of the two orders. Nothing is claimed of the other numbers in the
/// result, which depend on that byte order and on the operating system.
#[verifier::external_body]
fn serialize_section(section: &Section) -> (bytes: Vec<u8>)
    requires
        section.well_formed(),
    ensures
        describes(bytes@, *section),
{
    let mut out = dof::Section::default();
    for provider in section.providers.iter() {
        let probes = provider.probes.iter().map(|probe| (probe.name.clone(), dof::Probe {
            name: probe.name.clone(),
            function: probe.function.clone(),
            address: probe.address,
            offsets: probe.offsets.clone(),
            enabled_offsets: probe.enabled_offsets.clone(),
            arguments: probe.arguments.clone(),
        })).collect();
        out.providers.insert(provider.name.clone(), dof::Provider { name: provider.name.clone(), probes });
    }
    dof::serialize_section(&out)
}

} // verus!
