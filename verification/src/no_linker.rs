//! The section-record backend: each probe site writes a record of itself
//! into a section of the program, and the program registers what it finds
//! there when it starts.
use crate::error::Error;
use crate::site::{options, shape, site_options, site_shape, SiteShape, SiteShapeView};
use crate::marshal::{arguments_of, construct_probe_args, Argument, MAX_ARGUMENTS};
use crate::module_name::{
    final_segment_of, hex_digits_of, module_name, module_name_buffer, module_name_of,
    name_buffer_of, MODULE_NAME_SIZE,
};
use crate::provider::{Arch, CompileProvidersConfig, DataType, Provider, ProviderView};
use crate::section::{describes, Section};
use vstd::prelude::*;
use vstd::slice::slice_to_vec;
use vstd::string::*;

verus! {

/// What a probe site records of itself.
#[derive(Debug, Clone)]
pub struct ProbeRecord {
    /// The provider's name.
    pub provider: String,
    /// The probe's name.
    pub probe: String,
    /// The types of the probe's arguments; none for the site that asks
    /// whether the probe is enabled.
    pub types: Option<Vec<DataType>>,
}

/// What a probe site records of itself, as mathematical values.
pub struct ProbeRecordView {
    pub provider: Seq<char>,
    pub probe: Seq<char>,
    pub types: Option<Seq<DataType>>,
}

impl View for ProbeRecord {
    type V = ProbeRecordView;

    open spec fn view(&self) -> ProbeRecordView {
        ProbeRecordView {
            provider: self.provider@,
            probe: self.probe@,
            types: match self.types {
                Some(types) => Some(types@),
                None => None,
            },
        }
    }
}

/// What is generated for one probe.
#[derive(Debug, Clone)]
pub struct ProbeSite {
    /// The probe's name.
    pub probe_name: String,
    /// The name of the macro that fires the probe.
    pub probe_fn: String,
    /// The order in which the site runs. The read is the is-enabled
    /// instruction.
    pub shape: SiteShape,
    /// The instruction at which it is asked whether the probe is enabled. As
    /// written it clears the register of the answer, which says no; the
    /// kernel replaces it where the probe is enabled.
    pub is_enabled_instruction: String,
    /// The register in which the answer is found.
    pub is_enabled_register: String,
    /// The record of the site that asks.
    pub is_enabled_record: ProbeRecord,
    /// The instruction at which the probe fires. As written it does nothing.
    pub probe_instruction: String,
    /// The record of the site that fires.
    pub probe_record: ProbeRecord,
    /// What the instructions promise: to touch no memory, to use no stack, to
    /// leave the flags as they are.
    pub options: Vec<String>,
    /// The arguments made ready for the probe.
    pub arguments: Vec<Argument>,
}

/// What is generated for one probe, as mathematical values.
pub struct ProbeSiteView {
    pub probe_name: Seq<char>,
    pub probe_fn: Seq<char>,
    pub shape: SiteShapeView,
    pub is_enabled_instruction: Seq<char>,
    pub is_enabled_register: Seq<char>,
    pub is_enabled_record: ProbeRecordView,
    pub probe_instruction: Seq<char>,
    pub probe_record: ProbeRecordView,
    pub options: Seq<Seq<char>>,
    pub arguments: Seq<Argument>,
}

impl View for ProbeSite {
    type V = ProbeSiteView;

    open spec fn view(&self) -> ProbeSiteView {
        ProbeSiteView {
            probe_name: self.probe_name@,
            probe_fn: self.probe_fn@,
            shape: self.shape@,
            is_enabled_instruction: self.is_enabled_instruction@,
            is_enabled_register: self.is_enabled_register@,
            is_enabled_record: self.is_enabled_record@,
            probe_instruction: self.probe_instruction@,
            probe_record: self.probe_record@,
            options: self.options@.map_values(|text: String| text@),
            arguments: self.arguments@,
        }
    }
}

/// What is generated for one provider.
#[derive(Debug, Clone)]
pub struct ProviderSite {
    /// The provider's name.
    pub name: String,
    /// The module that holds the provider's items, if any.
    pub module: Option<String>,
    /// The provider's probes, in the order of the definition.
    pub probes: Vec<ProbeSite>,
}

/// What is generated for one provider, as mathematical values.
pub struct ProviderSiteView {
    pub name: Seq<char>,
    pub module: Option<Seq<char>>,
    pub probes: Seq<ProbeSiteView>,
}

impl View for ProviderSite {
    type V = ProviderSiteView;

    open spec fn view(&self) -> ProviderSiteView {
        ProviderSiteView {
            name: self.name@,
            module: match self.module {
                Some(module) => Some(module@),
                None => None,
            },
            probes: self.probes@.map_values(|site: ProbeSite| site@),
        }
    }
}

/// Whether a site can be generated for a probe with arguments of the given
/// types: the arguments are few enough to be marshaled.
pub open spec fn can_compile(types: Seq<DataType>) -> bool {
    types.len() <= MAX_ARGUMENTS
}

/// What is generated for the probe named `probe_name` of the provider named
/// `provider_name`.
pub open spec fn probe_site_of(
    provider_name: Seq<char>,
    probe_name: Seq<char>,
    probe_fn: Seq<char>,
    types: Seq<DataType>,
    arch: Arch,
) -> ProbeSiteView {
    ProbeSiteView {
        probe_name,
        probe_fn,
        shape: site_shape(),
        is_enabled_instruction: "990:   clr rax"@,
        is_enabled_register: "rax"@,
        is_enabled_record: ProbeRecordView {
            provider: provider_name,
            probe: probe_name,
            types: None,
        },
        probe_instruction: "990:   nop"@,
        probe_record: ProbeRecordView {
            provider: provider_name,
            probe: probe_name,
            types: Some(types),
        },
        options: site_options(),
        arguments: arguments_of(types, arch),
    }
}

/// What is generated for one probe: the two sites with their instructions
/// and records, and the arguments of the site that fires. The two
/// instructions are written alike for every processor; the registers of the
/// arguments are those of `arch`.
///
/// Fails with `ParseFailure` for a probe with more than `MAX_ARGUMENTS`
/// arguments.
pub fn compile_probe(
    provider_name: &str,
    probe_name: &str,
    probe_fn: &str,
    types: &[DataType],
    arch: Arch,
) -> (site: Result<ProbeSite, Error>)
    ensures
        match site {
            Ok(site) => can_compile(types@) && site@ == probe_site_of(
                provider_name@,
                probe_name@,
                probe_fn@,
                types@,
                arch,
            ),
            Err(error) => !can_compile(types@) && error == Error::ParseFailure,
        },
{
    let arguments = match construct_probe_args(types, arch) {
        Ok(arguments) => arguments,
        Err(error) => {
            return Err(error);
        },
    };
    Ok(
        ProbeSite {
            probe_name: probe_name.to_owned(),
            probe_fn: probe_fn.to_owned(),
            shape: shape(),
            is_enabled_instruction: "990:   clr rax".to_owned(),
            is_enabled_register: "rax".to_owned(),
            is_enabled_record: ProbeRecord {
                provider: provider_name.to_owned(),
                probe: probe_name.to_owned(),
                types: None,
            },
            probe_instruction: "990:   nop".to_owned(),
            probe_record: ProbeRecord {
                provider: provider_name.to_owned(),
                probe: probe_name.to_owned(),
                types: Some(slice_to_vec(types)),
            },
            options: options(),
            arguments,
        },
    )
}

/// Whether sites can be generated for every probe of a provider.
pub open spec fn compilable(provider: ProviderView) -> bool {
    forall|i: int|
        0 <= i < provider.probes.len() ==> can_compile((#[trigger] provider.probes[i]).types)
}

/// What is generated for the probe at `index` of a provider.
pub open spec fn probe_site_at(
    provider: ProviderView,
    config: CompileProvidersConfig,
    arch: Arch,
    index: int,
) -> ProbeSiteView {
    let probe = provider.probes[index];
    probe_site_of(provider.name, probe.name, config.ident_of(probe.name), probe.types, arch)
}

/// What is generated for a provider: the site of each probe, in the order of
/// the definition.
pub open spec fn provider_site_of(
    provider: ProviderView,
    config: CompileProvidersConfig,
    arch: Arch,
) -> ProviderSiteView {
    let module = config.module_of(provider.name);
    ProviderSiteView {
        name: provider.name,
        module: if module.len() == 0 {
            None
        } else {
            Some(module)
        },
        probes: Seq::new(
            provider.probes.len(),
            |index: int| probe_site_at(provider, config, arch, index),
        ),
    }
}

/// A provider without probes can be compiled, and has no site; so it writes
/// no record into the probe section.
pub proof fn lemma_no_probe_no_site(
    provider: ProviderView,
    config: CompileProvidersConfig,
    arch: Arch,
)
    requires
        provider.probes.len() == 0,
    ensures
        compilable(provider),
        provider_site_of(provider, config, arch).probes.len() == 0,
{
}

/// What is generated for a provider. Fails with `ParseFailure` where one of
/// the provider's probes has more than `MAX_ARGUMENTS` arguments.
pub fn compile_provider(provider: &Provider, config: &CompileProvidersConfig, arch: Arch) -> (site:
    Result<ProviderSite, Error>)
    ensures
        match site {
            Ok(site) => compilable(provider@) && site@ == provider_site_of(
                provider@,
                *config,
                arch,
            ),
            Err(error) => !compilable(provider@) && error == Error::ParseFailure,
        },
{
    let mut probes: Vec<ProbeSite> = Vec::new();
    let mut i: usize = 0;
    while i < provider.probes.len()
        invariant
            i <= provider.probes.len(),
            probes@.len() == i,
            forall|j: int|
                0 <= j < i ==> can_compile((#[trigger] provider@.probes[j]).types),
            forall|j: int|
                0 <= j < i ==> (#[trigger] probes@[j])@ == probe_site_at(
                    provider@,
                    *config,
                    arch,
                    j,
                ),
        decreases provider.probes.len() - i,
    {
        let probe = &provider.probes[i];
        assert(provider@.probes[i as int] == probe@);
        let probe_fn = config.probe_ident(probe.name.as_str());
        let site = match compile_probe(
            provider.name.as_str(),
            probe.name.as_str(),
            probe_fn.as_str(),
            probe.types.as_slice(),
            arch,
        ) {
            Ok(site) => site,
            Err(error) => {
                return Err(error);
            },
        };
        probes.push(site);
        i += 1;
    }
    let module = config.provider_module(provider.name.as_str());
    let site = ProviderSite {
        name: provider.name.clone(),
        module: if module.as_str().unicode_len() == 0 {
            None
        } else {
            Some(module)
        },
        probes,
    };
    assert(site@.probes =~= provider_site_of(provider@, *config, arch).probes);
    Ok(site)
}

/// The section of a program that holds the records of its probe sites. The
/// linker marks its bounds by two symbols: the section's name behind
/// `__start_` and behind `__stop_`.
pub const PROBE_SECTION: &'static str = "set_dtrace_probes";

/// The device that takes the control call of a registration. It is opened
/// for reading and writing.
pub const HELPER_DEVICE: &'static str = "/dev/dtrace/helper";

/// The command of the control call of a registration.
pub const HELPER_COMMAND: i32 = 0x64746803;

/// What the control call of a registration is given.
#[derive(Debug, Clone)]
pub struct HelperRequest {
    /// The name of the module that owns the probes, in its buffer.
    pub module_name: [i8; 64],
    /// The descriptor of the probes.
    pub descriptor: Vec<u8>,
}

/// Whether `request` is the request for `section`, where the file that owns
/// its first probe is `path`.
pub open spec fn is_request_for(
    request: HelperRequest,
    section: Section,
    path: Option<Seq<char>>,
) -> bool {
    &&& request.module_name@ == name_buffer_of(module_name_of(section.first_address(), path))
    &&& describes(request.descriptor@, section)
}

/// The request of a registration: the name of the module that owns the
/// section's first probe, and the section's descriptor. `path` is the file
/// from which the first probe's code was loaded, where that is known.
///
/// Fails with `ParseFailure` where the section is not well formed.
pub fn registration_request(section: &Section, path: Option<&str>) -> (request: Result<
    HelperRequest,
    Error,
>)
    ensures
        match request {
            Ok(request) => section.well_formed() && is_request_for(
                request,
                *section,
                match path {
                    Some(path) => Some(path@),
                    None => None,
                },
            ),
            Err(error) => !section.well_formed() && error == Error::ParseFailure,
        },
{
    let descriptor = match section.descriptor() {
        Some(descriptor) => descriptor,
        None => {
            return Err(Error::ParseFailure);
        },
    };
    let name = module_name(section.probe_address(), path);
    Ok(HelperRequest { module_name: module_name_buffer(name.as_str()), descriptor })
}

/// What a registration hands to the control call, given the section that
/// was found in the program, if any. `path` is the file from which the code
/// at the section's probe address was loaded, where there is such an address
/// and the file is known.
///
/// Without a section, and with a section that holds no probe at all, the
/// registration has succeeded with nothing to do: no control call is made.
/// With a section that holds a probe there is one call, with the request for
/// that section; so a registration that is run twice calls twice. It fails
/// with `ParseFailure` where such a section is not well formed.
pub fn register_probes(section: Option<&Section>, path: Option<&str>) -> (call: Result<
    Option<HelperRequest>,
    Error,
>)
    ensures
        match section {
            None => call == Ok::<Option<HelperRequest>, Error>(None),
            Some(section) => match call {
                Ok(None) => section.has_no_probe(),
                Ok(Some(request)) => !section.has_no_probe() && section.well_formed()
                    && is_request_for(
                    request,
                    *section,
                    match path {
                        Some(path) => Some(path@),
                        None => None,
                    },
                ),
                Err(error) => !section.has_no_probe() && !section.well_formed() && error
                    == Error::ParseFailure,
            },
        },
{
    match section {
        None => Ok(None),
        Some(section) => if section.is_empty() {
            Ok(None)
        } else {
            match registration_request(section, path) {
                Ok(request) => Ok(Some(request)),
                Err(error) => Err(error),
            }
        },
    }
}

/// How a request names the module that owns the probes.
///
/// Where the section's first provider has no probe, the name is
/// `unknown-module`, whatever `path` is. With a
/// probe at `address` and no known file, it is `?`, `0x` and the digits of the
/// address. With a file, it is what follows the last `/` of the file's path.
/// In each case the buffer has 64 bytes, begins with the name's bytes, of
/// which it holds at most 63, and ends in a zero.
pub proof fn lemma_request_names_the_owner(
    request: HelperRequest,
    section: Section,
    path: Option<Seq<char>>,
)
    requires
        is_request_for(request, section, path),
    ensures
        request.module_name@.len() == MODULE_NAME_SIZE,
        request.module_name@[MODULE_NAME_SIZE - 1] == 0i8,
        request.module_name@ == name_buffer_of(
            match (section.first_address(), path) {
                (None, _) => "unknown-module"@,
                (Some(address), None) => "?"@ + "0x"@ + hex_digits_of(address as nat),
                (Some(_), Some(path)) => final_segment_of(path),
            },
        ),
{
    if let Some(address) = section.first_address() {
        assert("?"@ + ("0x"@ + hex_digits_of(address as nat)) =~= "?"@ + "0x"@ + hex_digits_of(
            address as nat,
        ));
    }
}

/// The result of a registration, given how the control call ended: with
/// success, or with an error number of the operating system.
pub fn finish_registration(outcome: Result<(), i32>) -> (done: Result<(), Error>)
    ensures
        done == (match outcome {
            Ok(()) => Ok::<(), Error>(()),
            Err(code) => Err::<(), Error>(Error::RegistrationFailure(code)),
        }),
{
    match outcome {
        Ok(()) => Ok(()),
        Err(code) => Err(Error::RegistrationFailure(code)),
    }
}

} // verus!
