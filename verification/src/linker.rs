//! The link-time backend: the linker resolves each probe site against the
//! symbols that the provider compiler's header names.
//!
//! A mangled symbol holds `$`, which an instruction's text would not carry
//! through unharmed. So each symbol is bound to a declared function by its
//! link name, and the instructions refer to that function by an operand, never
//! to the symbol's text.
use crate::error::Error;
use crate::header::{providers_in, scan_header, ProviderInfo, ProviderSymbols};
use crate::marshal::{arguments_of, construct_probe_args, Argument, MAX_ARGUMENTS};
use crate::provider::{Arch, CompileProvidersConfig, DataType, Provider, ProviderView};
use crate::site::{options, shape, site_options, site_shape, SiteShape, SiteShapeView};
use vstd::prelude::*;
use vstd::slice::slice_to_vec;
use vstd::string::*;

verus! {

/// An operand of a site's instructions: a name, and the declared function
/// that it stands for.
#[derive(Debug, Clone)]
pub struct Operand {
    pub name: String,
    pub function: String,
}

/// An operand as mathematical values.
pub struct OperandView {
    pub name: Seq<char>,
    pub function: Seq<char>,
}

impl View for Operand {
    type V = OperandView;

    open spec fn view(&self) -> OperandView {
        OperandView { name: self.name@, function: self.function@ }
    }
}

/// What is generated for one probe.
#[derive(Debug, Clone)]
pub struct ProbeSite {
    /// The probe's name.
    pub probe_name: String,
    /// The name of the macro that fires the probe.
    pub probe_fn: String,
    /// The name under which the is-enabled function is declared.
    pub is_enabled_fn: String,
    /// The name under which the probe function is declared.
    pub extern_probe_fn: String,
    /// The link name of the is-enabled function.
    pub is_enabled_symbol: String,
    /// The link name of the probe function.
    pub probe_symbol: String,
    /// The types of the probe function's parameters.
    pub parameters: Vec<DataType>,
    /// The module in which the declared functions are found, if any.
    pub module: Option<String>,
    /// The order in which the site runs. The read is a call of the
    /// is-enabled function.
    pub shape: SiteShape,
    /// The instructions that fire the probe, in order. A name in braces is an
    /// operand.
    pub instructions: Vec<String>,
    /// The operands of the instructions: each names a declared function, by
    /// which the instruction reaches the symbol.
    pub operands: Vec<Operand>,
    /// What the instructions promise: to touch no memory, to use no stack, to
    /// leave the flags as they are.
    pub options: Vec<String>,
    /// The arguments made ready for the probe function.
    pub arguments: Vec<Argument>,
}

/// What is generated for one probe, as mathematical values.
pub struct ProbeSiteView {
    pub probe_name: Seq<char>,
    pub probe_fn: Seq<char>,
    pub is_enabled_fn: Seq<char>,
    pub extern_probe_fn: Seq<char>,
    pub is_enabled_symbol: Seq<char>,
    pub probe_symbol: Seq<char>,
    pub parameters: Seq<DataType>,
    pub module: Option<Seq<char>>,
    pub shape: SiteShapeView,
    pub instructions: Seq<Seq<char>>,
    pub operands: Seq<OperandView>,
    pub options: Seq<Seq<char>>,
    pub arguments: Seq<Argument>,
}

impl View for ProbeSite {
    type V = ProbeSiteView;

    open spec fn view(&self) -> ProbeSiteView {
        ProbeSiteView {
            probe_name: self.probe_name@,
            probe_fn: self.probe_fn@,
            is_enabled_fn: self.is_enabled_fn@,
            extern_probe_fn: self.extern_probe_fn@,
            is_enabled_symbol: self.is_enabled_symbol@,
            probe_symbol: self.probe_symbol@,
            parameters: self.parameters@,
            module: match self.module {
                Some(module) => Some(module@),
                None => None,
            },
            shape: self.shape@,
            instructions: self.instructions@.map_values(|text: String| text@),
            operands: self.operands@.map_values(|operand: Operand| operand@),
            options: self.options@.map_values(|text: String| text@),
            arguments: self.arguments@,
        }
    }
}

/// What is generated for one provider.
#[derive(Debug, Clone)]
pub struct ProviderSite {
    /// The provider's name.
    pub name: String,
    /// The link name of the stability marker.
    pub stability: String,
    /// The link name of the typedefs marker.
    pub typedefs: String,
    /// The module that holds the provider's items, if any.
    pub module: Option<String>,
    /// The provider's probes, in the order of the definition.
    pub probes: Vec<ProbeSite>,
}

/// What is generated for one provider, as mathematical values.
pub struct ProviderSiteView {
    pub name: Seq<char>,
    pub stability: Seq<char>,
    pub typedefs: Seq<char>,
    pub module: Option<Seq<char>>,
    pub probes: Seq<ProbeSiteView>,
}

impl View for ProviderSite {
    type V = ProviderSiteView;

    open spec fn view(&self) -> ProviderSiteView {
        ProviderSiteView {
            name: self.name@,
            stability: self.stability@,
            typedefs: self.typedefs@,
            module: match self.module {
                Some(module) => Some(module@),
                None => None,
            },
            probes: self.probes@.map_values(|site: ProbeSite| site@),
        }
    }
}

/// The instruction that transfers control to the probe function.
pub open spec fn call_instruction_of(arch: Arch) -> Seq<char> {
    match arch {
        Arch::X86_64 => "call {extern_probe_fn}"@,
        Arch::AArch64 => "bl {extern_probe_fn}"@,
    }
}

/// The module as a site holds it: none where the name is empty.
pub open spec fn placement_of(module: Seq<char>) -> Option<Seq<char>> {
    if module.len() == 0 {
        None
    } else {
        Some(module)
    }
}

/// What is generated for the probe named `probe_name` of the provider named
/// `provider_name`.
pub open spec fn probe_site_of(
    provider_name: Seq<char>,
    probe_name: Seq<char>,
    module: Seq<char>,
    probe_fn: Seq<char>,
    is_enabled: Seq<char>,
    probe: Seq<char>,
    types: Seq<DataType>,
    arch: Arch,
) -> ProbeSiteView {
    ProbeSiteView {
        probe_name,
        probe_fn,
        is_enabled_fn: provider_name + "_"@ + probe_name + "_enabled"@,
        extern_probe_fn: "__"@ + probe_fn,
        is_enabled_symbol: is_enabled,
        probe_symbol: probe,
        parameters: types,
        module: placement_of(module),
        shape: site_shape(),
        instructions: seq![
            ".reference {typedefs}"@,
            call_instruction_of(arch),
            ".reference {stability}"@,
        ],
        operands: seq![
            OperandView { name: "typedefs"@, function: "typedefs"@ },
            OperandView { name: "extern_probe_fn"@, function: "__"@ + probe_fn },
            OperandView { name: "stability"@, function: "stability"@ },
        ],
        options: site_options(),
        arguments: arguments_of(types, arch),
    }
}

/// The instructions of a site are three, the same for every probe of a
/// processor, and none of them holds a `$`: a mangled symbol never stands in
/// an instruction's text.
pub proof fn lemma_instructions_name_no_symbol(
    provider_name: Seq<char>,
    probe_name: Seq<char>,
    module: Seq<char>,
    probe_fn: Seq<char>,
    is_enabled: Seq<char>,
    probe: Seq<char>,
    types: Seq<DataType>,
    arch: Arch,
)
    ensures
        ({
            let site = probe_site_of(
                provider_name,
                probe_name,
                module,
                probe_fn,
                is_enabled,
                probe,
                types,
                arch,
            );
            &&& site.instructions.len() == 3
            &&& site.instructions[0] == ".reference {typedefs}"@
            &&& site.instructions[1] == call_instruction_of(arch)
            &&& site.instructions[2] == ".reference {stability}"@
            &&& forall|k: int| 0 <= k < 3 ==> !(#[trigger] site.instructions[k]).contains('$')
        }),
{
    reveal_strlit(".reference {typedefs}");
    reveal_strlit(".reference {stability}");
    reveal_strlit("call {extern_probe_fn}");
    reveal_strlit("bl {extern_probe_fn}");
}

/// The module as a site holds it.
fn placement(module: String) -> (path: Option<String>)
    ensures
        (match path {
            Some(module) => Some(module@),
            None => None,
        }) == placement_of(module@),
{
    if module.as_str().unicode_len() == 0 {
        None
    } else {
        Some(module)
    }
}

/// What is generated for one probe: the two functions to declare, each with
/// its link name, and the instructions that fire the probe with their
/// arguments. A probe with more than `MAX_ARGUMENTS` arguments is refused.
pub fn compile_probe(
    provider_name: &str,
    probe_name: &str,
    module: &str,
    probe_fn: &str,
    is_enabled: &str,
    probe: &str,
    types: &[DataType],
    arch: Arch,
) -> (site: Result<ProbeSite, Error>)
    ensures
        match site {
            Ok(site) => types@.len() <= MAX_ARGUMENTS && site@ == probe_site_of(
                provider_name@,
                probe_name@,
                module@,
                probe_fn@,
                is_enabled@,
                probe@,
                types@,
                arch,
            ),
            Err(error) => types@.len() > MAX_ARGUMENTS && error == Error::ParseFailure,
        },
{
    let arguments = match construct_probe_args(types, arch) {
        Ok(arguments) => arguments,
        Err(error) => {
            return Err(error);
        },
    };
    let mut is_enabled_fn = provider_name.to_owned();
    is_enabled_fn.append("_");
    is_enabled_fn.append(probe_name);
    is_enabled_fn.append("_enabled");
    let mut extern_probe_fn = "__".to_owned();
    extern_probe_fn.append(probe_fn);
    let call = match arch {
        Arch::X86_64 => "call {extern_probe_fn}",
        Arch::AArch64 => "bl {extern_probe_fn}",
    };
    let mut instructions: Vec<String> = Vec::new();
    instructions.push(".reference {typedefs}".to_owned());
    instructions.push(call.to_owned());
    instructions.push(".reference {stability}".to_owned());
    let mut operands: Vec<Operand> = Vec::new();
    operands.push(Operand { name: "typedefs".to_owned(), function: "typedefs".to_owned() });
    operands.push(
        Operand { name: "extern_probe_fn".to_owned(), function: extern_probe_fn.clone() },
    );
    operands.push(Operand { name: "stability".to_owned(), function: "stability".to_owned() });
    let site = ProbeSite {
        probe_name: probe_name.to_owned(),
        probe_fn: probe_fn.to_owned(),
        is_enabled_fn,
        extern_probe_fn,
        is_enabled_symbol: is_enabled.to_owned(),
        probe_symbol: probe.to_owned(),
        parameters: slice_to_vec(types),
        module: placement(module.to_owned()),
        shape: shape(),
        instructions,
        operands,
        options: options(),
        arguments,
    };
    assert(site@.instructions =~= seq![
        ".reference {typedefs}"@,
        call_instruction_of(arch),
        ".reference {stability}"@,
    ]);
    assert(site@.operands =~= seq![
        OperandView { name: "typedefs"@, function: "typedefs"@ },
        OperandView { name: "extern_probe_fn"@, function: "__"@ + probe_fn@ },
        OperandView { name: "stability"@, function: "stability"@ },
    ]);
    Ok(site)
}

/// Whether a header gives a provider what its definition needs: both symbols
/// of each probe, and for no probe more arguments than can be marshaled.
pub open spec fn compilable(provider: ProviderView, info: ProviderSymbols) -> bool {
    forall|i: int|
        0 <= i < provider.probes.len() ==> {
            &&& info.is_enabled.contains_key((#[trigger] provider.probes[i]).name)
            &&& info.probes.contains_key(provider.probes[i].name)
            &&& provider.probes[i].types.len() <= MAX_ARGUMENTS
        }
}

/// A provider with a probe of which the header lacks a symbol is not
/// compilable, whatever else the header holds.
pub proof fn lemma_absent_probe_fails(provider: ProviderView, info: ProviderSymbols, index: int)
    requires
        0 <= index < provider.probes.len(),
        !info.is_enabled.contains_key(provider.probes[index].name) || !info.probes.contains_key(
            provider.probes[index].name,
        ),
    ensures
        !compilable(provider, info),
{
}

/// What is generated for the probe at `index` of a provider.
pub open spec fn probe_site_at(
    provider: ProviderView,
    info: ProviderSymbols,
    config: CompileProvidersConfig,
    arch: Arch,
    index: int,
) -> ProbeSiteView {
    let probe = provider.probes[index];
    probe_site_of(
        provider.name,
        probe.name,
        config.module_of(provider.name),
        config.ident_of(probe.name),
        info.is_enabled[probe.name],
        info.probes[probe.name],
        probe.types,
        arch,
    )
}

/// What is generated for a provider: its two markers, and the site of each
/// probe in the order of the definition.
pub open spec fn provider_site_of(
    provider: ProviderView,
    info: ProviderSymbols,
    config: CompileProvidersConfig,
    arch: Arch,
) -> ProviderSiteView {
    ProviderSiteView {
        name: provider.name,
        stability: info.stability,
        typedefs: info.typedefs,
        module: placement_of(config.module_of(provider.name)),
        probes: Seq::new(
            provider.probes.len(),
            |index: int| probe_site_at(provider, info, config, arch, index),
        ),
    }
}

/// What is generated for a provider, given the symbols that the header
/// assigns to it. Fails where the header lacks a symbol of one of the
/// provider's probes, or a probe has too many arguments.
pub fn compile_provider(
    provider: &Provider,
    provider_info: &ProviderInfo,
    config: &CompileProvidersConfig,
    arch: Arch,
) -> (site: Result<ProviderSite, Error>)
    ensures
        match site {
            Ok(site) => compilable(provider@, provider_info@) && site@ == provider_site_of(
                provider@,
                provider_info@,
                *config,
                arch,
            ),
            Err(error) => !compilable(provider@, provider_info@) && error == Error::ParseFailure,
        },
{
    let module = config.provider_module(provider.name.as_str());
    let mut probes: Vec<ProbeSite> = Vec::new();
    let mut i: usize = 0;
    while i < provider.probes.len()
        invariant
            i <= provider.probes.len(),
            module@ == config.module_of(provider.name@),
            probes@.len() == i,
            forall|j: int|
                0 <= j < i ==> {
                    &&& provider_info@.is_enabled.contains_key((#[trigger] provider@.probes[j]).name)
                    &&& provider_info@.probes.contains_key(provider@.probes[j].name)
                    &&& provider@.probes[j].types.len() <= MAX_ARGUMENTS
                },
            forall|j: int|
                0 <= j < i ==> (#[trigger] probes@[j])@ == probe_site_at(
                    provider@,
                    provider_info@,
                    *config,
                    arch,
                    j,
                ),
        decreases provider.probes.len() - i,
    {
        let probe = &provider.probes[i];
        assert(provider@.probes[i as int] == probe@);
        let is_enabled = match provider_info.is_enabled.get(probe.name.as_str()) {
            Some(symbol) => symbol,
            None => {
                return Err(Error::ParseFailure);
            },
        };
        let fires = match provider_info.probes.get(probe.name.as_str()) {
            Some(symbol) => symbol,
            None => {
                return Err(Error::ParseFailure);
            },
        };
        let probe_fn = config.probe_ident(probe.name.as_str());
        let site = match compile_probe(
            provider.name.as_str(),
            probe.name.as_str(),
            module.as_str(),
            probe_fn.as_str(),
            is_enabled.as_str(),
            fires.as_str(),
            probe.types.as_slice(),
            arch,
        ) {
            Ok(site) => site,
            Err(error) => {
                return Err(error);
            },
        };
        probes.push(site);
        i += 1;
    }
    let site = ProviderSite {
        name: provider.name.clone(),
        stability: provider_info.stability.clone(),
        typedefs: provider_info.typedefs.clone(),
        module: placement(module),
        probes,
    };
    assert(site@.probes =~= provider_site_of(provider@, provider_info@, *config, arch).probes);
    Ok(site)
}

/// Whether a header serves a list of providers: it introduces its providers
/// in order, knows each provider of the list, and gives each what its
/// definition needs.
pub open spec fn header_serves(providers: Seq<Provider>, header: Seq<char>) -> bool {
    providers_in(header) matches Some(known) && forall|i: int|
        0 <= i < providers.len() ==> known.contains_key((#[trigger] providers[i]).name@)
            && compilable(providers[i]@, known[providers[i].name@])
}

/// What is generated for each provider of a list, given the header that the
/// provider compiler wrote for their definitions. Fails where the header does
/// not serve the list.
pub fn compile_providers(
    providers: &[Provider],
    header: &str,
    config: &CompileProvidersConfig,
    arch: Arch,
) -> (sites: Result<Vec<ProviderSite>, Error>)
    ensures
        match sites {
            Ok(sites) => {
                &&& header_serves(providers@, header@)
                &&& sites@.len() == providers@.len()
                &&& forall|i: int|
                    0 <= i < providers@.len() ==> (#[trigger] sites@[i])@ == provider_site_of(
                        providers@[i]@,
                        providers_in(header@).unwrap()[providers@[i].name@],
                        *config,
                        arch,
                    )
            },
            Err(error) => !header_serves(providers@, header@) && error == Error::ParseFailure,
        },
{
    let known = match scan_header(header) {
        Some(known) => known,
        None => {
            return Err(Error::ParseFailure);
        },
    };
    let mut sites: Vec<ProviderSite> = Vec::new();
    let mut i: usize = 0;
    while i < providers.len()
        invariant
            i <= providers@.len(),
            providers_in(header@) == Some(known@),
            sites@.len() == i,
            forall|j: int|
                0 <= j < i ==> known@.contains_key((#[trigger] providers@[j]).name@) && compilable(
                    providers@[j]@,
                    known@[providers@[j].name@],
                ),
            forall|j: int|
                0 <= j < i ==> (#[trigger] sites@[j])@ == provider_site_of(
                    providers@[j]@,
                    known@[providers@[j].name@],
                    *config,
                    arch,
                ),
        decreases providers.len() - i,
    {
        let provider = &providers[i];
        let info = match known.get(provider.name.as_str()) {
            Some(info) => info,
            None => {
                return Err(Error::ParseFailure);
            },
        };
        let site = match compile_provider(provider, info, config, arch) {
            Ok(site) => site,
            Err(error) => {
                return Err(error);
            },
        };
        sites.push(site);
        i += 1;
    }
    Ok(sites)
}

/// Registers the probes with the kernel. With this backend the linker has
/// done that already, so nothing happens and nothing fails.
pub fn register_probes() -> (done: Result<(), Error>)
    ensures
        done == Ok::<(), Error>(()),
{
    Ok(())
}

} // verus!
