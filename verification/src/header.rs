//! Reading mangled symbol names out of the header that the provider compiler
//! writes.
//!
//! Four kinds of line matter. Two carry a marker symbol of a provider inside a
//! string literal; two declare the functions of a probe. Every other line is
//! passed over. All positions are counted in characters.
use crate::table::Table;
use crate::text::{
    chars_of, find, first_occurrence, is_first_occurrence, last_occurrence,
    lemma_first_occurrence, lemma_last_occurrence, lemma_occurs_char, line_bounds, lines,
    occurs_at, parts, rfind,
};
use vstd::prelude::*;
use vstd::string::*;

verus! {

/// What a marker line yields for the marker that begins with `needle`: the
/// provider's name and the symbol.
///
/// The name runs from the end of the first `needle` to the next `$`. The
/// symbol begins one character after the start of that `needle`, since the
/// marker has one underscore too many in front. It ends before the quote that
/// closes the string literal in which the marker stands: the first quote
/// behind the needle. Where no quote follows, it ends before the last
/// character of the line. A line without the needle, or without a `$` behind
/// it, yields nothing.
pub open spec fn marker_of(line: Seq<char>, needle: Seq<char>) -> Option<(Seq<char>, Seq<char>)> {
    match first_occurrence(line, needle) {
        None => None,
        Some(at) => {
            let rest = line.skip(at + needle.len());
            match first_occurrence(rest, seq!['$']) {
                None => None,
                Some(end) => Some(
                    (rest.take(end), symbol_between(line, at + 1, marker_end_of(line, at, needle))),
                ),
            }
        },
    }
}

/// Where the symbol of a marker ends, for the needle that stands at `at`: at
/// the first quote behind the needle, or one character before the line's end
/// where no quote follows.
pub open spec fn marker_end_of(line: Seq<char>, at: int, needle: Seq<char>) -> int {
    match first_occurrence(line.skip(at + needle.len()), seq!['"']) {
        Some(quote) => at + needle.len() + quote,
        None => line.len() - 1,
    }
}

/// The part of the line from `start` to `end`; nothing where `end` stands
/// before `start`, which only an empty needle brings about.
pub open spec fn symbol_between(line: Seq<char>, start: int, end: int) -> Seq<char> {
    if start <= end {
        line.subrange(start, end)
    } else {
        Seq::empty()
    }
}

/// Where the name of the declared function begins inside a needle: one past
/// the needle's last blank, or at the needle's start where it has none.
pub open spec fn name_offset_of(needle: Seq<char>) -> int {
    match last_occurrence(needle, seq![' ']) {
        Some(blank) => blank + 1,
        None => 0,
    }
}

/// What a declaration line yields for the declaration that begins with
/// `needle`: the provider's name, the probe's name and the symbol.
///
/// The provider's name runs from the end of the first `needle` to the next
/// `$`, the probe's name from there to the `$` after it. The symbol is the
/// name of the declared function: it begins inside that `needle`, one past its
/// last blank, and ends before the first `(` behind the probe's name. What
/// stands in front of the needle does not matter. A line that lacks the
/// needle, one of the two `$` or the `(` yields nothing.
pub open spec fn declaration_of(line: Seq<char>, needle: Seq<char>) -> Option<
    (Seq<char>, Seq<char>, Seq<char>),
> {
    match first_occurrence(line, needle) {
        None => None,
        Some(at) => {
            let rest = line.skip(at + needle.len());
            match first_occurrence(rest, seq!['$']) {
                None => None,
                Some(provider_end) => {
                    let tail = rest.skip(provider_end + 1);
                    match first_occurrence(tail, seq!['$']) {
                        None => None,
                        Some(probe_end) => match first_occurrence(
                            tail.skip(probe_end + 1),
                            seq!['('],
                        ) {
                            None => None,
                            Some(paren) => Some(
                                (
                                    rest.take(provider_end),
                                    tail.take(probe_end),
                                    line.subrange(
                                        at + name_offset_of(needle),
                                        at + needle.len() + provider_end + 1 + probe_end + 1
                                            + paren,
                                    ),
                                ),
                            ),
                        },
                    }
                },
            }
        },
    }
}

/// A line in which the needle stands nowhere yields nothing, whichever of the
/// two kinds of line is asked for.
pub proof fn lemma_no_needle_no_match(line: Seq<char>, needle: Seq<char>)
    requires
        forall|at: int| !occurs_at(line, needle, at),
    ensures
        marker_of(line, needle) is None,
        declaration_of(line, needle) is None,
{
}

/// What a marker line yields, read off the line itself, for a needle that is
/// not empty.
///
/// From the first place where the needle stands, the line reads: the needle,
/// the provider's name, a `$`. The name holds no `$`. The symbol stands one
/// character behind the start of the needle, and holds the needle but for its
/// first character. Where a quote follows the needle, the symbol ends before
/// the first such quote, so that behind the needle it holds none. Where none
/// follows, the symbol ends before the last character of the line.
pub proof fn lemma_marker_parts(
    line: Seq<char>,
    needle: Seq<char>,
    provider: Seq<char>,
    symbol: Seq<char>,
)
    requires
        needle.len() > 0,
        marker_of(line, needle) == Some((provider, symbol)),
    ensures
        first_occurrence(line, needle) matches Some(at) && {
            &&& is_first_occurrence(line, needle, at)
            &&& at + needle.len() + provider.len() < line.len()
            &&& line.subrange(at, at + needle.len() + provider.len() + 1) == needle + provider
                + seq!['$']
            &&& !provider.contains('$')
            &&& at + 1 + symbol.len() <= line.len()
            &&& line.subrange(at + 1, at + 1 + symbol.len()) == symbol
            &&& needle.len() - 1 <= symbol.len()
            &&& symbol.take(needle.len() - 1) == needle.skip(1)
            &&& !symbol.skip(needle.len() - 1).contains('"')
            &&& if line.skip(at + needle.len()).contains('"') {
                line[at + 1 + symbol.len()] == '"'
            } else {
                at + 1 + symbol.len() == line.len() - 1
            }
        },
{
    lemma_first_occurrence(line, needle);
    let at = first_occurrence(line, needle).unwrap();
    let rest = line.skip(at + needle.len());
    lemma_first_occurrence(rest, seq!['$']);
    lemma_first_occurrence(rest, seq!['"']);
    let end = first_occurrence(rest, seq!['$']).unwrap();
    lemma_occurs_char(rest, '$', end);
    assert(line.subrange(at, at + needle.len() + provider.len() + 1) =~= needle + provider
        + seq!['$']);
    assert forall|j: int| 0 <= j < provider.len() implies provider[j] != '$' by {
        lemma_occurs_char(rest, '$', j);
    }
    assert(line.subrange(at + 1, at + 1 + symbol.len()) =~= symbol);
    assert(symbol.take(needle.len() - 1) =~= needle.skip(1));
    let behind = symbol.skip(needle.len() - 1);
    match first_occurrence(rest, seq!['"']) {
        Some(quote) => {
            lemma_occurs_char(rest, '"', quote);
            assert(rest.contains('"'));
            assert forall|j: int| 0 <= j < behind.len() implies behind[j] != '"' by {
                lemma_occurs_char(rest, '"', j);
            }
        },
        None => {
            assert forall|j: int| 0 <= j < rest.len() implies rest[j] != '"' by {
                lemma_occurs_char(rest, '"', j);
            }
            assert forall|j: int| 0 <= j < behind.len() implies behind[j] != '"' by {
                assert(behind[j] == rest[j]);
            }
        },
    }
}

/// What a declaration line yields, read off the line itself.
///
/// From the first place where the needle stands, the line reads: the needle,
/// the provider's name, a `$`, the probe's name, a `$`, and, after more that
/// holds no `(`, a `(`. Neither name holds a `$`. The symbol is that stretch
/// of the line without the `(` and without the needle's words up to its last
/// blank; so it holds no blank from the needle.
pub proof fn lemma_declaration_parts(
    line: Seq<char>,
    needle: Seq<char>,
    provider: Seq<char>,
    probe: Seq<char>,
    symbol: Seq<char>,
)
    requires
        declaration_of(line, needle) == Some((provider, probe, symbol)),
    ensures
        0 <= name_offset_of(needle) <= needle.len(),
        name_offset_of(needle) > 0 ==> needle[name_offset_of(needle) - 1] == ' ',
        forall|i: int| name_offset_of(needle) <= i < needle.len() ==> needle[i] != ' ',
        first_occurrence(line, needle) matches Some(at) && {
            let name = needle.skip(name_offset_of(needle));
            let start = at + name_offset_of(needle);
            let names = (name.len() + provider.len() + 1 + probe.len() + 1) as int;
            &&& is_first_occurrence(line, needle, at)
            &&& start + symbol.len() < line.len()
            &&& line.subrange(start, start + symbol.len() + 1) == symbol + seq!['(']
            &&& names <= symbol.len()
            &&& symbol.take(names) == name + provider + seq!['$'] + probe + seq!['$']
            &&& !provider.contains('$')
            &&& !probe.contains('$')
            &&& forall|i: int| names <= i < symbol.len() ==> symbol[i] != '('
        },
{
    lemma_last_occurrence(needle, seq![' ']);
    match last_occurrence(needle, seq![' ']) {
        Some(blank) => {
            lemma_occurs_char(needle, ' ', blank);
            assert forall|i: int| blank + 1 <= i < needle.len() implies needle[i] != ' ' by {
                lemma_occurs_char(needle, ' ', i);
            }
        },
        None => {
            assert forall|i: int| 0 <= i < needle.len() implies needle[i] != ' ' by {
                lemma_occurs_char(needle, ' ', i);
            }
        },
    }
    lemma_first_occurrence(line, needle);
    let at = first_occurrence(line, needle).unwrap();
    let rest = line.skip(at + needle.len());
    lemma_first_occurrence(rest, seq!['$']);
    let provider_end = first_occurrence(rest, seq!['$']).unwrap();
    lemma_occurs_char(rest, '$', provider_end);
    let tail = rest.skip(provider_end + 1);
    lemma_first_occurrence(tail, seq!['$']);
    let probe_end = first_occurrence(tail, seq!['$']).unwrap();
    lemma_occurs_char(tail, '$', probe_end);
    let arguments = tail.skip(probe_end + 1);
    lemma_first_occurrence(arguments, seq!['(']);
    let paren = first_occurrence(arguments, seq!['(']).unwrap();
    lemma_occurs_char(arguments, '(', paren);
    let name = needle.skip(name_offset_of(needle));
    let start = at + name_offset_of(needle);
    assert(line.subrange(start, start + symbol.len() + 1) =~= symbol + seq!['(']);
    let names = (name.len() + provider.len() + 1 + probe.len() + 1) as int;
    assert(symbol.take(names) =~= name + provider + seq!['$'] + probe + seq!['$']);
    assert forall|j: int| 0 <= j < provider.len() implies provider[j] != '$' by {
        lemma_occurs_char(rest, '$', j);
    }
    assert forall|j: int| 0 <= j < probe.len() implies probe[j] != '$' by {
        lemma_occurs_char(tail, '$', j);
    }
    assert forall|i: int| names <= i < symbol.len() implies symbol[i] != '(' by {
        lemma_occurs_char(arguments, '(', i - names);
    }
}

/// The contents of the two strings of a marker match.
pub open spec fn marker_view(found: Option<(&str, &str)>) -> Option<(Seq<char>, Seq<char>)> {
    match found {
        Some((provider, symbol)) => Some((provider@, symbol@)),
        None => None,
    }
}

/// The contents of the three strings of a declaration match.
pub open spec fn declaration_view(found: Option<(&str, &str, &str)>) -> Option<
    (Seq<char>, Seq<char>, Seq<char>),
> {
    match found {
        Some((provider, probe, symbol)) => Some((provider@, probe@, symbol@)),
        None => None,
    }
}

/// The provider's name and the symbol of a marker line, for the marker that
/// begins with `needle`.
pub fn contains_needle<'a>(line: &'a str, needle: &str) -> (found: Option<(&'a str, &'a str)>)
    ensures
        marker_view(found) == marker_of(line@, needle@),
{
    let chars = chars_of(line);
    let pattern = chars_of(needle);
    let mut dollar: Vec<char> = Vec::new();
    dollar.push('$');
    assert(dollar@ =~= seq!['$']);
    let mut closing: Vec<char> = Vec::new();
    closing.push('"');
    assert(closing@ =~= seq!['"']);
    assert(chars@.skip(0) =~= line@);
    let at = match find(&chars, 0, &pattern) {
        Some(at) => at,
        None => {
            return None;
        },
    };
    let name_start = at + pattern.len();
    let ghost rest = line@.skip(name_start as int);
    let name_end = match find(&chars, name_start, &dollar) {
        Some(end) => end,
        None => {
            return None;
        },
    };
    let symbol_end = match find(&chars, name_start, &closing) {
        Some(quote) => quote,
        None => chars.len() - 1,
    };
    let provider = line.substring_char(name_start, name_end);
    let symbol = if at + 1 <= symbol_end {
        line.substring_char(at + 1, symbol_end)
    } else {
        line.substring_char(0, 0)
    };
    assert(rest.take(name_end - name_start) =~= line@.subrange(
        name_start as int,
        name_end as int,
    ));
    assert(line@.subrange(0, 0) =~= Seq::<char>::empty());
    Some((provider, symbol))
}

/// The provider's name, the probe's name and the symbol of a declaration
/// line, for the declaration that begins with `needle`.
pub fn contains_needle2<'a>(line: &'a str, needle: &str) -> (found: Option<
    (&'a str, &'a str, &'a str),
>)
    ensures
        declaration_view(found) == declaration_of(line@, needle@),
{
    let chars = chars_of(line);
    let pattern = chars_of(needle);
    let mut dollar: Vec<char> = Vec::new();
    dollar.push('$');
    assert(dollar@ =~= seq!['$']);
    let mut paren: Vec<char> = Vec::new();
    paren.push('(');
    assert(paren@ =~= seq!['(']);
    let mut blank: Vec<char> = Vec::new();
    blank.push(' ');
    assert(blank@ =~= seq![' ']);
    assert(chars@.skip(0) =~= line@);
    let at = match find(&chars, 0, &pattern) {
        Some(at) => at,
        None => {
            return None;
        },
    };
    let provider_start = at + pattern.len();
    let ghost rest = line@.skip(provider_start as int);
    let provider_end = match find(&chars, provider_start, &dollar) {
        Some(end) => end,
        None => {
            return None;
        },
    };
    let probe_start = provider_end + 1;
    let ghost tail = rest.skip(provider_end - provider_start + 1);
    assert(tail =~= line@.skip(probe_start as int));
    let probe_end = match find(&chars, probe_start, &dollar) {
        Some(end) => end,
        None => {
            return None;
        },
    };
    assert(tail.skip(probe_end - probe_start + 1) =~= line@.skip(probe_end + 1));
    let end = match find(&chars, probe_end + 1, &paren) {
        Some(end) => end,
        None => {
            return None;
        },
    };
    let start = match rfind(&pattern, &blank) {
        Some(last) => at + last + 1,
        None => at,
    };
    let provider = line.substring_char(provider_start, provider_end);
    let probe = line.substring_char(probe_start, probe_end);
    let symbol = line.substring_char(start, end);
    assert(rest.take(provider_end - provider_start) =~= line@.subrange(
        provider_start as int,
        provider_end as int,
    ));
    assert(tail.take(probe_end - probe_start) =~= line@.subrange(
        probe_start as int,
        probe_end as int,
    ));
    Some((provider, probe, symbol))
}

/// The provider's name and the stability symbol, where `line` defines a
/// provider's stability marker.
pub fn is_stability_line(line: &str) -> (found: Option<(&str, &str)>)
    ensures
        marker_view(found) == marker_of(line@, "___dtrace_stability$"@),
{
    contains_needle(line, "___dtrace_stability$")
}

/// The provider's name and the typedefs symbol, where `line` defines a
/// provider's typedefs marker.
pub fn is_typedefs_line(line: &str) -> (found: Option<(&str, &str)>)
    ensures
        marker_view(found) == marker_of(line@, "___dtrace_typedefs$"@),
{
    contains_needle(line, "___dtrace_typedefs$")
}

/// The provider's name, the probe's name and the symbol of the function that
/// tells whether the probe is enabled, where `line` declares that function.
pub fn is_enabled_line(line: &str) -> (found: Option<(&str, &str, &str)>)
    ensures
        declaration_view(found) == declaration_of(line@, "extern int __dtrace_isenabled$"@),
{
    contains_needle2(line, "extern int __dtrace_isenabled$")
}

/// The provider's name, the probe's name and the symbol of the function that
/// fires the probe, where `line` declares that function.
pub fn is_probe_line(line: &str) -> (found: Option<(&str, &str, &str)>)
    ensures
        declaration_view(found) == declaration_of(line@, "extern void __dtrace_probe$"@),
{
    contains_needle2(line, "extern void __dtrace_probe$")
}

/// The symbols of one provider, as a header gives them.
#[derive(Debug)]
pub struct ProviderInfo {
    /// The stability marker's symbol.
    pub stability: String,
    /// The typedefs marker's symbol.
    pub typedefs: String,
    /// For each probe, the symbol of the function that tells whether it is
    /// enabled.
    pub is_enabled: Table<String>,
    /// For each probe, the symbol of the function that fires it.
    pub probes: Table<String>,
}

/// The symbols of one provider, as mathematical values.
pub struct ProviderSymbols {
    pub stability: Seq<char>,
    pub typedefs: Seq<char>,
    pub is_enabled: Map<Seq<char>, Seq<char>>,
    pub probes: Map<Seq<char>, Seq<char>>,
}

impl View for ProviderInfo {
    type V = ProviderSymbols;

    open spec fn view(&self) -> ProviderSymbols {
        ProviderSymbols {
            stability: self.stability@,
            typedefs: self.typedefs@,
            is_enabled: self.is_enabled@,
            probes: self.probes@,
        }
    }
}

impl Default for ProviderInfo {
    fn default() -> (info: ProviderInfo)
        ensures
            info@ == introduced(Seq::empty()),
    {
        ProviderInfo {
            stability: String::new(),
            typedefs: String::new(),
            is_enabled: Table::new(),
            probes: Table::new(),
        }
    }
}

/// What is known of a provider when its stability line has been read and
/// nothing else.
pub open spec fn introduced(stability: Seq<char>) -> ProviderSymbols {
    ProviderSymbols {
        stability,
        typedefs: Seq::empty(),
        is_enabled: Map::empty(),
        probes: Map::empty(),
    }
}

/// The providers after `line` was read for a stability marker: such a line
/// introduces its provider, and forgets what was known of one with that name.
pub open spec fn after_stability(
    providers: Map<Seq<char>, ProviderSymbols>,
    line: Seq<char>,
) -> Map<Seq<char>, ProviderSymbols> {
    match marker_of(line, "___dtrace_stability$"@) {
        Some((provider, symbol)) => providers.insert(provider, introduced(symbol)),
        None => providers,
    }
}

/// The providers after `line` was read for a typedefs marker, or `None` where
/// the line names a provider that was not introduced.
pub open spec fn after_typedefs(
    providers: Map<Seq<char>, ProviderSymbols>,
    line: Seq<char>,
) -> Option<Map<Seq<char>, ProviderSymbols>> {
    match marker_of(line, "___dtrace_typedefs$"@) {
        Some((provider, symbol)) => if providers.contains_key(provider) {
            Some(
                providers.insert(
                    provider,
                    ProviderSymbols { typedefs: symbol, ..providers[provider] },
                ),
            )
        } else {
            None
        },
        None => Some(providers),
    }
}

/// The providers after `line` was read for the declaration of an is-enabled
/// function, or `None` where the line names a provider that was not
/// introduced.
pub open spec fn after_is_enabled(
    providers: Map<Seq<char>, ProviderSymbols>,
    line: Seq<char>,
) -> Option<Map<Seq<char>, ProviderSymbols>> {
    match declaration_of(line, "extern int __dtrace_isenabled$"@) {
        Some((provider, probe, symbol)) => if providers.contains_key(provider) {
            Some(
                providers.insert(
                    provider,
                    ProviderSymbols {
                        is_enabled: providers[provider].is_enabled.insert(probe, symbol),
                        ..providers[provider]
                    },
                ),
            )
        } else {
            None
        },
        None => Some(providers),
    }
}

/// The providers after `line` was read for the declaration of a probe
/// function, or `None` where the line names a provider that was not
/// introduced.
pub open spec fn after_probe(
    providers: Map<Seq<char>, ProviderSymbols>,
    line: Seq<char>,
) -> Option<Map<Seq<char>, ProviderSymbols>> {
    match declaration_of(line, "extern void __dtrace_probe$"@) {
        Some((provider, probe, symbol)) => if providers.contains_key(provider) {
            Some(
                providers.insert(
                    provider,
                    ProviderSymbols {
                        probes: providers[provider].probes.insert(probe, symbol),
                        ..providers[provider]
                    },
                ),
            )
        } else {
            None
        },
        None => Some(providers),
    }
}

/// The providers after one line was read for all four kinds, in the order
/// stability, typedefs, is-enabled, probe.
pub open spec fn after_line(
    providers: Map<Seq<char>, ProviderSymbols>,
    line: Seq<char>,
) -> Option<Map<Seq<char>, ProviderSymbols>> {
    match after_typedefs(after_stability(providers, line), line) {
        None => None,
        Some(with_typedefs) => match after_is_enabled(with_typedefs, line) {
            None => None,
            Some(with_is_enabled) => after_probe(with_is_enabled, line),
        },
    }
}

/// A line that matches none of the four kinds is passed over: the providers
/// stay as they were.
pub proof fn lemma_other_lines_are_passed_over(
    providers: Map<Seq<char>, ProviderSymbols>,
    line: Seq<char>,
)
    requires
        marker_of(line, "___dtrace_stability$"@) is None,
        marker_of(line, "___dtrace_typedefs$"@) is None,
        declaration_of(line, "extern int __dtrace_isenabled$"@) is None,
        declaration_of(line, "extern void __dtrace_probe$"@) is None,
    ensures
        after_line(providers, line) == Some(providers),
{
}

/// The providers after the given lines were read in order, beginning with
/// none.
pub open spec fn after_lines(lines: Seq<Seq<char>>) -> Option<Map<Seq<char>, ProviderSymbols>>
    decreases lines.len(),
{
    if lines.len() == 0 {
        Some(Map::empty())
    } else {
        match after_lines(lines.drop_last()) {
            None => None,
            Some(providers) => after_line(providers, lines.last()),
        }
    }
}

/// The providers that a header defines, or `None` where one of its lines
/// names a provider that no stability line before it introduced.
pub open spec fn providers_in(header: Seq<char>) -> Option<Map<Seq<char>, ProviderSymbols>> {
    after_lines(lines(header))
}

/// Once reading has failed, more lines do not mend it.
proof fn lemma_failure_stays(lines: Seq<Seq<char>>, n: int)
    requires
        0 <= n <= lines.len(),
        after_lines(lines.take(n)) is None,
    ensures
        after_lines(lines) is None,
    decreases lines.len() - n,
{
    if n == lines.len() {
        assert(lines.take(n) =~= lines);
    } else {
        assert(lines.take(n + 1).drop_last() =~= lines.take(n));
        lemma_failure_stays(lines, n + 1);
    }
}

/// Records the typedefs symbol of a provider. Returns whether the provider
/// was known.
fn set_typedefs(providers: &mut Table<ProviderInfo>, provider: &str, symbol: &str) -> (known:
    bool)
    ensures
        known == old(providers)@.contains_key(provider@),
        known ==> final(providers)@ == old(providers)@.insert(
            provider@,
            ProviderSymbols { typedefs: symbol@, ..old(providers)@[provider@] },
        ),
{
    match providers.remove(provider) {
        None => false,
        Some(info) => {
            let mut info = info;
            info.typedefs = symbol.to_owned();
            providers.insert(provider.to_owned(), info);
            assert(providers@ =~= old(providers)@.insert(
                provider@,
                ProviderSymbols { typedefs: symbol@, ..old(providers)@[provider@] },
            ));
            true
        },
    }
}

/// Records the symbol of a probe's is-enabled function. Returns whether the
/// provider was known.
fn set_is_enabled(
    providers: &mut Table<ProviderInfo>,
    provider: &str,
    probe: &str,
    symbol: &str,
) -> (known: bool)
    ensures
        known == old(providers)@.contains_key(provider@),
        known ==> final(providers)@ == old(providers)@.insert(
            provider@,
            ProviderSymbols {
                is_enabled: old(providers)@[provider@].is_enabled.insert(probe@, symbol@),
                ..old(providers)@[provider@]
            },
        ),
{
    match providers.remove(provider) {
        None => false,
        Some(info) => {
            let mut info = info;
            info.is_enabled.insert(probe.to_owned(), symbol.to_owned());
            providers.insert(provider.to_owned(), info);
            assert(providers@ =~= old(providers)@.insert(
                provider@,
                ProviderSymbols {
                    is_enabled: old(providers)@[provider@].is_enabled.insert(probe@, symbol@),
                    ..old(providers)@[provider@]
                },
            ));
            true
        },
    }
}

/// Records the symbol of a probe's function. Returns whether the provider was
/// known.
fn set_probe(providers: &mut Table<ProviderInfo>, provider: &str, probe: &str, symbol: &str) -> (known:
    bool)
    ensures
        known == old(providers)@.contains_key(provider@),
        known ==> final(providers)@ == old(providers)@.insert(
            provider@,
            ProviderSymbols {
                probes: old(providers)@[provider@].probes.insert(probe@, symbol@),
                ..old(providers)@[provider@]
            },
        ),
{
    match providers.remove(provider) {
        None => false,
        Some(info) => {
            let mut info = info;
            info.probes.insert(probe.to_owned(), symbol.to_owned());
            providers.insert(provider.to_owned(), info);
            assert(providers@ =~= old(providers)@.insert(
                provider@,
                ProviderSymbols {
                    probes: old(providers)@[provider@].probes.insert(probe@, symbol@),
                    ..old(providers)@[provider@]
                },
            ));
            true
        },
    }
}

/// Reads one line into `providers`. Returns `false` where the line names a
/// provider that was not introduced; `providers` is then of no further use.
fn read_line(providers: &mut Table<ProviderInfo>, line: &str) -> (read: bool)
    ensures
        match after_line(old(providers)@, line@) {
            Some(after) => read && final(providers)@ == after,
            None => !read,
        },
{
    if let Some((provider, symbol)) = is_stability_line(line) {
        let mut info = ProviderInfo::default();
        info.stability = symbol.to_owned();
        providers.insert(provider.to_owned(), info);
    }
    assert(providers@ == after_stability(old(providers)@, line@));
    if let Some((provider, symbol)) = is_typedefs_line(line) {
        if !set_typedefs(providers, provider, symbol) {
            return false;
        }
    }
    if let Some((provider, probe, symbol)) = is_enabled_line(line) {
        if !set_is_enabled(providers, provider, probe, symbol) {
            return false;
        }
    }
    if let Some((provider, probe, symbol)) = is_probe_line(line) {
        if !set_probe(providers, provider, probe, symbol) {
            return false;
        }
    }
    true
}

/// The providers that a header defines, each with its symbols; `None` where a
/// line names a provider that no stability line before it introduced.
pub fn scan_header(header: &str) -> (providers: Option<Table<ProviderInfo>>)
    ensures
        match providers {
            Some(found) => providers_in(header@) == Some(found@),
            None => providers_in(header@) is None,
        },
{
    let chars = chars_of(header);
    let bounds = line_bounds(&chars);
    let mut providers: Table<ProviderInfo> = Table::new();
    let ghost all = lines(header@);
    assert(all.take(0) =~= Seq::empty());
    let mut i: usize = 0;
    while i < bounds.len()
        invariant
            i <= bounds.len(),
            chars@ == header@,
            all == lines(header@),
            parts(chars@, bounds@) == all,
            forall|k: int|
                0 <= k < bounds.len() ==> (#[trigger] bounds[k]).0 <= bounds[k].1 <= chars.len(),
            after_lines(all.take(i as int)) == Some(providers@),
        decreases bounds.len() - i,
    {
        let (start, end) = bounds[i];
        let line = header.substring_char(start, end);
        assert(line@ == all[i as int]);
        assert(all.take(i + 1).drop_last() =~= all.take(i as int));
        if !read_line(&mut providers, line) {
            proof {
                lemma_failure_stays(all, i + 1);
            }
            return None;
        }
        i += 1;
    }
    assert(all.take(i as int) =~= all);
    Some(providers)
}

/// The providers that a header defines, each with its symbols.
///
/// The header must introduce each provider by a stability line before any
/// other line names it.
pub fn extract_providers(header: &str) -> (providers: Table<ProviderInfo>)
    requires
        providers_in(header@) is Some,
    ensures
        providers_in(header@) == Some(providers@),
{
    match scan_header(header) {
        Some(providers) => providers,
        // Not reached: the header is in order.
        None => Table::new(),
    }
}

} // verus!
