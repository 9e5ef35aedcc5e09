//! What every probe site has in common, whichever backend writes it.
//!
//! A site first reads whether its probe is enabled. Only where it is, the
//! site makes the arguments ready and executes the probe's instructions. No
//! instruction of a site touches memory, uses the stack or changes the flags,
//! so a site can stand anywhere in a program.
use vstd::prelude::*;
use vstd::string::*;

verus! {

/// One step of a probe site.
#[derive(Debug, Clone, Copy, PartialEq, Eq, Structural)]
pub enum Step {
    /// Read whether the probe is enabled.
    ReadEnabled,
    /// Make the arguments ready.
    Marshal,
    /// Execute the probe's instructions.
    Fire,
}

/// The order in which a site runs.
#[derive(Debug, Clone)]
pub struct SiteShape {
    /// What runs first, every time.
    pub test: Step,
    /// What runs after it, in this order, if and only if the test read
    /// something other than zero.
    pub when_enabled: Vec<Step>,
}

/// The order in which a site runs, as mathematical values.
pub struct SiteShapeView {
    pub test: Step,
    pub when_enabled: Seq<Step>,
}

impl View for SiteShape {
    type V = SiteShapeView;

    open spec fn view(&self) -> SiteShapeView {
        SiteShapeView { test: self.test, when_enabled: self.when_enabled@ }
    }
}

/// The order of every site: the read comes first; behind it, and only where
/// the probe is enabled, the arguments are made ready and then the probe
/// fires.
pub open spec fn site_shape() -> SiteShapeView {
    SiteShapeView { test: Step::ReadEnabled, when_enabled: seq![Step::Marshal, Step::Fire] }
}

/// What the instructions of every site promise: to touch no memory, to use
/// no stack, to leave the flags as they are.
pub open spec fn site_options() -> Seq<Seq<char>> {
    seq!["nomem"@, "nostack"@, "preserves_flags"@]
}

/// The order of every site.
pub fn shape() -> (shape: SiteShape)
    ensures
        shape@ == site_shape(),
{
    let mut when_enabled: Vec<Step> = Vec::new();
    when_enabled.push(Step::Marshal);
    when_enabled.push(Step::Fire);
    assert(when_enabled@ =~= seq![Step::Marshal, Step::Fire]);
    SiteShape { test: Step::ReadEnabled, when_enabled }
}

/// What the instructions of every site promise.
pub fn options() -> (options: Vec<String>)
    ensures
        options@.map_values(|text: String| text@) == site_options(),
{
    let mut options: Vec<String> = Vec::new();
    options.push("nomem".to_owned());
    options.push("nostack".to_owned());
    options.push("preserves_flags".to_owned());
    assert(options@.map_values(|text: String| text@) =~= site_options());
    options
}

/// In the order of every site nothing stands before the read, the probe
/// fires only behind the read and only where the probe is enabled, and the
/// arguments are made ready before it fires and under the same condition.
pub proof fn lemma_site_shape()
    ensures
        site_shape().test == Step::ReadEnabled,
        !site_shape().when_enabled.contains(Step::ReadEnabled),
        site_shape().when_enabled.index_of(Step::Marshal) < site_shape().when_enabled.index_of(
            Step::Fire,
        ),
        site_shape().when_enabled.contains(Step::Marshal),
        site_shape().when_enabled.contains(Step::Fire),
{
    let steps = site_shape().when_enabled;
    assert(steps[0] == Step::Marshal);
    assert(steps[1] == Step::Fire);
    assert(steps.index_of(Step::Marshal) == 0) by {
        let i = steps.index_of(Step::Marshal);
        assert(steps.contains(Step::Marshal));
    }
    assert(steps.index_of(Step::Fire) == 1) by {
        assert(steps.contains(Step::Fire));
    }
}

} // verus!
