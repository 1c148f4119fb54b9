//! Which categories were asked for.

use crate::target::{config_of, Target, TargetConfig, TargetConfigView};
use vstd::prelude::*;

verus! {

/// One switch for each category.
#[derive(Clone, Copy, Debug, PartialEq, Eq)]
pub struct Args {
    pub operator: bool,
    pub valuable: bool,
    pub material: bool,
    pub exp_arts: bool,
    pub soc: bool,
}

/// The category, if its switch is set.
pub open spec fn chosen(switch: bool, target: Target) -> Seq<Target> {
    if switch {
        seq![target]
    } else {
        Seq::empty()
    }
}

/// The categories whose switches are set, in the order in which the
/// switches are declared.
pub open spec fn selected_targets(args: Args) -> Seq<Target> {
    chosen(args.operator, Target::Operator) + chosen(args.valuable, Target::Valuable) + chosen(
        args.material,
        Target::Material,
    ) + chosen(args.exp_arts, Target::ExpArts) + chosen(args.soc, Target::Soc)
}

/// The mathematical content of a list of configurations.
pub open spec fn configs_view(configs: Seq<TargetConfig>) -> Seq<TargetConfigView> {
    configs.map_values(|c: TargetConfig| c@)
}

/// The configurations of a list of categories.
pub open spec fn configs_of(targets: Seq<Target>) -> Seq<TargetConfigView> {
    targets.map_values(|t: Target| config_of(t))
}

impl Args {
    /// The configurations of the categories that were asked for, in the
    /// order in which the switches are declared. No switch gives none.
    pub fn get_targets(&self) -> (targets: Vec<TargetConfig>)
        ensures
            configs_view(targets@) == configs_of(selected_targets(*self)),
    {
        let mut targets: Vec<TargetConfig> = Vec::new();
        if self.operator {
            targets.push(Target::Operator.to_config());
        }
        if self.valuable {
            targets.push(Target::Valuable.to_config());
        }
        if self.material {
            targets.push(Target::Material.to_config());
        }
        if self.exp_arts {
            targets.push(Target::ExpArts.to_config());
        }
        if self.soc {
            targets.push(Target::Soc.to_config());
        }
        assert(configs_view(targets@) =~= configs_of(selected_targets(*self)));
        targets
    }
}

} // verus!
