//! The download categories and their fixed configuration.

use vstd::prelude::*;

verus! {

/// A category of images that can be downloaded.
#[derive(Clone, Copy, Debug, PartialEq, Eq, Structural)]
pub enum Target {
    Operator,
    Valuable,
    Material,
    ExpArts,
    Soc,
}

/// Where a category's catalogue page is and where its files go.
#[derive(Clone, Debug, PartialEq, Eq)]
pub struct TargetConfig {
    pub target: Target,
    pub src_url: String,
    pub tar_dir: String,
}

/// The mathematical content of a [`TargetConfig`].
pub struct TargetConfigView {
    pub target: Target,
    pub src_url: Seq<char>,
    pub tar_dir: Seq<char>,
}

impl View for TargetConfig {
    type V = TargetConfigView;

    open spec fn view(&self) -> TargetConfigView {
        TargetConfigView { target: self.target, src_url: self.src_url@, tar_dir: self.tar_dir@ }
    }
}

/// The address of the catalogue page of each category.
pub open spec fn source_url(target: Target) -> Seq<char> {
    match target {
        Target::Operator => "https://arknights.wikiru.jp/?%E3%82%AD%E3%83%A3%E3%83%A9%E3%82%AF%E3%82%BF%E3%83%BC%E4%B8%80%E8%A6%A7"@,
        Target::Valuable => "https://arknights.wikiru.jp/?%E3%83%86%E3%83%BC%E3%83%96%E3%83%AB/%E8%B2%B4%E9%87%8D%E5%93%81"@,
        Target::Material => "https://arknights.wikiru.jp/?%E3%83%86%E3%83%BC%E3%83%96%E3%83%AB/%E7%B4%A0%E6%9D%90"@,
        Target::ExpArts => "https://arknights.wikiru.jp/?%E3%83%86%E3%83%BC%E3%83%96%E3%83%AB/%E4%BD%9C%E6%88%A6%E8%A8%98%E9%8C%B2%E3%83%BB%E3%82%A2%E3%83%BC%E3%83%84%E5%AD%A6"@,
        Target::Soc => "https://arknights.wikiru.jp/?%E3%83%86%E3%83%BC%E3%83%96%E3%83%AB/SoC"@,
    }
}

/// The directory that receives the files of each category.
pub open spec fn destination_dir(target: Target) -> Seq<char> {
    match target {
        Target::Operator => "results/operators"@,
        Target::Valuable => "results/valuables"@,
        Target::Material => "results/materials"@,
        Target::ExpArts => "results/exp-arts"@,
        Target::Soc => "results/soc"@,
    }
}

/// The configuration of a category, as a mathematical value.
pub open spec fn config_of(target: Target) -> TargetConfigView {
    TargetConfigView {
        target,
        src_url: source_url(target),
        tar_dir: destination_dir(target),
    }
}

impl Target {
    /// The configuration of this category. Every category has one.
    pub fn to_config(self) -> (config: TargetConfig)
        ensures
            config@ == config_of(self),
    {
        match self {
            Target::Operator => TargetConfig {
                target: self,
                src_url: "https://arknights.wikiru.jp/?%E3%82%AD%E3%83%A3%E3%83%A9%E3%82%AF%E3%82%BF%E3%83%BC%E4%B8%80%E8%A6%A7".to_string(),
                tar_dir: "results/operators".to_string(),
            },
            Target::Valuable => TargetConfig {
                target: self,
                src_url: "https://arknights.wikiru.jp/?%E3%83%86%E3%83%BC%E3%83%96%E3%83%AB/%E8%B2%B4%E9%87%8D%E5%93%81".to_string(),
                tar_dir: "results/valuables".to_string(),
            },
            Target::Material => TargetConfig {
                target: self,
                src_url: "https://arknights.wikiru.jp/?%E3%83%86%E3%83%BC%E3%83%96%E3%83%AB/%E7%B4%A0%E6%9D%90".to_string(),
                tar_dir: "results/materials".to_string(),
            },
            Target::ExpArts => TargetConfig {
                target: self,
                src_url: "https://arknights.wikiru.jp/?%E3%83%86%E3%83%BC%E3%83%96%E3%83%AB/%E4%BD%9C%E6%88%A6%E8%A8%98%E9%8C%B2%E3%83%BB%E3%82%A2%E3%83%BC%E3%83%84%E5%AD%A6".to_string(),
                tar_dir: "results/exp-arts".to_string(),
            },
            Target::Soc => TargetConfig {
                target: self,
                src_url: "https://arknights.wikiru.jp/?%E3%83%86%E3%83%BC%E3%83%96%E3%83%AB/SoC".to_string(),
                tar_dir: "results/soc".to_string(),
            },
        }
    }
}

} // verus!
