use wikiru_images::{Args, SelectionRule, Target, TargetConfig};

fn none() -> Args {
    Args { operator: false, valuable: false, material: false, exp_arts: false, soc: false }
}

fn targets_of(configs: &[TargetConfig]) -> Vec<Target> {
    configs.iter().map(|c| c.target).collect()
}

#[test]
fn operator_config_is_fixed() {
    let config = Target::Operator.to_config();
    assert_eq!(config.target, Target::Operator);
    assert_eq!(
        config.src_url,
        "https://arknights.wikiru.jp/?%E3%82%AD%E3%83%A3%E3%83%A9%E3%82%AF%E3%82%BF%E3%83%BC%E4%B8%80%E8%A6%A7"
    );
    assert_eq!(config.tar_dir, "results/operators");
}

#[test]
fn valuable_config_is_fixed() {
    let config = Target::Valuable.to_config();
    assert_eq!(config.target, Target::Valuable);
    assert_eq!(
        config.src_url,
        "https://arknights.wikiru.jp/?%E3%83%86%E3%83%BC%E3%83%96%E3%83%AB/%E8%B2%B4%E9%87%8D%E5%93%81"
    );
    assert_eq!(config.tar_dir, "results/valuables");
}

#[test]
fn material_config_is_fixed() {
    let config = Target::Material.to_config();
    assert_eq!(config.target, Target::Material);
    assert_eq!(
        config.src_url,
        "https://arknights.wikiru.jp/?%E3%83%86%E3%83%BC%E3%83%96%E3%83%AB/%E7%B4%A0%E6%9D%90"
    );
    assert_eq!(config.tar_dir, "results/materials");
}

#[test]
fn exp_arts_config_is_fixed() {
    let config = Target::ExpArts.to_config();
    assert_eq!(config.target, Target::ExpArts);
    assert_eq!(
        config.src_url,
        "https://arknights.wikiru.jp/?%E3%83%86%E3%83%BC%E3%83%96%E3%83%AB/%E4%BD%9C%E6%88%A6%E8%A8%98%E9%8C%B2%E3%83%BB%E3%82%A2%E3%83%BC%E3%83%84%E5%AD%A6"
    );
    assert_eq!(config.tar_dir, "results/exp-arts");
}

#[test]
fn soc_config_is_fixed() {
    let config = Target::Soc.to_config();
    assert_eq!(config.target, Target::Soc);
    assert_eq!(config.src_url, "https://arknights.wikiru.jp/?%E3%83%86%E3%83%BC%E3%83%96%E3%83%AB/SoC");
    assert_eq!(config.tar_dir, "results/soc");
}

#[test]
fn no_switch_selects_nothing() {
    assert!(none().get_targets().is_empty());
}

#[test]
fn every_switch_selects_its_own_category() {
    assert_eq!(targets_of(&Args { operator: true, ..none() }.get_targets()), vec![Target::Operator]);
    assert_eq!(targets_of(&Args { valuable: true, ..none() }.get_targets()), vec![Target::Valuable]);
    assert_eq!(targets_of(&Args { material: true, ..none() }.get_targets()), vec![Target::Material]);
    assert_eq!(targets_of(&Args { exp_arts: true, ..none() }.get_targets()), vec![Target::ExpArts]);
    assert_eq!(targets_of(&Args { soc: true, ..none() }.get_targets()), vec![Target::Soc]);
}

#[test]
fn switches_select_in_declaration_order() {
    let all = Args { operator: true, valuable: true, material: true, exp_arts: true, soc: true };
    assert_eq!(
        targets_of(&all.get_targets()),
        vec![Target::Operator, Target::Valuable, Target::Material, Target::ExpArts, Target::Soc]
    );
    let some = Args { soc: true, valuable: true, ..none() };
    assert_eq!(targets_of(&some.get_targets()), vec![Target::Valuable, Target::Soc]);
}

#[test]
fn selected_configs_are_those_of_the_categories() {
    let some = Args { material: true, operator: true, ..none() };
    assert_eq!(some.get_targets(), vec![Target::Operator.to_config(), Target::Material.to_config()]);
}

#[test]
fn only_the_operator_category_has_a_rule() {
    assert_eq!(
        Target::Operator.selection_rule(),
        SelectionRule::SortableTables { first: 1, last: 12 }
    );
    for target in [Target::Valuable, Target::Material, Target::ExpArts, Target::Soc] {
        assert_eq!(target.selection_rule(), SelectionRule::NotYetSupported);
        assert_eq!(target.selection_rule().selector(), None);
    }
}

#[test]
fn operator_selector_names_twelve_tables() {
    let expected = "#sortabletable1 img.lazyload[data-src], \
                    #sortabletable2 img.lazyload[data-src], \
                    #sortabletable3 img.lazyload[data-src], \
                    #sortabletable4 img.lazyload[data-src], \
                    #sortabletable5 img.lazyload[data-src], \
                    #sortabletable6 img.lazyload[data-src], \
                    #sortabletable7 img.lazyload[data-src], \
                    #sortabletable8 img.lazyload[data-src], \
                    #sortabletable9 img.lazyload[data-src], \
                    #sortabletable10 img.lazyload[data-src], \
                    #sortabletable11 img.lazyload[data-src], \
                    #sortabletable12 img.lazyload[data-src]";
    assert_eq!(Target::Operator.selection_rule().selector(), Some(expected.to_string()));
}

#[test]
fn selector_of_a_single_table() {
    let rule = SelectionRule::SortableTables { first: 3, last: 3 };
    assert_eq!(rule.selector(), Some("#sortabletable3 img.lazyload[data-src]".to_string()));
}

#[test]
fn selector_writes_numbers_in_decimal() {
    let rule = SelectionRule::SortableTables { first: 99, last: 101 };
    assert_eq!(
        rule.selector(),
        Some(
            "#sortabletable99 img.lazyload[data-src], #sortabletable100 img.lazyload[data-src], \
             #sortabletable101 img.lazyload[data-src]"
                .to_string()
        )
    );
    let zero = SelectionRule::SortableTables { first: 0, last: 0 };
    assert_eq!(zero.selector(), Some("#sortabletable0 img.lazyload[data-src]".to_string()));
}

#[test]
fn selector_reaches_the_greatest_number() {
    let rule = SelectionRule::SortableTables { first: u32::MAX - 1, last: u32::MAX };
    assert_eq!(
        rule.selector(),
        Some(
            "#sortabletable4294967294 img.lazyload[data-src], \
             #sortabletable4294967295 img.lazyload[data-src]"
                .to_string()
        )
    );
}

#[test]
fn selector_of_an_empty_range_is_empty() {
    let rule = SelectionRule::SortableTables { first: 5, last: 4 };
    assert_eq!(rule.selector(), Some(String::new()));
}
