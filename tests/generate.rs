use ark_spawn_gen::spawn_generator::render_entry;
use ark_spawn_gen::spawn_generator::{classify, render_each};
use ark_spawn_gen::{commands_report, CommandForm, EntryCategory, SpawnCommands, SpawnGenerator};

fn lines(v: &[&str]) -> Vec<String> {
    v.iter().map(|s| s.to_string()).collect()
}

fn generate(v: &[&str]) -> SpawnCommands {
    SpawnGenerator::new().generate_spawn_commands(&lines(v))
}

#[test]
fn engram_line_gives_engram_name() {
    let c = generate(&[
        "ShooterGame/Mods/123/Content/PrimalEarth/CoreBlueprints/EngramEntry_Spear.uasset 123",
    ]);
    assert!(c.engram_names.contains(&"EngramEntry_Spear_C".to_string()));
    assert_eq!(c.engram_names, vec!["EngramEntry_Spear_C".to_string()]);
    assert!(c.item_spawncodes.is_empty());
    assert!(c.creature_spawncodes.is_empty());
    assert!(c.buff_blueprints.is_empty());
}

#[test]
fn item_line_gives_giveitem_command() {
    let c = generate(&["ShooterGame/Mods/123/Content/PrimalEarth/Items/PrimalItem_Spear.uasset"]);
    assert_eq!(
        c.item_spawncodes,
        vec![
            "cheat giveitem \"Blueprint'/123/PrimalEarth/Items/PrimalItem_Spear.PrimalItem_Spear'\" 1 0 0"
                .to_string()
        ]
    );
    assert!(c.engram_names.is_empty());
}

#[test]
fn creature_line_gives_both_creature_commands() {
    let c = generate(&["ShooterGame/Mods/123/Content/Dinos/Rex/Character_BP_Rex.uasset"]);
    assert_eq!(
        c.creature_spawncodes,
        vec![
            "cheat SpawnDino \"Blueprint'/123/Dinos/Rex/Character_BP_Rex.Character_BP_Rex'\" 500 0 0 120"
                .to_string()
        ]
    );
    assert_eq!(
        c.tamed_creature_spawncodes,
        vec!["admincheat GMSummon \"Character_BP_Rex_C\" 120".to_string()]
    );
}

#[test]
fn non_asset_first_token_is_ignored() {
    let c = generate(&[
        "ShooterGame/Mods/123/Content/Items/PrimalItem_Spear.uexp",
        "123 ShooterGame/Mods/123/Content/Items/PrimalItem_Spear.uasset",
        "",
        "   ",
    ]);
    assert!(c.engram_names.is_empty());
    assert!(c.item_spawncodes.is_empty());
    assert!(c.creature_spawncodes.is_empty());
    assert!(c.tamed_creature_spawncodes.is_empty());
    assert!(c.buff_blueprints.is_empty());
}

#[test]
fn empty_manifest_gives_empty_lists() {
    let c = generate(&[]);
    assert!(c.engram_names.is_empty());
    assert!(c.item_spawncodes.is_empty());
    assert!(c.creature_spawncodes.is_empty());
    assert!(c.tamed_creature_spawncodes.is_empty());
    assert!(c.buff_blueprints.is_empty());
}

#[test]
fn buff_needs_folder_and_prefix() {
    let c = generate(&[
        "ShooterGame/Mods/9/Content/Buffs/Buff_Speed.uasset",
        "ShooterGame/Mods/9/Content/Buffs/Speed.uasset",
        "ShooterGame/Mods/9/Content/Other/Buff_Speed.uasset",
    ]);
    assert_eq!(c.buff_blueprints, vec!["Blueprint'/9/Buffs/Buff_Speed.Buff_Speed'".to_string()]);
}

#[test]
fn first_matching_rule_wins() {
    assert_eq!(classify("A/EngramEntry_PrimalItem.uasset"), EntryCategory::Engram);
    assert_eq!(classify("A/PrimalItem_Character_BP.uasset"), EntryCategory::Item);
    assert_eq!(classify("A/Buffs/Character_BP_Buff_X.uasset"), EntryCategory::Creature);
    assert_eq!(classify("A/Buffs/Buff_X.uasset"), EntryCategory::Buff);
    assert_eq!(classify("A/Things/Rock.uasset"), EntryCategory::Unclassified);
    let c = generate(&["A/EngramEntry_PrimalItem.uasset"]);
    assert_eq!(c.engram_names.len(), 1);
    assert!(c.item_spawncodes.is_empty());
}

#[test]
fn leading_whitespace_and_columns() {
    let c = generate(&["\t  ShooterGame/Mods/1/Content/I/PrimalItem_A.uasset  42 x"]);
    assert_eq!(
        c.item_spawncodes,
        vec!["cheat giveitem \"Blueprint'/1/I/PrimalItem_A.PrimalItem_A'\" 1 0 0".to_string()]
    );
}

#[test]
fn order_and_duplicates_are_kept() {
    let c = generate(&[
        "M/EngramEntry_B.uasset",
        "M/EngramEntry_A.uasset",
        "M/EngramEntry_B.uasset",
    ]);
    assert_eq!(
        c.engram_names,
        vec![
            "EngramEntry_B_C".to_string(),
            "EngramEntry_A_C".to_string(),
            "EngramEntry_B_C".to_string()
        ]
    );
}

#[test]
fn generating_twice_gives_same_result() {
    let input = [
        "ShooterGame/Mods/123/Content/Dinos/Rex/Character_BP_Rex.uasset",
        "ShooterGame/Mods/123/Content/PrimalEarth/Items/PrimalItem_Spear.uasset",
        "ShooterGame/Mods/9/Content/Buffs/Buff_Speed.uasset",
    ];
    let a = generate(&input);
    let b = generate(&input);
    assert_eq!(a.engram_names, b.engram_names);
    assert_eq!(a.item_spawncodes, b.item_spawncodes);
    assert_eq!(a.creature_spawncodes, b.creature_spawncodes);
    assert_eq!(a.tamed_creature_spawncodes, b.tamed_creature_spawncodes);
    assert_eq!(a.buff_blueprints, b.buff_blueprints);
    assert_eq!(commands_report(&a), commands_report(&b));
}

#[test]
fn lists_never_exceed_asset_lines() {
    let input = [
        "ShooterGame/Mods/1/Content/Dinos/Character_BP_A.uasset",
        "ShooterGame/Mods/1/Content/Dinos/Character_BP_B.uasset",
        "notes.txt",
        "ShooterGame/Mods/1/Content/X/Rock.uasset",
    ];
    let c = generate(&input);
    let n = 3;
    assert!(c.creature_spawncodes.len() <= n);
    assert!(c.tamed_creature_spawncodes.len() <= n);
    assert_eq!(c.creature_spawncodes.len(), 2);
    assert_eq!(c.tamed_creature_spawncodes.len(), 2);
}

#[test]
fn each_entry_lands_in_one_list() {
    let c = generate(&[
        "M/EngramEntry_PrimalItem_Buffs/Buff_X.uasset",
        "M/PrimalItem_X/Buffs/Buff_Y.uasset",
    ]);
    assert_eq!(c.engram_names.len(), 1);
    assert_eq!(c.item_spawncodes.len(), 1);
    assert!(c.buff_blueprints.is_empty());
}

#[test]
fn stripping_removes_inner_occurrences() {
    let c = generate(&["Root/ShooterGame/Mods/A/Content/B/Content/PrimalItem_Z.uasset"]);
    assert_eq!(
        c.item_spawncodes,
        vec!["cheat giveitem \"Blueprint'/Root/A/B/PrimalItem_Z.PrimalItem_Z'\" 1 0 0".to_string()]
    );
}

#[test]
fn blueprint_path_and_name_are_clean() {
    let r = render_entry(
        CommandForm::BuffBlueprint,
        "ShooterGame/Mods/77/Content/Effects/Buffs/Buff_Fire.uasset",
    );
    assert_eq!(r, "Blueprint'/77/Effects/Buffs/Buff_Fire.Buff_Fire'");
    assert!(!r.contains("ShooterGame/Mods/"));
    assert!(!r.contains("Content/"));
    assert!(!r.contains(".uasset"));
}

#[test]
fn entry_without_directory() {
    assert_eq!(render_entry(CommandForm::EngramName, "EngramEntry_X.uasset"), "EngramEntry_X_C");
    assert_eq!(
        render_entry(CommandForm::TamedCreatureSpawn, "Character_BP_Y.uasset"),
        "admincheat GMSummon \"Character_BP_Y_C\" 120"
    );
}

#[test]
fn render_each_keeps_order() {
    let r = render_each(
        CommandForm::EngramName,
        &lines(&["a/EngramEntry_1.uasset", "b/EngramEntry_2.uasset"]),
    );
    assert_eq!(r, vec!["EngramEntry_1_C".to_string(), "EngramEntry_2_C".to_string()]);
}

#[test]
fn parse_takes_first_asset_tokens() {
    let g = SpawnGenerator::new();
    let e = g.parse_manifest_lines(&lines(&["a.uasset 1", "b.txt", " c/d.uasset", "x.uasset.bak"]));
    assert_eq!(e, vec!["a.uasset".to_string(), "c/d.uasset".to_string()]);
}

#[test]
fn filter_splits_by_category() {
    let g = SpawnGenerator::new();
    let (en, it, cr, bu) = g.filter_relevant_entries(&lines(&[
        "x/EngramEntry_A.uasset",
        "x/PrimalItem_B.uasset",
        "x/Character_BP_C.uasset",
        "x/Buffs/Buff_D.uasset",
        "x/Rock.uasset",
    ]));
    assert_eq!(en, vec!["x/EngramEntry_A.uasset".to_string()]);
    assert_eq!(it, vec!["x/PrimalItem_B.uasset".to_string()]);
    assert_eq!(cr, vec!["x/Character_BP_C.uasset".to_string()]);
    assert_eq!(bu, vec!["x/Buffs/Buff_D.uasset".to_string()]);
}

#[test]
fn report_lists_four_sections_without_buffs() {
    let c = generate(&[
        "ShooterGame/Mods/123/Content/PrimalEarth/CoreBlueprints/EngramEntry_Spear.uasset",
        "ShooterGame/Mods/123/Content/Dinos/Rex/Character_BP_Rex.uasset",
        "ShooterGame/Mods/9/Content/Buffs/Buff_Speed.uasset",
    ]);
    let expected = "Generated Spawn Commands for ARK: Survival Ascended - Developed by Arti\n\n\
--- Engram Names ---\n\
EngramEntry_Spear_C\n\
\n--- Item Spawn Commands ---\n\
\n--- Creature Spawn Commands ---\n\
cheat SpawnDino \"Blueprint'/123/Dinos/Rex/Character_BP_Rex.Character_BP_Rex'\" 500 0 0 120\n\
\n--- Tamed Creature Spawn Commands ---\n\
admincheat GMSummon \"Character_BP_Rex_C\" 120\n";
    assert_eq!(commands_report(&c), expected);
}

#[test]
fn class_name_without_asset_suffix_is_kept() {
    assert_eq!(render_entry(CommandForm::EngramName, "dir/EngramEntry_X.uexp"), "EngramEntry_X.uexp");
}

#[test]
fn stripping_repeats_until_no_pattern_is_left() {
    assert_eq!(
        render_entry(CommandForm::ItemSpawn, "A/Con.uassettent/PrimalItem_X.uasset"),
        "cheat giveitem \"Blueprint'/A/PrimalItem_X.PrimalItem_X'\" 1 0 0"
    );
    let c = generate(&["PrimalItem.uas.uassetset.uasset"]);
    assert_eq!(
        c.item_spawncodes,
        vec!["cheat giveitem \"Blueprint'/PrimalItem.PrimalItem'\" 1 0 0".to_string()]
    );
    assert_eq!(
        render_entry(CommandForm::BuffBlueprint, "X/ShooterGame/MoContent/ds/Buffs/Buff_Z.uasset"),
        "Blueprint'/X/Buffs/Buff_Z.Buff_Z'"
    );
}
