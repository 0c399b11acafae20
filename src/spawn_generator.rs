use vstd::prelude::*;

use crate::text::{
    contains, contains_exec, drop_suffix, drop_suffix_exec, ends_with, ends_with_exec,
    first_token, first_token_exec, from_chars, last_segment, last_segment_exec, remove_all,
    remove_all_exec, sub_chars, to_chars,
};

verus! {

/// The suffix that every asset path of a manifest ends with.
pub open spec fn asset_suffix() -> Seq<char> {
    ".uasset"@
}

/// The kind of asset that a manifest entry names.
#[derive(Clone, Copy, Debug, PartialEq, Eq, Structural)]
pub enum EntryCategory {
    Engram,
    Item,
    Creature,
    Buff,
    Unclassified,
}

/// The category of an entry: the first rule that matches, in this order.
pub open spec fn category(e: Seq<char>) -> EntryCategory {
    if contains(e, "EngramEntry"@) {
        EntryCategory::Engram
    } else if contains(e, "PrimalItem"@) {
        EntryCategory::Item
    } else if contains(e, "Character_BP"@) {
        EntryCategory::Creature
    } else if contains(e, "/Buffs/"@) && contains(e, "Buff_"@) {
        EntryCategory::Buff
    } else {
        EntryCategory::Unclassified
    }
}

/// The category of `entry`.
pub fn classify(entry: &str) -> (r: EntryCategory)
    ensures
        r == category(entry@),
{
    let e = to_chars(entry);
    if contains_exec(&e, &to_chars("EngramEntry")) {
        EntryCategory::Engram
    } else if contains_exec(&e, &to_chars("PrimalItem")) {
        EntryCategory::Item
    } else if contains_exec(&e, &to_chars("Character_BP")) {
        EntryCategory::Creature
    } else if contains_exec(&e, &to_chars("/Buffs/")) && contains_exec(&e, &to_chars("Buff_")) {
        EntryCategory::Buff
    } else {
        EntryCategory::Unclassified
    }
}

/// One stripping pass: every `ShooterGame/Mods/`, then every `Content/`,
/// then every `.uasset` taken out.
pub open spec fn strip_once(e: Seq<char>) -> Seq<char> {
    remove_all(remove_all(remove_all(e, "ShooterGame/Mods/"@), "Content/"@), asset_suffix())
}

/// The blueprint path of an entry: stripping passes repeated until one
/// changes nothing, so that no removal leaves a pattern behind.
pub open spec fn blueprint_path(e: Seq<char>) -> Seq<char>
    decreases e.len(),
{
    if strip_once(e).len() < e.len() {
        blueprint_path(strip_once(e))
    } else {
        e
    }
}

/// The class name of an entry: its last path segment with the suffix
/// `.uasset` replaced by `_C` (the segment as it is, when it lacks that
/// suffix).
pub open spec fn class_name(e: Seq<char>) -> Seq<char> {
    let seg = last_segment(e);
    if ends_with(seg, asset_suffix()) {
        drop_suffix(seg, asset_suffix()) + "_C"@
    } else {
        seg
    }
}

/// The blueprint reference of an entry: `Blueprint'/{path}.{name}'`, where
/// `name` is the last segment of the blueprint path.
pub open spec fn blueprint_ref(e: Seq<char>) -> Seq<char> {
    let path = blueprint_path(e);
    "Blueprint'/"@ + path + "."@ + last_segment(path) + "'"@
}

/// The output forms that the generator writes for an entry.
#[derive(Clone, Copy, Debug, PartialEq, Eq, Structural)]
pub enum CommandForm {
    /// The class name of an engram.
    EngramName,
    /// `cheat giveitem "{ref}" 1 0 0`.
    ItemSpawn,
    /// `cheat SpawnDino "{ref}" 500 0 0 120`.
    CreatureSpawn,
    /// `admincheat GMSummon "{class name}" 120`.
    TamedCreatureSpawn,
    /// The blueprint reference alone.
    BuffBlueprint,
}

/// The text that `form` gives for the entry `e`.
pub open spec fn render(form: CommandForm, e: Seq<char>) -> Seq<char> {
    match form {
        CommandForm::EngramName => class_name(e),
        CommandForm::ItemSpawn => "cheat giveitem \""@ + blueprint_ref(e) + "\" 1 0 0"@,
        CommandForm::CreatureSpawn => "cheat SpawnDino \""@ + blueprint_ref(e)
            + "\" 500 0 0 120"@,
        CommandForm::TamedCreatureSpawn => "admincheat GMSummon \""@ + class_name(e) + "\" 120"@,
        CommandForm::BuffBlueprint => blueprint_ref(e),
    }
}

/// Appends the characters of `s` to `out`.
fn push_str(out: &mut Vec<char>, s: &str)
    ensures
        final(out)@ == old(out)@ + s@,
{
    let mut c = to_chars(s);
    out.append(&mut c);
}

/// Appends a copy of `v` to `out`.
fn push_chars(out: &mut Vec<char>, v: &Vec<char>)
    ensures
        final(out)@ == old(out)@ + v@,
{
    let mut c = sub_chars(v, 0, v.len());
    assert(v@.subrange(0, v.len() as int) =~= v@);
    out.append(&mut c);
}

/// One stripping pass over `e`.
pub fn strip_once_exec(e: &Vec<char>) -> (r: Vec<char>)
    ensures
        r@ == strip_once(e@),
{
    let a = remove_all_exec(e, &to_chars("ShooterGame/Mods/"));
    let b = remove_all_exec(&a, &to_chars("Content/"));
    remove_all_exec(&b, &to_chars(".uasset"))
}

/// The blueprint path of `entry`.
pub fn format_blueprint_path(entry: &str) -> (r: Vec<char>)
    ensures
        r@ == blueprint_path(entry@),
{
    let mut cur = to_chars(entry);
    let mut next = strip_once_exec(&cur);
    while next.len() < cur.len()
        invariant
            blueprint_path(cur@) == blueprint_path(entry@),
            next@ == strip_once(cur@),
        decreases cur.len(),
    {
        cur = next;
        next = strip_once_exec(&cur);
    }
    cur
}

/// The class name of `entry`.
pub fn format_class_name(entry: &str) -> (r: Vec<char>)
    ensures
        r@ == class_name(entry@),
{
    let e = to_chars(entry);
    let seg = last_segment_exec(&e);
    let suffix = to_chars(".uasset");
    if ends_with_exec(&seg, &suffix) {
        let mut r = drop_suffix_exec(&seg, &suffix);
        push_str(&mut r, "_C");
        r
    } else {
        seg
    }
}

/// The blueprint reference of `entry`.
pub fn format_blueprint_ref(entry: &str) -> (r: Vec<char>)
    ensures
        r@ == blueprint_ref(entry@),
{
    let path = format_blueprint_path(entry);
    let name = last_segment_exec(&path);
    let mut r = to_chars("Blueprint'/");
    push_chars(&mut r, &path);
    push_str(&mut r, ".");
    push_chars(&mut r, &name);
    push_str(&mut r, "'");
    r
}

/// The text that `form` gives for `entry`.
pub fn render_entry(form: CommandForm, entry: &str) -> (r: String)
    ensures
        r@ == render(form, entry@),
{
    let v = match form {
        CommandForm::EngramName => format_class_name(entry),
        CommandForm::ItemSpawn => {
            let mut v = to_chars("cheat giveitem \"");
            push_chars(&mut v, &format_blueprint_ref(entry));
            push_str(&mut v, "\" 1 0 0");
            v
        },
        CommandForm::CreatureSpawn => {
            let mut v = to_chars("cheat SpawnDino \"");
            push_chars(&mut v, &format_blueprint_ref(entry));
            push_str(&mut v, "\" 500 0 0 120");
            v
        },
        CommandForm::TamedCreatureSpawn => {
            let mut v = to_chars("admincheat GMSummon \"");
            push_chars(&mut v, &format_class_name(entry));
            push_str(&mut v, "\" 120");
            v
        },
        CommandForm::BuffBlueprint => format_blueprint_ref(entry),
    };
    from_chars(&v)
}

/// The characters of each string, in order.
pub open spec fn strings_view(v: Seq<String>) -> Seq<Seq<char>> {
    v.map_values(|s: String| s@)
}

/// The entries of a manifest given as its lines: the first token of each
/// line that ends with `.uasset`, in line order.
pub open spec fn manifest_entries(lines: Seq<Seq<char>>) -> Seq<Seq<char>>
    decreases lines.len(),
{
    if lines.len() == 0 {
        Seq::empty()
    } else {
        let prev = manifest_entries(lines.drop_last());
        let tok = first_token(lines.last());
        if ends_with(tok, asset_suffix()) {
            prev.push(tok)
        } else {
            prev
        }
    }
}

/// The entries of category `c`, in their order.
pub open spec fn select(entries: Seq<Seq<char>>, c: EntryCategory) -> Seq<Seq<char>>
    decreases entries.len(),
{
    if entries.len() == 0 {
        Seq::empty()
    } else {
        let prev = select(entries.drop_last(), c);
        if category(entries.last()) == c {
            prev.push(entries.last())
        } else {
            prev
        }
    }
}

/// `form` applied to each of `entries`.
pub open spec fn render_all(form: CommandForm, entries: Seq<Seq<char>>) -> Seq<Seq<char>> {
    entries.map_values(|e: Seq<char>| render(form, e))
}

/// The five command lists, as sequences of character sequences.
pub ghost struct CommandLists {
    pub engram_names: Seq<Seq<char>>,
    pub item_spawncodes: Seq<Seq<char>>,
    pub creature_spawncodes: Seq<Seq<char>>,
    pub tamed_creature_spawncodes: Seq<Seq<char>>,
    pub buff_blueprints: Seq<Seq<char>>,
}

/// The command lists that a sequence of manifest entries gives.
pub open spec fn commands_for(entries: Seq<Seq<char>>) -> CommandLists {
    CommandLists {
        engram_names: render_all(CommandForm::EngramName, select(entries, EntryCategory::Engram)),
        item_spawncodes: render_all(CommandForm::ItemSpawn, select(entries, EntryCategory::Item)),
        creature_spawncodes: render_all(
            CommandForm::CreatureSpawn,
            select(entries, EntryCategory::Creature),
        ),
        tamed_creature_spawncodes: render_all(
            CommandForm::TamedCreatureSpawn,
            select(entries, EntryCategory::Creature),
        ),
        buff_blueprints: render_all(CommandForm::BuffBlueprint, select(entries, EntryCategory::Buff)),
    }
}

/// The console commands generated from one manifest.
#[derive(Debug)]
pub struct SpawnCommands {
    pub engram_names: Vec<String>,
    pub item_spawncodes: Vec<String>,
    pub creature_spawncodes: Vec<String>,
    pub tamed_creature_spawncodes: Vec<String>,
    pub buff_blueprints: Vec<String>,
}

impl View for SpawnCommands {
    type V = CommandLists;

    open spec fn view(&self) -> CommandLists {
        CommandLists {
            engram_names: strings_view(self.engram_names@),
            item_spawncodes: strings_view(self.item_spawncodes@),
            creature_spawncodes: strings_view(self.creature_spawncodes@),
            tamed_creature_spawncodes: strings_view(self.tamed_creature_spawncodes@),
            buff_blueprints: strings_view(self.buff_blueprints@),
        }
    }
}

/// `form` applied to each of `entries`.
pub fn render_each(form: CommandForm, entries: &Vec<String>) -> (r: Vec<String>)
    ensures
        strings_view(r@) == render_all(form, strings_view(entries@)),
{
    let mut r: Vec<String> = Vec::new();
    let mut k: usize = 0;
    while k < entries.len()
        invariant
            k <= entries.len(),
            strings_view(r@) == render_all(form, strings_view(entries@.take(k as int))),
        decreases entries.len() - k,
    {
        let s = render_entry(form, entries[k].as_str());
        proof {
            assert(entries@.take(k + 1) =~= entries@.take(k as int).push(entries@[k as int]));
            assert(strings_view(r@.push(s)) =~= strings_view(r@).push(s@));
            assert(render_all(form, strings_view(entries@.take(k + 1))) =~= render_all(
                form,
                strings_view(entries@.take(k as int)),
            ).push(render(form, entries@[k as int]@)));
        }
        r.push(s);
        k = k + 1;
    }
    assert(entries@.take(k as int) =~= entries@);
    r
}

/// Turns manifest lines into console commands.
pub struct SpawnGenerator;

impl SpawnGenerator {
    /// A generator; it holds no state.
    pub fn new() -> SpawnGenerator {
        SpawnGenerator
    }

    /// The entries of a manifest given as its lines: the first token of each
    /// line that ends with `.uasset`, in line order.
    pub fn parse_manifest_lines(&self, lines: &Vec<String>) -> (r: Vec<String>)
        ensures
            strings_view(r@) == manifest_entries(strings_view(lines@)),
    {
        let mut r: Vec<String> = Vec::new();
        let mut k: usize = 0;
        while k < lines.len()
            invariant
                k <= lines.len(),
                strings_view(r@) == manifest_entries(strings_view(lines@.take(k as int))),
            decreases lines.len() - k,
        {
            let line = to_chars(lines[k].as_str());
            let tok = first_token_exec(&line);
            proof {
                assert(lines@.take(k + 1).drop_last() =~= lines@.take(k as int));
                assert(strings_view(lines@.take(k + 1)).drop_last() =~= strings_view(
                    lines@.take(k as int),
                ));
            }
            if ends_with_exec(&tok, &to_chars(".uasset")) {
                let s = from_chars(&tok);
                assert(strings_view(r@.push(s)) =~= strings_view(r@).push(s@));
                r.push(s);
            }
            k = k + 1;
        }
        assert(lines@.take(k as int) =~= lines@);
        r
    }

    /// Splits `entries` by category into engrams, items, creatures and
    /// buffs, each in input order; unclassified entries are left out.
    pub fn filter_relevant_entries(&self, entries: &Vec<String>) -> (r: (
        Vec<String>,
        Vec<String>,
        Vec<String>,
        Vec<String>,
    ))
        ensures
            strings_view(r.0@) == select(strings_view(entries@), EntryCategory::Engram),
            strings_view(r.1@) == select(strings_view(entries@), EntryCategory::Item),
            strings_view(r.2@) == select(strings_view(entries@), EntryCategory::Creature),
            strings_view(r.3@) == select(strings_view(entries@), EntryCategory::Buff),
    {
        let mut engrams: Vec<String> = Vec::new();
        let mut items: Vec<String> = Vec::new();
        let mut creatures: Vec<String> = Vec::new();
        let mut buffs: Vec<String> = Vec::new();
        let mut k: usize = 0;
        while k < entries.len()
            invariant
                k <= entries.len(),
                strings_view(engrams@) == select(
                    strings_view(entries@.take(k as int)),
                    EntryCategory::Engram,
                ),
                strings_view(items@) == select(
                    strings_view(entries@.take(k as int)),
                    EntryCategory::Item,
                ),
                strings_view(creatures@) == select(
                    strings_view(entries@.take(k as int)),
                    EntryCategory::Creature,
                ),
                strings_view(buffs@) == select(
                    strings_view(entries@.take(k as int)),
                    EntryCategory::Buff,
                ),
            decreases entries.len() - k,
        {
            let e = entries[k].clone();
            let ghost pre = strings_view(entries@.take(k as int));
            proof {
                assert(strings_view(entries@.take(k + 1)) =~= pre.push(e@));
                assert(pre.push(e@).drop_last() =~= pre);
            }
            let c = classify(e.as_str());
            match c {
                EntryCategory::Engram => {
                    assert(strings_view(engrams@.push(e)) =~= strings_view(engrams@).push(e@));
                    engrams.push(e);
                },
                EntryCategory::Item => {
                    assert(strings_view(items@.push(e)) =~= strings_view(items@).push(e@));
                    items.push(e);
                },
                EntryCategory::Creature => {
                    assert(strings_view(creatures@.push(e)) =~= strings_view(creatures@).push(
                        e@,
                    ));
                    creatures.push(e);
                },
                EntryCategory::Buff => {
                    assert(strings_view(buffs@.push(e)) =~= strings_view(buffs@).push(e@));
                    buffs.push(e);
                },
                EntryCategory::Unclassified => {},
            }
            k = k + 1;
        }
        assert(entries@.take(k as int) =~= entries@);
        (engrams, items, creatures, buffs)
    }

    /// The console commands for a manifest given as its lines.
    pub fn generate_spawn_commands(&self, lines: &Vec<String>) -> (r: SpawnCommands)
        ensures
            r@ == commands_for(manifest_entries(strings_view(lines@))),
    {
        let entries = self.parse_manifest_lines(lines);
        let (engrams, items, creatures, buffs) = self.filter_relevant_entries(&entries);
        let r = SpawnCommands {
            engram_names: render_each(CommandForm::EngramName, &engrams),
            item_spawncodes: render_each(CommandForm::ItemSpawn, &items),
            creature_spawncodes: render_each(CommandForm::CreatureSpawn, &creatures),
            tamed_creature_spawncodes: render_each(CommandForm::TamedCreatureSpawn, &creatures),
            buff_blueprints: render_each(CommandForm::BuffBlueprint, &buffs),
        };
        r
    }
}

} // verus!
