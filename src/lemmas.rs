use vstd::prelude::*;

use crate::spawn_generator::{
    asset_suffix, blueprint_path, category, commands_for, manifest_entries, select,
    strings_view, strip_once, EntryCategory,
};
use crate::text::{contains, ends_with, first_token, last_segment, occurs_at, remove_all};

verus! {

/// The number of lines whose first token ends with `.uasset`.
pub open spec fn asset_line_count(lines: Seq<Seq<char>>) -> nat
    decreases lines.len(),
{
    if lines.len() == 0 {
        0
    } else if ends_with(first_token(lines.last()), asset_suffix()) {
        asset_line_count(lines.drop_last()) + 1
    } else {
        asset_line_count(lines.drop_last())
    }
}

proof fn lemma_entries_count(lines: Seq<Seq<char>>)
    ensures
        manifest_entries(lines).len() == asset_line_count(lines),
    decreases lines.len(),
{
    if lines.len() > 0 {
        lemma_entries_count(lines.drop_last());
    }
}

proof fn lemma_select_len(entries: Seq<Seq<char>>, c: EntryCategory)
    ensures
        select(entries, c).len() <= entries.len(),
    decreases entries.len(),
{
    if entries.len() > 0 {
        lemma_select_len(entries.drop_last(), c);
    }
}

proof fn lemma_select_category(entries: Seq<Seq<char>>, c: EntryCategory, e: Seq<char>)
    requires
        select(entries, c).contains(e),
    ensures
        category(e) == c,
    decreases entries.len(),
{
    if entries.len() > 0 {
        let prev = select(entries.drop_last(), c);
        if category(entries.last()) == c && e == entries.last() {
        } else {
            if category(entries.last()) == c {
                let i = choose|i: int| 0 <= i < select(entries, c).len() && select(entries, c)[i] == e;
                assert(i < prev.len());
                assert(prev[i] == e);
            }
            lemma_select_category(entries.drop_last(), c, e);
        }
    }
}

/// Every list of the command set of a manifest holds at most as many
/// commands as the manifest has lines whose first token ends with `.uasset`.
pub proof fn lemma_lists_bounded(lines: Seq<Seq<char>>)
    ensures
        ({
            let c = commands_for(manifest_entries(lines));
            let n = asset_line_count(lines);
            &&& c.engram_names.len() <= n
            &&& c.item_spawncodes.len() <= n
            &&& c.creature_spawncodes.len() <= n
            &&& c.tamed_creature_spawncodes.len() <= n
            &&& c.buff_blueprints.len() <= n
        }),
{
    let entries = manifest_entries(lines);
    lemma_entries_count(lines);
    lemma_select_len(entries, EntryCategory::Engram);
    lemma_select_len(entries, EntryCategory::Item);
    lemma_select_len(entries, EntryCategory::Creature);
    lemma_select_len(entries, EntryCategory::Buff);
}

/// Two manifests with the same lines give the same command set, item for
/// item and in the same order.
pub proof fn lemma_same_lines_same_commands(a: Seq<String>, b: Seq<String>)
    requires
        strings_view(a) == strings_view(b),
    ensures
        commands_for(manifest_entries(strings_view(a))) == commands_for(
            manifest_entries(strings_view(b)),
        ),
{
}

/// No entry is selected into two categories: an engram is never an item or
/// a buff, and an item never a buff (nor any of them a creature).
pub proof fn lemma_categories_exclusive(entries: Seq<Seq<char>>, e: Seq<char>)
    ensures
        ({
            let engrams = select(entries, EntryCategory::Engram);
            let items = select(entries, EntryCategory::Item);
            let creatures = select(entries, EntryCategory::Creature);
            let buffs = select(entries, EntryCategory::Buff);
            &&& !(engrams.contains(e) && items.contains(e))
            &&& !(engrams.contains(e) && buffs.contains(e))
            &&& !(items.contains(e) && buffs.contains(e))
            &&& !(creatures.contains(e) && (engrams.contains(e) || items.contains(e)
                || buffs.contains(e)))
        }),
{
    if select(entries, EntryCategory::Engram).contains(e) {
        lemma_select_category(entries, EntryCategory::Engram, e);
    }
    if select(entries, EntryCategory::Item).contains(e) {
        lemma_select_category(entries, EntryCategory::Item, e);
    }
    if select(entries, EntryCategory::Creature).contains(e) {
        lemma_select_category(entries, EntryCategory::Creature, e);
    }
    if select(entries, EntryCategory::Buff).contains(e) {
        lemma_select_category(entries, EntryCategory::Buff, e);
    }
}

proof fn lemma_last_segment_is_suffix(s: Seq<char>)
    ensures
        ends_with(s, last_segment(s)),
    decreases s.len(),
{
    if s.len() > 0 && s.last() != '/' {
        let t = s.drop_last();
        lemma_last_segment_is_suffix(t);
        let seg = last_segment(t);
        assert(s.subrange(s.len() - seg.len() - 1, s.len() as int) =~= seg.push(s.last()));
    } else {
        assert(s.subrange(s.len() as int, s.len() as int) =~= last_segment(s));
    }
}

/// The name derived from an entry, the last segment of its blueprint path,
/// stands inside that path.
pub proof fn lemma_name_within_blueprint_path(e: Seq<char>)
    ensures
        contains(blueprint_path(e), last_segment(blueprint_path(e))),
{
    let path = blueprint_path(e);
    lemma_last_segment_is_suffix(path);
    assert(occurs_at(path, path.len() - last_segment(path).len(), last_segment(path)));
}

proof fn lemma_entries_append(a: Seq<Seq<char>>, b: Seq<Seq<char>>)
    ensures
        manifest_entries(a + b) == manifest_entries(a) + manifest_entries(b),
    decreases b.len(),
{
    if b.len() == 0 {
        assert(a + b =~= a);
        assert(manifest_entries(a) + manifest_entries(b) =~= manifest_entries(a));
    } else {
        lemma_entries_append(a, b.drop_last());
        assert((a + b).drop_last() =~= a + b.drop_last());
        assert((a + b).last() == b.last());
        let tok = first_token(b.last());
        assert((manifest_entries(a) + manifest_entries(b.drop_last())).push(tok) =~= manifest_entries(
            a,
        ) + manifest_entries(b.drop_last()).push(tok));
    }
}

/// A line whose first token does not end with `.uasset` adds nothing to the
/// command set, wherever it stands in the manifest.
pub proof fn lemma_other_line_ignored(
    before: Seq<Seq<char>>,
    line: Seq<char>,
    after: Seq<Seq<char>>,
)
    requires
        !ends_with(first_token(line), asset_suffix()),
    ensures
        commands_for(manifest_entries(before.push(line) + after)) == commands_for(
            manifest_entries(before + after),
        ),
{
    lemma_entries_append(before.push(line), after);
    lemma_entries_append(before, after);
    assert(before.push(line).drop_last() =~= before);
}

proof fn lemma_occurs_in_tail(s: Seq<char>, p: Seq<char>, i: int)
    requires
        s.len() > 0,
        i >= 1,
        occurs_at(s, i, p),
    ensures
        occurs_at(s.drop_first(), i - 1, p),
{
    assert(s.drop_first().subrange(i - 1, i - 1 + p.len()) =~= s.subrange(i, i + p.len()));
}

proof fn lemma_remove_all_len(s: Seq<char>, p: Seq<char>)
    ensures
        remove_all(s, p).len() <= s.len(),
        p.len() > 0 && contains(s, p) ==> remove_all(s, p).len() < s.len(),
    decreases s.len(),
{
    if s.len() > 0 && p.len() > 0 {
        if occurs_at(s, 0, p) {
            lemma_remove_all_len(s.subrange(p.len() as int, s.len() as int), p);
        } else {
            lemma_remove_all_len(s.drop_first(), p);
            if contains(s, p) {
                let i = choose|i: int| occurs_at(s, i, p);
                assert(i != 0);
                lemma_occurs_in_tail(s, p, i);
            }
        }
    }
}

proof fn lemma_remove_all_absent(s: Seq<char>, p: Seq<char>)
    requires
        !contains(s, p),
    ensures
        remove_all(s, p) == s,
    decreases s.len(),
{
    if s.len() > 0 && p.len() > 0 {
        assert(!occurs_at(s, 0, p));
        let t = s.drop_first();
        assert forall|i: int| !occurs_at(t, i, p) by {
            if occurs_at(t, i, p) {
                assert(s.subrange(i + 1, i + 1 + p.len()) =~= t.subrange(i, i + p.len()));
                assert(occurs_at(s, i + 1, p));
            }
        }
        lemma_remove_all_absent(t, p);
        assert(seq![s[0]] + t =~= s);
    }
}

proof fn lemma_blueprint_path_stable(e: Seq<char>)
    ensures
        strip_once(blueprint_path(e)).len() >= blueprint_path(e).len(),
    decreases e.len(),
{
    if strip_once(e).len() < e.len() {
        lemma_blueprint_path_stable(strip_once(e));
    }
}

/// The blueprint path of any entry holds none of `ShooterGame/Mods/`,
/// `Content/` and `.uasset`.
pub proof fn lemma_blueprint_path_clean(e: Seq<char>)
    ensures
        !contains(blueprint_path(e), "ShooterGame/Mods/"@),
        !contains(blueprint_path(e), "Content/"@),
        !contains(blueprint_path(e), asset_suffix()),
{
    reveal_strlit("ShooterGame/Mods/");
    reveal_strlit("Content/");
    reveal_strlit(".uasset");
    let p = blueprint_path(e);
    lemma_blueprint_path_stable(e);
    let a = remove_all(p, "ShooterGame/Mods/"@);
    let b = remove_all(a, "Content/"@);
    lemma_remove_all_len(p, "ShooterGame/Mods/"@);
    lemma_remove_all_len(a, "Content/"@);
    lemma_remove_all_len(b, asset_suffix());
    lemma_remove_all_absent(p, "ShooterGame/Mods/"@);
    lemma_remove_all_absent(a, "Content/"@);
}

} // verus!
