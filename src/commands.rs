use vstd::prelude::*;

use crate::spawn_generator::{strings_view, CommandLists, SpawnCommands};

verus! {

/// The first line of a saved report, with the blank line after it.
pub open spec fn report_header() -> Seq<char> {
    "Generated Spawn Commands for ARK: Survival Ascended - Developed by Arti\n\n"@
}

/// Each string followed by a line break.
pub open spec fn line_block(v: Seq<Seq<char>>) -> Seq<char>
    decreases v.len(),
{
    if v.len() == 0 {
        Seq::empty()
    } else {
        line_block(v.drop_last()) + v.last() + "\n"@
    }
}

/// The saved report of a command set: the header, then the engram, item,
/// creature and tamed creature sections, each a title line and one command
/// per line, with a blank line between sections. Buff blueprints are not
/// part of it.
pub open spec fn report_text(c: CommandLists) -> Seq<char> {
    report_header() + "--- Engram Names ---\n"@ + line_block(c.engram_names)
        + "\n--- Item Spawn Commands ---\n"@ + line_block(c.item_spawncodes)
        + "\n--- Creature Spawn Commands ---\n"@ + line_block(c.creature_spawncodes)
        + "\n--- Tamed Creature Spawn Commands ---\n"@ + line_block(
        c.tamed_creature_spawncodes,
    )
}

/// Appends each of `v`, followed by a line break, to `out`.
fn append_lines(out: &mut String, v: &Vec<String>)
    ensures
        final(out)@ == old(out)@ + line_block(strings_view(v@)),
{
    let mut k: usize = 0;
    while k < v.len()
        invariant
            k <= v.len(),
            out@ == old(out)@ + line_block(strings_view(v@.take(k as int))),
        decreases v.len() - k,
    {
        proof {
            let t = strings_view(v@.take(k + 1));
            assert(t.drop_last() =~= strings_view(v@.take(k as int)));
            assert(t.last() == v@[k as int]@);
        }
        out.append(v[k].as_str());
        out.append("\n");
        k = k + 1;
    }
    proof {
        assert(v@.take(k as int) =~= v@);
    }
}

/// The text of the report that is saved for `commands`.
pub fn commands_report(commands: &SpawnCommands) -> (r: String)
    ensures
        r@ == report_text(commands@),
{
    let mut out = String::new();
    out.append("Generated Spawn Commands for ARK: Survival Ascended - Developed by Arti\n\n");
    out.append("--- Engram Names ---\n");
    append_lines(&mut out, &commands.engram_names);
    out.append("\n--- Item Spawn Commands ---\n");
    append_lines(&mut out, &commands.item_spawncodes);
    out.append("\n--- Creature Spawn Commands ---\n");
    append_lines(&mut out, &commands.creature_spawncodes);
    out.append("\n--- Tamed Creature Spawn Commands ---\n");
    append_lines(&mut out, &commands.tamed_creature_spawncodes);
    out
}

} // verus!
