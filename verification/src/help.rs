//! Top-level help and version output, over an arbitrary command table.

use vstd::prelude::*;
use crate::command::Command;
use crate::command::help::D_SH_VERSION;
use crate::io::InputOutputHelper;
use crate::strutil::pad_right;
use crate::strutil::scat2;
use crate::strutil::scat3;
use crate::strutil::scat4;

verus! {

/// One command's line in the help listing: its name and short name padded
/// into a column, then its description.
pub open spec fn spec_help_line(c: Command) -> Seq<char> {
    "  "@ + crate::strutil::spec_pad_right(c.name@ + " ("@ + c.short_name@ + ")"@, 13) + c.description@
}

/// Prints the general usage text and one line per command of `commands`:
/// ten fixed header lines, then one line per command, each formed by
/// [`spec_help_line`].
pub fn help<I: InputOutputHelper>(commands: &[Command], io_helper: &mut I)
    ensures
        final(io_helper).events().len() == old(io_helper).events().len() + 10 + commands.len(),
        forall|i: int|
            0 <= i < commands.len() ==> final(io_helper).events()[old(io_helper).events().len()
                + 10 + i] == crate::io::IoOp::OutLine(spec_help_line(#[trigger] commands[i])),
{
    io_helper.println("");
    io_helper.println("Usage: d-sh COMMAND");
    io_helper.println("");
    io_helper.println("A tool to container all your life");
    io_helper.println("");
    io_helper.println("Options:");
    io_helper.println("  -h, --help               Print this current help");
    io_helper.println("  -v, --version            Print version information and quit");
    io_helper.println("");
    io_helper.println("Commands:");
    let ghost mid = io_helper.events();
    let mut i: usize = 0;
    while i < commands.len()
        invariant
            i <= commands.len(),
            io_helper.events().len() == mid.len() + i,
            mid == io_helper.events().take(mid.len() as int),
            forall|k: int|
                0 <= k < i ==> io_helper.events()[mid.len() + k] == crate::io::IoOp::OutLine(
                    spec_help_line(#[trigger] commands[k]),
                ),
        decreases commands.len() - i,
    {
        let cmd = &commands[i];
        let named = scat4(cmd.name, " (", cmd.short_name, ")");
        let padded = pad_right(named.as_str(), 13);
        let line = scat2("  ", padded.as_str());
        let line = scat2(line.as_str(), cmd.description);
        io_helper.println(line.as_str());
        proof {
            assert(line@ == spec_help_line(commands[i as int]));
            assert(io_helper.events().take(mid.len() as int)
                =~= io_helper.events().drop_last().take(mid.len() as int));
        }
        i += 1;
    }
}

/// Prints the program's version line and the copyleft line.
pub fn version<I: InputOutputHelper>(args: &[String], io_helper: &mut I)
    requires
        args.len() >= 1,
    ensures
        final(io_helper).events() == old(io_helper).events().push(
            crate::io::IoOp::OutLine(args[0]@ + " version "@ + D_SH_VERSION@),
        ).push(crate::io::IoOp::OutLine("Copyleft Emeric MARTINEAU (c) 2018"@)),
{
    let line = scat3(args[0].as_str(), " version ", D_SH_VERSION);
    io_helper.println(line.as_str());
    io_helper.println("Copyleft Emeric MARTINEAU (c) 2018");
}

} // verus!
