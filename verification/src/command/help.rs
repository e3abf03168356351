//! The `help` and `version` commands.

use vstd::prelude::*;
use crate::command::CommandError;
use crate::command::CommandParameter;
use crate::command::all_commands;
use crate::docker::ContainerHelper;
use crate::download::DownloadHelper;
use crate::io::InputOutputHelper;
use crate::strutil::pad_right;
use crate::strutil::scat2;
use crate::strutil::scat3;
use crate::strutil::scat4;

verus! {

/// The `help` handler: the general usage text and one line per command.
pub fn help<I: InputOutputHelper, C: ContainerHelper, D: DownloadHelper>(
    _cmd_param: &CommandParameter,
    io_helper: &mut I,
    _dck_helper: &mut C,
    _dl_helper: &mut D,
) -> (r: Result<(), CommandError>)
    ensures
        r is Ok,
{
    io_helper.println("");
    io_helper.println("Usage: d-sh COMMAND");
    io_helper.println("");
    io_helper.println("A tool to container all your life");
    io_helper.println("");
    io_helper.println("Options:");
    io_helper.println("  -d, --debug              Enabled debug mode");
    io_helper.println("  -c, --config             Set config filename");
    io_helper.println("");
    io_helper.println("Commands:");
    let commands = all_commands();
    let ghost mid = io_helper.events();
    let mut i: usize = 0;
    while i < commands.len()
        invariant
            i <= commands.len(),
            commands.len() == 8,
            io_helper.events().len() == mid.len() + i,
        decreases commands.len() - i,
    {
        let cmd = &commands[i];
        let named = scat4(cmd.name, " (", cmd.short_name, ")");
        let padded = pad_right(named.as_str(), 13);
        let line = scat2("  ", padded.as_str());
        let line = scat2(line.as_str(), cmd.description);
        io_helper.println(line.as_str());
        i += 1;
    }
    Ok(())
}

/// The tool's version, as the `version` command prints it.
pub const D_SH_VERSION: &'static str = "0.1.0";

/// The `version` handler: the program name with its version, then the
/// copyleft line.
pub fn version<I: InputOutputHelper, C: ContainerHelper, D: DownloadHelper>(
    cmd_param: &CommandParameter,
    io_helper: &mut I,
    _dck_helper: &mut C,
    _dl_helper: &mut D,
) -> (r: Result<(), CommandError>)
    ensures
        r is Ok,
        final(io_helper).events().len() == old(io_helper).events().len() + 2,
        cmd_param.args.len() > 0 ==> final(io_helper).events() == old(io_helper).events().push(
            crate::io::IoOp::OutLine(cmd_param.args[0]@ + " version "@ + D_SH_VERSION@),
        ).push(crate::io::IoOp::OutLine("Copyleft Emeric MARTINEAU (c) 2018-2019"@)),
{
    let exe_path: &str = if cmd_param.args.len() > 0 {
        cmd_param.args[0].as_str()
    } else {
        ""
    };
    let line = scat3(exe_path, " version ", D_SH_VERSION);
    io_helper.println(line.as_str());
    io_helper.println("Copyleft Emeric MARTINEAU (c) 2018-2019");
    Ok(())
}

} // verus!
