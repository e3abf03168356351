//! The `delete` command: removes one application's image, or all of them.

use vstd::prelude::*;
use crate::command::CommandError;
use crate::command::CommandExitCode;
use crate::command::CommandParameter;
use crate::config::Config;
use crate::config::get_config_application;
use crate::config::get_filename;
use crate::docker::ContainerHelper;
use crate::docker::ContainerOp;
use crate::download::DownloadHelper;
use crate::io::InputOutputHelper;
use crate::strutil::file_stem;
use crate::strutil::sort_strings;
use crate::strutil::str_eq;
use vstd::string::StringExecFns;

verus! {

/// Removes the image of the application named `app`.
///
/// When it returns success, the last engine call removed an image; when the
/// engine refused, the error says the image was not found.
pub fn delete_one<I: InputOutputHelper, C: ContainerHelper>(
    io_helper: &mut I,
    dck_helper: &mut C,
    config: &Config,
    app: &str,
) -> (r: Result<(), CommandError>)
    ensures
        r is Ok ==> (final(dck_helper).events().len() == old(dck_helper).events().len() + 1
            && final(dck_helper).events().last() matches ContainerOp::DropImage(_, true)),
        r matches Err(e) ==> (e.code == CommandExitCode::ContainerImageNotFound || e.code
            == CommandExitCode::ApplicationFileNotFound),
        r matches Err(e) ==> e.msg.len() >= 1,
        r matches Err(e) && e.code == CommandExitCode::ContainerImageNotFound ==> final(dck_helper).events().last() matches ContainerOp::DropImage(_, false),
{
    let application_filename_full_path = get_filename(
        config.applications_dir.as_str(),
        app,
        Some(".yml"),
    );
    match get_config_application(io_helper, application_filename_full_path.as_str()) {
        Ok(config_application) => {
            if dck_helper.remove_image(config_application.image_name.as_str()) {
                Ok(())
            } else {
                let mut msg: Vec<String> = Vec::new();
                msg.push(String::from_str("Docker image not found"));
                Err(CommandError { msg, code: CommandExitCode::ContainerImageNotFound })
            }
        },
        Err(err) => {
            let mut msg: Vec<String> = Vec::new();
            msg.push(err);
            Err(CommandError { msg, code: CommandExitCode::ApplicationFileNotFound })
        },
    }
}

/// Removes the images of every application in the catalog, in sorted
/// filename order; a failure is reported and the scan continues.
pub fn delete_all<I: InputOutputHelper, C: ContainerHelper>(
    io_helper: &mut I,
    dck_helper: &mut C,
    config: &Config,
) -> (r: Result<(), CommandError>)
    ensures
        r matches Err(e) ==> (e.code == CommandExitCode::CannotReadApplicationsFolder
            && e.msg.len() >= 1),
{
    let list_applications_file = match io_helper.dir_list_file(
        config.applications_dir.as_str(),
        "*.yml",
    ) {
        Ok(r) => r,
        Err(err) => {
            let mut msg: Vec<String> = Vec::new();
            msg.push(err);
            return Err(
                CommandError { msg, code: CommandExitCode::CannotReadApplicationsFolder },
            );
        },
    };
    let sorted = sort_strings(&list_applications_file);
    let mut i: usize = 0;
    while i < sorted.len()
        decreases sorted.len() - i,
    {
        let application_name = file_stem(sorted[i].as_str());
        if let Err(err) = delete_one(io_helper, dck_helper, config, application_name.as_str()) {
            let mut k: usize = 0;
            while k < err.msg.len()
                decreases err.msg.len() - k,
            {
                io_helper.eprintln(err.msg[k].as_str());
                k += 1;
            }
        }
        i += 1;
    }
    Ok(())
}

/// The `delete` handler.
pub fn delete<I: InputOutputHelper, C: ContainerHelper, D: DownloadHelper>(
    cmd_param: &CommandParameter,
    io_helper: &mut I,
    dck_helper: &mut C,
    _dl_helper: &mut D,
) -> (r: Result<(), CommandError>)
    requires
        cmd_param.config is Some,
        cmd_param.args.len() >= 1,
    ensures
        r matches Err(e) ==> (e.code == CommandExitCode::ContainerImageNotFound || e.code
            == CommandExitCode::ApplicationFileNotFound || e.code
            == CommandExitCode::CannotReadApplicationsFolder),
        r matches Err(e) ==> e.msg.len() >= 1,
{
    let config = match cmd_param.config {
        Some(c) => c,
        None => {
            return Ok(());
        },
    };
    let arg0 = cmd_param.args[0].as_str();
    if str_eq(arg0, "-h") || str_eq(arg0, "--help") {
        io_helper.println(cmd_param.command.usage);
        Ok(())
    } else if str_eq(arg0, "-a") || str_eq(arg0, "--all") {
        delete_all(io_helper, dck_helper, config)
    } else {
        delete_one(io_helper, dck_helper, config, arg0)
    }
}

} // verus!
