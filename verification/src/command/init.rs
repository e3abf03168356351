//! The `init` command: writes the configuration file, the default manifest
//! template and the default entrypoint script.

use vstd::prelude::*;
use crate::command::CommandError;
use crate::command::CommandExitCode;
use crate::command::CommandParameter;
use crate::config::create_config_filename_path;
use crate::config::dockerfile::DOCKERFILE_BASE;
use crate::config::dockerfile::DOCKERFILE_BASE_FILENAME;
use crate::config::dockerfile::DOCKERFILE_DEFAULT_FROM;
use crate::config::dockerfile::DOCKERFILE_DEFAULT_TAG;
use crate::config::dockerfile::ENTRYPOINT;
use crate::config::dockerfile::ENTRYPOINT_FILENAME;
use crate::docker::ContainerHelper;
use crate::download::DownloadHelper;
use crate::io::InputOutputHelper;
use crate::strutil::parent_dir;
use crate::strutil::scat2;
use crate::strutil::scat3;
use crate::strutil::scat4;
use crate::strutil::scat5;
use crate::strutil::trim_blanks;
use vstd::string::StringExecFns;

verus! {

/// Default directory for downloaded artifacts.
pub const DOWNLOAD_DIR: &'static str = "~/.d-sh/download";

/// Default directory for application descriptors.
pub const APPLICATIONS_DIR: &'static str = "~/.d-sh/applications";

/// Writes the default manifest template and entrypoint script into the
/// tool's directory.
fn create_dockerfile<I: InputOutputHelper>(io_helper: &mut I) -> (r: Result<(), CommandError>)
    ensures
        r matches Err(e) ==> e.code == CommandExitCode::CannotWriteConfigFile || e.code
            == CommandExitCode::CannotGetHomeFolder,
        r matches Err(e) ==> e.msg.len() >= 1,
{
    let dockerfile_name = match create_config_filename_path(DOCKERFILE_BASE_FILENAME) {
        Some(n) => n,
        None => {
            return Err(home_dir_error());
        },
    };
    if let Err(err) = io_helper.file_write(dockerfile_name.as_str(), DOCKERFILE_BASE) {
        return Err(write_error(DOCKERFILE_BASE_FILENAME, err));
    }
    let entrypoint_name = match create_config_filename_path(ENTRYPOINT_FILENAME) {
        Some(n) => n,
        None => {
            return Err(home_dir_error());
        },
    };
    if let Err(err) = io_helper.file_write(entrypoint_name.as_str(), ENTRYPOINT) {
        return Err(write_error(ENTRYPOINT_FILENAME, err));
    }
    Ok(())
}

fn home_dir_error() -> (r: CommandError)
    ensures
        r.code == CommandExitCode::CannotGetHomeFolder,
        r.msg.len() >= 1,
{
    let mut msg: Vec<String> = Vec::new();
    msg.push(String::from_str("Unable to get your home dir!"));
    CommandError { msg, code: CommandExitCode::CannotGetHomeFolder }
}

fn write_error(filename: &str, err: String) -> (r: CommandError)
    ensures
        r.code == CommandExitCode::CannotWriteConfigFile,
        r.msg.len() >= 1,
{
    let mut msg: Vec<String> = Vec::new();
    msg.push(scat3("Unable to write file '", filename, "'"));
    msg.push(err);
    CommandError { msg, code: CommandExitCode::CannotWriteConfigFile }
}

/// Prompts for a value on the terminal, falling back to `default_value` when
/// the reply is blank.
fn read_line_with_default_value<I: InputOutputHelper>(
    io_helper: &mut I,
    prompt: &str,
    default_value: &str,
) -> (r: String)
{
    let new_prompt = scat4(prompt, " (default: ", default_value, ")");
    io_helper.print(new_prompt.as_str());
    let value = io_helper.read_line();
    let trimmed = trim_blanks(value.as_str());
    if trimmed.unicode_len() == 0 {
        let mut r = String::new();
        r.append(default_value);
        r
    } else {
        trimmed
    }
}

/// The `init` handler: refuses to overwrite an existing configuration file,
/// otherwise asks the four settings and writes the three files.
pub fn init<I: InputOutputHelper, C: ContainerHelper, D: DownloadHelper>(
    cmd_param: &CommandParameter,
    io_helper: &mut I,
    _dck_helper: &mut C,
    _dl_helper: &mut D,
) -> (r: Result<(), CommandError>)
    ensures
        r matches Err(e) ==> (e.code == CommandExitCode::ConfigFileExits || e.code
            == CommandExitCode::CannotCreateFolderForConfigFile || e.code
            == CommandExitCode::CannotWriteConfigFile || e.code
            == CommandExitCode::CannotGetHomeFolder),
        r matches Err(e) ==> e.msg.len() >= 1,
{
    if io_helper.file_exits(cmd_param.config_filename.as_str()) {
        let mut msg: Vec<String> = Vec::new();
        msg.push(
            scat3(
                "The file '",
                cmd_param.config_filename.as_str(),
                "' exits. Please remove it (or rename) and rerun this command.",
            ),
        );
        return Err(CommandError { msg, code: CommandExitCode::ConfigFileExits });
    }
    let download_dir = read_line_with_default_value(
        io_helper,
        "Enter the path of download directory",
        DOWNLOAD_DIR,
    );
    let applications_dir = read_line_with_default_value(
        io_helper,
        "Enter the path of applications directory",
        APPLICATIONS_DIR,
    );
    let docker_image_from = read_line_with_default_value(
        io_helper,
        "Enter the default docker image from",
        DOCKERFILE_DEFAULT_FROM,
    );
    let docker_image_tag = read_line_with_default_value(
        io_helper,
        "Enter the base image docker tag",
        DOCKERFILE_DEFAULT_TAG,
    );
    let head = scat3("---\ndownload_dir: \"", download_dir.as_str(), "\"\n");
    let mid = scat3("applications_dir: \"", applications_dir.as_str(), "\"\n");
    let tail = scat5(
        "dockerfile:\n  from: \"",
        docker_image_from.as_str(),
        "\"\n  tag: \"",
        docker_image_tag.as_str(),
        "\"\n",
    );
    let data = scat3(head.as_str(), mid.as_str(), tail.as_str());
    if let Some(parent) = parent_dir(cmd_param.config_filename.as_str()) {
        if let Err(err) = io_helper.create_dir_all(parent.as_str()) {
            let mut msg: Vec<String> = Vec::new();
            msg.push(scat3("Cannot create folder '", parent.as_str(), "'!"));
            msg.push(err);
            return Err(
                CommandError { msg, code: CommandExitCode::CannotCreateFolderForConfigFile },
            );
        }
    }
    if let Err(err) = io_helper.file_write(cmd_param.config_filename.as_str(), data.as_str()) {
        let mut msg: Vec<String> = Vec::new();
        msg.push(scat3("Unable to write file '", cmd_param.config_filename.as_str(), "'"));
        msg.push(err);
        return Err(CommandError { msg, code: CommandExitCode::CannotWriteConfigFile });
    }
    create_dockerfile(io_helper)
}

} // verus!
