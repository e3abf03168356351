//! The `run` command: starts one application's container.

use vstd::prelude::*;
use vstd::string::StringExecFns;
use crate::command::CommandError;
use crate::command::CommandExitCode;
use crate::command::CommandParameter;
use crate::config::Config;
use crate::config::ConfigApplication;
use crate::config::get_config_application;
use crate::config::get_filename;
use crate::docker::ContainerHelper;
use crate::docker::ContainerOp;
use crate::download::DownloadHelper;
use crate::io::InputOutputHelper;
use crate::io::convert_path;
use crate::strutil::scat2;
use crate::strutil::scat3;
use crate::strutil::scat4;
use crate::strutil::str_eq;
use crate::strutil::u32_dec;
use crate::strutil::spec_dec;

verus! {

/// Relies on users::get_current_uid: the uid of the calling process.
#[verifier::external_body]
pub(crate) fn current_uid() -> u32 {
    users::get_current_uid()
}

/// Relies on users::get_current_gid: the gid of the calling process.
#[verifier::external_body]
pub(crate) fn current_gid() -> u32 {
    users::get_current_gid()
}

/// Relies on users::get_current_username: the name of the calling user, when
/// the system knows one that is valid text.
#[verifier::external_body]
pub(crate) fn current_username() -> Option<String> {
    match users::get_current_username() {
        Some(n) => match n.to_str() {
            Some(s) => Some(s.to_string()),
            None => None,
        },
        None => None,
    }
}

/// The container-mode arguments: interactive or detached, and the optional
/// host IPC switch.
pub open spec fn spec_extra_args(
    interactive: bool,
    app_interactive: Option<bool>,
    ipc_host: Option<bool>,
) -> Seq<Seq<char>> {
    let mode: Seq<Seq<char>> = if interactive || app_interactive == Some(true) {
        seq!["-it"@]
    } else {
        seq!["-d"@]
    };
    if ipc_host == Some(true) {
        mode + seq!["--ipc=host"@]
    } else {
        mode
    }
}

/// Builds the container-mode arguments for one run.
pub fn get_extra_args(interactive: bool, config_application: &ConfigApplication) -> (r: Vec<
    String,
>)
    ensures
        r.deep_view() == spec_extra_args(
            interactive,
            config_application.interactive,
            config_application.ipc_host,
        ),
{
    let mut extra_args: Vec<String> = Vec::new();
    let app_interactive = match config_application.interactive {
        Some(b) => b,
        None => false,
    };
    if interactive || app_interactive {
        extra_args.push(String::from_str("-it"));
    } else {
        extra_args.push(String::from_str("-d"));
    }
    let ipc = match config_application.ipc_host {
        Some(b) => b,
        None => false,
    };
    if ipc {
        extra_args.push(String::from_str("--ipc=host"));
    }
    proof {
        assert(extra_args.deep_view() =~= spec_extra_args(
            interactive,
            config_application.interactive,
            config_application.ipc_host,
        ));
    }
    extra_args
}

/// The standard run options: the X11 socket, the shared memory segment and
/// the home directory mounted, the display and user identity exported, and
/// the container discarded on exit.
pub open spec fn spec_run_args(
    home: Seq<char>,
    username: Seq<char>,
    uid: nat,
    gid: nat,
) -> Seq<Seq<char>> {
    seq![
        "-v"@,
        "/tmp/.X11-unix/:/tmp/.X11-unix/"@,
        "-v"@,
        "/dev/shm:/dev/shm"@,
        "-v"@,
        home + ":/home/"@ + username,
        "-e"@,
        "DISPLAY"@,
        "-e"@,
        "USERNAME_TO_RUN="@ + username,
        "-e"@,
        "USERNAME_TO_RUN_GID="@ + spec_dec(gid),
        "-e"@,
        "USERNAME_TO_RUN_UID="@ + spec_dec(uid),
        "--rm"@,
    ]
}

/// Builds the run options for one container, appending the extra mode
/// arguments after the standard ones and draining them.
pub fn get_run_args(
    extra_args: &mut Vec<String>,
    home: &str,
    username: &str,
    uid: u32,
    gid: u32,
) -> (r: Vec<String>)
    ensures
        r.deep_view() == spec_run_args(home@, username@, uid as nat, gid as nat) + old(
            extra_args,
        ).deep_view(),
        final(extra_args).len() == 0,
{
    let mut run_opts: Vec<String> = Vec::new();
    run_opts.push(String::from_str("-v"));
    run_opts.push(String::from_str("/tmp/.X11-unix/:/tmp/.X11-unix/"));
    run_opts.push(String::from_str("-v"));
    run_opts.push(String::from_str("/dev/shm:/dev/shm"));
    run_opts.push(String::from_str("-v"));
    run_opts.push(scat3(home, ":/home/", username));
    run_opts.push(String::from_str("-e"));
    run_opts.push(String::from_str("DISPLAY"));
    run_opts.push(String::from_str("-e"));
    run_opts.push(scat2("USERNAME_TO_RUN=", username));
    run_opts.push(String::from_str("-e"));
    let gid_str = u32_dec(gid);
    run_opts.push(scat2("USERNAME_TO_RUN_GID=", gid_str.as_str()));
    run_opts.push(String::from_str("-e"));
    let uid_str = u32_dec(uid);
    run_opts.push(scat2("USERNAME_TO_RUN_UID=", uid_str.as_str()));
    run_opts.push(String::from_str("--rm"));
    let ghost base: Seq<Seq<char>> = run_opts.deep_view();
    proof {
        assert(base =~= spec_run_args(home@, username@, uid as nat, gid as nat));
    }
    run_opts.append(extra_args);
    proof {
        assert(run_opts.deep_view() =~= spec_run_args(home@, username@, uid as nat, gid as nat)
            + old(extra_args).deep_view());
    }
    run_opts
}

/// The command arguments: the descriptor's own arguments first, then the
/// ones given on the command line, in order.
pub open spec fn spec_cmd_args(
    cmd_line_args: Option<Seq<Seq<char>>>,
    args: Seq<Seq<char>>,
) -> Seq<Seq<char>> {
    match cmd_line_args {
        Some(cla) => cla + args,
        None => args,
    }
}

/// Builds the command arguments for one run.
pub fn get_cmd_args(cmd_line_args: &Option<Vec<String>>, args: &[String]) -> (r: Vec<String>)
    ensures
        r.deep_view() == spec_cmd_args(
            match cmd_line_args {
                Some(cla) => Some(cla.deep_view()),
                None => None,
            },
            args.deep_view(),
        ),
{
    let mut cmd_args: Vec<String> = Vec::new();
    match cmd_line_args {
        Some(cla) => {
            let mut i: usize = 0;
            while i < cla.len()
                invariant
                    i <= cla.len(),
                    cmd_args.deep_view() == cla.deep_view().take(i as int),
                decreases cla.len() - i,
            {
                let ghost prev = cmd_args;
                let ghost x = cla@[i as int];
                cmd_args.push(cla[i].clone());
                proof {
                    crate::strutil::lemma_push_deep_view(prev, cmd_args, x);
                    assert(x.deep_view() == cla.deep_view()[i as int]);
                    assert(cmd_args.deep_view() =~= cla.deep_view().take(i + 1));
                }
                i += 1;
            }
            proof {
                assert(cla.deep_view().take(cla.len() as int) =~= cla.deep_view());
            }
        },
        None => {},
    }
    let ghost mid: Seq<Seq<char>> = cmd_args.deep_view();
    let mut k: usize = 0;
    while k < args.len()
        invariant
            k <= args.len(),
            cmd_args.deep_view() == mid + args.deep_view().take(k as int),
        decreases args.len() - k,
    {
        let ghost prev = cmd_args;
        let ghost x = args@[k as int];
        cmd_args.push(args[k].clone());
        proof {
            crate::strutil::lemma_push_deep_view(prev, cmd_args, x);
            assert(x.deep_view() == args.deep_view()[k as int]);
            assert(cmd_args.deep_view() =~= mid + args.deep_view().take(k + 1));
        }
        k += 1;
    }
    proof {
        assert(args.deep_view().take(args.len() as int) =~= args.deep_view());
        assert(cmd_args.deep_view() =~= spec_cmd_args(
            match cmd_line_args {
                Some(cla) => Some(cla.deep_view()),
                None => None,
            },
            args.deep_view(),
        ));
    }
    cmd_args
}

/// Runs the application named `app`.
///
/// On success the last engine call started a container from the
/// application's image.
pub fn run_application<I: InputOutputHelper, C: ContainerHelper>(
    config: &Config,
    app: &str,
    io_helper: &mut I,
    dck_helper: &mut C,
    args: &[String],
    interactive: bool,
) -> (r: Result<(), CommandError>)
    ensures
        r is Ok ==> (final(dck_helper).events().len() > old(dck_helper).events().len() && final(dck_helper).events().last() matches ContainerOp::RunContainer(_, _, _, _, true)),
        r matches Err(e) ==> (e.code == CommandExitCode::ApplicationFileNotFound || e.code
            == CommandExitCode::CannotGetCurrentUser || e.code
            == CommandExitCode::ContainerRunError || e.code
            == CommandExitCode::ContainerImageNotFound),
        r matches Err(e) ==> e.msg.len() >= 1,
{
    let announce = scat3("Running ", app, "...");
    io_helper.println(announce.as_str());
    let application_filename_full_path = get_filename(
        config.applications_dir.as_str(),
        app,
        Some(".yml"),
    );
    let config_application = match get_config_application(
        io_helper,
        application_filename_full_path.as_str(),
    ) {
        Ok(r) => r,
        Err(err) => {
            let mut msg: Vec<String> = Vec::new();
            msg.push(scat3("Application '", app, "' not found."));
            msg.push(err);
            return Err(CommandError { msg, code: CommandExitCode::ApplicationFileNotFound });
        },
    };
    let images = dck_helper.list_image(config_application.image_name.as_str());
    if images.len() > 0 {
        io_helper.println("Create container");
        let username = match current_username() {
            Some(r) => r,
            None => {
                let mut msg: Vec<String> = Vec::new();
                msg.push(String::from_str("Cannot get current user !"));
                return Err(CommandError { msg, code: CommandExitCode::CannotGetCurrentUser });
            },
        };
        let home = convert_path("~/");
        let mut extra_args = get_extra_args(interactive, &config_application);
        let run_opts = get_run_args(
            &mut extra_args,
            home.as_str(),
            username.as_str(),
            current_uid(),
            current_gid(),
        );
        let cmd_args = get_cmd_args(&config_application.cmd_line_args, args);
        if dck_helper.run_container(
            config_application.image_name.as_str(),
            Some(&run_opts),
            Some(config_application.cmd_line.as_str()),
            Some(&cmd_args),
        ) {
            Ok(())
        } else {
            let mut msg: Vec<String> = Vec::new();
            msg.push(String::from_str("Error when running container"));
            Err(CommandError { msg, code: CommandExitCode::ContainerRunError })
        }
    } else {
        let mut msg: Vec<String> = Vec::new();
        msg.push(scat3("Image for program ", app, " not found."));
        msg.push(String::new());
        msg.push(String::from_str("Build it before with:"));
        msg.push(scat2("  d-sh build ", app));
        Err(CommandError { msg, code: CommandExitCode::ContainerImageNotFound })
    }
}

/// The `run` handler.
pub fn run<I: InputOutputHelper, C: ContainerHelper, D: DownloadHelper>(
    cmd_param: &CommandParameter,
    io_helper: &mut I,
    dck_helper: &mut C,
    _dl_helper: &mut D,
) -> (r: Result<(), CommandError>)
    requires
        cmd_param.config is Some,
        cmd_param.args.len() >= 1,
    ensures
        r matches Err(e) ==> (e.code == CommandExitCode::ApplicationFileNotFound || e.code
            == CommandExitCode::CannotGetCurrentUser || e.code
            == CommandExitCode::ContainerRunError || e.code
            == CommandExitCode::ContainerImageNotFound || e.code
            == CommandExitCode::ApplicationNameMissing),
        r matches Err(e) ==> e.msg.len() >= 1,
{
    let config = match cmd_param.config {
        Some(c) => c,
        None => {
            return Ok(());
        },
    };
    let arg0 = cmd_param.args[0].as_str();
    if str_eq(arg0, "-h") || str_eq(arg0, "--help") {
        io_helper.println(cmd_param.command.usage);
        Ok(())
    } else if str_eq(arg0, "-i") || str_eq(arg0, "--interactive") {
        if cmd_param.args.len() > 1 {
            let rest = &cmd_param.args[2..cmd_param.args.len()];
            run_application(config, cmd_param.args[1].as_str(), io_helper, dck_helper, rest, true)
        } else {
            let mut msg: Vec<String> = Vec::new();
            msg.push(String::from_str("You must specify an application !"));
            Err(CommandError { msg, code: CommandExitCode::ApplicationNameMissing })
        }
    } else {
        let rest = &cmd_param.args[1..cmd_param.args.len()];
        run_application(config, arg0, io_helper, dck_helper, rest, false)
    }
}

} // verus!
