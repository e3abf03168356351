//! The command layer: the verbs the tool knows, their argument rules, and
//! the shared plumbing that loads the configuration and dispatches a verb to
//! its handler.

pub mod build;
pub mod check;
pub mod delete;
pub mod help;
pub mod init;
pub mod list;
pub mod run;

use vstd::prelude::*;
use crate::config::Config;
use crate::config::ConfigDocker;
use crate::config::get_config;
use crate::config::get_config_filename;
use crate::config::create_config_filename_path;
use crate::config::spec_config_ok;
use crate::config::spec_config_path;
use crate::io::spec_convert_path;
use crate::yaml::yaml_field_str;
use crate::yaml::yaml_field_str2;
use crate::yaml::yaml_field_present;
use crate::config::dockerfile::DOCKERFILE_BASE_FILENAME;
use crate::config::dockerfile::ENTRYPOINT_FILENAME;
use crate::docker::ContainerHelper;
use crate::download::DownloadHelper;
use crate::io::InputOutputHelper;
use crate::io::convert_path;
use crate::io::IoOp;
use crate::log::LoggerHelper;
use crate::strutil::scat3;
use crate::strutil::str_eq;

verus! {

/// Exit code of a command.
#[derive(Debug, Clone, Copy, PartialEq, Eq, Structural)]
pub enum CommandExitCode {
    Todo,
    Success,
    ConfigFileNotFound,
    CannotAccessToFolderOfConfigFile,
    BadArgument,
    BadApplicationFormat,
    CannotReadApplicationsFolder,
    UnknowOption,
    CannotGetHomeFolder,
    ConfigFileExits,
    CannotCreateFolderForConfigFile,
    CannotWriteConfigFile,
    Help,
    CommandNotFound,
    ContainerImageNotFound,
    ApplicationFileNotFound,
    CannotGetCurrentUser,
    ContainerRunError,
    ApplicationNameMissing,
    CannotGenerateDockerfile,
    DockerfileTemplateInvalid,
    CannotCreateFolder,
    CannotDeleteTemporaryFolder,
    CannotCopyFile,
    ConfigFileFormatWrong,
    TemplateNotFound,
    UnableDownloadApplication,
    DockerBuildFail,
}

impl CommandExitCode {
    /// The numeric process exit status of this code.
    pub fn code(&self) -> (r: i32)
        ensures
            *self is Success <==> r == 0,
    {
        match self {
            CommandExitCode::Todo => -1,
            CommandExitCode::Success => 0,
            CommandExitCode::ConfigFileNotFound => 1,
            CommandExitCode::CannotAccessToFolderOfConfigFile => 2,
            CommandExitCode::BadArgument => 3,
            CommandExitCode::BadApplicationFormat => 4,
            CommandExitCode::CannotReadApplicationsFolder => 5,
            CommandExitCode::UnknowOption => 6,
            CommandExitCode::CannotGetHomeFolder => 7,
            CommandExitCode::ConfigFileExits => 8,
            CommandExitCode::CannotCreateFolderForConfigFile => 9,
            CommandExitCode::CannotWriteConfigFile => 10,
            CommandExitCode::Help => 11,
            CommandExitCode::CommandNotFound => 12,
            CommandExitCode::ContainerImageNotFound => 13,
            CommandExitCode::ApplicationFileNotFound => 14,
            CommandExitCode::CannotGetCurrentUser => 15,
            CommandExitCode::ContainerRunError => 16,
            CommandExitCode::ApplicationNameMissing => 17,
            CommandExitCode::CannotGenerateDockerfile => 18,
            CommandExitCode::DockerfileTemplateInvalid => 19,
            CommandExitCode::CannotCreateFolder => 20,
            CommandExitCode::CannotDeleteTemporaryFolder => 21,
            CommandExitCode::CannotCopyFile => 22,
            CommandExitCode::ConfigFileFormatWrong => 23,
            CommandExitCode::TemplateNotFound => 24,
            CommandExitCode::UnableDownloadApplication => 25,
            CommandExitCode::DockerBuildFail => 26,
        }
    }
}

/// What a failed command hands back: its message lines and its exit code.
pub struct CommandError {
    /// Human-readable message lines, in the order they are printed.
    pub msg: Vec<String>,
    /// The command's exit code.
    pub code: CommandExitCode,
}

/// The verb a command stands for; `exec` dispatches on it.
#[derive(Debug, Clone, Copy, PartialEq, Eq, Structural)]
pub enum CommandKind {
    Build,
    Check,
    Delete,
    Help,
    Init,
    List,
    Run,
    Version,
}

/// One verb of the tool, with its argument rules and usage text.
pub struct Command {
    /// Name of the command, like `delete`.
    pub name: &'static str,
    /// Description shown by the help command.
    pub description: &'static str,
    /// Short name, like `rm`.
    pub short_name: &'static str,
    /// Minimum number of arguments.
    pub min_args: usize,
    /// Maximum number of arguments.
    pub max_args: usize,
    /// Usage text of the command.
    pub usage: &'static str,
    /// Whether the command needs the configuration file.
    pub need_config_file: bool,
    /// The handler the command dispatches to.
    pub kind: CommandKind,
}

/// The non-helper inputs a handler receives.
pub struct CommandParameter<'a> {
    /// The command being run.
    pub command: &'a Command,
    /// Its arguments, without the verb itself.
    pub args: &'a [String],
    /// The loaded configuration, for commands that need one.
    pub config: Option<&'a Config>,
    /// The path of the configuration file.
    pub config_filename: String,
}

/// The loaded configuration holds exactly the fields of the document
/// `text`, with the template and entrypoint paths resolved: a configured
/// path with its `~/` expanded, or the default under some home directory.
pub open spec fn spec_loaded_config_matches(c: Config, text: Seq<char>) -> bool {
    &&& yaml_field_str(text, "download_dir"@) == Some(c.download_dir@)
    &&& yaml_field_str(text, "applications_dir"@) == Some(c.applications_dir@)
    &&& yaml_field_str2(text, "dockerfile"@, "from"@) == Some(c.dockerfile.from@)
    &&& yaml_field_str2(text, "dockerfile"@, "tag"@) == Some(c.dockerfile.tag@)
    &&& (match c.tmp_dir {
        Some(tx) => yaml_field_present(text, "tmp_dir"@) && yaml_field_str(text, "tmp_dir"@)
            == Some(tx@),
        None => !yaml_field_present(text, "tmp_dir"@),
    })
    &&& (match c.dockerfile_filename {
        Some(df) => if yaml_field_present(text, "dockerfile_filename"@) {
            exists|h: Option<Seq<char>>|
                df@ == spec_convert_path(
                    h,
                    yaml_field_str(text, "dockerfile_filename"@).unwrap(),
                )
        } else {
            exists|h: Seq<char>| df@ == spec_config_path(h, "Dockerfile.hbs"@)
        },
        None => false,
    })
    &&& (match c.entrypoint_filename {
        Some(ef) => if yaml_field_present(text, "entrypoint_filename"@) {
            exists|h: Option<Seq<char>>|
                ef@ == spec_convert_path(
                    h,
                    yaml_field_str(text, "entrypoint_filename"@).unwrap(),
                )
        } else {
            exists|h: Seq<char>| ef@ == spec_config_path(h, "entrypoint.sh"@)
        },
        None => false,
    })
}

impl Command {
    /// A command the dispatcher can run safely: the verbs that read an
    /// application name insist on at least one argument, and the verbs that
    /// read the catalog insist on a loaded configuration.
    pub open spec fn wf(&self) -> bool {
        &&& (self.kind == CommandKind::Delete || self.kind == CommandKind::Run)
            ==> self.min_args >= 1
        &&& (self.kind == CommandKind::Build || self.kind == CommandKind::Check || self.kind
            == CommandKind::Delete || self.kind == CommandKind::List || self.kind
            == CommandKind::Run) ==> self.need_config_file
    }

    /// Resolves and loads the configuration file, reporting each failure on
    /// standard error with its exit code.
    fn get_config<I: InputOutputHelper, L: LoggerHelper>(
        config_filename: Option<String>,
        io_helper: &mut I,
        log_helper: &L,
    ) -> (r: Result<Config, CommandExitCode>)
        ensures
            r matches Ok(c) ==> c.dockerfile_filename is Some && c.entrypoint_filename is Some,
            r matches Err(code) ==> (code == CommandExitCode::CannotAccessToFolderOfConfigFile
                || code == CommandExitCode::ConfigFileNotFound || code
                == CommandExitCode::ConfigFileFormatWrong || code
                == CommandExitCode::CannotGetHomeFolder),
            r is Err ==> final(io_helper).events().len() > old(io_helper).events().len(),
            ({
                let e = final(io_helper).events();
                let o = old(io_helper).events();
                &&& ((r matches Err(code) && code
                    == CommandExitCode::CannotAccessToFolderOfConfigFile) ==> (config_filename
                    is None && e == o.push(
                    IoOp::ErrLine("Cannot access to folder where config must be."@),
                )))
                &&& ((r matches Err(code) && code == CommandExitCode::ConfigFileNotFound) <==> (
                e.len() == o.len() + 2 && (e[o.len() as int] matches IoOp::QueryExists(_, ex)
                    && !ex)))
                &&& ((r matches Err(code) && code == CommandExitCode::ConfigFileNotFound) ==> (
                e[o.len() as int] matches IoOp::QueryExists(p, _) && e.last() == IoOp::ErrLine(
                    "The file '"@ + p + "' doesn't exits. Please run 'init' command first."@,
                )))
                &&& ((r matches Err(code) && code == CommandExitCode::ConfigFileFormatWrong)
                    <==> (e.len() == o.len() + 3 && (e[o.len() as int + 1]
                    matches IoOp::ReadFile(_, c2) && (match c2 {
                    Some(t2) => !spec_config_ok(t2),
                    None => true,
                }))))
                &&& ((r matches Err(code) && code == CommandExitCode::ConfigFileFormatWrong)
                    ==> e.last() == IoOp::ErrLine(
                    "Cannot read config file, please check rigts and format!"@,
                ))
                &&& ((r matches Err(code) && code == CommandExitCode::CannotGetHomeFolder) ==> e.last() == IoOp::ErrLine("Unable to get your home dir!"@))
                &&& (r is Ok ==> (e.len() == o.len() + 2 && (e[o.len() as int]
                    matches IoOp::QueryExists(p, ex) && ex && (e.last() matches IoOp::ReadFile(
                    p2,
                    ct,
                ) && p2 == p && (ct matches Some(text) && spec_config_ok(text) && (r matches Ok(
                    c,
                ) ==> spec_loaded_config_matches(c, text)))) && (match config_filename {
                    Some(cf) => exists|h: Option<Seq<char>>| p == spec_convert_path(h, cf@),
                    None => exists|hh: Seq<char>| p == spec_config_path(hh, "config.yml"@),
                }))))
            }),
    {
        let ghost o = old(io_helper).events();
        let config_file = match config_filename {
            Some(c) => convert_path(c.as_str()),
            None => match get_config_filename() {
                Some(r) => r,
                None => {
                    io_helper.eprintln("Cannot access to folder where config must be.");
                    proof {
                        assert(io_helper.events() == o.push(
                            IoOp::ErrLine("Cannot access to folder where config must be."@),
                        ));
                    }
                    return Err(CommandExitCode::CannotAccessToFolderOfConfigFile);
                },
            },
        };
        let ghost cfv = config_file@;
        if !io_helper.file_exits(config_file.as_str()) {
            let ghost io1 = io_helper.events();
            let msg = scat3(
                "The file '",
                config_file.as_str(),
                "' doesn't exits. Please run 'init' command first.",
            );
            io_helper.eprintln(msg.as_str());
            proof {
                let e = io_helper.events();
                assert(e == io1.push(IoOp::ErrLine(msg@)));
                assert(e[o.len() as int] == io1[o.len() as int]);
                assert(io1[o.len() as int] == IoOp::QueryExists(cfv, false));
            }
            return Err(CommandExitCode::ConfigFileNotFound);
        }
        let ghost io1 = io_helper.events();
        proof {
            assert(io1[o.len() as int] == IoOp::QueryExists(cfv, true));
        }
        let config = match get_config(config_file, io_helper) {
            Ok(r) => r,
            Err(e) => {
                let ghost io2 = io_helper.events();
                log_helper.err(e.as_str());
                io_helper.eprintln("Cannot read config file, please check rigts and format!");
                proof {
                    let ev = io_helper.events();
                    assert(ev == io2.push(
                        IoOp::ErrLine(
                            "Cannot read config file, please check rigts and format!"@,
                        ),
                    ));
                    assert(ev[o.len() as int] == io2[o.len() as int]);
                    assert(io2[o.len() as int] == io1[o.len() as int]);
                    assert(ev[o.len() as int + 1] == io2[o.len() as int + 1]);
                    assert(io2[o.len() as int + 1] == io2.last());
                }
                return Err(CommandExitCode::ConfigFileFormatWrong);
            },
        };
        let ghost io2 = io_helper.events();
        let ghost text = io2.last()->ReadFile_1->Some_0;
        proof {
            assert(io2[o.len() as int] == io1[o.len() as int]);
            assert(io2[o.len() as int + 1] == io2.last());
            assert(io2.last() matches IoOp::ReadFile(p2, ct) && p2 == cfv && ct == Some(text)
                && spec_config_ok(text));
        }
        let dockerfile_filename = match &config.dockerfile_filename {
            Some(d) => convert_path(d.as_str()),
            None => match create_config_filename_path(DOCKERFILE_BASE_FILENAME) {
                Some(r) => r,
                None => {
                    io_helper.eprintln("Unable to get your home dir!");
                    proof {
                        assert(io_helper.events()[o.len() as int] == io2[o.len() as int]);
                        assert(io_helper.events()[o.len() as int + 1] == io2[o.len() as int
                            + 1]);
                    }
                    return Err(CommandExitCode::CannotGetHomeFolder);
                },
            },
        };
        let entrypoint_filename = match &config.entrypoint_filename {
            Some(d) => convert_path(d.as_str()),
            None => match create_config_filename_path(ENTRYPOINT_FILENAME) {
                Some(r) => r,
                None => {
                    io_helper.eprintln("Unable to get your home dir!");
                    proof {
                        assert(io_helper.events()[o.len() as int] == io2[o.len() as int]);
                        assert(io_helper.events()[o.len() as int + 1] == io2[o.len() as int
                            + 1]);
                    }
                    return Err(CommandExitCode::CannotGetHomeFolder);
                },
            },
        };
        let loaded = Config {
            download_dir: config.download_dir.clone(),
            applications_dir: config.applications_dir.clone(),
            dockerfile: ConfigDocker {
                from: config.dockerfile.from.clone(),
                tag: config.dockerfile.tag.clone(),
            },
            dockerfile_filename: Some(dockerfile_filename),
            entrypoint_filename: Some(entrypoint_filename),
            tmp_dir: match &config.tmp_dir {
                Some(t) => Some(t.clone()),
                None => None,
            },
        };
        proof {
            assert(spec_loaded_config_matches(loaded, text)) by {
                match config.dockerfile_filename {
                    Some(d) => {
                        let h0 = choose|h: Option<Seq<char>>|
                            loaded.dockerfile_filename.unwrap()@ == spec_convert_path(h, d@);
                        assert(loaded.dockerfile_filename.unwrap()@ == spec_convert_path(
                            h0,
                            yaml_field_str(text, "dockerfile_filename"@).unwrap(),
                        ));
                    },
                    None => {},
                }
                match config.entrypoint_filename {
                    Some(d) => {
                        let h0 = choose|h: Option<Seq<char>>|
                            loaded.entrypoint_filename.unwrap()@ == spec_convert_path(h, d@);
                        assert(loaded.entrypoint_filename.unwrap()@ == spec_convert_path(
                            h0,
                            yaml_field_str(text, "entrypoint_filename"@).unwrap(),
                        ));
                    },
                    None => {},
                }
            }
        }
        Ok(loaded)
    }
}

} // verus!

use vstd::prelude::*;

verus! {

impl Command {
    /// Runs this command: checks the argument count, loads the configuration
    /// when the command needs one, dispatches to the handler, and prints a
    /// failing handler's message lines on standard error.
    pub fn exec<I: InputOutputHelper, C: ContainerHelper, D: DownloadHelper, L: LoggerHelper>(
        &self,
        args: &[String],
        config_filename: Option<String>,
        io_helper: &mut I,
        dck_helper: &mut C,
        dl_helper: &mut D,
        log_helper: &L,
    ) -> (r: CommandExitCode)
        requires
            self.wf(),
        ensures
            r == CommandExitCode::BadArgument <==> (args.len() < self.min_args || args.len()
                > self.max_args),
            args.len() < self.min_args || args.len() > self.max_args ==> final(io_helper).events()
                == old(io_helper).events().push(
                IoOp::ErrLine("\"d-sh "@ + self.name@ + "\" bad arguments number."@),
            ).push(IoOp::ErrLine("See 'd-sh "@ + self.name@ + " --command.help'."@)),
            r == CommandExitCode::ConfigFileNotFound ==> (self.need_config_file && ({
                let e = final(io_helper).events();
                let o = old(io_helper).events();
                e.len() == o.len() + 2 && (e[o.len() as int] matches IoOp::QueryExists(_, ex)
                    && !ex) && (e.last() matches IoOp::ErrLine(_))
            })),
            r == CommandExitCode::ConfigFileFormatWrong ==> (self.need_config_file && ({
                let e = final(io_helper).events();
                let o = old(io_helper).events();
                e.len() == o.len() + 3 && (e[o.len() as int + 1] matches IoOp::ReadFile(_, c2)
                    && (match c2 {
                    Some(t2) => !crate::config::spec_config_ok(t2),
                    None => true,
                })) && (e.last() matches IoOp::ErrLine(_))
            })),
            r != CommandExitCode::Success ==> ({
                let e = final(io_helper).events();
                exists|msgs: Seq<Seq<char>>|
                    #![trigger msgs.len()]
                    {
                        &&& msgs.len() >= 1
                        &&& e.len() >= msgs.len()
                        &&& e.skip(e.len() - msgs.len() as int) == msgs.map_values(
                            |m: Seq<char>| IoOp::ErrLine(m),
                        )
                    }
            }),
    {
        if args.len() < self.min_args || args.len() > self.max_args {
            let msg = crate::strutil::scat3("\"d-sh ", self.name, "\" bad arguments number.");
            io_helper.eprintln(msg.as_str());
            let msg2 = crate::strutil::scat3("See 'd-sh ", self.name, " --command.help'.");
            io_helper.eprintln(msg2.as_str());
            proof {
                let e = io_helper.events();
                let msgs = seq![msg@, msg2@];
                assert(msgs.len() == 2);
                assert(e.skip(e.len() - 2) =~= msgs.map_values(
                    |m: Seq<char>| IoOp::ErrLine(m),
                ));
            }
            return CommandExitCode::BadArgument;
        }
        let own_config_filename = match get_config_filename() {
            Some(f) => f,
            None => String::new(),
        };
        if self.need_config_file {
            let config = match Command::get_config(config_filename, io_helper, log_helper) {
                Ok(c) => c,
                Err(e) => {
                    proof {
                        let ev = io_helper.events();
                        assert(ev.last() matches IoOp::ErrLine(_));
                        let line = ev.last()->ErrLine_0;
                        let msgs = seq![line];
                        assert(msgs.len() == 1);
                        assert(ev.skip(ev.len() - 1) =~= msgs.map_values(
                            |m: Seq<char>| IoOp::ErrLine(m),
                        ));
                    }
                    return e;
                },
            };
            let cmd_param = CommandParameter {
                command: self,
                args,
                config: Some(&config),
                config_filename: own_config_filename,
            };
            self.dispatch(&cmd_param, io_helper, dck_helper, dl_helper)
        } else {
            let cmd_param = CommandParameter {
                command: self,
                args,
                config: None,
                config_filename: own_config_filename,
            };
            self.dispatch(&cmd_param, io_helper, dck_helper, dl_helper)
        }
    }

    /// Hands the command to its handler and turns the outcome into an exit
    /// code, printing a failure's message lines in order.
    fn dispatch<I: InputOutputHelper, C: ContainerHelper, D: DownloadHelper>(
        &self,
        cmd_param: &CommandParameter,
        io_helper: &mut I,
        dck_helper: &mut C,
        dl_helper: &mut D,
    ) -> (r: CommandExitCode)
        requires
            self.wf(),
            self.need_config_file ==> cmd_param.config is Some,
            cmd_param.args.len() >= self.min_args,
        ensures
            r != CommandExitCode::BadArgument,
            r != CommandExitCode::ConfigFileNotFound && r
                != CommandExitCode::ConfigFileFormatWrong && r
                != CommandExitCode::CannotAccessToFolderOfConfigFile,
            r != CommandExitCode::Success ==> ({
                let e = final(io_helper).events();
                exists|msgs: Seq<Seq<char>>|
                    #![trigger msgs.len()]
                    {
                        &&& msgs.len() >= 1
                        &&& e.len() >= msgs.len()
                        &&& e.skip(e.len() - msgs.len() as int) == msgs.map_values(
                            |m: Seq<char>| IoOp::ErrLine(m),
                        )
                    }
            }),
    {
        let result: Result<(), CommandError> = match self.kind {
            CommandKind::Build => crate::command::build::build(
                cmd_param,
                io_helper,
                dck_helper,
                dl_helper,
            ),
            CommandKind::Check => crate::command::check::check(
                cmd_param,
                io_helper,
                dck_helper,
                dl_helper,
            ),
            CommandKind::Delete => crate::command::delete::delete(
                cmd_param,
                io_helper,
                dck_helper,
                dl_helper,
            ),
            CommandKind::Help => crate::command::help::help(
                cmd_param,
                io_helper,
                dck_helper,
                dl_helper,
            ),
            CommandKind::Init => crate::command::init::init(
                cmd_param,
                io_helper,
                dck_helper,
                dl_helper,
            ),
            CommandKind::List => crate::command::list::list(
                cmd_param,
                io_helper,
                dck_helper,
                dl_helper,
            ),
            CommandKind::Run => crate::command::run::run(
                cmd_param,
                io_helper,
                dck_helper,
                dl_helper,
            ),
            CommandKind::Version => crate::command::help::version(
                cmd_param,
                io_helper,
                dck_helper,
                dl_helper,
            ),
        };
        match result {
            Ok(()) => CommandExitCode::Success,
            Err(err) => {
                let ghost e0 = io_helper.events();
                let ghost msgs = err.msg.deep_view();
                let mut k: usize = 0;
                proof {
                    assert(msgs.take(0int).map_values(|m: Seq<char>| IoOp::ErrLine(m))
                        =~= Seq::<IoOp>::empty());
                    assert(io_helper.events() =~= e0 + msgs.take(0int).map_values(
                        |m: Seq<char>| IoOp::ErrLine(m),
                    ));
                }
                while k < err.msg.len()
                    invariant
                        k <= err.msg.len(),
                        msgs == err.msg.deep_view(),
                        msgs.len() == err.msg.len(),
                        io_helper.events() == e0 + msgs.take(k as int).map_values(
                            |m: Seq<char>| IoOp::ErrLine(m),
                        ),
                    decreases err.msg.len() - k,
                {
                    io_helper.eprintln(err.msg[k].as_str());
                    proof {
                        assert(err.msg[k as int]@ == msgs[k as int]);
                        assert(io_helper.events() =~= e0 + msgs.take(k + 1).map_values(
                            |m: Seq<char>| IoOp::ErrLine(m),
                        ));
                    }
                    k += 1;
                }
                proof {
                    assert(msgs.take(err.msg.len() as int) =~= msgs);
                    let e = io_helper.events();
                    assert(e == e0 + msgs.map_values(|m: Seq<char>| IoOp::ErrLine(m)));
                    assert(e.skip(e.len() - msgs.len() as int) =~= msgs.map_values(
                        |m: Seq<char>| IoOp::ErrLine(m),
                    ));
                }
                err.code
            },
        }
    }
}

/// The `build` command.
pub fn command_build() -> (r: Command)
    ensures
        r.wf(),
        r.kind == CommandKind::Build,
        r.need_config_file,
        r.min_args == 1,
{
    Command {
        name: "build",
        description: "Build container image",
        short_name: "b",
        min_args: 1,
        max_args: usize::MAX,
        usage:
            "\n    Usage:\td-sh build [OPTIONS] PROGRAM1 PROGRAM2 ...\n\n    Build an image for a program\n\n    Options:\n      -a, --all                Build all image of program\n      -b, --base               Build base image\n      -f, --force              Remove existing image before build\n      -m, --missing            Build only missing image\n      -s, --skip-redownload    If binary is present, don't check if new version is available",
        need_config_file: true,
        kind: CommandKind::Build,
    }
}

/// The `check` command.
pub fn command_check() -> (r: Command)
    ensures
        r.wf(),
        r.kind == CommandKind::Check,
        r.need_config_file,
        r.min_args == 0,
{
    Command {
        name: "check",
        description: "List missing container image",
        short_name: "chk",
        min_args: 0,
        max_args: 0,
        usage: "",
        need_config_file: true,
        kind: CommandKind::Check,
    }
}

/// The `delete` command.
pub fn command_delete() -> (r: Command)
    ensures
        r.wf(),
        r.kind == CommandKind::Delete,
        r.need_config_file,
        r.min_args == 1,
{
    Command {
        name: "delete",
        description: "Delete image",
        short_name: "rm",
        min_args: 1,
        max_args: 1,
        usage:
            "\n    Usage:\td-sh delete APPLICATION\n\n    Delete an image for a application\n\n    Options:\n      -a, --all                Build all image of application\n",
        need_config_file: true,
        kind: CommandKind::Delete,
    }
}

/// The `help` command.
pub fn command_help() -> (r: Command)
    ensures
        r.wf(),
        r.kind == CommandKind::Help,
        !r.need_config_file,
{
    Command {
        name: "help",
        description: "Print help",
        short_name: "h",
        min_args: 0,
        max_args: 0,
        usage: "",
        need_config_file: false,
        kind: CommandKind::Help,
    }
}

/// The `init` command.
pub fn command_init() -> (r: Command)
    ensures
        r.wf(),
        r.kind == CommandKind::Init,
        !r.need_config_file,
{
    Command {
        name: "init",
        description: "Initialize config file if not exists",
        short_name: "i",
        min_args: 0,
        max_args: 0,
        usage: "",
        need_config_file: false,
        kind: CommandKind::Init,
    }
}

/// The `list` command.
pub fn command_list() -> (r: Command)
    ensures
        r.wf(),
        r.kind == CommandKind::List,
        r.need_config_file,
{
    Command {
        name: "list",
        description: "List all applications available",
        short_name: "ls",
        min_args: 0,
        max_args: 0,
        usage: "",
        need_config_file: true,
        kind: CommandKind::List,
    }
}

/// The `run` command.
pub fn command_run() -> (r: Command)
    ensures
        r.wf(),
        r.kind == CommandKind::Run,
        r.need_config_file,
        r.min_args == 1,
{
    Command {
        name: "run",
        description: "Run container",
        short_name: "r",
        min_args: 1,
        max_args: 2,
        usage:
            "\n    Usage:\td-sh run [-i | --interactive] APPLICATION [APPLICATION ARGS]\n\n    Run an application\n\n    Options:\n      -i | --interactive       Run application in terminal\n",
        need_config_file: true,
        kind: CommandKind::Run,
    }
}

/// The `version` command.
pub fn command_version() -> (r: Command)
    ensures
        r.wf(),
        r.kind == CommandKind::Version,
        !r.need_config_file,
{
    Command {
        name: "version",
        description: "Print version information and quit",
        short_name: "v",
        min_args: 0,
        max_args: 0,
        usage: "",
        need_config_file: false,
        kind: CommandKind::Version,
    }
}

/// Every command the tool knows, in the order the help lists them.
pub fn all_commands() -> (r: Vec<Command>)
    ensures
        r.len() == 8,
        forall|i: int| 0 <= i < r@.len() ==> (#[trigger] r@[i]).wf(),
{
    let mut r: Vec<Command> = Vec::new();
    r.push(command_build());
    r.push(command_check());
    r.push(command_delete());
    r.push(command_help());
    r.push(command_init());
    r.push(command_list());
    r.push(command_run());
    r.push(command_version());
    r
}

/// Finds the verb named `cmd` (by full or short name) and runs it; an
/// unknown verb is reported on standard error.
pub fn run_command<I: InputOutputHelper, C: ContainerHelper, D: DownloadHelper, L: LoggerHelper>(
    cmd: &str,
    args: &[String],
    config_filename: Option<String>,
    io_helper: &mut I,
    dck_helper: &mut C,
    dl_helper: &mut D,
    log_helper: &L,
) -> CommandExitCode {
    let commands = all_commands();
    let mut i: usize = 0;
    while i < commands.len()
        invariant
            forall|j: int| 0 <= j < commands@.len() ==> (#[trigger] commands@[j]).wf(),
        decreases commands.len() - i,
    {
        let c = &commands[i];
        proof {
            assert(commands@[i as int].wf());
        }
        if str_eq(cmd, c.name) || str_eq(cmd, c.short_name) {
            return c.exec(args, config_filename, io_helper, dck_helper, dl_helper, log_helper);
        }
        i += 1;
    }
    let msg = scat3("D-SH: '", cmd, "' is not a d-sh command.");
    io_helper.eprintln(msg.as_str());
    let helper_name: &str = if args.len() > 0 {
        args[0].as_str()
    } else {
        "d-sh"
    };
    let msg2 = scat3("See '", helper_name, " --command.help'");
    io_helper.eprintln(msg2.as_str());
    CommandExitCode::CommandNotFound
}

} // verus!
