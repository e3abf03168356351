//! The build configuration and the per-application descriptors.
//!
//! Both records live in YAML files. They are loaded through the filesystem
//! helper, parsed by the outside parser, and then assembled field by field by
//! the verified extraction code below, which rejects a document that misses a
//! required field or gives one the wrong shape.

pub mod dockerfile;

use vstd::prelude::*;
use crate::io::InputOutputHelper;
use crate::io::IoOp;
use crate::io::home_dir_string;
use crate::io::convert_path;
use crate::strutil::path_join;
use crate::strutil::spec_path_join;
use crate::strutil::scat2;
use crate::strutil::scat3;
use crate::strutil::spec_ends_with;
use crate::strutil::str_ends_with;
use crate::yaml::yaml_check;
use crate::yaml::yaml_top_str;
use crate::yaml::yaml_top_bool;
use crate::yaml::yaml_top_str_list;
use crate::yaml::yaml_top_has;
use crate::yaml::yaml_nested_str;
use crate::yaml::yaml_parses;
use crate::yaml::yaml_field_str;
use crate::yaml::yaml_field_bool;
use crate::yaml::yaml_field_str_list;
use crate::yaml::yaml_field_present;
use crate::yaml::yaml_field_str2;

verus! {

/// The base-image settings of the build configuration.
#[derive(Debug, Clone)]
pub struct ConfigDocker {
    /// The image the shared base image builds from.
    pub from: String,
    /// The tag given to the built base image.
    pub tag: String,
}

/// The process-wide build configuration, loaded once per invocation.
#[derive(Debug, Clone)]
pub struct Config {
    /// Where fetched artifacts are cached.
    pub download_dir: String,
    /// Where the application descriptors live.
    pub applications_dir: String,
    /// Base-image settings.
    pub dockerfile: ConfigDocker,
    /// Path of the manifest template, when configured.
    pub dockerfile_filename: Option<String>,
    /// Path of the entrypoint script, when configured.
    pub entrypoint_filename: Option<String>,
    /// Root for build workspaces, when the platform default is not wanted.
    pub tmp_dir: Option<String>,
}

/// One application descriptor.
#[derive(Debug, Clone)]
pub struct ConfigApplication {
    /// The tag of the application's image.
    pub image_name: String,
    /// The command line run inside the container.
    pub cmd_line: String,
    /// Extra command-line arguments.
    pub cmd_line_args: Option<Vec<String>>,
    /// Whether the application wants a terminal.
    pub interactive: Option<bool>,
    /// Whether the container shares the host IPC namespace.
    pub ipc_host: Option<bool>,
    /// System packages merged into the base image.
    pub dependencies: Option<Vec<String>>,
    /// The artifact's file name in the download cache.
    pub download_filename: String,
    /// Where the artifact is fetched from; absent for a system package.
    pub url: Option<String>,
    /// Whether the refresh check is suppressed for this application.
    pub skip_redownload: Option<bool>,
}

/// Directory of the tool's own files, under the home directory.
pub const DEFAULT_CONFIG_FILE_PATH: &'static str = ".d-sh/";

/// Name of the configuration file.
pub const DEFAULT_CONFIG_FILE: &'static str = "config.yml";

/// The path of `filename` inside the tool's directory under `home`.
pub open spec fn spec_config_path(home: Seq<char>, filename: Seq<char>) -> Seq<char> {
    if home.len() > 0 && !spec_ends_with(home, seq!['/']) {
        home + seq!['/'] + ".d-sh/"@ + filename
    } else {
        home + ".d-sh/"@ + filename
    }
}

/// Builds the path of `filename` inside the tool's directory under `home`.
pub fn config_path_for(home: &str, filename: &str) -> (r: String)
    ensures
        r@ == spec_config_path(home@, filename@),
{
    proof {
        reveal_strlit("/");
        assert("/"@ =~= seq!['/']);
    }
    if home.unicode_len() > 0 && !str_ends_with(home, "/") {
        let r = scat4_path(home, filename);
        r
    } else {
        let r = scat3(home, DEFAULT_CONFIG_FILE_PATH, filename);
        r
    }
}

fn scat4_path(home: &str, filename: &str) -> (r: String)
    ensures
        r@ == home@ + seq!['/'] + ".d-sh/"@ + filename@,
{
    let r = crate::strutil::scat4(home, "/", DEFAULT_CONFIG_FILE_PATH, filename);
    proof {
        reveal_strlit("/");
        assert(home@ + "/"@ + ".d-sh/"@ + filename@ =~= home@ + seq!['/'] + ".d-sh/"@
            + filename@);
    }
    r
}

/// The path of `filename` inside the tool's directory, when the environment
/// names a home directory.
pub fn create_config_filename_path(filename: &str) -> (r: Option<String>)
    ensures
        r matches Some(p) ==> exists|h: Seq<char>| p@ == spec_config_path(h, filename@),
{
    match home_dir_string() {
        Some(home) => {
            let p = config_path_for(home.as_str(), filename);
            Some(p)
        },
        None => None,
    }
}

/// The path of the configuration file, when the environment names a home
/// directory.
pub fn get_config_filename() -> (r: Option<String>)
    ensures
        r matches Some(p) ==> exists|h: Seq<char>| p@ == spec_config_path(h, "config.yml"@),
{
    create_config_filename_path(DEFAULT_CONFIG_FILE)
}

/// The path of the file `app` with the optional suffix `ext` under `dir`.
pub open spec fn spec_get_filename(dir: Seq<char>, app: Seq<char>, ext: Option<Seq<char>>) -> Seq<
    char,
> {
    match ext {
        Some(e) => spec_path_join(dir, app + e),
        None => spec_path_join(dir, app),
    }
}

/// Builds the path of the file `app` with the optional suffix `ext` under `dir`.
pub fn get_filename(dir: &str, app: &str, ext: Option<&str>) -> (r: String)
    ensures
        r@ == spec_get_filename(
            dir@,
            app@,
            match ext {
                Some(e) => Some(e@),
                None => None,
            },
        ),
{
    match ext {
        Some(e) => {
            let name = scat2(app, e);
            path_join(dir, name.as_str())
        },
        None => path_join(dir, app),
    }
}

/// A document that yields an application descriptor: it parses, the three
/// required string fields are present, and every optional field that is
/// present has the right shape.
pub open spec fn spec_descriptor_ok(doc: Seq<char>) -> bool {
    &&& yaml_parses(doc)
    &&& yaml_field_str(doc, "image_name"@) is Some
    &&& yaml_field_str(doc, "cmd_line"@) is Some
    &&& yaml_field_str(doc, "download_filename"@) is Some
    &&& (yaml_field_present(doc, "cmd_line_args"@) ==> yaml_field_str_list(
        doc,
        "cmd_line_args"@,
    ) is Some)
    &&& (yaml_field_present(doc, "interactive"@) ==> yaml_field_bool(
        doc,
        "interactive"@,
    ) is Some)
    &&& (yaml_field_present(doc, "ipc_host"@) ==> yaml_field_bool(doc, "ipc_host"@) is Some)
    &&& (yaml_field_present(doc, "dependencies"@) ==> yaml_field_str_list(
        doc,
        "dependencies"@,
    ) is Some)
    &&& (yaml_field_present(doc, "url"@) ==> yaml_field_str(doc, "url"@) is Some)
    &&& (yaml_field_present(doc, "skip_redownload"@) ==> yaml_field_bool(
        doc,
        "skip_redownload"@,
    ) is Some)
}

/// The descriptor `d` holds exactly the fields of the document `doc`.
pub open spec fn spec_descriptor_matches(d: ConfigApplication, doc: Seq<char>) -> bool {
    &&& yaml_field_str(doc, "image_name"@) == Some(d.image_name@)
    &&& yaml_field_str(doc, "cmd_line"@) == Some(d.cmd_line@)
    &&& yaml_field_str(doc, "download_filename"@) == Some(d.download_filename@)
    &&& (match d.cmd_line_args {
        Some(v) => yaml_field_present(doc, "cmd_line_args"@) && yaml_field_str_list(
            doc,
            "cmd_line_args"@,
        ) == Some(v.deep_view()),
        None => !yaml_field_present(doc, "cmd_line_args"@),
    })
    &&& (match d.interactive {
        Some(b) => yaml_field_present(doc, "interactive"@) && yaml_field_bool(
            doc,
            "interactive"@,
        ) == Some(b),
        None => !yaml_field_present(doc, "interactive"@),
    })
    &&& (match d.ipc_host {
        Some(b) => yaml_field_present(doc, "ipc_host"@) && yaml_field_bool(doc, "ipc_host"@)
            == Some(b),
        None => !yaml_field_present(doc, "ipc_host"@),
    })
    &&& (match d.dependencies {
        Some(v) => yaml_field_present(doc, "dependencies"@) && yaml_field_str_list(
            doc,
            "dependencies"@,
        ) == Some(v.deep_view()),
        None => !yaml_field_present(doc, "dependencies"@),
    })
    &&& (match d.url {
        Some(u) => yaml_field_present(doc, "url"@) && yaml_field_str(doc, "url"@) == Some(u@),
        None => !yaml_field_present(doc, "url"@),
    })
    &&& (match d.skip_redownload {
        Some(b) => yaml_field_present(doc, "skip_redownload"@) && yaml_field_bool(
            doc,
            "skip_redownload"@,
        ) == Some(b),
        None => !yaml_field_present(doc, "skip_redownload"@),
    })
}

/// A document that yields a build configuration.
pub open spec fn spec_config_ok(doc: Seq<char>) -> bool {
    &&& yaml_parses(doc)
    &&& yaml_field_str(doc, "download_dir"@) is Some
    &&& yaml_field_str(doc, "applications_dir"@) is Some
    &&& yaml_field_str2(doc, "dockerfile"@, "from"@) is Some
    &&& yaml_field_str2(doc, "dockerfile"@, "tag"@) is Some
    &&& (yaml_field_present(doc, "dockerfile_filename"@) ==> yaml_field_str(
        doc,
        "dockerfile_filename"@,
    ) is Some)
    &&& (yaml_field_present(doc, "entrypoint_filename"@) ==> yaml_field_str(
        doc,
        "entrypoint_filename"@,
    ) is Some)
    &&& (yaml_field_present(doc, "tmp_dir"@) ==> yaml_field_str(doc, "tmp_dir"@) is Some)
}

/// The configuration `c` holds exactly the fields of the document `doc`.
pub open spec fn spec_config_matches(c: Config, doc: Seq<char>) -> bool {
    &&& yaml_field_str(doc, "download_dir"@) == Some(c.download_dir@)
    &&& yaml_field_str(doc, "applications_dir"@) == Some(c.applications_dir@)
    &&& yaml_field_str2(doc, "dockerfile"@, "from"@) == Some(c.dockerfile.from@)
    &&& yaml_field_str2(doc, "dockerfile"@, "tag"@) == Some(c.dockerfile.tag@)
    &&& (match c.dockerfile_filename {
        Some(f) => yaml_field_present(doc, "dockerfile_filename"@) && yaml_field_str(
            doc,
            "dockerfile_filename"@,
        ) == Some(f@),
        None => !yaml_field_present(doc, "dockerfile_filename"@),
    })
    &&& (match c.entrypoint_filename {
        Some(f) => yaml_field_present(doc, "entrypoint_filename"@) && yaml_field_str(
            doc,
            "entrypoint_filename"@,
        ) == Some(f@),
        None => !yaml_field_present(doc, "entrypoint_filename"@),
    })
    &&& (match c.tmp_dir {
        Some(f) => yaml_field_present(doc, "tmp_dir"@) && yaml_field_str(doc, "tmp_dir"@)
            == Some(f@),
        None => !yaml_field_present(doc, "tmp_dir"@),
    })
}

fn optional_str(data: &str, key: &str) -> (r: Result<Option<String>, ()>)
    ensures
        r matches Ok(v) ==> (match v {
            Some(s) => yaml_field_present(data@, key@) && yaml_field_str(data@, key@) == Some(
                s@,
            ),
            None => !yaml_field_present(data@, key@),
        }),
        r is Ok <==> (yaml_field_present(data@, key@) ==> yaml_field_str(data@, key@) is Some),
{
    if yaml_top_has(data, key) {
        match yaml_top_str(data, key) {
            Some(s) => Ok(Some(s)),
            None => Err(()),
        }
    } else {
        Ok(None)
    }
}

fn optional_bool(data: &str, key: &str) -> (r: Result<Option<bool>, ()>)
    ensures
        r matches Ok(v) ==> (match v {
            Some(b) => yaml_field_present(data@, key@) && yaml_field_bool(data@, key@) == Some(
                b,
            ),
            None => !yaml_field_present(data@, key@),
        }),
        r is Ok <==> (yaml_field_present(data@, key@) ==> yaml_field_bool(data@, key@) is Some),
{
    if yaml_top_has(data, key) {
        match yaml_top_bool(data, key) {
            Some(b) => Ok(Some(b)),
            None => Err(()),
        }
    } else {
        Ok(None)
    }
}

fn optional_str_list(data: &str, key: &str) -> (r: Result<Option<Vec<String>>, ()>)
    ensures
        r matches Ok(v) ==> (match v {
            Some(items) => yaml_field_present(data@, key@) && yaml_field_str_list(data@, key@)
                == Some(items.deep_view()),
            None => !yaml_field_present(data@, key@),
        }),
        r is Ok <==> (yaml_field_present(data@, key@) ==> yaml_field_str_list(
            data@,
            key@,
        ) is Some),
{
    if yaml_top_has(data, key) {
        match yaml_top_str_list(data, key) {
            Some(items) => Ok(Some(items)),
            None => Err(()),
        }
    } else {
        Ok(None)
    }
}

/// Assembles the build configuration from the document text.
fn config_from_doc(data: &str) -> (r: Result<Config, String>)
    ensures
        r is Ok <==> spec_config_ok(data@),
        r matches Ok(c) ==> spec_config_matches(c, data@),
{
    if let Err(e) = yaml_check(data) {
        return Err(scat3("File format of config file is wrong, ", e.as_str(), "!"));
    }
    let bad = || scat2("File format of config file is wrong, ", "a field is missing or malformed!");
    let download_dir = match yaml_top_str(data, "download_dir") {
        Some(s) => s,
        None => {
            return Err(bad());
        },
    };
    let applications_dir = match yaml_top_str(data, "applications_dir") {
        Some(s) => s,
        None => {
            return Err(bad());
        },
    };
    let from = match yaml_nested_str(data, "dockerfile", "from") {
        Some(s) => s,
        None => {
            return Err(bad());
        },
    };
    let tag = match yaml_nested_str(data, "dockerfile", "tag") {
        Some(s) => s,
        None => {
            return Err(bad());
        },
    };
    let dockerfile_filename = match optional_str(data, "dockerfile_filename") {
        Ok(v) => v,
        Err(()) => {
            return Err(bad());
        },
    };
    let entrypoint_filename = match optional_str(data, "entrypoint_filename") {
        Ok(v) => v,
        Err(()) => {
            return Err(bad());
        },
    };
    let tmp_dir = match optional_str(data, "tmp_dir") {
        Ok(v) => v,
        Err(()) => {
            return Err(bad());
        },
    };
    Ok(
        Config {
            download_dir,
            applications_dir,
            dockerfile: ConfigDocker { from, tag },
            dockerfile_filename,
            entrypoint_filename,
            tmp_dir,
        },
    )
}

/// Assembles an application descriptor from the document text.
fn config_application_from_doc(data: &str) -> (r: Result<ConfigApplication, String>)
    ensures
        r is Ok <==> spec_descriptor_ok(data@),
        r matches Ok(d) ==> spec_descriptor_matches(d, data@),
{
    if let Err(e) = yaml_check(data) {
        return Err(scat3("File format of config application file is wrong, ", e.as_str(), "!"));
    }
    let bad = || scat2(
        "File format of config application file is wrong, ",
        "a field is missing or malformed!",
    );
    let image_name = match yaml_top_str(data, "image_name") {
        Some(s) => s,
        None => {
            return Err(bad());
        },
    };
    let cmd_line = match yaml_top_str(data, "cmd_line") {
        Some(s) => s,
        None => {
            return Err(bad());
        },
    };
    let download_filename = match yaml_top_str(data, "download_filename") {
        Some(s) => s,
        None => {
            return Err(bad());
        },
    };
    let cmd_line_args = match optional_str_list(data, "cmd_line_args") {
        Ok(v) => v,
        Err(()) => {
            return Err(bad());
        },
    };
    let interactive = match optional_bool(data, "interactive") {
        Ok(v) => v,
        Err(()) => {
            return Err(bad());
        },
    };
    let ipc_host = match optional_bool(data, "ipc_host") {
        Ok(v) => v,
        Err(()) => {
            return Err(bad());
        },
    };
    let dependencies = match optional_str_list(data, "dependencies") {
        Ok(v) => v,
        Err(()) => {
            return Err(bad());
        },
    };
    let url = match optional_str(data, "url") {
        Ok(v) => v,
        Err(()) => {
            return Err(bad());
        },
    };
    let skip_redownload = match optional_bool(data, "skip_redownload") {
        Ok(v) => v,
        Err(()) => {
            return Err(bad());
        },
    };
    Ok(
        ConfigApplication {
            image_name,
            cmd_line,
            cmd_line_args,
            interactive,
            ipc_host,
            dependencies,
            download_filename,
            url,
            skip_redownload,
        },
    )
}

/// Loads the build configuration from `config_filename`.
///
/// One read is made, of exactly that path. The load succeeds exactly when
/// the read succeeded and the text is a well-shaped configuration document,
/// and the result then holds that document's fields.
pub fn get_config<I: InputOutputHelper>(config_filename: String, io_helper: &mut I) -> (r: Result<
    Config,
    String,
>)
    ensures
        final(io_helper).events().len() == old(io_helper).events().len() + 1,
        final(io_helper).events().drop_last() == old(io_helper).events(),
        final(io_helper).events().last() matches IoOp::ReadFile(p, c) && p == config_filename@
            && (match c {
            Some(text) => (r is Ok <==> spec_config_ok(text)) && (r matches Ok(cfg)
                ==> spec_config_matches(cfg, text)),
            None => r is Err,
        }),
{
    let data = match io_helper.file_read_at_string(config_filename.as_str()) {
        Ok(d) => d,
        Err(e) => {
            return Err(e);
        },
    };
    config_from_doc(data.as_str())
}

/// Loads one application descriptor from `filename`.
///
/// The path's leading `~/` is resolved first, then one read is made. The
/// load succeeds exactly when the read succeeded and the text is a
/// well-shaped descriptor document, and the result then holds that
/// document's fields. A failure is an error for this descriptor alone.
pub fn get_config_application<I: InputOutputHelper>(io_helper: &mut I, filename: &str) -> (r:
    Result<ConfigApplication, String>)
    ensures
        final(io_helper).events().len() == old(io_helper).events().len() + 1,
        final(io_helper).events().drop_last() == old(io_helper).events(),
        final(io_helper).events().last() matches IoOp::ReadFile(p, c) && (exists|
            h: Option<Seq<char>>,
        | p == crate::io::spec_convert_path(h, filename@)) && (match c {
            Some(text) => (r is Ok <==> spec_descriptor_ok(text)) && (r matches Ok(d)
                ==> spec_descriptor_matches(d, text)),
            None => r is Err,
        }),
{
    let new_filename = convert_path(filename);
    let data = match io_helper.file_read_at_string(new_filename.as_str()) {
        Ok(d) => d,
        Err(e) => {
            return Err(e);
        },
    };
    config_application_from_doc(data.as_str())
}

} // verus!
