//! Scenario and unit tests over the library's stated properties.

#![allow(dead_code)]

use std::cell::RefCell;
use std::collections::HashMap;
use std::rc::Rc;

use d_sh::config::Config;
use d_sh::config::ConfigDocker;
use d_sh::docker::ContainerHelper;
use d_sh::download::DownloadHelper;
use d_sh::io::InputOutputHelper;

type SharedFiles = Rc<RefCell<HashMap<String, String>>>;

struct TestInputOutputHelper {
    stdout: Vec<String>,
    stderr: Vec<String>,
    stdin: Vec<String>,
    files: SharedFiles,
    files_error: HashMap<String, bool>,
    files_delete: HashMap<String, String>,
}

impl TestInputOutputHelper {
    fn new() -> TestInputOutputHelper {
        TestInputOutputHelper {
            stdout: Vec::new(),
            stderr: Vec::new(),
            stdin: Vec::new(),
            files: Rc::new(RefCell::new(HashMap::new())),
            files_error: HashMap::new(),
            files_delete: HashMap::new(),
        }
    }

    fn add_file(&mut self, path: &str, content: &str) {
        self.files.borrow_mut().insert(path.to_string(), content.to_string());
    }

    fn get_file(&self, path: &str) -> Option<String> {
        self.files.borrow().get(path).cloned()
    }
}

impl InputOutputHelper for TestInputOutputHelper {
    fn events(&self) -> d_sh::io::IoEventLog {
        panic!("ghost state is never materialised at run time")
    }

    fn println(&mut self, expr: &str) {
        self.stdout.push(expr.to_string());
    }

    fn print(&mut self, expr: &str) {
        self.stdout.push(expr.to_string());
    }

    fn eprintln(&mut self, expr: &str) {
        self.stderr.push(expr.to_string());
    }

    fn read_line(&mut self) -> String {
        self.stdin.remove(0)
    }

    fn file_write(&mut self, path: &str, contents: &str) -> Result<(), String> {
        if self.files_error.contains_key(path) {
            Err(String::from("Cannot write"))
        } else {
            self.files.borrow_mut().insert(path.to_string(), contents.to_string());
            Ok(())
        }
    }

    fn file_exits(&mut self, filename: &str) -> bool {
        self.files.borrow().contains_key(filename)
    }

    fn file_read_at_string(&mut self, filename: &str) -> Result<String, String> {
        match self.files.borrow().get(filename) {
            Some(data) => Ok(data.clone()),
            None => Err(String::from("Not found")),
        }
    }

    fn dir_list_file(&mut self, dir: &str, pattern: &str) -> Result<Vec<String>, String> {
        if self.files_error.contains_key(dir) {
            Err(String::from("Cannot read"))
        } else {
            let suffix = pattern.trim_start_matches('*');
            let result = self
                .files
                .borrow()
                .keys()
                .filter(|k| k.starts_with(dir) && k.ends_with(suffix))
                .cloned()
                .collect();
            Ok(result)
        }
    }

    fn create_dir_all(&mut self, dir: &str) -> Result<(), String> {
        if self.files_error.contains_key(dir) {
            Err(String::from("Cannot write"))
        } else {
            Ok(())
        }
    }

    fn remove_dir_all(&mut self, dir: &str) -> Result<(), String> {
        if self.files_error.contains_key(dir) {
            Err(String::from("Cannot delete"))
        } else {
            let files_to_delete: Vec<String> = self
                .files
                .borrow()
                .keys()
                .filter(|k| k.starts_with(dir))
                .cloned()
                .collect();
            for filename in &files_to_delete {
                let content = self.files.borrow().get(filename).unwrap().clone();
                self.files_delete.insert(filename.clone(), content);
                self.files.borrow_mut().remove(filename);
            }
            Ok(())
        }
    }

    fn hardlink_or_copy_file(&mut self, from: &str, to: &str) -> Result<(), String> {
        let content = match self.files.borrow().get(from) {
            Some(c) => c.clone(),
            None => {
                return Err(String::from("Not found"));
            },
        };
        self.file_write(to, &content)
    }
}

struct TestBuildImage {
    build_options: Vec<String>,
    tag: String,
    dockerfile_name: String,
    base_dir: String,
}

#[derive(Clone)]
struct TestRunContainer {
    image_name: String,
    run_options: Vec<String>,
    cmd: String,
    cmd_options: Vec<String>,
}

struct TestContainerHelper {
    images: Vec<String>,
    containers: Vec<TestRunContainer>,
    builds: Vec<TestBuildImage>,
    builds_error: HashMap<String, bool>,
}

impl TestContainerHelper {
    fn new() -> TestContainerHelper {
        TestContainerHelper {
            images: Vec::new(),
            containers: Vec::new(),
            builds: Vec::new(),
            builds_error: HashMap::new(),
        }
    }
}

impl ContainerHelper for TestContainerHelper {
    fn events(&self) -> d_sh::docker::ContainerEventLog {
        panic!("ghost state is never materialised at run time")
    }

    fn list_image(&mut self, image_name: &str) -> Vec<String> {
        self.images.iter().filter(|i| *i == image_name).cloned().collect()
    }

    fn remove_image(&mut self, image_name: &str) -> bool {
        let nb_image = self.images.iter().filter(|i| *i == image_name).count();
        if nb_image > 0 {
            self.images.retain(|i| i != image_name);
            true
        } else {
            false
        }
    }

    fn run_container(
        &mut self,
        image_name: &str,
        run_options: Option<&Vec<String>>,
        cmd: Option<&str>,
        cmd_options: Option<&Vec<String>>,
    ) -> bool {
        let nb_image = self.images.iter().filter(|i| *i == image_name).count();
        if nb_image > 0 {
            self.containers.push(TestRunContainer {
                image_name: image_name.to_string(),
                run_options: run_options.cloned().unwrap_or_default(),
                cmd: cmd.map(|c| c.to_string()).unwrap_or_default(),
                cmd_options: cmd_options.cloned().unwrap_or_default(),
            });
            true
        } else {
            false
        }
    }

    fn build_image(
        &mut self,
        docker_filename: &str,
        docker_context_path: &str,
        docker_tag: &str,
        build_options: Option<&Vec<String>>,
    ) -> bool {
        if self.builds_error.contains_key(docker_tag) {
            return false;
        }
        self.images.push(docker_tag.to_string());
        self.builds.push(TestBuildImage {
            build_options: build_options.cloned().unwrap_or_default(),
            tag: docker_tag.to_string(),
            dockerfile_name: docker_filename.to_string(),
            base_dir: docker_context_path.to_string(),
        });
        true
    }
}

struct TestDownload {
    url: String,
    output_filename: String,
    update: bool,
}

struct TestDownloadHelper {
    files: SharedFiles,
    dl: Vec<TestDownload>,
    update_dl_files: HashMap<String, bool>,
    urls_error: HashMap<String, bool>,
}

impl TestDownloadHelper {
    fn new(io_helper: &TestInputOutputHelper) -> TestDownloadHelper {
        TestDownloadHelper {
            files: Rc::clone(&io_helper.files),
            dl: Vec::new(),
            update_dl_files: HashMap::new(),
            urls_error: HashMap::new(),
        }
    }
}

impl DownloadHelper for TestDownloadHelper {
    fn events(&self) -> d_sh::download::DownloadEventLog {
        panic!("ghost state is never materialised at run time")
    }

    fn download(&mut self, url: &str, output_filename: &str) -> bool {
        if self.urls_error.contains_key(url) {
            return false;
        }
        self.dl.push(TestDownload {
            url: url.to_string(),
            output_filename: output_filename.to_string(),
            update: true,
        });
        self.files.borrow_mut().insert(output_filename.to_string(), url.to_string());
        true
    }

    fn download_if_update(&mut self, url: &str, output_filename: &str) -> bool {
        if !self.update_dl_files.contains_key(output_filename)
            && self.files.borrow().contains_key(output_filename)
        {
            self.dl.push(TestDownload {
                url: url.to_string(),
                output_filename: output_filename.to_string(),
                update: false,
            });
            return true;
        }
        self.download(url, output_filename)
    }
}

fn found_item(list: &[String], value: &str) {
    let found = list.iter().filter(|l| *l == value).count();
    assert_eq!(found, 1, "Cannot find '{}' value in list", value);
}

fn test_result_ok(result: Result<(), d_sh::command::CommandError>) {
    if let Err(err) = result {
        panic!(
            "Command return fail with code {:?} and error message {:?}.",
            err.code, err.msg
        );
    }
}

fn test_result_err(
    result: Result<(), d_sh::command::CommandError>,
    err_code: d_sh::command::CommandExitCode,
) -> Vec<String> {
    match result {
        Ok(_) => panic!("Command should be fail but not!"),
        Err(err) => {
            assert_eq!(err.code, err_code);
            err.msg
        },
    }
}

fn test_config(tmp_dir: Option<&str>) -> Config {
    Config {
        download_dir: String::from("dwn"),
        applications_dir: String::from("app"),
        dockerfile: ConfigDocker { from: String::from("tata"), tag: String::from("tutu") },
        dockerfile_filename: None,
        entrypoint_filename: None,
        tmp_dir: tmp_dir.map(|t| t.to_string()),
    }
}

use d_sh::command::CommandExitCode;
use d_sh::command::CommandParameter;
use d_sh::config::create_config_filename_path;
use d_sh::config::dockerfile::DOCKERFILE_BASE_FILENAME;
use d_sh::config::dockerfile::ENTRYPOINT;
use d_sh::config::dockerfile::ENTRYPOINT_FILENAME;
use d_sh::config::get_filename;
use d_sh::log::EmptyLoggerHelper;
use d_sh::strutil::fill_marker;
use d_sh::strutil::file_stem;
use d_sh::strutil::join_space;
use d_sh::strutil::pad_right;
use d_sh::strutil::path_join;
use d_sh::strutil::six_digits;
use d_sh::strutil::sort_strings;
use d_sh::strutil::str_ends_with;
use d_sh::strutil::str_lex_le;
use d_sh::strutil::trim_blanks;
use d_sh::strutil::u32_dec;
use d_sh::template::ManifestData;
use d_sh::template::render_manifest;

fn run_build(
    io_helper: &mut TestInputOutputHelper,
    dck_helper: &mut TestContainerHelper,
    dl_helper: &mut TestDownloadHelper,
    args: &[String],
    config: &Config,
) -> Result<(), d_sh::command::CommandError> {
    let build_cmd = d_sh::command::command_build();
    let cmd_param = CommandParameter {
        command: &build_cmd,
        args,
        config: Some(config),
        config_filename: String::new(),
    };
    d_sh::command::build::build(&cmd_param, io_helper, dck_helper, dl_helper)
}

fn add_entrypoint(io_helper: &mut TestInputOutputHelper) {
    match create_config_filename_path(ENTRYPOINT_FILENAME) {
        Some(cfg_file) => io_helper.add_file(&cfg_file, ENTRYPOINT),
        None => panic!("Unable to create entrypoint for test"),
    }
}

fn add_template(io_helper: &mut TestInputOutputHelper, content: &str) {
    match create_config_filename_path(DOCKERFILE_BASE_FILENAME) {
        Some(cfg_file) => io_helper.add_file(&cfg_file, content),
        None => panic!("Unable to create dockerfile for test"),
    }
}

#[test]
fn base_manifest_renders_aggregated_dependencies() {
    let mut io_helper = TestInputOutputHelper::new();
    let mut dck_helper = TestContainerHelper::new();
    let mut dl_helper = TestDownloadHelper::new(&io_helper);

    let config = test_config(None);

    add_template(&mut io_helper, "{{dockerfile_from}} {{#if dockerfile_base}}X {{dependencies}}{{/if}}");
    add_entrypoint(&mut io_helper);
    io_helper.add_file("app/atom.yml", "---\nimage_name: \"run-atom:latest\"\ncmd_line: \"\"\ndownload_filename: \"\"\nurl: \"\"\ndependencies:\n  - d1\n  - d2");
    io_helper.add_file("app/filezilla.yml", "---\nimage_name: \"run-filezilla:latest\"\ncmd_line: \"\"\ndownload_filename: \"\"\nurl: \"\"\ndependencies:\n  - d3");

    test_result_ok(run_build(&mut io_helper, &mut dck_helper, &mut dl_helper, &[String::from("-b")], &config));

    let rendered: Vec<&String> = io_helper
        .files_delete
        .iter()
        .filter(|(k, _)| k.ends_with("/Dockerfile"))
        .map(|(_, v)| v)
        .collect();

    assert_eq!(rendered.len(), 1);
    assert_eq!(rendered[0], "tata X d1 d2 d3");
}

#[test]
fn unconditional_fetch_when_artifact_not_cached() {
    let mut io_helper = TestInputOutputHelper::new();
    let mut dck_helper = TestContainerHelper::new();

    let config = test_config(None);

    io_helper.add_file("app/atom.yml", "---\nimage_name: \"run-atom:latest\"\ncmd_line: \"\"\ndownload_filename: \"atom.deb\"\nurl: \"toto\"");
    add_template(&mut io_helper, "{{dockerfile_from}}");
    dck_helper.images.push(String::from("tutu"));

    let mut dl_helper = TestDownloadHelper::new(&io_helper);

    test_result_ok(run_build(&mut io_helper, &mut dck_helper, &mut dl_helper, &[String::from("atom")], &config));

    assert_eq!(dl_helper.dl.len(), 1);
    let dl = dl_helper.dl.get(0).unwrap();
    assert_eq!(dl.url, "toto");
    assert_eq!(dl.output_filename, "dwn/atom.deb");
    assert!(dl.update, "the unconditional fetch path must be taken");

    let atom_build = dck_helper.builds.get(0).unwrap();
    assert_eq!(atom_build.tag, "run-atom:latest");
}

#[test]
fn conditional_fetch_when_artifact_cached() {
    let mut io_helper = TestInputOutputHelper::new();
    let mut dck_helper = TestContainerHelper::new();

    let config = test_config(None);

    io_helper.add_file("app/atom.yml", "---\nimage_name: \"run-atom:latest\"\ncmd_line: \"\"\ndownload_filename: \"atom.deb\"\nurl: \"toto\"");
    io_helper.add_file("dwn/atom.deb", "cached");
    add_template(&mut io_helper, "{{dockerfile_from}}");
    dck_helper.images.push(String::from("tutu"));

    let mut dl_helper = TestDownloadHelper::new(&io_helper);

    test_result_ok(run_build(&mut io_helper, &mut dck_helper, &mut dl_helper, &[String::from("atom")], &config));

    assert_eq!(dl_helper.dl.len(), 1);
    let dl = dl_helper.dl.get(0).unwrap();
    assert!(!dl.update, "the conditional only-if-newer path must be taken");
}

#[test]
fn template_missing_aborts_before_any_fetch() {
    let mut io_helper = TestInputOutputHelper::new();
    let mut dck_helper = TestContainerHelper::new();

    let config = test_config(None);

    io_helper.add_file("app/atom.yml", "---\nimage_name: \"run-atom:latest\"\ncmd_line: \"\"\ndownload_filename: \"atom.deb\"\nurl: \"toto\"");
    dck_helper.images.push(String::from("tutu"));

    let mut dl_helper = TestDownloadHelper::new(&io_helper);

    let stderr = test_result_err(
        run_build(&mut io_helper, &mut dck_helper, &mut dl_helper, &[String::from("atom")], &config),
        CommandExitCode::DockerBuildFail,
    );

    assert_eq!(stderr.get(0).unwrap(), "Build atom failed!");
    assert!(stderr.get(1).unwrap().contains("doesn't exits. Please run 'init' command first."));
    assert_eq!(dl_helper.dl.len(), 0, "no fetch may happen when the template is missing");
    assert_eq!(dck_helper.builds.len(), 0);
}

#[test]
fn batch_reports_every_failing_application() {
    let mut io_helper = TestInputOutputHelper::new();
    let mut dck_helper = TestContainerHelper::new();

    let config = test_config(None);

    io_helper.add_file("app/atom.yml", "---\nimage_name: \"run-atom:latest\"\ncmd_line: \"\"\ndownload_filename: \"atom.deb\"\nurl: \"toto\"");
    io_helper.add_file("app/filezilla.yml", "---\nimage_name: \"run-filezilla:latest\"\ncmd_line: \"\"\ndownload_filename: \"filezilla.deb\"\nurl: \"titi\"");
    add_template(&mut io_helper, "{{dockerfile_from}}");
    dck_helper.images.push(String::from("tutu"));
    dck_helper.builds_error.insert(String::from("run-atom:latest"), true);
    dck_helper.builds_error.insert(String::from("run-filezilla:latest"), true);

    let mut dl_helper = TestDownloadHelper::new(&io_helper);

    let stderr = test_result_err(
        run_build(&mut io_helper, &mut dck_helper, &mut dl_helper, &[String::from("-a")], &config),
        CommandExitCode::DockerBuildFail,
    );

    let headers = stderr.iter().filter(|l| l.starts_with("Build ") && l.ends_with(" failed!")).count();
    assert_eq!(headers, 2);
    assert_eq!(stderr.get(0).unwrap(), "Build atom failed!");
    assert_eq!(stderr.get(2).unwrap(), "Build filezilla failed!");
}

#[test]
fn workspace_token_has_letter_and_six_digits() {
    let mut io_helper = TestInputOutputHelper::new();
    let mut dck_helper = TestContainerHelper::new();
    let mut dl_helper = TestDownloadHelper::new(&io_helper);

    let config = test_config(Some("wsp"));

    add_template(&mut io_helper, "{{dockerfile_from}}");
    add_entrypoint(&mut io_helper);

    test_result_ok(run_build(&mut io_helper, &mut dck_helper, &mut dl_helper, &[String::from("-b")], &config));

    let base_build = dck_helper.builds.get(0).unwrap();
    let dir = &base_build.base_dir;
    assert!(dir.starts_with("wsp/"));
    let token = &dir["wsp/".len()..];
    assert_eq!(token.len(), 7);
    let first = token.chars().next().unwrap();
    assert!(first.is_ascii_uppercase());
    assert!(token.chars().skip(1).all(|c| c.is_ascii_digit()));
}

#[test]
fn batch_of_no_applications_succeeds() {
    let mut io_helper = TestInputOutputHelper::new();
    let mut dck_helper = TestContainerHelper::new();
    let mut dl_helper = TestDownloadHelper::new(&io_helper);

    let config = test_config(None);

    test_result_ok(run_build(&mut io_helper, &mut dck_helper, &mut dl_helper, &[], &config));

    assert_eq!(dck_helper.builds.len(), 0);
    assert_eq!(dl_helper.dl.len(), 0);
    assert_eq!(io_helper.stdout.len(), 0);
}

#[test]
fn run_without_application_name_is_refused() {
    let mut io_helper = TestInputOutputHelper::new();
    let mut dck_helper = TestContainerHelper::new();
    let mut dl_helper = TestDownloadHelper::new(&io_helper);

    let config = test_config(None);
    let run_cmd = d_sh::command::command_run();
    let args = [String::from("-i")];
    let cmd_param = CommandParameter {
        command: &run_cmd,
        args: &args,
        config: Some(&config),
        config_filename: String::new(),
    };

    let stderr = test_result_err(
        d_sh::command::run::run(&cmd_param, &mut io_helper, &mut dck_helper, &mut dl_helper),
        CommandExitCode::ApplicationNameMissing,
    );

    assert_eq!(stderr.get(0).unwrap(), "You must specify an application !");
}

#[test]
fn run_command_rejects_unknown_verb() {
    let mut io_helper = TestInputOutputHelper::new();
    let mut dck_helper = TestContainerHelper::new();
    let mut dl_helper = TestDownloadHelper::new(&io_helper);
    let log_helper = EmptyLoggerHelper;

    let args: [String; 0] = [];
    let exit_code = d_sh::command::run_command(
        "frobnicate",
        &args,
        None,
        &mut io_helper,
        &mut dck_helper,
        &mut dl_helper,
        &log_helper,
    );

    assert_eq!(exit_code, CommandExitCode::CommandNotFound);
    assert_eq!(io_helper.stderr.get(0).unwrap(), "D-SH: 'frobnicate' is not a d-sh command.");
}

#[test]
fn join_space_keeps_order_and_duplicates() {
    let v = vec![String::from("d1"), String::from("d2"), String::from("d1")];
    assert_eq!(join_space(&v), "d1 d2 d1");
    let empty: Vec<String> = Vec::new();
    assert_eq!(join_space(&empty), "");
    let one = vec![String::from("only")];
    assert_eq!(join_space(&one), "only");
}

#[test]
fn sort_strings_sorts_lexicographically() {
    let v = vec![
        String::from("app/filezilla.yml"),
        String::from("app/atom.yml"),
        String::from("app/titi.yml"),
    ];
    let sorted = sort_strings(&v);
    let expected = vec![
        String::from("app/atom.yml"),
        String::from("app/filezilla.yml"),
        String::from("app/titi.yml"),
    ];
    assert_eq!(sorted, expected);
    assert!(str_lex_le("app/atom.yml", "app/filezilla.yml"));
    assert!(!str_lex_le("b", "a"));
}

#[test]
fn file_stem_takes_the_last_component_without_extension() {
    assert_eq!(file_stem("app/atom.yml"), "atom");
    assert_eq!(file_stem("atom.yml"), "atom");
    assert_eq!(file_stem("a/b/c.tar.gz"), "c.tar");
    assert_eq!(file_stem(".yml"), ".yml");
    assert_eq!(file_stem("noext"), "noext");
}

#[test]
fn path_join_inserts_a_single_separator() {
    assert_eq!(path_join("dwn", "atom.deb"), "dwn/atom.deb");
    assert_eq!(path_join("dwn/", "atom.deb"), "dwn/atom.deb");
    assert_eq!(path_join("", "atom.deb"), "atom.deb");
    assert_eq!(get_filename("app", "atom", Some(".yml")), "app/atom.yml");
    assert_eq!(get_filename("dwn", "atom.deb", None), "dwn/atom.deb");
}

#[test]
fn pad_right_pads_with_spaces() {
    assert_eq!(pad_right("abc", 5), "abc  ");
    assert_eq!(pad_right("abcdef", 3), "abcdef");
    assert_eq!(pad_right("", 2), "  ");
}

#[test]
fn fill_marker_replaces_first_marker_only() {
    assert_eq!(fill_marker("a {} b {}", "X"), "a X b {}");
    assert_eq!(fill_marker("no marker", "X"), "no marker");
    assert_eq!(fill_marker("{}", "X"), "X");
}

#[test]
fn decimal_formatting_is_exact() {
    assert_eq!(u32_dec(0), "0");
    assert_eq!(u32_dec(42), "42");
    assert_eq!(u32_dec(4294967295), "4294967295");
    assert_eq!(six_digits(7), "000007");
    assert_eq!(six_digits(123456), "123456");
}

#[test]
fn trim_blanks_strips_both_ends() {
    assert_eq!(trim_blanks("  toto\n"), "toto");
    assert_eq!(trim_blanks("\t"), "");
    assert_eq!(trim_blanks("a b"), "a b");
}

#[test]
fn str_ends_with_matches_suffixes() {
    assert!(str_ends_with("atom.deb", ".deb"));
    assert!(!str_ends_with("atom.deb", ".tar.gz"));
    assert!(str_ends_with("", ""));
}

#[test]
fn manifest_renderer_flags_the_artifact_suffix() {
    let template = "{{#if application_is_deb}}deb{{/if}}{{#if application_is_tar_bz2}}bz2{{/if}}{{#if application_is_tar_xz}}xz{{/if}}{{#if application_is_tar_gz}}gz{{/if}}";

    let deb = ManifestData::Application {
        from: String::from("base"),
        application_filename: String::from("atom.deb"),
    };
    assert_eq!(render_manifest(template, &deb).unwrap(), "deb");

    let tgz = ManifestData::Application {
        from: String::from("base"),
        application_filename: String::from("atom.tgz"),
    };
    assert_eq!(render_manifest(template, &tgz).unwrap(), "gz");

    let bz2 = ManifestData::Application {
        from: String::from("base"),
        application_filename: String::from("atom.tar.bz2"),
    };
    assert_eq!(render_manifest(template, &bz2).unwrap(), "bz2");

    let pkg = ManifestData::Application {
        from: String::from("base"),
        application_filename: String::from("vim"),
    };
    assert_eq!(render_manifest(template, &pkg).unwrap(), "");

    let base = ManifestData::Base {
        from: String::from("ubuntu"),
        dependencies: String::from("d1 d2"),
    };
    assert_eq!(
        render_manifest("{{dockerfile_from}}:{{dependencies}}", &base).unwrap(),
        "ubuntu:d1 d2"
    );
}
