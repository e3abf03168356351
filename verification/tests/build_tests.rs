//! Tests exercising the command layer with in-memory helpers.

#![allow(dead_code)]

use std::cell::RefCell;
use std::collections::HashMap;
use std::rc::Rc;

use d_sh::config::Config;
use d_sh::config::ConfigDocker;
use d_sh::docker::ContainerHelper;
use d_sh::download::DownloadHelper;
use d_sh::io::InputOutputHelper;

type SharedFiles = Rc<RefCell<HashMap<String, String>>>;

struct TestInputOutputHelper {
    stdout: Vec<String>,
    stderr: Vec<String>,
    stdin: Vec<String>,
    files: SharedFiles,
    files_error: HashMap<String, bool>,
    files_delete: HashMap<String, String>,
}

impl TestInputOutputHelper {
    fn new() -> TestInputOutputHelper {
        TestInputOutputHelper {
            stdout: Vec::new(),
            stderr: Vec::new(),
            stdin: Vec::new(),
            files: Rc::new(RefCell::new(HashMap::new())),
            files_error: HashMap::new(),
            files_delete: HashMap::new(),
        }
    }

    fn add_file(&mut self, path: &str, content: &str) {
        self.files.borrow_mut().insert(path.to_string(), content.to_string());
    }

    fn get_file(&self, path: &str) -> Option<String> {
        self.files.borrow().get(path).cloned()
    }
}

impl InputOutputHelper for TestInputOutputHelper {
    fn events(&self) -> d_sh::io::IoEventLog {
        panic!("ghost state is never materialised at run time")
    }

    fn println(&mut self, expr: &str) {
        self.stdout.push(expr.to_string());
    }

    fn print(&mut self, expr: &str) {
        self.stdout.push(expr.to_string());
    }

    fn eprintln(&mut self, expr: &str) {
        self.stderr.push(expr.to_string());
    }

    fn read_line(&mut self) -> String {
        self.stdin.remove(0)
    }

    fn file_write(&mut self, path: &str, contents: &str) -> Result<(), String> {
        if self.files_error.contains_key(path) {
            Err(String::from("Cannot write"))
        } else {
            self.files.borrow_mut().insert(path.to_string(), contents.to_string());
            Ok(())
        }
    }

    fn file_exits(&mut self, filename: &str) -> bool {
        self.files.borrow().contains_key(filename)
    }

    fn file_read_at_string(&mut self, filename: &str) -> Result<String, String> {
        match self.files.borrow().get(filename) {
            Some(data) => Ok(data.clone()),
            None => Err(String::from("Not found")),
        }
    }

    fn dir_list_file(&mut self, dir: &str, pattern: &str) -> Result<Vec<String>, String> {
        if self.files_error.contains_key(dir) {
            Err(String::from("Cannot read"))
        } else {
            let suffix = pattern.trim_start_matches('*');
            let result = self
                .files
                .borrow()
                .keys()
                .filter(|k| k.starts_with(dir) && k.ends_with(suffix))
                .cloned()
                .collect();
            Ok(result)
        }
    }

    fn create_dir_all(&mut self, dir: &str) -> Result<(), String> {
        if self.files_error.contains_key(dir) {
            Err(String::from("Cannot write"))
        } else {
            Ok(())
        }
    }

    fn remove_dir_all(&mut self, dir: &str) -> Result<(), String> {
        if self.files_error.contains_key(dir) {
            Err(String::from("Cannot delete"))
        } else {
            let files_to_delete: Vec<String> = self
                .files
                .borrow()
                .keys()
                .filter(|k| k.starts_with(dir))
                .cloned()
                .collect();
            for filename in &files_to_delete {
                let content = self.files.borrow().get(filename).unwrap().clone();
                self.files_delete.insert(filename.clone(), content);
                self.files.borrow_mut().remove(filename);
            }
            Ok(())
        }
    }

    fn hardlink_or_copy_file(&mut self, from: &str, to: &str) -> Result<(), String> {
        let content = match self.files.borrow().get(from) {
            Some(c) => c.clone(),
            None => {
                return Err(String::from("Not found"));
            },
        };
        self.file_write(to, &content)
    }
}

struct TestBuildImage {
    build_options: Vec<String>,
    tag: String,
    dockerfile_name: String,
    base_dir: String,
}

#[derive(Clone)]
struct TestRunContainer {
    image_name: String,
    run_options: Vec<String>,
    cmd: String,
    cmd_options: Vec<String>,
}

struct TestContainerHelper {
    images: Vec<String>,
    containers: Vec<TestRunContainer>,
    builds: Vec<TestBuildImage>,
    builds_error: HashMap<String, bool>,
}

impl TestContainerHelper {
    fn new() -> TestContainerHelper {
        TestContainerHelper {
            images: Vec::new(),
            containers: Vec::new(),
            builds: Vec::new(),
            builds_error: HashMap::new(),
        }
    }
}

impl ContainerHelper for TestContainerHelper {
    fn events(&self) -> d_sh::docker::ContainerEventLog {
        panic!("ghost state is never materialised at run time")
    }

    fn list_image(&mut self, image_name: &str) -> Vec<String> {
        self.images.iter().filter(|i| *i == image_name).cloned().collect()
    }

    fn remove_image(&mut self, image_name: &str) -> bool {
        let nb_image = self.images.iter().filter(|i| *i == image_name).count();
        if nb_image > 0 {
            self.images.retain(|i| i != image_name);
            true
        } else {
            false
        }
    }

    fn run_container(
        &mut self,
        image_name: &str,
        run_options: Option<&Vec<String>>,
        cmd: Option<&str>,
        cmd_options: Option<&Vec<String>>,
    ) -> bool {
        let nb_image = self.images.iter().filter(|i| *i == image_name).count();
        if nb_image > 0 {
            self.containers.push(TestRunContainer {
                image_name: image_name.to_string(),
                run_options: run_options.cloned().unwrap_or_default(),
                cmd: cmd.map(|c| c.to_string()).unwrap_or_default(),
                cmd_options: cmd_options.cloned().unwrap_or_default(),
            });
            true
        } else {
            false
        }
    }

    fn build_image(
        &mut self,
        docker_filename: &str,
        docker_context_path: &str,
        docker_tag: &str,
        build_options: Option<&Vec<String>>,
    ) -> bool {
        if self.builds_error.contains_key(docker_tag) {
            return false;
        }
        self.images.push(docker_tag.to_string());
        self.builds.push(TestBuildImage {
            build_options: build_options.cloned().unwrap_or_default(),
            tag: docker_tag.to_string(),
            dockerfile_name: docker_filename.to_string(),
            base_dir: docker_context_path.to_string(),
        });
        true
    }
}

struct TestDownload {
    url: String,
    output_filename: String,
    update: bool,
}

struct TestDownloadHelper {
    files: SharedFiles,
    dl: Vec<TestDownload>,
    update_dl_files: HashMap<String, bool>,
    urls_error: HashMap<String, bool>,
}

impl TestDownloadHelper {
    fn new(io_helper: &TestInputOutputHelper) -> TestDownloadHelper {
        TestDownloadHelper {
            files: Rc::clone(&io_helper.files),
            dl: Vec::new(),
            update_dl_files: HashMap::new(),
            urls_error: HashMap::new(),
        }
    }
}

impl DownloadHelper for TestDownloadHelper {
    fn events(&self) -> d_sh::download::DownloadEventLog {
        panic!("ghost state is never materialised at run time")
    }

    fn download(&mut self, url: &str, output_filename: &str) -> bool {
        if self.urls_error.contains_key(url) {
            return false;
        }
        self.dl.push(TestDownload {
            url: url.to_string(),
            output_filename: output_filename.to_string(),
            update: true,
        });
        self.files.borrow_mut().insert(output_filename.to_string(), url.to_string());
        true
    }

    fn download_if_update(&mut self, url: &str, output_filename: &str) -> bool {
        if !self.update_dl_files.contains_key(output_filename)
            && self.files.borrow().contains_key(output_filename)
        {
            self.dl.push(TestDownload {
                url: url.to_string(),
                output_filename: output_filename.to_string(),
                update: false,
            });
            return true;
        }
        self.download(url, output_filename)
    }
}

fn found_item(list: &[String], value: &str) {
    let found = list.iter().filter(|l| *l == value).count();
    assert_eq!(found, 1, "Cannot find '{}' value in list", value);
}

fn test_result_ok(result: Result<(), d_sh::command::CommandError>) {
    if let Err(err) = result {
        panic!(
            "Command return fail with code {:?} and error message {:?}.",
            err.code, err.msg
        );
    }
}

fn test_result_err(
    result: Result<(), d_sh::command::CommandError>,
    err_code: d_sh::command::CommandExitCode,
) -> Vec<String> {
    match result {
        Ok(_) => panic!("Command should be fail but not!"),
        Err(err) => {
            assert_eq!(err.code, err_code);
            err.msg
        },
    }
}

fn test_config(tmp_dir: Option<&str>) -> Config {
    Config {
        download_dir: String::from("dwn"),
        applications_dir: String::from("app"),
        dockerfile: ConfigDocker { from: String::from("tata"), tag: String::from("tutu") },
        dockerfile_filename: None,
        entrypoint_filename: None,
        tmp_dir: tmp_dir.map(|t| t.to_string()),
    }
}

use d_sh::command::CommandExitCode;
use d_sh::command::CommandParameter;
use d_sh::config::create_config_filename_path;
use d_sh::config::dockerfile::DOCKERFILE_BASE_FILENAME;
use d_sh::config::dockerfile::ENTRYPOINT;
use d_sh::config::dockerfile::ENTRYPOINT_FILENAME;

fn run_build(
    io_helper: &mut TestInputOutputHelper,
    dck_helper: &mut TestContainerHelper,
    dl_helper: &mut TestDownloadHelper,
    args: &[String],
    config: &Config,
) -> Result<(), d_sh::command::CommandError> {
    let build_cmd = d_sh::command::command_build();
    let cmd_param = CommandParameter {
        command: &build_cmd,
        args,
        config: Some(config),
        config_filename: String::new(),
    };
    d_sh::command::build::build(&cmd_param, io_helper, dck_helper, dl_helper)
}

fn add_template(io_helper: &mut TestInputOutputHelper, content: &str) -> String {
    match create_config_filename_path(DOCKERFILE_BASE_FILENAME) {
        Some(cfg_file) => {
            io_helper.add_file(&cfg_file, content);
            cfg_file
        },
        None => panic!("Unable to create dockerfile for test"),
    }
}

fn add_entrypoint(io_helper: &mut TestInputOutputHelper) -> String {
    match create_config_filename_path(ENTRYPOINT_FILENAME) {
        Some(cfg_file) => {
            io_helper.add_file(&cfg_file, ENTRYPOINT);
            cfg_file
        },
        None => panic!("Unable to create entrypoint for test"),
    }
}

fn add_base_descriptors(io_helper: &mut TestInputOutputHelper) {
    io_helper.add_file("app/atom.yml", "---\nimage_name: \"run-atom:latest\"\ncmd_line: \"\"\ndownload_filename: \"\"\nurl: \"\"\ndependencies:\n  - d1\n  - d2");
    io_helper.add_file("app/filezilla.yml", "---\nimage_name: \"run-filezilla:latest\"\ncmd_line: \"\"\ndownload_filename: \"\"\nurl: \"\"\ndependencies:\n  - d3");
}

fn build_base_with_args(args: &[String], dck_helper: &mut TestContainerHelper, config: Config) {
    let mut io_helper = TestInputOutputHelper::new();
    let mut dl_helper = TestDownloadHelper::new(&io_helper);

    add_template(&mut io_helper, "{{dockerfile_from}} {{#if dockerfile_base}}coucou {{dependencies}}{{/if}}");
    add_entrypoint(&mut io_helper);
    add_base_descriptors(&mut io_helper);

    test_result_ok(run_build(&mut io_helper, dck_helper, &mut dl_helper, args, &config));

    let mut not_found_dockerfile = true;
    let mut not_found_entrypoint = true;
    let mut generate_dockerfile = String::new();

    for (filename, content) in &io_helper.files_delete {
        if filename.ends_with("/Dockerfile") {
            not_found_dockerfile = false;
            generate_dockerfile = filename.clone();
            assert_eq!(content, "tata coucou d1 d2 d3");
        } else if filename.ends_with("/entrypoint.sh") {
            not_found_entrypoint = false;
            assert_eq!(content, ENTRYPOINT);
        }
    }

    if not_found_dockerfile {
        panic!("The temporary Dockerfile in '/tmp/xxx/' folder not found!");
    }
    if not_found_entrypoint {
        panic!("The temporary entrypoint.sh in '/tmp/xxx/' folder not found!");
    }

    let base_build = dck_helper.builds.get(0).unwrap();

    assert_eq!(base_build.tag, "tutu");
    assert_eq!(generate_dockerfile, base_build.dockerfile_name);
    assert!(generate_dockerfile.starts_with(&base_build.base_dir));

    assert_eq!(io_helper.stdout.get(0).unwrap(), "Building base image...");
}

fn build_with_args(
    args: &[String],
    io_helper: &mut TestInputOutputHelper,
    dck_helper: &mut TestContainerHelper,
    dl_helper: &mut TestDownloadHelper,
    config: Config,
) -> String {
    add_template(io_helper, "{{dockerfile_from}} {{#if (not dockerfile_base)}}bisous {{application_filename}}{{/if}}");
    dck_helper.images.push(String::from("tutu"));

    test_result_ok(run_build(io_helper, dck_helper, dl_helper, args, &config));

    let mut not_found_dockerfile = true;
    let mut generate_dockerfile = String::new();

    for (filename, content) in &io_helper.files_delete {
        if filename.ends_with("/Dockerfile") {
            not_found_dockerfile = false;
            generate_dockerfile = filename.clone();
            assert_eq!(content, "tutu bisous atom.deb");
        }
    }

    if not_found_dockerfile {
        panic!("The temporary Dockerfile in '/tmp/xxx/' folder not found!");
    }

    generate_dockerfile
}

#[test]
fn build_display_help() {
    let mut io_helper = TestInputOutputHelper::new();
    let mut dck_helper = TestContainerHelper::new();
    let mut dl_helper = TestDownloadHelper::new(&io_helper);

    let args = [String::from("-h")];
    let config = test_config(None);

    test_result_ok(run_build(&mut io_helper, &mut dck_helper, &mut dl_helper, &args, &config));

    assert_eq!(io_helper.stdout.get(0).unwrap(), "\n    Usage:\td-sh build [OPTIONS] PROGRAM1 PROGRAM2 ...\n\n    Build an image for a program\n\n    Options:\n      -a, --all                Build all image of program\n      -b, --base               Build base image\n      -f, --force              Remove existing image before build\n      -m, --missing            Build only missing image\n      -s, --skip-redownload    If binary is present, don't check if new version is available");
}

#[test]
fn build_unknow_option() {
    let mut io_helper = TestInputOutputHelper::new();
    let mut dck_helper = TestContainerHelper::new();
    let mut dl_helper = TestDownloadHelper::new(&io_helper);

    let args = [String::from("--dghhfhdgfhdgf")];
    let config = test_config(None);

    let stderr = test_result_err(
        run_build(&mut io_helper, &mut dck_helper, &mut dl_helper, &args, &config),
        CommandExitCode::UnknowOption,
    );

    assert_eq!(
        stderr.get(0).unwrap(),
        "d-sh build: invalid option '--dghhfhdgfhdgf'\nTry 'd-sh build --help' for more information.\n"
    );
}

#[test]
fn build_base_short_option() {
    let mut dck_helper = TestContainerHelper::new();
    let config = test_config(None);

    build_base_with_args(&[String::from("-b")], &mut dck_helper, config);
}

#[test]
fn build_base_short_option_with_force() {
    let mut dck_helper = TestContainerHelper::new();
    let config = test_config(None);

    build_base_with_args(&[String::from("-b"), String::from("-f")], &mut dck_helper, config);

    let base_build = dck_helper.builds.get(0).unwrap();

    assert_eq!(base_build.build_options.get(0).unwrap(), "--no-cache");
}

#[test]
fn build_base_short_option_with_specified_tmp_dir() {
    let mut dck_helper = TestContainerHelper::new();
    let config = test_config(Some("~/.tmp/"));

    build_base_with_args(&[String::from("-b")], &mut dck_helper, config);
}

#[test]
fn build_base_short_option_dockerfile_template_not_found() {
    let mut io_helper = TestInputOutputHelper::new();
    let mut dck_helper = TestContainerHelper::new();
    let mut dl_helper = TestDownloadHelper::new(&io_helper);

    let args = [String::from("-b")];
    let config = test_config(None);

    let dockerfile_name = match create_config_filename_path(DOCKERFILE_BASE_FILENAME) {
        Some(f) => f,
        None => panic!("Unable to create dockerfile for test"),
    };
    add_entrypoint(&mut io_helper);
    add_base_descriptors(&mut io_helper);

    let stderr = test_result_err(
        run_build(&mut io_helper, &mut dck_helper, &mut dl_helper, &args, &config),
        CommandExitCode::TemplateNotFound,
    );

    assert_eq!(
        stderr.get(0).unwrap(),
        &format!(
            "The file '{}' doesn't exits. Please run 'init' command first.",
            dockerfile_name
        )
    );
}

#[test]
fn build_base_short_option_entrypoint_template_not_found() {
    let mut io_helper = TestInputOutputHelper::new();
    let mut dck_helper = TestContainerHelper::new();
    let mut dl_helper = TestDownloadHelper::new(&io_helper);

    let args = [String::from("-b")];
    let config = test_config(None);

    let entrypoint_name = match create_config_filename_path(ENTRYPOINT_FILENAME) {
        Some(f) => f,
        None => panic!("Unable to create entrypoint for test"),
    };
    add_template(&mut io_helper, "hello man!");
    add_base_descriptors(&mut io_helper);

    let stderr = test_result_err(
        run_build(&mut io_helper, &mut dck_helper, &mut dl_helper, &args, &config),
        CommandExitCode::TemplateNotFound,
    );

    assert_eq!(
        stderr.get(0).unwrap(),
        &format!(
            "The file '{}' doesn't exits. Please run 'init' command first.",
            entrypoint_name
        )
    );
}

#[test]
fn build_base_short_option_application_file_format_bad() {
    let mut io_helper = TestInputOutputHelper::new();
    let mut dck_helper = TestContainerHelper::new();
    let mut dl_helper = TestDownloadHelper::new(&io_helper);

    let args = [String::from("-b")];
    let config = test_config(None);

    add_template(&mut io_helper, "{{dockerfile_from}} {{#if dockerfile_base}}coucou{{/if}}");
    add_entrypoint(&mut io_helper);

    io_helper.add_file("app/atom.yml", "---\nimage_name: \"run-atom:latest\"\ncmd_line: \"\"\ndownload_filename: \"\"\nurl: \"\"\ndependencies:\n  - d1\n  - d2");
    io_helper.add_file("app/filezilla.yml", "---\nimage_name: \"run-filezilla:latest");

    test_result_ok(run_build(&mut io_helper, &mut dck_helper, &mut dl_helper, &args, &config));

    let mut not_found_dockerfile = true;
    let mut not_found_entrypoint = true;
    let mut generate_dockerfile = String::new();

    for (filename, content) in &io_helper.files_delete {
        if filename.ends_with("/Dockerfile") {
            not_found_dockerfile = false;
            generate_dockerfile = filename.clone();
            assert_eq!(content, "tata coucou");
        } else if filename.ends_with("/entrypoint.sh") {
            not_found_entrypoint = false;
            assert_eq!(content, ENTRYPOINT);
        }
    }

    if not_found_dockerfile {
        panic!("The temporary Dockerfile in '/tmp/xxx/' folder not found!");
    }
    if not_found_entrypoint {
        panic!("The temporary entrypoint.sh in '/tmp/xxx/' folder not found!");
    }

    let base_build = dck_helper.builds.get(0).unwrap();

    assert_eq!(base_build.tag, "tutu");
    assert_eq!(generate_dockerfile, base_build.dockerfile_name);
    assert!(generate_dockerfile.starts_with(&base_build.base_dir));

    assert_eq!(io_helper.stdout.get(0).unwrap(), "Building base image...");
    assert_eq!(io_helper.stderr.get(0).unwrap(), "Cannot read list of dependencies of 'app/filezilla.yml' application, please check right or file format!");
}

#[test]
fn build_base_short_option_dockerfile_template_format_bad() {
    let mut io_helper = TestInputOutputHelper::new();
    let mut dck_helper = TestContainerHelper::new();
    let mut dl_helper = TestDownloadHelper::new(&io_helper);

    let args = [String::from("-b")];
    let config = test_config(None);

    add_template(&mut io_helper, "{{#if base}}dffdfd{{/iG}}");
    add_entrypoint(&mut io_helper);
    add_base_descriptors(&mut io_helper);

    let stderr = test_result_err(
        run_build(&mut io_helper, &mut dck_helper, &mut dl_helper, &args, &config),
        CommandExitCode::DockerfileTemplateInvalid,
    );

    assert_eq!(stderr.get(0).unwrap(), "Something is wrong in Dockerfile template!");

    let data: HashMap<String, String> = HashMap::new();
    let expected = handlebars::Handlebars::new()
        .render_template("{{#if base}}dffdfd{{/iG}}", &data)
        .unwrap_err()
        .to_string();
    assert_eq!(stderr.get(1).unwrap(), &expected);
}

#[test]
fn build_base_short_option_docker_build_fail() {
    let mut io_helper = TestInputOutputHelper::new();
    let mut dck_helper = TestContainerHelper::new();
    let mut dl_helper = TestDownloadHelper::new(&io_helper);

    let args = [String::from("-b")];
    let config = test_config(None);

    add_template(&mut io_helper, "{{#if base}}dffdfd{{/if}}");
    add_entrypoint(&mut io_helper);
    add_base_descriptors(&mut io_helper);

    dck_helper.builds_error.insert(config.dockerfile.tag.clone(), true);

    let stderr = test_result_err(
        run_build(&mut io_helper, &mut dck_helper, &mut dl_helper, &args, &config),
        CommandExitCode::DockerBuildFail,
    );

    assert_eq!(stderr.get(0).unwrap(), "Fail to build base image!");
}

#[test]
fn build_application() {
    let mut io_helper = TestInputOutputHelper::new();
    let mut dck_helper = TestContainerHelper::new();

    let config = test_config(None);

    io_helper.add_file("app/atom.yml", "---\nimage_name: \"run-atom:latest\"\ncmd_line: \"\"\ndownload_filename: \"atom.deb\"\nurl: \"toto\"\ndependencies:\n  - d1\n  - d2");

    let mut dl_helper = TestDownloadHelper::new(&io_helper);

    let generate_dockerfile = build_with_args(
        &[String::from("atom")],
        &mut io_helper,
        &mut dck_helper,
        &mut dl_helper,
        config,
    );

    let dl = dl_helper.dl.get(0).unwrap();

    assert_eq!(dl.output_filename, "dwn/atom.deb");
    assert_eq!(dl.url, "toto");

    let atom_build = dck_helper.builds.get(0).unwrap();

    assert_eq!(atom_build.tag, "run-atom:latest");
    assert_eq!(generate_dockerfile, atom_build.dockerfile_name);
    assert!(generate_dockerfile.starts_with(&atom_build.base_dir));

    assert_eq!(io_helper.stdout.get(0).unwrap(), "Building atom...");
}

#[test]
fn build_application_docker_build_fail() {
    let mut io_helper = TestInputOutputHelper::new();
    let mut dck_helper = TestContainerHelper::new();
    let mut dl_helper = TestDownloadHelper::new(&io_helper);

    let args = [String::from("atom")];
    let config = test_config(None);

    add_template(&mut io_helper, "{{#if base}}dffdfd{{/if}}");
    add_entrypoint(&mut io_helper);
    add_base_descriptors(&mut io_helper);

    dck_helper.builds_error.insert(String::from("run-atom:latest"), true);

    let stderr = test_result_err(
        run_build(&mut io_helper, &mut dck_helper, &mut dl_helper, &args, &config),
        CommandExitCode::DockerBuildFail,
    );

    assert_eq!(stderr.get(0).unwrap(), "Build atom failed!");
    assert_eq!(stderr.get(1).unwrap(), "Cannot build application atom!");
}

#[test]
fn build_application_download_fail() {
    let mut io_helper = TestInputOutputHelper::new();
    let mut dck_helper = TestContainerHelper::new();

    let config = test_config(None);

    io_helper.add_file("app/atom.yml", "---\nimage_name: \"run-atom:latest\"\ncmd_line: \"\"\ndownload_filename: \"atom.deb\"\nurl: \"toto\"\ndependencies:\n  - d1\n  - d2");

    let mut dl_helper = TestDownloadHelper::new(&io_helper);
    dl_helper.urls_error.insert(String::from("toto"), true);

    add_template(&mut io_helper, "{{dockerfile_from}} {{#if (not dockerfile_base)}}bisous {{application_filename}}{{/if}}");
    dck_helper.images.push(String::from("tutu"));

    let stderr = test_result_err(
        run_build(&mut io_helper, &mut dck_helper, &mut dl_helper, &[String::from("atom")], &config),
        CommandExitCode::DockerBuildFail,
    );

    assert_eq!(stderr.get(0).unwrap(), "Build atom failed!");
    assert_eq!(stderr.get(1).unwrap(), "Unable to download application 'atom'!");
}

#[test]
fn build_application_download_already_done() {
    let mut io_helper = TestInputOutputHelper::new();
    let mut dck_helper = TestContainerHelper::new();

    let config = test_config(None);

    io_helper.add_file("app/atom.yml", "---\nimage_name: \"run-atom:latest\"\ncmd_line: \"\"\ndownload_filename: \"atom.deb\"\nurl: \"toto\"\ndependencies:\n  - d1\n  - d2");
    io_helper.add_file("dwn/atom.deb", "Go, go, go !");

    let mut dl_helper = TestDownloadHelper::new(&io_helper);

    let generate_dockerfile = build_with_args(
        &[String::from("atom")],
        &mut io_helper,
        &mut dck_helper,
        &mut dl_helper,
        config,
    );

    let dl = dl_helper.dl.get(0).unwrap();

    assert_eq!(dl.output_filename, "dwn/atom.deb");
    assert_eq!(dl.url, "toto");
    assert_eq!(dl.update, false);

    assert_eq!(io_helper.get_file("dwn/atom.deb").unwrap(), "Go, go, go !");

    let atom_build = dck_helper.builds.get(0).unwrap();

    assert_eq!(atom_build.tag, "run-atom:latest");
    assert_eq!(generate_dockerfile, atom_build.dockerfile_name);
    assert!(generate_dockerfile.starts_with(&atom_build.base_dir));

    assert_eq!(io_helper.stdout.get(0).unwrap(), "Building atom...");
}

#[test]
fn build_application_skip_download() {
    let mut io_helper = TestInputOutputHelper::new();
    let mut dck_helper = TestContainerHelper::new();

    let config = test_config(None);

    io_helper.add_file("app/atom.yml", "---\nimage_name: \"run-atom:latest\"\ncmd_line: \"\"\ndownload_filename: \"atom.deb\"\nurl: \"toto\"\ndependencies:\n  - d1\n  - d2");
    io_helper.add_file("dwn/atom.deb", "Go, go, go !");

    let mut dl_helper = TestDownloadHelper::new(&io_helper);
    dl_helper.update_dl_files.insert(String::from("dwn/atom.deb"), true);

    let generate_dockerfile = build_with_args(
        &[String::from("-s"), String::from("atom")],
        &mut io_helper,
        &mut dck_helper,
        &mut dl_helper,
        config,
    );

    assert_eq!(dl_helper.dl.len(), 0);

    assert_eq!(io_helper.get_file("dwn/atom.deb").unwrap(), "Go, go, go !");

    let atom_build = dck_helper.builds.get(0).unwrap();

    assert_eq!(atom_build.tag, "run-atom:latest");
    assert_eq!(generate_dockerfile, atom_build.dockerfile_name);
    assert!(generate_dockerfile.starts_with(&atom_build.base_dir));

    assert_eq!(io_helper.stdout.get(0).unwrap(), "Building atom...");
}

#[test]
fn build_application_with_force() {
    let mut io_helper = TestInputOutputHelper::new();
    let mut dck_helper = TestContainerHelper::new();

    let config = test_config(None);

    io_helper.add_file("app/atom.yml", "---\nimage_name: \"run-atom:latest\"\ncmd_line: \"\"\ndownload_filename: \"atom.deb\"\nurl: \"toto\"\ndependencies:\n  - d1\n  - d2");

    let mut dl_helper = TestDownloadHelper::new(&io_helper);

    let generate_dockerfile = build_with_args(
        &[String::from("-f"), String::from("atom")],
        &mut io_helper,
        &mut dck_helper,
        &mut dl_helper,
        config,
    );

    let dl = dl_helper.dl.get(0).unwrap();

    assert_eq!(dl.output_filename, "dwn/atom.deb");
    assert_eq!(dl.url, "toto");

    let atom_build = dck_helper.builds.get(0).unwrap();

    assert_eq!(atom_build.tag, "run-atom:latest");
    assert_eq!(generate_dockerfile, atom_build.dockerfile_name);
    assert!(generate_dockerfile.starts_with(&atom_build.base_dir));

    assert_eq!(io_helper.stdout.get(0).unwrap(), "Building atom...");
    assert_eq!(atom_build.build_options.get(0).unwrap(), "--no-cache");
}

#[test]
fn build_many_applications() {
    let mut io_helper = TestInputOutputHelper::new();
    let mut dck_helper = TestContainerHelper::new();

    let config = test_config(None);

    io_helper.add_file("app/atom.yml", "---\nimage_name: \"run-atom:latest\"\ncmd_line: \"\"\ndownload_filename: \"atom.deb\"\nurl: \"toto\"\ndependencies:\n  - d1\n  - d2");
    io_helper.add_file("app/filezilla.yml", "---\nimage_name: \"run-filezilla:latest\"\ncmd_line: \"\"\ndownload_filename: \"filezilla.deb\"\nurl: \"titi\"\ndependencies:\n  - d1\n  - d2");

    let mut dl_helper = TestDownloadHelper::new(&io_helper);

    add_template(&mut io_helper, "{{dockerfile_from}} {{#if (not dockerfile_base)}}bisous {{application_filename}}{{/if}}");
    dck_helper.images.push(String::from("tutu"));

    test_result_ok(run_build(
        &mut io_helper,
        &mut dck_helper,
        &mut dl_helper,
        &[String::from("atom"), String::from("filezilla")],
        &config,
    ));

    let dl = dl_helper.dl.get(0).unwrap();
    assert_eq!(dl.output_filename, "dwn/atom.deb");
    assert_eq!(dl.url, "toto");

    let dl = dl_helper.dl.get(1).unwrap();
    assert_eq!(dl.output_filename, "dwn/filezilla.deb");
    assert_eq!(dl.url, "titi");

    let atom_build = dck_helper.builds.get(0).unwrap();
    assert_eq!(atom_build.tag, "run-atom:latest");

    let filezilla_build = dck_helper.builds.get(1).unwrap();
    assert_eq!(filezilla_build.tag, "run-filezilla:latest");

    assert_eq!(io_helper.stdout.get(0).unwrap(), "Building atom...");
    assert_eq!(io_helper.stdout.get(1).unwrap(), "Building filezilla...");
}

#[test]
fn build_all_applications() {
    let mut io_helper = TestInputOutputHelper::new();
    let mut dck_helper = TestContainerHelper::new();

    let config = test_config(None);

    io_helper.add_file("app/atom.yml", "---\nimage_name: \"run-atom:latest\"\ncmd_line: \"\"\ndownload_filename: \"atom.deb\"\nurl: \"toto\"\ndependencies:\n  - d1\n  - d2");
    io_helper.add_file("app/filezilla.yml", "---\nimage_name: \"run-filezilla:latest\"\ncmd_line: \"\"\ndownload_filename: \"filezilla.deb\"\nurl: \"titi\"\ndependencies:\n  - d1\n  - d2");

    let mut dl_helper = TestDownloadHelper::new(&io_helper);

    add_template(&mut io_helper, "{{dockerfile_from}} {{#if (not dockerfile_base)}}bisous {{application_filename}}{{/if}}");
    dck_helper.images.push(String::from("tutu"));

    test_result_ok(run_build(
        &mut io_helper,
        &mut dck_helper,
        &mut dl_helper,
        &[String::from("-a")],
        &config,
    ));

    let dl = dl_helper.dl.get(0).unwrap();
    assert_eq!(dl.output_filename, "dwn/atom.deb");
    assert_eq!(dl.url, "toto");

    let dl = dl_helper.dl.get(1).unwrap();
    assert_eq!(dl.output_filename, "dwn/filezilla.deb");
    assert_eq!(dl.url, "titi");

    let atom_build = dck_helper.builds.get(0).unwrap();
    assert_eq!(atom_build.tag, "run-atom:latest");

    let filezilla_build = dck_helper.builds.get(1).unwrap();
    assert_eq!(filezilla_build.tag, "run-filezilla:latest");

    assert_eq!(io_helper.stdout.get(0).unwrap(), "Building atom...");
    assert_eq!(io_helper.stdout.get(1).unwrap(), "Building filezilla...");
}
