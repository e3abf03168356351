//! Tests exercising the command layer with in-memory helpers.

#![allow(dead_code)]

use std::cell::RefCell;
use std::collections::HashMap;
use std::rc::Rc;

use d_sh::config::Config;
use d_sh::config::ConfigDocker;
use d_sh::docker::ContainerHelper;
use d_sh::download::DownloadHelper;
use d_sh::io::InputOutputHelper;

type SharedFiles = Rc<RefCell<HashMap<String, String>>>;

struct TestInputOutputHelper {
    stdout: Vec<String>,
    stderr: Vec<String>,
    stdin: Vec<String>,
    files: SharedFiles,
    files_error: HashMap<String, bool>,
    files_delete: HashMap<String, String>,
}

impl TestInputOutputHelper {
    fn new() -> TestInputOutputHelper {
        TestInputOutputHelper {
            stdout: Vec::new(),
            stderr: Vec::new(),
            stdin: Vec::new(),
            files: Rc::new(RefCell::new(HashMap::new())),
            files_error: HashMap::new(),
            files_delete: HashMap::new(),
        }
    }

    fn add_file(&mut self, path: &str, content: &str) {
        self.files.borrow_mut().insert(path.to_string(), content.to_string());
    }

    fn get_file(&self, path: &str) -> Option<String> {
        self.files.borrow().get(path).cloned()
    }
}

impl InputOutputHelper for TestInputOutputHelper {
    fn events(&self) -> d_sh::io::IoEventLog {
        panic!("ghost state is never materialised at run time")
    }

    fn println(&mut self, expr: &str) {
        self.stdout.push(expr.to_string());
    }

    fn print(&mut self, expr: &str) {
        self.stdout.push(expr.to_string());
    }

    fn eprintln(&mut self, expr: &str) {
        self.stderr.push(expr.to_string());
    }

    fn read_line(&mut self) -> String {
        self.stdin.remove(0)
    }

    fn file_write(&mut self, path: &str, contents: &str) -> Result<(), String> {
        if self.files_error.contains_key(path) {
            Err(String::from("Cannot write"))
        } else {
            self.files.borrow_mut().insert(path.to_string(), contents.to_string());
            Ok(())
        }
    }

    fn file_exits(&mut self, filename: &str) -> bool {
        self.files.borrow().contains_key(filename)
    }

    fn file_read_at_string(&mut self, filename: &str) -> Result<String, String> {
        match self.files.borrow().get(filename) {
            Some(data) => Ok(data.clone()),
            None => Err(String::from("Not found")),
        }
    }

    fn dir_list_file(&mut self, dir: &str, pattern: &str) -> Result<Vec<String>, String> {
        if self.files_error.contains_key(dir) {
            Err(String::from("Cannot read"))
        } else {
            let suffix = pattern.trim_start_matches('*');
            let result = self
                .files
                .borrow()
                .keys()
                .filter(|k| k.starts_with(dir) && k.ends_with(suffix))
                .cloned()
                .collect();
            Ok(result)
        }
    }

    fn create_dir_all(&mut self, dir: &str) -> Result<(), String> {
        if self.files_error.contains_key(dir) {
            Err(String::from("Cannot write"))
        } else {
            Ok(())
        }
    }

    fn remove_dir_all(&mut self, dir: &str) -> Result<(), String> {
        if self.files_error.contains_key(dir) {
            Err(String::from("Cannot delete"))
        } else {
            let files_to_delete: Vec<String> = self
                .files
                .borrow()
                .keys()
                .filter(|k| k.starts_with(dir))
                .cloned()
                .collect();
            for filename in &files_to_delete {
                let content = self.files.borrow().get(filename).unwrap().clone();
                self.files_delete.insert(filename.clone(), content);
                self.files.borrow_mut().remove(filename);
            }
            Ok(())
        }
    }

    fn hardlink_or_copy_file(&mut self, from: &str, to: &str) -> Result<(), String> {
        let content = match self.files.borrow().get(from) {
            Some(c) => c.clone(),
            None => {
                return Err(String::from("Not found"));
            },
        };
        self.file_write(to, &content)
    }
}

struct TestBuildImage {
    build_options: Vec<String>,
    tag: String,
    dockerfile_name: String,
    base_dir: String,
}

#[derive(Clone)]
struct TestRunContainer {
    image_name: String,
    run_options: Vec<String>,
    cmd: String,
    cmd_options: Vec<String>,
}

struct TestContainerHelper {
    images: Vec<String>,
    containers: Vec<TestRunContainer>,
    builds: Vec<TestBuildImage>,
    builds_error: HashMap<String, bool>,
}

impl TestContainerHelper {
    fn new() -> TestContainerHelper {
        TestContainerHelper {
            images: Vec::new(),
            containers: Vec::new(),
            builds: Vec::new(),
            builds_error: HashMap::new(),
        }
    }
}

impl ContainerHelper for TestContainerHelper {
    fn events(&self) -> d_sh::docker::ContainerEventLog {
        panic!("ghost state is never materialised at run time")
    }

    fn list_image(&mut self, image_name: &str) -> Vec<String> {
        self.images.iter().filter(|i| *i == image_name).cloned().collect()
    }

    fn remove_image(&mut self, image_name: &str) -> bool {
        let nb_image = self.images.iter().filter(|i| *i == image_name).count();
        if nb_image > 0 {
            self.images.retain(|i| i != image_name);
            true
        } else {
            false
        }
    }

    fn run_container(
        &mut self,
        image_name: &str,
        run_options: Option<&Vec<String>>,
        cmd: Option<&str>,
        cmd_options: Option<&Vec<String>>,
    ) -> bool {
        let nb_image = self.images.iter().filter(|i| *i == image_name).count();
        if nb_image > 0 {
            self.containers.push(TestRunContainer {
                image_name: image_name.to_string(),
                run_options: run_options.cloned().unwrap_or_default(),
                cmd: cmd.map(|c| c.to_string()).unwrap_or_default(),
                cmd_options: cmd_options.cloned().unwrap_or_default(),
            });
            true
        } else {
            false
        }
    }

    fn build_image(
        &mut self,
        docker_filename: &str,
        docker_context_path: &str,
        docker_tag: &str,
        build_options: Option<&Vec<String>>,
    ) -> bool {
        if self.builds_error.contains_key(docker_tag) {
            return false;
        }
        self.images.push(docker_tag.to_string());
        self.builds.push(TestBuildImage {
            build_options: build_options.cloned().unwrap_or_default(),
            tag: docker_tag.to_string(),
            dockerfile_name: docker_filename.to_string(),
            base_dir: docker_context_path.to_string(),
        });
        true
    }
}

struct TestDownload {
    url: String,
    output_filename: String,
    update: bool,
}

struct TestDownloadHelper {
    files: SharedFiles,
    dl: Vec<TestDownload>,
    update_dl_files: HashMap<String, bool>,
    urls_error: HashMap<String, bool>,
}

impl TestDownloadHelper {
    fn new(io_helper: &TestInputOutputHelper) -> TestDownloadHelper {
        TestDownloadHelper {
            files: Rc::clone(&io_helper.files),
            dl: Vec::new(),
            update_dl_files: HashMap::new(),
            urls_error: HashMap::new(),
        }
    }
}

impl DownloadHelper for TestDownloadHelper {
    fn events(&self) -> d_sh::download::DownloadEventLog {
        panic!("ghost state is never materialised at run time")
    }

    fn download(&mut self, url: &str, output_filename: &str) -> bool {
        if self.urls_error.contains_key(url) {
            return false;
        }
        self.dl.push(TestDownload {
            url: url.to_string(),
            output_filename: output_filename.to_string(),
            update: true,
        });
        self.files.borrow_mut().insert(output_filename.to_string(), url.to_string());
        true
    }

    fn download_if_update(&mut self, url: &str, output_filename: &str) -> bool {
        if !self.update_dl_files.contains_key(output_filename)
            && self.files.borrow().contains_key(output_filename)
        {
            self.dl.push(TestDownload {
                url: url.to_string(),
                output_filename: output_filename.to_string(),
                update: false,
            });
            return true;
        }
        self.download(url, output_filename)
    }
}

fn found_item(list: &[String], value: &str) {
    let found = list.iter().filter(|l| *l == value).count();
    assert_eq!(found, 1, "Cannot find '{}' value in list", value);
}

fn test_result_ok(result: Result<(), d_sh::command::CommandError>) {
    if let Err(err) = result {
        panic!(
            "Command return fail with code {:?} and error message {:?}.",
            err.code, err.msg
        );
    }
}

fn test_result_err(
    result: Result<(), d_sh::command::CommandError>,
    err_code: d_sh::command::CommandExitCode,
) -> Vec<String> {
    match result {
        Ok(_) => panic!("Command should be fail but not!"),
        Err(err) => {
            assert_eq!(err.code, err_code);
            err.msg
        },
    }
}

fn test_config(tmp_dir: Option<&str>) -> Config {
    Config {
        download_dir: String::from("dwn"),
        applications_dir: String::from("app"),
        dockerfile: ConfigDocker { from: String::from("tata"), tag: String::from("tutu") },
        dockerfile_filename: None,
        entrypoint_filename: None,
        tmp_dir: tmp_dir.map(|t| t.to_string()),
    }
}

use d_sh::command::CommandExitCode;
use d_sh::command::CommandParameter;

#[test]
fn check_if_image_found_and_not_found() {
    let mut io_helper = TestInputOutputHelper::new();
    let mut dck_helper = TestContainerHelper::new();
    let mut dl_helper = TestDownloadHelper::new(&io_helper);

    let args: [String; 0] = [];

    dck_helper.images.push(String::from("run-atom:latest"));
    dck_helper.images.push(String::from("run-gitkraken:latest"));
    dck_helper.images.push(String::from("run-filezilla:latest"));

    let config = test_config(None);

    io_helper.add_file("app/atom.yml", "---\nimage_name: \"run-atom:latest\"\ncmd_line: \"\"\ndownload_filename: \"\"\nurl: \"\"");
    io_helper.add_file("app/filezilla.yml", "---\nimage_name: \"run-filezilla:latest\"\ncmd_line: \"\"\ndownload_filename: \"\"\nurl: \"\"");
    io_helper.add_file("app/titi.yml", "---\nimage_name: \"run-titi:latest\"\ncmd_line: \"\"\ndownload_filename: \"\"\nurl: \"\"");

    let check_cmd = d_sh::command::command_check();
    let cmd_param = CommandParameter {
        command: &check_cmd,
        args: &args,
        config: Some(&config),
        config_filename: String::new(),
    };

    test_result_ok(d_sh::command::check::check(
        &cmd_param,
        &mut io_helper,
        &mut dck_helper,
        &mut dl_helper,
    ));

    found_item(
        &io_helper.stdout,
        "atom                              run-atom:latest                   Build done   ",
    );
    found_item(
        &io_helper.stdout,
        "filezilla                         run-filezilla:latest              Build done   ",
    );
    found_item(
        &io_helper.stdout,
        "titi                              run-titi:latest                   Build need   ",
    );
}

#[test]
fn check_if_application_format_has_an_error() {
    let mut io_helper = TestInputOutputHelper::new();
    let mut dck_helper = TestContainerHelper::new();
    let mut dl_helper = TestDownloadHelper::new(&io_helper);

    let args: [String; 0] = [];

    dck_helper.images.push(String::from("run-atom:latest"));

    let config = test_config(None);

    io_helper.add_file("app/atom.yml", "---\nimage_name2: \"run-atom:latest\"\ncmd_line: \"\"\ndownload_filename: \"\"\nurl: \"\"");

    let check_cmd = d_sh::command::command_check();
    let cmd_param = CommandParameter {
        command: &check_cmd,
        args: &args,
        config: Some(&config),
        config_filename: String::new(),
    };

    let stderr = test_result_err(
        d_sh::command::check::check(&cmd_param, &mut io_helper, &mut dck_helper, &mut dl_helper),
        CommandExitCode::BadApplicationFormat,
    );

    assert_eq!("The file  have bad format!", stderr.get(0).unwrap());
}

#[test]
fn check_if_cannot_read_application_dir() {
    let mut io_helper = TestInputOutputHelper::new();
    let mut dck_helper = TestContainerHelper::new();
    let mut dl_helper = TestDownloadHelper::new(&io_helper);

    let args: [String; 0] = [];

    let config = test_config(None);

    io_helper.files_error.insert(String::from("app"), true);

    let check_cmd = d_sh::command::command_check();
    let cmd_param = CommandParameter {
        command: &check_cmd,
        args: &args,
        config: Some(&config),
        config_filename: String::new(),
    };

    let stderr = test_result_err(
        d_sh::command::check::check(&cmd_param, &mut io_helper, &mut dck_helper, &mut dl_helper),
        CommandExitCode::CannotReadApplicationsFolder,
    );

    assert_eq!("Cannot read", stderr.get(0).unwrap());
}

#[test]
fn delete_display_help() {
    let mut io_helper = TestInputOutputHelper::new();
    let mut dck_helper = TestContainerHelper::new();
    let mut dl_helper = TestDownloadHelper::new(&io_helper);

    let args = [String::from("-h")];
    let config = test_config(None);

    let delete_cmd = d_sh::command::command_delete();
    let cmd_param = CommandParameter {
        command: &delete_cmd,
        args: &args,
        config: Some(&config),
        config_filename: String::new(),
    };

    test_result_ok(d_sh::command::delete::delete(
        &cmd_param,
        &mut io_helper,
        &mut dck_helper,
        &mut dl_helper,
    ));

    assert_eq!(io_helper.stdout.get(0).unwrap(), "\n    Usage:\td-sh delete APPLICATION\n\n    Delete an image for a application\n\n    Options:\n      -a, --all                Build all image of application\n");
}

#[test]
fn delete_one_application_ok() {
    let mut io_helper = TestInputOutputHelper::new();
    let mut dck_helper = TestContainerHelper::new();
    let mut dl_helper = TestDownloadHelper::new(&io_helper);

    let args = [String::from("titi")];
    let config = test_config(None);

    io_helper.add_file("app/atom.yml", "---\nimage_name: \"run-atom:latest\"\ncmd_line: \"\"\ndownload_filename: \"\"\nurl: \"\"");
    io_helper.add_file("app/filezilla.yml", "---\nimage_name: \"run-filezilla:latest\"\ncmd_line: \"\"\ndownload_filename: \"\"\nurl: \"\"");
    io_helper.add_file("app/titi.yml", "---\nimage_name: \"run-titi:latest\"\ncmd_line: \"\"\ndownload_filename: \"\"\nurl: \"\"");

    dck_helper.images.push(String::from("run-atom:latest"));
    dck_helper.images.push(String::from("run-titi:latest"));
    dck_helper.images.push(String::from("run-filezilla:latest"));

    let delete_cmd = d_sh::command::command_delete();
    let cmd_param = CommandParameter {
        command: &delete_cmd,
        args: &args,
        config: Some(&config),
        config_filename: String::new(),
    };

    test_result_ok(d_sh::command::delete::delete(
        &cmd_param,
        &mut io_helper,
        &mut dck_helper,
        &mut dl_helper,
    ));

    let list_image: Vec<String> = dck_helper
        .images
        .iter()
        .filter(|i| *i == "run-titi:latest")
        .cloned()
        .collect();

    assert_eq!(list_image.len(), 0);
}

#[test]
fn delete_one_application_ko() {
    let mut io_helper = TestInputOutputHelper::new();
    let mut dck_helper = TestContainerHelper::new();
    let mut dl_helper = TestDownloadHelper::new(&io_helper);

    let args = [String::from("titi")];
    let config = test_config(None);

    io_helper.add_file("app/atom.yml", "---\nimage_name: \"run-atom:latest\"\ncmd_line: \"\"\ndownload_filename: \"\"\nurl: \"\"");
    io_helper.add_file("app/filezilla.yml", "---\nimage_name: \"run-filezilla:latest\"\ncmd_line: \"\"\ndownload_filename: \"\"\nurl: \"\"");

    dck_helper.images.push(String::from("run-atom:latest"));
    dck_helper.images.push(String::from("run-titi:latest"));
    dck_helper.images.push(String::from("run-filezilla:latest"));

    let delete_cmd = d_sh::command::command_delete();
    let cmd_param = CommandParameter {
        command: &delete_cmd,
        args: &args,
        config: Some(&config),
        config_filename: String::new(),
    };

    let stderr = test_result_err(
        d_sh::command::delete::delete(&cmd_param, &mut io_helper, &mut dck_helper, &mut dl_helper),
        CommandExitCode::ApplicationFileNotFound,
    );

    assert_eq!("Not found", stderr.get(0).unwrap());
}

#[test]
fn delete_one_application_all() {
    let mut io_helper = TestInputOutputHelper::new();
    let mut dck_helper = TestContainerHelper::new();
    let mut dl_helper = TestDownloadHelper::new(&io_helper);

    let args = [String::from("-a")];
    let config = test_config(None);

    io_helper.add_file("app/atom.yml", "---\nimage_name: \"run-atom:latest\"\ncmd_line: \"\"\ndownload_filename: \"\"\nurl: \"\"");
    io_helper.add_file("app/filezilla.yml", "---\nimage_name: \"run-filezilla:latest\"\ncmd_line: \"\"\ndownload_filename: \"\"\nurl: \"\"");
    io_helper.add_file("app/titi.yml", "---\nimage_name: \"run-titi:latest\"\ncmd_line: \"\"\ndownload_filename: \"\"\nurl: \"\"");

    dck_helper.images.push(String::from("run-atom:latest"));
    dck_helper.images.push(String::from("run-titi:latest"));
    dck_helper.images.push(String::from("run-filezilla:latest"));

    let delete_cmd = d_sh::command::command_delete();
    let cmd_param = CommandParameter {
        command: &delete_cmd,
        args: &args,
        config: Some(&config),
        config_filename: String::new(),
    };

    test_result_ok(d_sh::command::delete::delete(
        &cmd_param,
        &mut io_helper,
        &mut dck_helper,
        &mut dl_helper,
    ));

    assert_eq!(dck_helper.images.len(), 0);
}

#[test]
fn list_all_applications() {
    let mut io_helper = TestInputOutputHelper::new();
    let mut dck_helper = TestContainerHelper::new();
    let mut dl_helper = TestDownloadHelper::new(&io_helper);

    let args: [String; 0] = [];
    let config = test_config(None);

    io_helper.add_file("app/atom.yml", "---\nimage_name: \"run-atom:latest\"\ncmd_line: \"\"\ndownload_filename: \"\"\nurl: \"\"");
    io_helper.add_file("app/filezilla.yml", "---\nimage_name: \"run-filezilla:latest\"\ncmd_line: \"\"\ndownload_filename: \"\"\nurl: \"\"");
    io_helper.add_file("app/titi.yml", "---\nimage_name: \"run-titi:latest\"\ncmd_line: \"\"\ndownload_filename: \"\"\nurl: \"\"");

    let list_cmd = d_sh::command::command_list();
    let cmd_param = CommandParameter {
        command: &list_cmd,
        args: &args,
        config: Some(&config),
        config_filename: String::new(),
    };

    test_result_ok(d_sh::command::list::list(
        &cmd_param,
        &mut io_helper,
        &mut dck_helper,
        &mut dl_helper,
    ));

    found_item(&io_helper.stdout, "atom");
    found_item(&io_helper.stdout, "filezilla");
    found_item(&io_helper.stdout, "titi");
}
