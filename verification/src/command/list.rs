//! The `list` command: every application the catalog knows.

use vstd::prelude::*;
use crate::command::CommandError;
use crate::command::CommandExitCode;
use crate::command::CommandParameter;
use crate::config::Config;
use crate::docker::ContainerHelper;
use crate::download::DownloadHelper;
use crate::io::InputOutputHelper;
use crate::io::IoOp;
use crate::strutil::file_stem;
use crate::strutil::scat3;
use crate::strutil::sort_strings;
use crate::strutil::spec_file_stem;
use crate::strutil::spec_sorted_lex;

verus! {

/// The names of every application in the applications directory: the stems
/// of its descriptor files, sorted.
///
/// One listing call is made; when it succeeds, the result is exactly the
/// stems of a sorted permutation of what it returned.
pub fn get_all<I: InputOutputHelper>(io_helper: &mut I, config: &Config) -> (r: Result<
    Vec<String>,
    CommandError,
>)
    ensures
        r matches Err(e) ==> e.msg.len() >= 1,
        final(io_helper).events().len() == old(io_helper).events().len() + 1,
        final(io_helper).events().drop_last() == old(io_helper).events(),
        final(io_helper).events().last() matches IoOp::ListDir(d, p, files) && d
            == config.applications_dir@ && p == "*.yml"@ && (match files {
            Some(fs) => r matches Ok(apps) && exists|sorted_fs: Seq<Seq<char>>|
                {
                    &&& #[trigger] sorted_fs.to_multiset() == fs.to_multiset()
                    &&& sorted_fs.len() == fs.len()
                    &&& spec_sorted_lex(sorted_fs)
                    &&& apps.len() == fs.len()
                    &&& forall|i: int|
                        0 <= i < apps.len() ==> apps.deep_view()[i] == spec_file_stem(
                            #[trigger] sorted_fs[i],
                        )
                },
            None => r is Err && (r matches Err(e) ==> e.code
                == CommandExitCode::CannotReadApplicationsFolder),
        }),
{
    let list_applications_file = match io_helper.dir_list_file(
        config.applications_dir.as_str(),
        "*.yml",
    ) {
        Ok(r) => r,
        Err(err) => {
            let mut msg: Vec<String> = Vec::new();
            msg.push(err);
            return Err(
                CommandError { msg, code: CommandExitCode::CannotReadApplicationsFolder },
            );
        },
    };
    let sorted = sort_strings(&list_applications_file);
    let ghost sorted_view: Seq<Seq<char>> = sorted.deep_view();
    let mut app_list: Vec<String> = Vec::new();
    let mut i: usize = 0;
    while i < sorted.len()
        invariant
            i <= sorted.len(),
            sorted_view == sorted.deep_view(),
            sorted_view.len() == sorted.len(),
            app_list.len() == i,
            forall|k: int|
                0 <= k < i ==> app_list.deep_view()[k] == spec_file_stem(
                    #[trigger] sorted_view[k],
                ),
        decreases sorted.len() - i,
    {
        let stem = file_stem(sorted[i].as_str());
        app_list.push(stem);
        proof {
            assert(sorted_view[i as int] == sorted[i as int]@);
            assert(app_list.deep_view()[i as int] == spec_file_stem(sorted_view[i as int]));
        }
        i += 1;
    }
    Ok(app_list)
}

/// The `list` handler: prints every application name, one per line.
pub fn list<I: InputOutputHelper, C: ContainerHelper, D: DownloadHelper>(
    cmd_param: &CommandParameter,
    io_helper: &mut I,
    _dck_helper: &mut C,
    _dl_helper: &mut D,
) -> (r: Result<(), CommandError>)
    requires
        cmd_param.config is Some,
    ensures
        r matches Err(e) ==> (e.code == CommandExitCode::CannotReadApplicationsFolder
            && e.msg.len() >= 1),
{
    let config = match cmd_param.config {
        Some(c) => c,
        None => {
            return Err(
                CommandError {
                    msg: Vec::new(),
                    code: CommandExitCode::CannotReadApplicationsFolder,
                },
            );
        },
    };
    match get_all(io_helper, config) {
        Ok(list_applications_file) => {
            let mut i: usize = 0;
            while i < list_applications_file.len()
                decreases list_applications_file.len() - i,
            {
                io_helper.println(list_applications_file[i].as_str());
                i += 1;
            }
            Ok(())
        },
        Err(_) => {
            let mut msg: Vec<String> = Vec::new();
            msg.push(
                scat3("Cannot read application folder ", config.applications_dir.as_str(), "!"),
            );
            Err(CommandError { msg, code: CommandExitCode::CannotReadApplicationsFolder })
        },
    }
}

} // verus!
