//! The `check` command: which applications have a built image.

use vstd::prelude::*;
use crate::command::CommandError;
use crate::command::CommandExitCode;
use crate::command::CommandParameter;
use crate::config::Config;
use crate::config::get_config_application;
use crate::config::spec_descriptor_ok;
use crate::docker::ContainerOp;
use crate::io::read_contents;
use crate::io::lemma_read_contents_push_read;
use crate::io::lemma_read_contents_push_other;
use crate::strutil::lemma_seq_extends_contains;
use crate::yaml::yaml_field_str;
use crate::docker::ContainerHelper;
use crate::download::DownloadHelper;
use crate::io::InputOutputHelper;
use crate::io::IoOp;
use crate::strutil::file_stem;
use crate::strutil::pad_right;
use crate::strutil::scat3;
use crate::strutil::sort_strings;
use crate::strutil::spec_file_stem;
use crate::strutil::spec_sorted_lex;
use crate::strutil::lemma_seq_extends_push;
use crate::strutil::lemma_seq_extends_push_self;
use crate::strutil::lemma_seq_extends_refl;
use crate::strutil::lemma_seq_extends_trans;
use crate::strutil::seq_extends;

verus! {

/// One application's status: its name, image, and whether the image exists.
pub struct CheckApplication {
    /// Name of the application.
    pub name: String,
    /// Tag of its image.
    pub image_name: String,
    /// Whether the image is already built.
    pub is_build: bool,
    /// Whether the descriptor could not be read.
    pub is_error: bool,
    /// Path of the descriptor file.
    pub config_filename: String,
}

/// What one status entry says of the file it came from: the name is the
/// file's stem; the entry is an error exactly when the file could not be
/// read or is not a well-shaped descriptor; otherwise it carries the
/// descriptor's image tag, the file's path, and whether some engine query
/// for that tag answered with at least one image.
pub open spec fn spec_check_entry(
    app: CheckApplication,
    file: Seq<char>,
    content: Option<Seq<char>>,
    dck_evs: Seq<ContainerOp>,
) -> bool {
    &&& app.name@ == spec_file_stem(file)
    &&& (app.is_error ==> app.config_filename@ == Seq::<char>::empty())
    &&& (match content {
        Some(text) => {
            &&& app.is_error == !spec_descriptor_ok(text)
            &&& (!app.is_error ==> {
                &&& yaml_field_str(text, "image_name"@) == Some(app.image_name@)
                &&& app.config_filename@ == file
                &&& exists|ids: Seq<Seq<char>>|
                    #[trigger] dck_evs.contains(ContainerOp::QueryImages(app.image_name@, ids))
                        && app.is_build == (ids.len() > 0)
            })
        },
        None => app.is_error,
    })
}

/// The scan's outcome: the entries describe, in sorted filename order, the
/// listed files and the contents that were read for them.
pub open spec fn spec_check_outcome(
    apps: Seq<CheckApplication>,
    fs: Seq<Seq<char>>,
    o_evs: Seq<crate::io::IoOp>,
    e_evs: Seq<crate::io::IoOp>,
    dck_evs: Seq<ContainerOp>,
) -> bool {
    exists|sorted_fs: Seq<Seq<char>>, contents: Seq<Option<Seq<char>>>|
        {
            &&& #[trigger] sorted_fs.to_multiset() == fs.to_multiset()
            &&& sorted_fs.len() == fs.len()
            &&& #[trigger] contents.len() == fs.len()
            &&& spec_sorted_lex(sorted_fs)
            &&& read_contents(e_evs) == read_contents(o_evs) + contents
            &&& apps.len() == fs.len()
            &&& forall|i: int|
                0 <= i < apps.len() ==> spec_check_entry(
                    #[trigger] apps[i],
                    sorted_fs[i],
                    contents[i],
                    dck_evs,
                )
        }
}

/// The status of every application in the applications directory, in sorted
/// filename order. A descriptor that cannot be read yields an error entry;
/// it never aborts the scan.
pub fn get_check_application<I: InputOutputHelper, C: ContainerHelper>(
    io_helper: &mut I,
    dck_helper: &mut C,
    config: &Config,
) -> (r: Result<Vec<CheckApplication>, CommandError>)
    ensures
        seq_extends(old(io_helper).events(), final(io_helper).events()),
        seq_extends(old(dck_helper).events(), final(dck_helper).events()),
        old(io_helper).events().len() < final(io_helper).events().len(),
        final(io_helper).events()[old(io_helper).events().len() as int] matches IoOp::ListDir(
            d,
            p,
            files,
        ) && d == config.applications_dir@ && p == "*.yml"@ && (match files {
            Some(fs) => r matches Ok(apps) && spec_check_outcome(
                apps@,
                fs,
                old(io_helper).events(),
                final(io_helper).events(),
                final(dck_helper).events(),
            ),
            None => r matches Err(e) && e.code == CommandExitCode::CannotReadApplicationsFolder
                && e.msg.len() >= 1,
        }),
        r matches Err(e) ==> e.msg.len() >= 1,
{
    let ghost io0 = old(io_helper).events();
    let ghost dck0 = old(dck_helper).events();
    proof {
        lemma_seq_extends_refl(io0);
        lemma_seq_extends_refl(dck0);
    }
    let list_applications_file = match io_helper.dir_list_file(
        config.applications_dir.as_str(),
        "*.yml",
    ) {
        Ok(r) => r,
        Err(err) => {
            proof {
                lemma_seq_extends_push_self(io0, io_helper.events().last());
                assert(io0.push(io_helper.events().last()) =~= io_helper.events());
            }
            let mut msg: Vec<String> = Vec::new();
            msg.push(err);
            return Err(
                CommandError { msg, code: CommandExitCode::CannotReadApplicationsFolder },
            );
        },
    };
    proof {
        lemma_seq_extends_push_self(io0, io_helper.events().last());
        assert(io0.push(io_helper.events().last()) =~= io_helper.events());
    }
    let ghost after_list = io_helper.events();
    proof {
        lemma_seq_extends_refl(after_list);
        assert(io_helper.events()[io0.len() as int] == io_helper.events().last());
        assert(read_contents(after_list) == read_contents(io0)) by {
            lemma_read_contents_push_other(io0, after_list.last());
            assert(io0.push(after_list.last()) =~= after_list);
        }
    }
    let sorted = sort_strings(&list_applications_file);
    let ghost sorted_view: Seq<Seq<char>> = sorted.deep_view();
    let mut result: Vec<CheckApplication> = Vec::new();
    let mut i: usize = 0;
    let ghost mut contents: Seq<Option<Seq<char>>> = Seq::empty();
    proof {
        assert(read_contents(io_helper.events()) =~= read_contents(after_list) + contents);
    }
    while i < sorted.len()
        invariant
            i <= sorted.len(),
            sorted_view == sorted.deep_view(),
            sorted_view.len() == sorted.len(),
            result.len() == i,
            contents.len() == i,
            seq_extends(after_list, io_helper.events()),
            after_list == io0.push(io_helper.events()[io0.len() as int]),
            io0.len() < io_helper.events().len(),
            seq_extends(dck0, dck_helper.events()),
            read_contents(io_helper.events()) == read_contents(after_list) + contents,
            forall|k: int|
                0 <= k < i ==> spec_check_entry(
                    #[trigger] result[k],
                    sorted_view[k],
                    contents[k],
                    dck_helper.events(),
                ),
        decreases sorted.len() - i,
    {
        let filename = &sorted[i];
        let application_name = file_stem(filename.as_str());
        proof {
            assert(sorted_view[i as int] == sorted[i as int]@);
        }
        let ghost io_b = io_helper.events();
        let ghost dck_b = dck_helper.events();
        let app = match get_config_application(io_helper, filename.as_str()) {
            Ok(config_application) => {
                proof {
                    let last = io_helper.events().last();
                    assert(io_b.push(last) =~= io_helper.events());
                    lemma_seq_extends_push(after_list, io_b, last);
                    match last {
                        IoOp::ReadFile(p, c) => {
                            lemma_read_contents_push_read(io_b, p, c);
                            contents = contents.push(c);
                        },
                        _ => {},
                    }
                    assert(read_contents(io_helper.events()) =~= read_contents(after_list)
                        + contents);
                }
                let images = dck_helper.list_image(config_application.image_name.as_str());
                proof {
                    assert(dck_b.push(dck_helper.events().last()) =~= dck_helper.events());
                    lemma_seq_extends_push(dck0, dck_b, dck_helper.events().last());
                    lemma_seq_extends_push_self(dck_b, dck_helper.events().last());
                }
                let app = CheckApplication {
                    name: application_name,
                    image_name: config_application.image_name,
                    is_build: images.len() > 0,
                    is_error: false,
                    config_filename: filename.clone(),
                };
                proof {
                    let dnow = dck_helper.events();
                    assert(dnow.contains(
                        ContainerOp::QueryImages(app.image_name@, images.deep_view()),
                    )) by {
                        assert(dnow.last() == ContainerOp::QueryImages(
                            app.image_name@,
                            images.deep_view(),
                        ));
                    }
                    assert(images.deep_view().len() == images.len());
                    assert(spec_check_entry(
                        app,
                        sorted_view[i as int],
                        contents.last(),
                        dnow,
                    ));
                }
                app
            },
            Err(_) => {
                proof {
                    let last = io_helper.events().last();
                    assert(io_b.push(last) =~= io_helper.events());
                    lemma_seq_extends_push(after_list, io_b, last);
                    match last {
                        IoOp::ReadFile(p, c) => {
                            lemma_read_contents_push_read(io_b, p, c);
                            contents = contents.push(c);
                        },
                        _ => {},
                    }
                    assert(read_contents(io_helper.events()) =~= read_contents(after_list)
                        + contents);
                }
                let app = CheckApplication {
                    name: application_name,
                    image_name: String::new(),
                    is_build: false,
                    is_error: true,
                    config_filename: String::new(),
                };
                proof {
                    lemma_seq_extends_refl(dck_b);
                    assert(spec_check_entry(
                        app,
                        sorted_view[i as int],
                        contents.last(),
                        dck_helper.events(),
                    ));
                }
                app
            },
        };
        result.push(app);
        proof {
            assert(contents.last() == contents[i as int]);
            assert(result[i as int] == app);
            assert forall|k: int| 0 <= k < i + 1 implies spec_check_entry(
                #[trigger] result[k],
                sorted_view[k],
                contents[k],
                dck_helper.events(),
            ) by {
                if k < i as int {
                    assert(spec_check_entry(result[k], sorted_view[k], contents[k], dck_b));
                    if !result[k].is_error && contents[k] is Some {
                        let ids = choose|ids: Seq<Seq<char>>|
                            #[trigger] dck_b.contains(
                                ContainerOp::QueryImages(result[k].image_name@, ids),
                            ) && result[k].is_build == (ids.len() > 0);
                        lemma_seq_extends_contains(
                            dck_b,
                            dck_helper.events(),
                            ContainerOp::QueryImages(result[k].image_name@, ids),
                        );
                    }
                }
            }
        }
        i += 1;
    }
    proof {
        lemma_seq_extends_trans(io0, after_list, io_helper.events());
        let e = io_helper.events();
        assert(read_contents(e) == read_contents(io0) + contents);
        assert(sorted_view.to_multiset() == list_applications_file.deep_view().to_multiset());
        assert(sorted_view.len() == list_applications_file.deep_view().len());
        assert(contents.len() == list_applications_file.deep_view().len());
        assert(result@.len() == list_applications_file.deep_view().len());
    }
    Ok(result)
}

/// The `check` handler: prints one status line per readable application and
/// fails when some descriptor has a bad format.
pub fn check<I: InputOutputHelper, C: ContainerHelper, D: DownloadHelper>(
    cmd_param: &CommandParameter,
    io_helper: &mut I,
    dck_helper: &mut C,
    _dl_helper: &mut D,
) -> (r: Result<(), CommandError>)
    requires
        cmd_param.config is Some,
    ensures
        r matches Err(e) ==> e.msg.len() >= 1,
        r matches Err(e) ==> e.code == CommandExitCode::BadApplicationFormat || e.code
            == CommandExitCode::CannotReadApplicationsFolder,
        r matches Err(e) ==> (e.code == CommandExitCode::BadApplicationFormat ==> (e.msg.len()
            >= 1 && forall|j: int|
            0 <= j < e.msg.len() ==> (#[trigger] e.msg[j])@ == "The file "@
                + " have bad format!"@)),
{
    let config = match cmd_param.config {
        Some(c) => c,
        None => {
            return Err(
                CommandError {
                    msg: Vec::new(),
                    code: CommandExitCode::CannotReadApplicationsFolder,
                },
            );
        },
    };
    let ghost io_pre = io_helper.events();
    let list_applications = match get_check_application(io_helper, dck_helper, config) {
        Ok(r) => r,
        Err(err) => {
            return Err(err);
        },
    };
    proof {
        let lde = io_helper.events()[io_pre.len() as int];
        match lde {
            IoOp::ListDir(d, p, files) => {
                match files {
                    Some(fs) => {
                        let (sorted_fs, contents) = choose|
                            sorted_fs: Seq<Seq<char>>,
                            contents: Seq<Option<Seq<char>>>,
                        |
                            {
                                &&& #[trigger] sorted_fs.to_multiset() == fs.to_multiset()
                                &&& sorted_fs.len() == fs.len()
                                &&& #[trigger] contents.len() == fs.len()
                                &&& spec_sorted_lex(sorted_fs)
                                &&& read_contents(io_helper.events()) == read_contents(io_pre)
                                    + contents
                                &&& list_applications@.len() == fs.len()
                                &&& forall|w: int|
                                    0 <= w < list_applications@.len() ==> spec_check_entry(
                                        #[trigger] list_applications@[w],
                                        sorted_fs[w],
                                        contents[w],
                                        dck_helper.events(),
                                    )
                            };
                        assert(forall|w: int|
                            0 <= w < list_applications@.len() ==> ((
                            #[trigger] list_applications@[w]).is_error
                                ==> list_applications@[w].config_filename@
                                == Seq::<char>::empty()));
                    },
                    None => {},
                }
            },
            _ => {},
        }
    }
    let mut error_filename: Vec<String> = Vec::new();
    let mut i: usize = 0;
    while i < list_applications.len()
        invariant
            i <= list_applications.len(),
            forall|w: int|
                0 <= w < list_applications@.len() ==> ((#[trigger] list_applications@[w]).is_error
                    ==> list_applications@[w].config_filename@ == Seq::<char>::empty()),
            forall|j: int|
                0 <= j < error_filename.len() ==> (#[trigger] error_filename[j])@
                    == Seq::<char>::empty(),
        decreases list_applications.len() - i,
    {
        let app = &list_applications[i];
        if app.is_error {
            error_filename.push(app.config_filename.clone());
        } else {
            let status: &str = if app.is_build {
                "Build done"
            } else {
                "Build need"
            };
            let col1 = pad_right(app.name.as_str(), 34);
            let col2 = pad_right(app.image_name.as_str(), 34);
            let col3 = pad_right(status, 13);
            let line = scat3(col1.as_str(), col2.as_str(), col3.as_str());
            io_helper.println(line.as_str());
        }
        i += 1;
    }
    if error_filename.len() == 0 {
        Ok(())
    } else {
        let mut msg_error: Vec<String> = Vec::new();
        let mut k: usize = 0;
        while k < error_filename.len()
            invariant
                k <= error_filename.len(),
                msg_error.len() == k,
                forall|j: int|
                    0 <= j < error_filename.len() ==> (#[trigger] error_filename[j])@
                        == Seq::<char>::empty(),
                forall|j: int|
                    0 <= j < k ==> (#[trigger] msg_error[j])@ == "The file "@
                        + " have bad format!"@,
            decreases error_filename.len() - k,
        {
            msg_error.push(
                scat3("The file ", error_filename[k].as_str(), " have bad format!"),
            );
            proof {
                assert(msg_error[k as int]@ =~= "The file "@ + " have bad format!"@);
            }
            k += 1;
        }
        Err(CommandError { msg: msg_error, code: CommandExitCode::BadApplicationFormat })
    }
}

} // verus!
