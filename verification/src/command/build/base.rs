//! Building the shared base image: the entrypoint script, the aggregated
//! dependencies, the rendered base manifest, and the engine call.

use vstd::prelude::*;
use crate::command::CommandError;
use crate::command::CommandExitCode;
use crate::command::build::BuildOptions;
use crate::command::build::entrypoint_path;
use crate::command::build::generate_dockerfile;
use crate::command::build::make_build_args;
use crate::command::build::template_path;
use crate::command::build::spec_is_template_path;
use crate::command::build::spec_is_entrypoint_path;
use crate::command::build::dockerfile::DockerfileParameter;
use crate::config::Config;
use crate::config::get_config_application;
use crate::config::spec_descriptor_ok;
use crate::strutil::lemma_push_deep_view;
use crate::yaml::yaml_field_present;
use crate::yaml::yaml_field_str_list;
use crate::docker::ContainerHelper;
use crate::docker::ContainerOp;
use crate::download::DownloadHelper;
use crate::io::InputOutputHelper;
use crate::io::IoOp;
use crate::io::read_paths;
use crate::io::read_contents;
use crate::io::lemma_read_paths_push_read;
use crate::io::lemma_read_paths_push_other;
use crate::io::lemma_read_contents_push_read;
use crate::io::lemma_read_contents_push_other;
use crate::io::spec_convert_path;
use crate::io::no_out_lines_added;
use crate::io::lemma_no_out_push;
use crate::io::lemma_no_out_refl;
use crate::io::lemma_no_out_trans;
use crate::strutil::join_space;
use crate::strutil::lemma_seq_extends_push;
use crate::strutil::lemma_seq_extends_push_self;
use crate::strutil::lemma_seq_extends_refl;
use crate::strutil::lemma_seq_extends_trans;
use crate::strutil::lemma_seq_extends_contains;
use crate::strutil::scat3;
use crate::strutil::scat5;
use crate::strutil::seq_extends;
use crate::strutil::sort_strings;
use crate::strutil::spec_path_join;
use crate::strutil::spec_sorted_lex;
use crate::template::ManifestData;
use vstd::string::StringExecFns;

verus! {

/// Puts the entrypoint script into the build workspace, by hard link or
/// copy; a missing script asks the user to run `init` first.
pub fn generate_entrypoint<I: InputOutputHelper>(
    entrypoint_name: &str,
    io_helper: &mut I,
    output_dir: &str,
) -> (r: Result<(), CommandError>)
    ensures
        no_out_lines_added(old(io_helper).events(), final(io_helper).events()),
        r matches Err(e) ==> e.msg.len() >= 1,
        r matches Err(e) ==> (e.code == CommandExitCode::TemplateNotFound || e.code
            == CommandExitCode::CannotCopyFile),
        ({
            let e = final(io_helper).events();
            let o = old(io_helper).events();
            &&& e.len() > o.len()
            &&& (e[o.len() as int] matches IoOp::QueryExists(p, ex) && p == entrypoint_name@
                && ((r matches Err(err) && err.code == CommandExitCode::TemplateNotFound) <==> !ex)
                && (!ex ==> e.len() == o.len() + 1 && (r matches Err(err) && err.msg.len() == 1
                    && err.msg[0]@ == "The file '"@ + entrypoint_name@
                    + "' doesn't exits. Please run 'init' command first."@)) && (ex ==> e.len()
                == o.len() + 2 && (e.last() matches IoOp::CopyFile(f, t, ok) && f
                == entrypoint_name@ && t == output_dir@ + "/"@ + entrypoint_name@ && (r is Ok
                <==> ok) && ((r matches Err(err) && err.code == CommandExitCode::CannotCopyFile)
                <==> !ok) && (!ok ==> (r matches Err(err) && err.msg.len() == 2 && err.msg[0]@
                == "Unable copy '"@ + entrypoint_name@ + "' to '"@ + output_dir@ + "'!"@)))))
        }),
{
    let ghost o = old(io_helper).events();
    proof {
        lemma_no_out_refl(o);
    }
    if !io_helper.file_exits(entrypoint_name) {
        proof {
            lemma_no_out_push(o, o, IoOp::QueryExists(entrypoint_name@, false));
        }
        let mut msg: Vec<String> = Vec::new();
        msg.push(
            scat3(
                "The file '",
                entrypoint_name,
                "' doesn't exits. Please run 'init' command first.",
            ),
        );
        return Err(CommandError { msg, code: CommandExitCode::TemplateNotFound });
    }
    proof {
        lemma_no_out_push(o, o, IoOp::QueryExists(entrypoint_name@, true));
    }
    let ghost io1 = io_helper.events();
    let to = scat3(output_dir, "/", entrypoint_name);
    proof {
        reveal_strlit("/");
        assert(to@ =~= output_dir@ + "/"@ + entrypoint_name@);
    }
    if let Err(err) = io_helper.hardlink_or_copy_file(entrypoint_name, to.as_str()) {
        proof {
            assert(io1.push(io_helper.events().last()) =~= io_helper.events());
            lemma_no_out_refl(io1);
            lemma_no_out_push(io1, io1, io_helper.events().last());
            lemma_no_out_trans(o, io1, io_helper.events());
        }
        let mut msg: Vec<String> = Vec::new();
        msg.push(scat5("Unable copy '", entrypoint_name, "' to '", output_dir, "'!"));
        msg.push(err);
        return Err(CommandError { msg, code: CommandExitCode::CannotCopyFile });
    }
    proof {
        assert(io1.push(io_helper.events().last()) =~= io_helper.events());
        lemma_no_out_refl(io1);
        lemma_no_out_push(io1, io1, io_helper.events().last());
        lemma_no_out_trans(o, io1, io_helper.events());
    }
    Ok(())
}

/// A descriptor read that contributes nothing: the file could not be read,
/// or its text is not a well-shaped descriptor.
pub open spec fn spec_desc_read_failed(c: Option<Seq<char>>) -> bool {
    match c {
        Some(t) => !spec_descriptor_ok(t),
        None => true,
    }
}

/// The warning printed on standard error for one unreadable descriptor.
pub open spec fn spec_deps_warning(file: Seq<char>) -> Seq<char> {
    "Cannot read list of dependencies of '"@ + file
        + "' application, please check right or file format!"@
}

/// The dependency list a descriptor document contributes to the base image:
/// its `dependencies` items when the document is well shaped and has some,
/// nothing otherwise.
pub open spec fn spec_deps_of(doc: Seq<char>) -> Seq<Seq<char>> {
    if spec_descriptor_ok(doc) && yaml_field_present(doc, "dependencies"@) {
        yaml_field_str_list(doc, "dependencies"@).unwrap()
    } else {
        Seq::empty()
    }
}

/// The contribution of one file read: its document's dependencies, or
/// nothing when the read failed.
pub open spec fn spec_deps_entry(c: Option<Seq<char>>) -> Seq<Seq<char>> {
    match c {
        Some(t) => spec_deps_of(t),
        None => Seq::empty(),
    }
}

/// The concatenation of the contributions of a run of file reads, in order.
pub open spec fn spec_deps_concat(cs: Seq<Option<Seq<char>>>) -> Seq<Seq<char>>
    decreases cs.len(),
{
    if cs.len() == 0 {
        Seq::empty()
    } else {
        spec_deps_concat(cs.drop_last()) + spec_deps_entry(cs.last())
    }
}

/// Collects the dependency lists of every readable descriptor, in sorted
/// filename order, and joins them with spaces, duplicates kept.
///
/// The contract pins the scan and its result: one listing of the
/// applications directory, then one read per listed file, in sorted filename
/// order, and the returned string is the space-join of the dependency lists
/// of exactly those reads' contents, in that order, duplicates kept. A
/// descriptor that cannot be read or parsed contributes nothing and is only
/// reported on standard error.
#[verifier::loop_isolation(false)]
pub fn get_dependencies<I: InputOutputHelper>(io_helper: &mut I, config: &Config) -> (r: Result<
    String,
    CommandError,
>)
    ensures
        no_out_lines_added(old(io_helper).events(), final(io_helper).events()),
        r matches Err(e) ==> e.msg.len() >= 1,
        final(io_helper).events().len() > old(io_helper).events().len(),
        ({
            let e = final(io_helper).events();
            let o = old(io_helper).events();
            e[o.len() as int] matches IoOp::ListDir(d, pat, files) && d
                == config.applications_dir@ && pat == "*.yml"@ && (match files {
                None => r matches Err(err) && err.code
                    == CommandExitCode::CannotReadApplicationsFolder && err.msg.len() == 2
                    && err.msg[0]@ == "Cannot read list of applications in '"@
                    + config.applications_dir@ + "'!"@,
                Some(fs) => r is Ok && exists|
                    sorted_fs: Seq<Seq<char>>,
                    added: Seq<Seq<char>>,
                    homes: Seq<Option<Seq<char>>>,
                    contents: Seq<Option<Seq<char>>>,
                |
                    {
                        &&& #[trigger] sorted_fs.to_multiset() == fs.to_multiset()
                        &&& #[trigger] added.len() == sorted_fs.len()
                        &&& #[trigger] homes.len() == sorted_fs.len()
                        &&& #[trigger] contents.len() == sorted_fs.len()
                        &&& spec_sorted_lex(sorted_fs)
                        &&& read_paths(e) == read_paths(o) + added
                        &&& read_contents(e) == read_contents(o) + contents
                        &&& forall|i: int|
                            0 <= i < added.len() ==> #[trigger] added[i] == spec_convert_path(
                                homes[i],
                                sorted_fs[i],
                            )
                        &&& forall|i: int|
                            0 <= i < contents.len() && spec_desc_read_failed(#[trigger] contents[i])
                                ==> e.contains(IoOp::ErrLine(spec_deps_warning(sorted_fs[i])))
                        &&& (r matches Ok(joined) && joined@ == crate::strutil::spec_space_join(
                            spec_deps_concat(contents),
                        ))
                    },
            })
        }),
{
    let ghost o = old(io_helper).events();
    proof {
        lemma_no_out_refl(o);
    }
    let list_applications_file = match io_helper.dir_list_file(
        config.applications_dir.as_str(),
        "*.yml",
    ) {
        Ok(r) => r,
        Err(err) => {
            proof {
                lemma_no_out_push(o, o, io_helper.events().last());
                assert(o.push(io_helper.events().last()) =~= io_helper.events());
                lemma_read_paths_push_other(o, io_helper.events().last());
            }
            let mut msg: Vec<String> = Vec::new();
            msg.push(
                scat3(
                    "Cannot read list of applications in '",
                    config.applications_dir.as_str(),
                    "'!",
                ),
            );
            msg.push(err);
            return Err(
                CommandError { msg, code: CommandExitCode::CannotReadApplicationsFolder },
            );
        },
    };
    proof {
        lemma_no_out_push(o, o, io_helper.events().last());
        assert(o.push(io_helper.events().last()) =~= io_helper.events());
        lemma_read_paths_push_other(o, io_helper.events().last());
        lemma_read_contents_push_other(o, io_helper.events().last());
    }
    let ghost after_list = io_helper.events();
    proof {
        lemma_no_out_refl(after_list);
        assert(io_helper.events()[o.len() as int] == io_helper.events().last());
    }
    let sorted = sort_strings(&list_applications_file);
    let ghost sorted_view: Seq<Seq<char>> = sorted.deep_view();
    let mut dependencies: Vec<String> = Vec::new();
    let mut i: usize = 0;
    let ghost mut added: Seq<Seq<char>> = Seq::empty();
    let ghost mut homes: Seq<Option<Seq<char>>> = Seq::empty();
    let ghost mut contents: Seq<Option<Seq<char>>> = Seq::empty();
    proof {
        assert(read_paths(io_helper.events()) =~= read_paths(after_list) + added);
        assert(read_contents(io_helper.events()) =~= read_contents(after_list) + contents);
        assert(dependencies.deep_view() =~= spec_deps_concat(contents));
    }
    while i < sorted.len()
        invariant
            i <= sorted.len(),
            sorted_view == sorted.deep_view(),
            sorted_view.len() == sorted.len(),
            no_out_lines_added(after_list, io_helper.events()),
            after_list == o.push(io_helper.events()[o.len() as int]),
            o.len() < io_helper.events().len(),
            read_paths(io_helper.events()) == read_paths(after_list) + added,
            read_contents(io_helper.events()) == read_contents(after_list) + contents,
            added.len() == i,
            homes.len() == i,
            contents.len() == i,
            dependencies.deep_view() == spec_deps_concat(contents),
            forall|k: int|
                0 <= k < i ==> #[trigger] added[k] == spec_convert_path(homes[k], sorted_view[k]),
            forall|k: int|
                0 <= k < i && spec_desc_read_failed(#[trigger] contents[k])
                    ==> io_helper.events().contains(
                    IoOp::ErrLine(spec_deps_warning(sorted_view[k])),
                ),
        decreases sorted.len() - i,
    {
        let ghost before = io_helper.events();
        let filename = &sorted[i];
        proof {
            assert(sorted_view[i as int] == sorted[i as int]@);
        }
        match get_config_application(io_helper, filename.as_str()) {
            Ok(config_application) => {
                let ghost depsfield = config_application.dependencies;
                let ghost contents0 = contents;
                proof {
                    let last = io_helper.events().last();
                    assert(before.push(last) =~= io_helper.events());
                    lemma_no_out_push(after_list, before, last);
                    match last {
                        IoOp::ReadFile(p, c) => {
                            lemma_read_paths_push_read(before, p, c);
                            lemma_read_contents_push_read(before, p, c);
                            let h0 = choose|h: Option<Seq<char>>|
                                p == spec_convert_path(h, filename@);
                            added = added.push(p);
                            homes = homes.push(h0);
                            contents = contents.push(c);
                        },
                        _ => {},
                    }
                    assert(read_paths(io_helper.events()) =~= read_paths(after_list) + added);
                    assert(read_contents(io_helper.events()) =~= read_contents(after_list)
                        + contents);
                    assert(added[i as int] == spec_convert_path(homes[i as int], sorted_view[i as int]));
                    assert(contents.drop_last() =~= contents0);
                    assert(spec_deps_concat(contents) == spec_deps_concat(contents0)
                        + spec_deps_entry(contents.last()));
                    assert(spec_deps_entry(contents.last()) == (match depsfield {
                        Some(v) => v.deep_view(),
                        None => Seq::<Seq<char>>::empty(),
                    }));
                }
                if let Some(d) = config_application.dependencies {
                    let ghost dv0 = dependencies.deep_view();
                    let mut k: usize = 0;
                    proof {
                        assert(dependencies.deep_view() =~= dv0 + d.deep_view().take(0int));
                    }
                    while k < d.len()
                        invariant
                            k <= d.len(),
                            dependencies.deep_view() == dv0 + d.deep_view().take(k as int),
                        decreases d.len() - k,
                    {
                        let ghost prev = dependencies;
                        let ghost x = d@[k as int];
                        dependencies.push(d[k].clone());
                        proof {
                            lemma_push_deep_view(prev, dependencies, x);
                            assert(x.deep_view() == d.deep_view()[k as int]);
                            assert(dependencies.deep_view() =~= dv0 + d.deep_view().take(k + 1));
                        }
                        k += 1;
                    }
                    proof {
                        assert(d.deep_view().take(d.len() as int) =~= d.deep_view());
                        assert(depsfield == Some(d));
                        assert(dependencies.deep_view() =~= spec_deps_concat(contents));
                    }
                } else {
                    proof {
                        assert(spec_deps_concat(contents0) + Seq::<Seq<char>>::empty()
                            =~= spec_deps_concat(contents0));
                        assert(dependencies.deep_view() =~= spec_deps_concat(contents));
                    }
                }
            },
            Err(_) => {
                let ghost contents0 = contents;
                proof {
                    let last = io_helper.events().last();
                    assert(before.push(last) =~= io_helper.events());
                    lemma_no_out_push(after_list, before, last);
                    match last {
                        IoOp::ReadFile(p, c) => {
                            lemma_read_paths_push_read(before, p, c);
                            lemma_read_contents_push_read(before, p, c);
                            let h0 = choose|h: Option<Seq<char>>|
                                p == spec_convert_path(h, filename@);
                            added = added.push(p);
                            homes = homes.push(h0);
                            contents = contents.push(c);
                        },
                        _ => {},
                    }
                    assert(read_paths(io_helper.events()) =~= read_paths(after_list) + added);
                    assert(read_contents(io_helper.events()) =~= read_contents(after_list)
                        + contents);
                    assert(added[i as int] == spec_convert_path(homes[i as int], sorted_view[i as int]));
                    assert(contents.drop_last() =~= contents0);
                    assert(spec_deps_entry(contents.last()) =~= Seq::<Seq<char>>::empty());
                    assert(spec_deps_concat(contents0) + Seq::<Seq<char>>::empty()
                        =~= spec_deps_concat(contents0));
                    assert(dependencies.deep_view() =~= spec_deps_concat(contents));
                }
                let ghost before2 = io_helper.events();
                let warning = scat3(
                    "Cannot read list of dependencies of '",
                    filename.as_str(),
                    "' application, please check right or file format!",
                );
                io_helper.eprintln(warning.as_str());
                proof {
                    assert(before2.push(io_helper.events().last()) =~= io_helper.events());
                    lemma_no_out_push(after_list, before2, io_helper.events().last());
                    lemma_read_paths_push_other(before2, io_helper.events().last());
                    lemma_read_contents_push_other(before2, io_helper.events().last());
                    let e2 = io_helper.events();
                    assert(warning@ == spec_deps_warning(sorted_view[i as int]));
                    assert(e2.last() == IoOp::ErrLine(spec_deps_warning(sorted_view[i as int])));
                    assert(e2.contains(e2.last())) by {
                        assert(e2[e2.len() - 1] == e2.last());
                    }
                }
            },
        }
        proof {
            assert(io_helper.events().take(after_list.len() as int) == after_list);
            assert(io_helper.events()[o.len() as int] == after_list[o.len() as int]) by {
                assert(io_helper.events().take(after_list.len() as int)[o.len() as int]
                    == io_helper.events()[o.len() as int]);
            }
            assert(forall|k: int|
                0 <= k < i + 1 ==> #[trigger] added[k] == spec_convert_path(
                    homes[k],
                    sorted_view[k],
                ));
            assert(seq_extends(before, io_helper.events())) by {
                lemma_seq_extends_refl(before);
                let now = io_helper.events();
                if now.len() == before.len() + 1 {
                    assert(before.push(now.last()) =~= now);
                    lemma_seq_extends_push_self(before, now.last());
                }
                if now.len() == before.len() + 2 {
                    assert(before.push(now[before.len() as int]).push(now.last()) =~= now);
                    lemma_seq_extends_push_self(before, now[before.len() as int]);
                    lemma_seq_extends_push(
                        before,
                        before.push(now[before.len() as int]),
                        now.last(),
                    );
                }
            }
            assert forall|k: int|
                0 <= k < i + 1 && spec_desc_read_failed(#[trigger] contents[k])
                    implies io_helper.events().contains(
                IoOp::ErrLine(spec_deps_warning(sorted_view[k])),
            ) by {
                if k < i as int {
                    lemma_seq_extends_contains(
                        before,
                        io_helper.events(),
                        IoOp::ErrLine(spec_deps_warning(sorted_view[k])),
                    );
                }
            }
        }
        i += 1;
    }
    proof {
        lemma_no_out_trans(o, after_list, io_helper.events());
        let e = io_helper.events();
        assert(e.take(after_list.len() as int) == after_list);
        assert(e[o.len() as int] == after_list[o.len() as int]) by {
            assert(e.take(after_list.len() as int)[o.len() as int] == e[o.len() as int]);
        }
        assert(after_list[o.len() as int] == after_list.last());
        assert(read_paths(after_list) == read_paths(o)) by {
            lemma_read_paths_push_other(o, after_list.last());
            assert(o.push(after_list.last()) =~= after_list);
        }
        assert(read_contents(after_list) == read_contents(o)) by {
            lemma_read_contents_push_other(o, after_list.last());
            assert(o.push(after_list.last()) =~= after_list);
        }
        assert(sorted_view.to_multiset() == list_applications_file.deep_view().to_multiset());
        assert(added.len() == sorted_view.len());
        assert(read_paths(e) == read_paths(o) + added);
        assert(read_contents(e) == read_contents(o) + contents);
        assert(homes.len() == sorted_view.len());
        assert(contents.len() == sorted_view.len());
    }
    let joined = join_space(&dependencies);
    proof {
        let e = io_helper.events();
        assert(joined@ == crate::strutil::spec_space_join(spec_deps_concat(contents)));
        assert(sorted_view.to_multiset() == list_applications_file.deep_view().to_multiset()
            && added.len() == sorted_view.len() && homes.len() == sorted_view.len()
            && contents.len() == sorted_view.len() && spec_sorted_lex(sorted_view)
            && read_paths(e) == read_paths(o) + added && read_contents(e) == read_contents(o)
            + contents && (forall|ii: int|
            0 <= ii < added.len() ==> #[trigger] added[ii] == spec_convert_path(
                homes[ii],
                sorted_view[ii],
            )));
    }
    Ok(joined)
}

/// Builds the shared base image inside the given workspace.
///
/// On success the last engine call built an image from the workspace's
/// manifest, tagged with the configured base tag, with the `--no-cache`
/// option exactly when the batch asked for a forced build.
pub fn build_base<I: InputOutputHelper, C: ContainerHelper>(
    io_helper: &mut I,
    dck_helper: &mut C,
    tmp_dir: &str,
    options: &BuildOptions,
    config: &Config,
) -> (r: Result<(), CommandError>)
    ensures
        no_out_lines_added(old(io_helper).events(), final(io_helper).events()),
        seq_extends(old(dck_helper).events(), final(dck_helper).events()),
        r matches Err(e) ==> e.msg.len() >= 1,
        r is Ok ==> (final(dck_helper).events().len() == old(dck_helper).events().len() + 1
            && (final(dck_helper).events().last() matches ContainerOp::BuildImage(
            f,
            ctx,
            t,
            opts,
            true,
        ) && f == spec_path_join(tmp_dir@, "Dockerfile"@) && ctx == tmp_dir@ && t
            == config.dockerfile.tag@ && (options.force ==> opts == Some(seq!["--no-cache"@]))
            && (!options.force ==> opts == Some(Seq::<Seq<char>>::empty())))),
        r matches Err(e) ==> (e.code == CommandExitCode::TemplateNotFound || e.code
            == CommandExitCode::CannotCopyFile || e.code == CommandExitCode::CannotGetHomeFolder
            || e.code == CommandExitCode::CannotGenerateDockerfile || e.code
            == CommandExitCode::DockerfileTemplateInvalid || e.code
            == CommandExitCode::DockerBuildFail),
        (r matches Err(e) && e.code == CommandExitCode::DockerBuildFail) <==> (final(dck_helper).events().len() == old(dck_helper).events().len() + 1 && (final(dck_helper).events().last() matches ContainerOp::BuildImage(_, _, _, _, ok) && !ok)),
        r matches Err(e) ==> (e.code == CommandExitCode::DockerBuildFail ==> (e.msg.len() == 1
            && e.msg[0]@ == "Fail to build base image!"@)),
        ({
            let e = final(io_helper).events();
            let o = old(io_helper).events();
            (e.len() > o.len() && (e[o.len() as int] matches IoOp::QueryExists(_, ex) && !ex))
                ==> (r matches Err(err) && err.code == CommandExitCode::TemplateNotFound)
        }),
        ({
            let e = final(io_helper).events();
            let o = old(io_helper).events();
            (e.len() > o.len() + 1 && (e[o.len() as int + 1] matches IoOp::CopyFile(_, _, ok)
                && !ok)) ==> (r matches Err(err) && err.code == CommandExitCode::CannotCopyFile)
        }),
        r matches Err(e) ==> ({
            let ev = final(io_helper).events();
            &&& (e.code == CommandExitCode::TemplateNotFound ==> (
            ev.last() matches IoOp::QueryExists(qp, ex) && !ex && (spec_is_entrypoint_path(
                *config,
                qp,
            ) || spec_is_template_path(*config, qp)) && e.msg.len() == 1 && e.msg[0]@
                == "The file '"@ + qp + "' doesn't exits. Please run 'init' command first."@))
            &&& (e.code == CommandExitCode::CannotCopyFile ==> (
            ev.last() matches IoOp::CopyFile(csrc, ctgt, ok) && !ok && spec_is_entrypoint_path(
                *config,
                csrc,
            ) && ctgt == tmp_dir@ + "/"@ + csrc))
            &&& (e.code == CommandExitCode::CannotGenerateDockerfile ==> ((
            ev.last() matches IoOp::ReadFile(_, c) && c is None) || (
            ev.last() matches IoOp::WriteFile(_, _, ok) && !ok)))
        }),
{
    let ghost io0 = old(io_helper).events();
    let ghost dck0 = old(dck_helper).events();
    proof {
        lemma_no_out_refl(io0);
        lemma_seq_extends_refl(dck0);
    }
    let dockerfile = DockerfileParameter::new(tmp_dir);
    let entrypoint_filename = match entrypoint_path(config) {
        Ok(p) => p,
        Err(e) => {
            return Err(e);
        },
    };
    if let Err(err) = generate_entrypoint(
        entrypoint_filename.as_str(),
        io_helper,
        dockerfile.docker_context_path.as_str(),
    ) {
        return Err(err);
    }
    let ghost io1 = io_helper.events();
    let mut dependencies = String::new();
    match get_dependencies(io_helper, config) {
        Ok(d) => {
            dependencies = d;
        },
        Err(_) => {},
    }
    proof {
        lemma_no_out_trans(io0, io1, io_helper.events());
    }
    let ghost io2 = io_helper.events();
    let data = ManifestData::Base { from: config.dockerfile.from.clone(), dependencies };
    let docker_filename = match template_path(config) {
        Ok(p) => p,
        Err(e) => {
            return Err(e);
        },
    };
    if let Err(err) = generate_dockerfile(
        io_helper,
        docker_filename.as_str(),
        dockerfile.docker_filename.as_str(),
        &data,
    ) {
        proof {
            lemma_no_out_trans(io0, io2, io_helper.events());
        }
        return Err(err);
    }
    proof {
        lemma_no_out_trans(io0, io2, io_helper.events());
    }
    let build_args = make_build_args(options);
    if !dck_helper.build_image(
        dockerfile.docker_filename.as_str(),
        dockerfile.docker_context_path.as_str(),
        config.dockerfile.tag.as_str(),
        Some(&build_args),
    ) {
        proof {
            lemma_seq_extends_push_self(dck0, dck_helper.events().last());
            assert(dck0.push(dck_helper.events().last()) =~= dck_helper.events());
        }
        let mut msg: Vec<String> = Vec::new();
        msg.push(String::from_str("Fail to build base image!"));
        return Err(CommandError { msg, code: CommandExitCode::DockerBuildFail });
    }
    proof {
        lemma_seq_extends_push_self(dck0, dck_helper.events().last());
        assert(dck0.push(dck_helper.events().last()) =~= dck_helper.events());
    }
    Ok(())
}


} // verus!
