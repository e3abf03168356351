//! Building one application's image: the fetch policy, the rendered
//! manifest, the artifact copy, and the engine call.

use vstd::prelude::*;
use crate::command::CommandError;
use crate::command::CommandExitCode;
use crate::command::build::BuildOptions;
use crate::command::build::make_build_args;
use crate::command::build::render_and_write;
use crate::command::build::template_path;
use crate::command::build::spec_is_template_path;
use crate::command::build::spec_is_entrypoint_path;
use crate::command::build::dockerfile::DockerfileParameter;
use crate::command::build::base::build_base;
use crate::config::Config;
use crate::config::ConfigApplication;
use crate::config::get_config_application;
use crate::config::get_filename;
use crate::config::spec_get_filename;
use crate::config::spec_descriptor_ok;
use crate::config::spec_descriptor_matches;
use crate::template::spec_render_app;
use crate::template::spec_render;
use crate::yaml::yaml_field_present;
use crate::yaml::yaml_field_str;
use crate::docker::ContainerHelper;
use crate::docker::ContainerOp;
use crate::download::DownloadHelper;
use crate::download::DownloadOp;
use crate::io::InputOutputHelper;
use crate::io::IoOp;
use crate::io::convert_path;
use crate::io::spec_convert_path;
use crate::io::no_out_lines_added;
use crate::io::lemma_no_out_push;
use crate::io::lemma_no_out_refl;
use crate::io::lemma_no_out_trans;
use crate::strutil::lemma_seq_extends_push;
use crate::strutil::lemma_seq_extends_push_self;
use crate::strutil::lemma_seq_extends_refl;
use crate::strutil::lemma_seq_extends_trans;
use crate::strutil::scat3;
use crate::strutil::scat4;
use crate::strutil::scat5;
use crate::strutil::seq_extends;
use crate::strutil::spec_path_join;
use crate::template::ManifestData;
use vstd::string::StringExecFns;

verus! {

/// Whether this batch or this descriptor suppresses the refresh check.
pub open spec fn spec_skip_refresh(options: BuildOptions, app: ConfigApplication) -> bool {
    options.skip_redownload || app.skip_redownload == Some(true)
}

/// The fetch policy.
///
/// Exactly one existence query is made, for the artifact's cache path. When
/// the artifact is already cached and a skip flag is set, no fetch call is
/// made at all; when it is cached and no skip flag is set, the conditional
/// only-if-newer path is taken; when it is not cached, the unconditional
/// path is taken. A fetch that reports failure fails this application.
pub fn download_file<I: InputOutputHelper, D: DownloadHelper>(
    io_helper: &mut I,
    dl_helper: &mut D,
    app: &str,
    config_application: &ConfigApplication,
    options: &BuildOptions,
    config: &Config,
) -> (r: Result<(), CommandError>)
    requires
        config_application.url is Some,
    ensures
        final(io_helper).events().len() == old(io_helper).events().len() + 1,
        final(io_helper).events().drop_last() == old(io_helper).events(),
        ({
            let e = final(io_helper).events();
            e.last() matches IoOp::QueryExists(p, cached) && (exists|h: Option<Seq<char>>|
                p == spec_convert_path(
                    h,
                    spec_get_filename(
                        config.download_dir@,
                        config_application.download_filename@,
                        None,
                    ),
                )) && {
                let dl0 = old(dl_helper).events();
                let dl1 = final(dl_helper).events();
                let u = config_application.url.unwrap()@;
                &&& (cached && spec_skip_refresh(*options, *config_application)) ==> (dl1 == dl0
                    && r is Ok)
                &&& (cached && !spec_skip_refresh(*options, *config_application)) ==> (dl1
                    == dl0.push(DownloadOp::FetchIfNewer(u, p, r is Ok)))
                &&& (!cached) ==> (dl1 == dl0.push(DownloadOp::Fetch(u, p, r is Ok)))
            }
        }),
        r matches Err(e) ==> (e.code == CommandExitCode::UnableDownloadApplication && e.msg.len()
            == 1 && e.msg[0]@ == "Unable to download application '"@ + app@ + "'!"@),
{
    let app_dwn_filename = get_filename(
        config.download_dir.as_str(),
        config_application.download_filename.as_str(),
        None,
    );
    let app_dwn_filename = convert_path(app_dwn_filename.as_str());
    let url = match &config_application.url {
        Some(u) => u,
        None => {
            return Ok(());
        },
    };
    if io_helper.file_exits(app_dwn_filename.as_str()) {
        let app_skip = match config_application.skip_redownload {
            Some(b) => b,
            None => false,
        };
        if !options.skip_redownload && !app_skip {
            if !dl_helper.download_if_update(url.as_str(), app_dwn_filename.as_str()) {
                let mut msg: Vec<String> = Vec::new();
                msg.push(scat3("Unable to download application '", app, "'!"));
                return Err(
                    CommandError { msg, code: CommandExitCode::UnableDownloadApplication },
                );
            }
            Ok(())
        } else {
            Ok(())
        }
    } else {
        if !dl_helper.download(url.as_str(), app_dwn_filename.as_str()) {
            let mut msg: Vec<String> = Vec::new();
            msg.push(scat3("Unable to download application '", app, "'!"));
            return Err(CommandError { msg, code: CommandExitCode::UnableDownloadApplication });
        }
        Ok(())
    }
}

/// Makes sure the base image exists before an application build: one image
/// query, and the full base build only when the query found nothing.
pub fn check_base_image_builded<I: InputOutputHelper, C: ContainerHelper>(
    io_helper: &mut I,
    dck_helper: &mut C,
    tmp_dir: &str,
    options: &BuildOptions,
    config: &Config,
) -> (r: Result<(), CommandError>)
    ensures
        no_out_lines_added(old(io_helper).events(), final(io_helper).events()),
        seq_extends(old(dck_helper).events(), final(dck_helper).events()),
        r matches Err(e) ==> e.msg.len() >= 1,
        final(dck_helper).events().len() > old(dck_helper).events().len(),
        ({
            let d = final(dck_helper).events();
            let o = old(dck_helper).events();
            d[o.len() as int] matches ContainerOp::QueryImages(t, ids) && t
                == config.dockerfile.tag@ && (ids.len() > 0 ==> (r is Ok && d.len() == o.len()
                + 1 && final(io_helper).events() == old(io_helper).events())) && (ids.len() == 0
                && r is Ok ==> (d.last() matches ContainerOp::BuildImage(f, ctx, bt, _, built)
                && built && f == crate::strutil::spec_path_join(tmp_dir@, "Dockerfile"@) && ctx
                == tmp_dir@ && bt == config.dockerfile.tag@))
        }),
        r matches Err(e) ==> (e.code == CommandExitCode::TemplateNotFound || e.code
            == CommandExitCode::CannotCopyFile || e.code == CommandExitCode::CannotGetHomeFolder
            || e.code == CommandExitCode::CannotGenerateDockerfile || e.code
            == CommandExitCode::DockerfileTemplateInvalid || e.code
            == CommandExitCode::DockerBuildFail),
        r matches Err(e) ==> ({
            let ev = final(io_helper).events();
            let dk = final(dck_helper).events();
            &&& (e.code == CommandExitCode::TemplateNotFound ==> (
            ev.last() matches IoOp::QueryExists(qp, ex) && !ex && (spec_is_entrypoint_path(
                *config,
                qp,
            ) || spec_is_template_path(*config, qp)) && e.msg.len() == 1 && e.msg[0]@
                == "The file '"@ + qp + "' doesn't exits. Please run 'init' command first."@))
            &&& (e.code == CommandExitCode::CannotCopyFile ==> (
            ev.last() matches IoOp::CopyFile(csrc, ctgt, ok) && !ok && spec_is_entrypoint_path(
                *config,
                csrc,
            ) && ctgt == tmp_dir@ + "/"@ + csrc))
            &&& (e.code == CommandExitCode::CannotGenerateDockerfile ==> ((
            ev.last() matches IoOp::ReadFile(_, c) && c is None) || (
            ev.last() matches IoOp::WriteFile(_, _, ok) && !ok)))
            &&& (e.code == CommandExitCode::DockerBuildFail ==> ((
            dk.last() matches ContainerOp::BuildImage(_, _, _, _, ok) && !ok) && e.msg.len()
                == 1 && e.msg[0]@ == "Fail to build base image!"@))
        }),
{
    let ghost io0 = old(io_helper).events();
    let ghost dck0 = old(dck_helper).events();
    proof {
        lemma_no_out_refl(io0);
        lemma_seq_extends_refl(dck0);
    }
    let images = dck_helper.list_image(config.dockerfile.tag.as_str());
    proof {
        lemma_seq_extends_push_self(dck0, dck_helper.events().last());
        assert(dck0.push(dck_helper.events().last()) =~= dck_helper.events());
    }
    if images.len() == 0 {
        let ghost dck1 = dck_helper.events();
        let r = build_base(io_helper, dck_helper, tmp_dir, options, config);
        proof {
            lemma_seq_extends_trans(dck0, dck1, dck_helper.events());
        }
        return r;
    }
    Ok(())
}

/// The application named `app` was built from its descriptor: the logs show
/// a read of its descriptor file yielding a well-shaped document, and a
/// successful engine build of the workspace manifest under that document's
/// image tag.
pub open spec fn spec_app_built(
    e: Seq<IoOp>,
    dk: Seq<ContainerOp>,
    config: Config,
    tmp_dir: Seq<char>,
    app: Seq<char>,
) -> bool {
    exists|h: Option<Seq<char>>, t: Seq<char>|
        #![trigger spec_convert_path(
            h,
            spec_get_filename(config.applications_dir@, app, Some(".yml"@)),
        ), spec_descriptor_ok(t)]
        {
            &&& e.contains(
                IoOp::ReadFile(
                    spec_convert_path(
                        h,
                        spec_get_filename(config.applications_dir@, app, Some(".yml"@)),
                    ),
                    Some(t),
                ),
            )
            &&& spec_descriptor_ok(t)
            &&& exists|opts: Option<Seq<Seq<char>>>|
                #[trigger] dk.contains(
                    ContainerOp::BuildImage(
                        spec_path_join(tmp_dir, "Dockerfile"@),
                        tmp_dir,
                        yaml_field_str(t, "image_name"@).unwrap(),
                        opts,
                        true,
                    ),
                )
        }
}

/// A run that only appended events keeps every built application built.
pub proof fn lemma_app_built_extends(
    e1: Seq<IoOp>,
    e2: Seq<IoOp>,
    dk1: Seq<ContainerOp>,
    dk2: Seq<ContainerOp>,
    config: Config,
    tmp_dir: Seq<char>,
    app: Seq<char>,
)
    requires
        spec_app_built(e1, dk1, config, tmp_dir, app),
        seq_extends(e1, e2),
        seq_extends(dk1, dk2),
    ensures
        spec_app_built(e2, dk2, config, tmp_dir, app),
{
    let (h, t) = choose|h: Option<Seq<char>>, t: Seq<char>|
        #![trigger spec_convert_path(
            h,
            spec_get_filename(config.applications_dir@, app, Some(".yml"@)),
        ), spec_descriptor_ok(t)]
        {
            &&& e1.contains(
                IoOp::ReadFile(
                    spec_convert_path(
                        h,
                        spec_get_filename(config.applications_dir@, app, Some(".yml"@)),
                    ),
                    Some(t),
                ),
            )
            &&& spec_descriptor_ok(t)
            &&& exists|opts: Option<Seq<Seq<char>>>|
                #[trigger] dk1.contains(
                    ContainerOp::BuildImage(
                        spec_path_join(tmp_dir, "Dockerfile"@),
                        tmp_dir,
                        yaml_field_str(t, "image_name"@).unwrap(),
                        opts,
                        true,
                    ),
                )
        };
    crate::strutil::lemma_seq_extends_contains(
        e1,
        e2,
        IoOp::ReadFile(
            spec_convert_path(
                h,
                spec_get_filename(config.applications_dir@, app, Some(".yml"@)),
            ),
            Some(t),
        ),
    );
    let opts = choose|opts: Option<Seq<Seq<char>>>|
        #[trigger] dk1.contains(
            ContainerOp::BuildImage(
                spec_path_join(tmp_dir, "Dockerfile"@),
                tmp_dir,
                yaml_field_str(t, "image_name"@).unwrap(),
                opts,
                true,
            ),
        );
    crate::strutil::lemma_seq_extends_contains(
        dk1,
        dk2,
        ContainerOp::BuildImage(
            spec_path_join(tmp_dir, "Dockerfile"@),
            tmp_dir,
            yaml_field_str(t, "image_name"@).unwrap(),
            opts,
            true,
        ),
    );
}

/// Builds one application's image inside the given workspace.
///
/// The manifest template is located and read before any fetch: when the
/// template is missing, the pipeline stops with a template-missing error and
/// no fetch call has been made. On success the last engine call built an
/// image from the workspace's manifest, with `--no-cache` exactly when the
/// batch asked for a forced build.
pub fn build_one_application<I: InputOutputHelper, C: ContainerHelper, D: DownloadHelper>(
    io_helper: &mut I,
    dck_helper: &mut C,
    dl_helper: &mut D,
    tmp_dir: &str,
    options: &BuildOptions,
    config: &Config,
    app: &str,
) -> (r: Result<(), CommandError>)
    ensures
        no_out_lines_added(old(io_helper).events(), final(io_helper).events()),
        seq_extends(old(dck_helper).events(), final(dck_helper).events()),
        seq_extends(old(dl_helper).events(), final(dl_helper).events()),
        r matches Err(e) ==> e.msg.len() >= 1,
        final(dl_helper).events().len() <= old(dl_helper).events().len() + 1,
        r matches Err(e) && e.code == CommandExitCode::TemplateNotFound ==> final(dl_helper).events() == old(dl_helper).events(),
        r is Ok ==> (final(dck_helper).events().len() > old(dck_helper).events().len() && (final(dck_helper).events().last() matches ContainerOp::BuildImage(f, ctx, t, opts, true) && f
            == spec_path_join(tmp_dir@, "Dockerfile"@) && ctx == tmp_dir@ && (options.force
            ==> opts == Some(seq!["--no-cache"@])) && (!options.force ==> opts == Some(
            Seq::<Seq<char>>::empty(),
        )))),
        r is Ok ==> spec_app_built(
            final(io_helper).events(),
            final(dck_helper).events(),
            *config,
            tmp_dir@,
            app@,
        ),
        r matches Err(e) ==> (e.code == CommandExitCode::TemplateNotFound || e.code
            == CommandExitCode::CannotCopyFile || e.code == CommandExitCode::CannotGetHomeFolder
            || e.code == CommandExitCode::CannotGenerateDockerfile || e.code
            == CommandExitCode::DockerfileTemplateInvalid || e.code
            == CommandExitCode::DockerBuildFail || e.code
            == CommandExitCode::ApplicationFileNotFound || e.code
            == CommandExitCode::UnableDownloadApplication),
        r matches Err(e) ==> ({
            let ev = final(io_helper).events();
            let dk = final(dck_helper).events();
            let dv = final(dl_helper).events();
            &&& (e.code == CommandExitCode::TemplateNotFound ==> (
            ev.last() matches IoOp::QueryExists(qp, ex) && !ex && (spec_is_entrypoint_path(
                *config,
                qp,
            ) || spec_is_template_path(*config, qp)) && e.msg.len() == 1 && e.msg[0]@
                == "The file '"@ + qp + "' doesn't exits. Please run 'init' command first."@))
            &&& (e.code == CommandExitCode::CannotCopyFile ==> (
            ev.last() matches IoOp::CopyFile(csrc, ctgt, ok) && !ok && ((spec_is_entrypoint_path(
                *config,
                csrc,
            ) && ctgt == tmp_dir@ + "/"@ + csrc) || (exists|h: Option<Seq<char>>, af: Seq<char>|
                csrc == spec_convert_path(
                    h,
                    spec_get_filename(config.download_dir@, af, None),
                ) && ctgt == tmp_dir@ + "/"@ + af))))
            &&& (e.code == CommandExitCode::CannotGenerateDockerfile ==> ((
            ev.last() matches IoOp::ReadFile(_, c) && c is None) || (
            ev.last() matches IoOp::WriteFile(_, _, ok) && !ok)))
            &&& (e.code == CommandExitCode::DockerBuildFail ==> ((
            dk.last() matches ContainerOp::BuildImage(_, _, _, _, ok) && !ok) && e.msg.len()
                == 1 && (e.msg[0]@ == "Cannot build application "@ + app@ + "!"@ || e.msg[0]@
                == "Fail to build base image!"@)))
            &&& (e.code == CommandExitCode::UnableDownloadApplication ==> ((
            dv.last() matches DownloadOp::Fetch(_, _, ok) && !ok) || (
            dv.last() matches DownloadOp::FetchIfNewer(_, _, ok) && !ok)))
            &&& (e.code == CommandExitCode::ApplicationFileNotFound ==> ((
            ev.last() matches IoOp::ReadFile(p, c) && (exists|h: Option<Seq<char>>|
                p == spec_convert_path(
                    h,
                    spec_get_filename(config.applications_dir@, app@, Some(".yml"@)),
                )) && (match c {
                Some(t) => !spec_descriptor_ok(t),
                None => true,
            })) && dv == old(dl_helper).events() && e.msg.len() == 1
                && crate::strutil::spec_starts_with(
                e.msg[0]@,
                "Unable to find application '"@ + app@
                    + "' or something is wrong in file! "@,
            )))
        }),
        r is Ok ==> ({
            let e = final(io_helper).events();
            let dk = final(dck_helper).events();
            let dv = final(dl_helper).events();
            let dv0 = old(dl_helper).events();
            exists|h: Option<Seq<char>>, t: Seq<char>, idx: int|
                #![trigger e[idx], spec_convert_path(
                    h,
                    spec_get_filename(config.applications_dir@, app@, Some(".yml"@)),
                ), spec_descriptor_ok(t)]
                {
                    &&& 0 <= idx < e.len()
                    &&& e[idx] == IoOp::ReadFile(
                        spec_convert_path(
                            h,
                            spec_get_filename(config.applications_dir@, app@, Some(".yml"@)),
                        ),
                        Some(t),
                    )
                    &&& spec_descriptor_ok(t)
                    &&& (dk.last() matches ContainerOp::BuildImage(_, _, tag, _, _) && Some(tag)
                        == yaml_field_str(t, "image_name"@))
                    &&& (exists|tp: Seq<char>, tpl: Seq<char>, s: Seq<char>|
                        #![trigger e.contains(IoOp::ReadFile(tp, Some(tpl))), e.contains(
                            IoOp::WriteFile(spec_path_join(tmp_dir@, "Dockerfile"@), s, true),
                        )]
                        {
                            &&& e.contains(IoOp::ReadFile(tp, Some(tpl)))
                            &&& e.contains(
                                IoOp::WriteFile(spec_path_join(tmp_dir@, "Dockerfile"@), s, true),
                            )
                            &&& spec_render_app(
                                tpl,
                                config.dockerfile.tag@,
                                yaml_field_str(t, "download_filename"@).unwrap(),
                            ) == Some(s)
                        })
                    &&& (yaml_field_present(t, "url"@) ==> exists|h2: Option<Seq<char>>|
                        #![trigger spec_convert_path(
                            h2,
                            spec_get_filename(
                                config.download_dir@,
                                yaml_field_str(t, "download_filename"@).unwrap(),
                                None,
                            ),
                        )]
                        {
                            let dest = spec_convert_path(
                                h2,
                                spec_get_filename(
                                    config.download_dir@,
                                    yaml_field_str(t, "download_filename"@).unwrap(),
                                    None,
                                ),
                            );
                            ||| dv == dv0
                            ||| dv == dv0.push(
                                DownloadOp::Fetch(yaml_field_str(t, "url"@).unwrap(), dest, true),
                            )
                            ||| dv == dv0.push(
                                DownloadOp::FetchIfNewer(
                                    yaml_field_str(t, "url"@).unwrap(),
                                    dest,
                                    true,
                                ),
                            )
                        })
                    &&& (yaml_field_present(t, "url"@) ==> exists|h3: Option<Seq<char>>|
                        #[trigger] e.contains(
                            IoOp::CopyFile(
                                spec_convert_path(
                                    h3,
                                    spec_get_filename(
                                        config.download_dir@,
                                        yaml_field_str(t, "download_filename"@).unwrap(),
                                        None,
                                    ),
                                ),
                                tmp_dir@ + "/"@ + yaml_field_str(
                                    t,
                                    "download_filename"@,
                                ).unwrap(),
                                true,
                            ),
                        ))
                    &&& (!yaml_field_present(t, "url"@) ==> (dv == dv0 && forall|j: int|
                        idx < j < e.len() ==> !(#[trigger] e[j] is CopyFile)))
                }
        }),
{
    let ghost io0 = old(io_helper).events();
    let ghost dck0 = old(dck_helper).events();
    let ghost dl0 = old(dl_helper).events();
    proof {
        lemma_no_out_refl(io0);
        lemma_seq_extends_refl(dck0);
        lemma_seq_extends_refl(dl0);
    }
    if let Err(err) = check_base_image_builded(io_helper, dck_helper, tmp_dir, options, config) {
        return Err(err);
    }
    let ghost io1 = io_helper.events();
    // Locate and read the manifest template before anything is fetched.
    let dockerfile_name = match template_path(config) {
        Ok(p) => p,
        Err(e) => {
            return Err(e);
        },
    };
    if !io_helper.file_exits(dockerfile_name.as_str()) {
        proof {
            lemma_no_out_refl(io1);
            lemma_no_out_push(io1, io1, io_helper.events().last());
            assert(io1.push(io_helper.events().last()) =~= io_helper.events());
            lemma_no_out_trans(io0, io1, io_helper.events());
        }
        let mut msg: Vec<String> = Vec::new();
        msg.push(
            scat3(
                "The file '",
                dockerfile_name.as_str(),
                "' doesn't exits. Please run 'init' command first.",
            ),
        );
        return Err(CommandError { msg, code: CommandExitCode::TemplateNotFound });
    }
    proof {
        lemma_no_out_refl(io1);
        lemma_no_out_push(io1, io1, io_helper.events().last());
        assert(io1.push(io_helper.events().last()) =~= io_helper.events());
        lemma_no_out_trans(io0, io1, io_helper.events());
    }
    let ghost io2 = io_helper.events();
    let source_template = match io_helper.file_read_at_string(dockerfile_name.as_str()) {
        Ok(r) => r,
        Err(err) => {
            proof {
                lemma_no_out_refl(io2);
                lemma_no_out_push(io2, io2, io_helper.events().last());
                assert(io2.push(io_helper.events().last()) =~= io_helper.events());
                lemma_no_out_trans(io0, io2, io_helper.events());
            }
            let mut msg: Vec<String> = Vec::new();
            msg.push(String::from_str("Unable to read Dockerfile template. Please check right!"));
            msg.push(err);
            return Err(CommandError { msg, code: CommandExitCode::CannotGenerateDockerfile });
        },
    };
    proof {
        lemma_no_out_refl(io2);
        lemma_no_out_push(io2, io2, io_helper.events().last());
        assert(io2.push(io_helper.events().last()) =~= io_helper.events());
        lemma_no_out_trans(io0, io2, io_helper.events());
    }
    let ghost tmpl_event = io_helper.events().last();
    let ghost io3 = io_helper.events();
    let app_filename = get_filename(config.applications_dir.as_str(), app, Some(".yml"));
    let config_application = match get_config_application(io_helper, app_filename.as_str()) {
        Ok(r) => r,
        Err(err) => {
            proof {
                assert(io3.push(io_helper.events().last()) =~= io_helper.events());
                lemma_no_out_refl(io3);
                lemma_no_out_push(io3, io3, io_helper.events().last());
                lemma_no_out_trans(io0, io3, io_helper.events());
            }
            let mut msg: Vec<String> = Vec::new();
            let line = scat4(
                "Unable to find application '",
                app,
                "' or something is wrong in file! ",
                err.as_str(),
            );
            proof {
                let pre = "Unable to find application '"@ + app@
                    + "' or something is wrong in file! "@;
                assert(line@.take(pre.len() as int) =~= pre);
                assert(crate::strutil::spec_starts_with(line@, pre));
            }
            msg.push(line);
            return Err(CommandError { msg, code: CommandExitCode::ApplicationFileNotFound });
        },
    };
    proof {
        assert(io3.push(io_helper.events().last()) =~= io_helper.events());
        lemma_no_out_refl(io3);
        lemma_no_out_push(io3, io3, io_helper.events().last());
        lemma_no_out_trans(io0, io3, io_helper.events());
    }
    let ghost desc_event = io_helper.events().last();
    let ghost io4 = io_helper.events();
    let ghost dl_b4 = dl_helper.events();
    if config_application.url.is_some() {
        if let Err(err) = download_file(
            io_helper,
            dl_helper,
            app,
            &config_application,
            options,
            config,
        ) {
            proof {
                assert(io4.push(io_helper.events().last()) =~= io_helper.events());
                lemma_no_out_refl(io4);
                lemma_no_out_push(io4, io4, io_helper.events().last());
                lemma_no_out_trans(io0, io4, io_helper.events());
                lemma_dl_step(dl0, dl_helper.events());
            }
            return Err(err);
        }
        proof {
            assert(io4.push(io_helper.events().last()) =~= io_helper.events());
            lemma_no_out_refl(io4);
            lemma_no_out_push(io4, io4, io_helper.events().last());
            lemma_no_out_trans(io0, io4, io_helper.events());
            lemma_dl_step(dl0, dl_helper.events());
        }
    }
    let ghost io5 = io_helper.events();
    let dockerfile = DockerfileParameter::new(tmp_dir);
    let data = ManifestData::Application {
        from: config.dockerfile.tag.clone(),
        application_filename: config_application.download_filename.clone(),
    };
    if let Err(err) = render_and_write(
        io_helper,
        source_template.as_str(),
        dockerfile.docker_filename.as_str(),
        &data,
    ) {
        proof {
            lemma_no_out_trans(io0, io5, io_helper.events());
        }
        return Err(err);
    }
    proof {
        lemma_no_out_trans(io0, io5, io_helper.events());
    }
    let ghost write_event = io_helper.events().last();
    let ghost io6 = io_helper.events();
    if config_application.url.is_some() {
        let app_dwn_filename_raw = get_filename(
            config.download_dir.as_str(),
            config_application.download_filename.as_str(),
            None,
        );
        let app_dwn_filename = convert_path(app_dwn_filename_raw.as_str());
        let target = scat3(
            dockerfile.docker_context_path.as_str(),
            "/",
            config_application.download_filename.as_str(),
        );
        if let Err(err) = io_helper.hardlink_or_copy_file(
            app_dwn_filename.as_str(),
            target.as_str(),
        ) {
            proof {
                assert(io6.push(io_helper.events().last()) =~= io_helper.events());
                lemma_no_out_refl(io6);
                lemma_no_out_push(io6, io6, io_helper.events().last());
                lemma_no_out_trans(io0, io6, io_helper.events());
            }
            let mut msg: Vec<String> = Vec::new();
            msg.push(
                scat5(
                    "Unable copy '",
                    app_dwn_filename.as_str(),
                    "' to '",
                    dockerfile.docker_context_path.as_str(),
                    "'!",
                ),
            );
            msg.push(err);
            return Err(CommandError { msg, code: CommandExitCode::CannotCopyFile });
        }
        proof {
            assert(io6.push(io_helper.events().last()) =~= io_helper.events());
            lemma_no_out_refl(io6);
            lemma_no_out_push(io6, io6, io_helper.events().last());
            lemma_no_out_trans(io0, io6, io_helper.events());
            let h3 = choose|h: Option<Seq<char>>|
                app_dwn_filename@ == spec_convert_path(h, app_dwn_filename_raw@);
            assert(target@ == dockerfile.docker_context_path@ + "/"@
                + config_application.download_filename@);
            assert(io_helper.events().last() == IoOp::CopyFile(
                spec_convert_path(
                    h3,
                    spec_get_filename(
                        config.download_dir@,
                        config_application.download_filename@,
                        None,
                    ),
                ),
                tmp_dir@ + "/"@ + config_application.download_filename@,
                true,
            ));
            assert(io_helper.events().contains(io_helper.events().last())) by {
                assert(io_helper.events()[io_helper.events().len() - 1]
                    == io_helper.events().last());
            }
        }
    }
    let ghost dck1 = dck_helper.events();
    let build_args = make_build_args(options);
    if !dck_helper.build_image(
        dockerfile.docker_filename.as_str(),
        dockerfile.docker_context_path.as_str(),
        config_application.image_name.as_str(),
        Some(&build_args),
    ) {
        proof {
            lemma_seq_extends_push_self(dck1, dck_helper.events().last());
            assert(dck1.push(dck_helper.events().last()) =~= dck_helper.events());
            lemma_seq_extends_trans(dck0, dck1, dck_helper.events());
        }
        let mut msg: Vec<String> = Vec::new();
        msg.push(scat3("Cannot build application ", app, "!"));
        return Err(CommandError { msg, code: CommandExitCode::DockerBuildFail });
    }
    proof {
        lemma_seq_extends_push_self(dck1, dck_helper.events().last());
        assert(dck1.push(dck_helper.events().last()) =~= dck_helper.events());
        lemma_seq_extends_trans(dck0, dck1, dck_helper.events());
        let e = io_helper.events();
        // The later segments only append, so the captured events keep their
        // positions in the final log.
        assert(seq_extends(io4, io5)) by {
            lemma_seq_extends_refl(io4);
        }
        assert(seq_extends(io6, e)) by {
            lemma_seq_extends_refl(io6);
        }
        lemma_seq_extends_trans(io4, io5, io6);
        lemma_seq_extends_trans(io4, io6, e);
        lemma_seq_extends_push_self(io3, desc_event);
        lemma_seq_extends_trans(io3, io4, e);
        lemma_seq_extends_push_self(io2, tmpl_event);
        lemma_seq_extends_trans(io2, io3, e);
        lemma_seq_extends_push_self(io5, write_event);
        lemma_seq_extends_trans(io5, io6, e);
        assert(e[io3.len() as int] == desc_event) by {
            assert(e.take(io4.len() as int) == io4);
            assert(e.take(io4.len() as int)[io3.len() as int] == e[io3.len() as int]);
        }
        assert(e[io2.len() as int] == tmpl_event) by {
            assert(e.take(io3.len() as int) == io3);
            assert(e.take(io3.len() as int)[io2.len() as int] == e[io2.len() as int]);
        }
        assert(e[io5.len() as int] == write_event) by {
            assert(e.take(io6.len() as int) == io6);
            assert(e.take(io6.len() as int)[io5.len() as int] == e[io5.len() as int]);
        }
        assert(e.contains(desc_event)) by {
            assert(0 <= io3.len() < e.len());
        }
        assert(e.contains(tmpl_event)) by {
            assert(0 <= io2.len() < e.len());
        }
        assert(e.contains(write_event)) by {
            assert(0 <= io5.len() < e.len());
        }
        match desc_event {
            IoOp::ReadFile(pdesc, cdesc) => {
                let text = cdesc.unwrap();
                let hw = choose|h: Option<Seq<char>>|
                    pdesc == spec_convert_path(h, app_filename@);
                assert(app_filename@ == spec_get_filename(
                    config.applications_dir@,
                    app@,
                    Some(".yml"@),
                ));
                assert(spec_descriptor_ok(text));
                assert(spec_descriptor_matches(config_application, text));
                assert(e.contains(
                    IoOp::ReadFile(
                        spec_convert_path(
                            hw,
                            spec_get_filename(config.applications_dir@, app@, Some(".yml"@)),
                        ),
                        Some(text),
                    ),
                ));
                assert(Some(config_application.image_name@) == yaml_field_str(
                    text,
                    "image_name"@,
                ));
                assert(yaml_field_str(text, "download_filename"@)
                    == Some(config_application.download_filename@));
                match (tmpl_event, write_event) {
                    (IoOp::ReadFile(tp, ctpl), IoOp::WriteFile(outp, sw, okw)) => {
                        let tpl = ctpl.unwrap();
                        assert(tpl == source_template@);
                        assert(okw);
                        assert(outp == spec_path_join(tmp_dir@, "Dockerfile"@));
                        assert(spec_render(source_template@, data) == Some(sw));
                        assert(spec_render(source_template@, data) == spec_render_app(
                            source_template@,
                            config.dockerfile.tag@,
                            config_application.download_filename@,
                        ));
                        assert(spec_render_app(
                            tpl,
                            config.dockerfile.tag@,
                            yaml_field_str(text, "download_filename"@).unwrap(),
                        ) == Some(sw));
                        assert(e.contains(IoOp::ReadFile(tp, Some(tpl))));
                        assert(e.contains(
                            IoOp::WriteFile(spec_path_join(tmp_dir@, "Dockerfile"@), sw, true),
                        ));
                    },
                    _ => {},
                }
                assert(e[io3.len() as int] == IoOp::ReadFile(
                    spec_convert_path(
                        hw,
                        spec_get_filename(config.applications_dir@, app@, Some(".yml"@)),
                    ),
                    Some(text),
                ));
                if config_application.url is Some {
                    assert(yaml_field_str(text, "download_filename"@).unwrap()
                        == config_application.download_filename@);
                    assert(exists|h3: Option<Seq<char>>|
                        #[trigger] e.contains(
                            IoOp::CopyFile(
                                spec_convert_path(
                                    h3,
                                    spec_get_filename(
                                        config.download_dir@,
                                        yaml_field_str(text, "download_filename"@).unwrap(),
                                        None,
                                    ),
                                ),
                                tmp_dir@ + "/"@ + yaml_field_str(
                                    text,
                                    "download_filename"@,
                                ).unwrap(),
                                true,
                            ),
                        ));
                    assert(yaml_field_present(text, "url"@));
                    assert(yaml_field_str(text, "url"@) == Some(
                        config_application.url.unwrap()@,
                    ));
                    assert(dl_helper.events() == dl_b4 || dl_helper.events()
                        == dl_b4.push(
                        DownloadOp::Fetch(
                            config_application.url.unwrap()@,
                            dl_fetch_dest(io5.last()),
                            true,
                        ),
                    ) || dl_helper.events() == dl_b4.push(
                        DownloadOp::FetchIfNewer(
                            config_application.url.unwrap()@,
                            dl_fetch_dest(io5.last()),
                            true,
                        ),
                    )) by {
                        match io5.last() {
                            IoOp::QueryExists(pq, cached) => {},
                            _ => {},
                        }
                    }
                    let h2w = choose|h2: Option<Seq<char>>|
                        dl_fetch_dest(io5.last()) == spec_convert_path(
                            h2,
                            spec_get_filename(
                                config.download_dir@,
                                config_application.download_filename@,
                                None,
                            ),
                        );
                    assert(dl_fetch_dest(io5.last()) == spec_convert_path(
                        h2w,
                        spec_get_filename(
                            config.download_dir@,
                            yaml_field_str(text, "download_filename"@).unwrap(),
                            None,
                        ),
                    ));
                } else {
                    assert(!yaml_field_present(text, "url"@));
                    assert(dl_helper.events() == dl0);
                    assert(e =~= io6);
                    assert(e.len() == io3.len() + 2);
                    assert forall|j: int| io3.len() < j < e.len() implies !(
                    #[trigger] e[j] is CopyFile) by {
                        assert(j == io4.len());
                        assert(io5 == io4);
                        assert(e[j] == write_event);
                        assert(write_event matches IoOp::WriteFile(_, _, _));
                    }
                }
                let dkf = dck_helper.events();
                assert(yaml_field_str(text, "image_name"@).unwrap()
                    == config_application.image_name@);
                assert(dkf.last() == ContainerOp::BuildImage(
                    spec_path_join(tmp_dir@, "Dockerfile"@),
                    tmp_dir@,
                    yaml_field_str(text, "image_name"@).unwrap(),
                    Some(build_args.deep_view()),
                    true,
                ));
                assert(dkf.contains(dkf.last())) by {
                    assert(dkf[dkf.len() - 1] == dkf.last());
                }
                assert(exists|opts: Option<Seq<Seq<char>>>|
                    #[trigger] dkf.contains(
                        ContainerOp::BuildImage(
                            spec_path_join(tmp_dir@, "Dockerfile"@),
                            tmp_dir@,
                            yaml_field_str(text, "image_name"@).unwrap(),
                            opts,
                            true,
                        ),
                    ));
                assert(spec_app_built(e, dkf, *config, tmp_dir@, app@));
            },
            _ => {},
        }
    }
    Ok(())
}

/// The destination path a fetch-policy existence query asked about.
pub open spec fn dl_fetch_dest(op: IoOp) -> Seq<char> {
    match op {
        IoOp::QueryExists(p, _) => p,
        _ => Seq::empty(),
    }
}

/// After the fetch policy, the fetch log is the old one, possibly with one
/// event appended.
proof fn lemma_dl_step(dl0: Seq<DownloadOp>, dl1: Seq<DownloadOp>)
    requires
        dl1 == dl0 || exists|op: DownloadOp| dl1 == dl0.push(op),
    ensures
        seq_extends(dl0, dl1),
        dl1.len() <= dl0.len() + 1,
{
    lemma_seq_extends_refl(dl0);
    if dl1 != dl0 {
        let op = choose|op: DownloadOp| dl1 == dl0.push(op);
        lemma_seq_extends_push_self(dl0, op);
    }
}

} // verus!
