//! The `all` selector: build every application of the catalog.

use vstd::prelude::*;
use crate::command::CommandError;
use crate::command::CommandExitCode;
use crate::command::build::BuildOptions;
use crate::command::build::build_some_application;
use crate::command::build::spec_announce;
use crate::command::build::one::spec_app_built;
use crate::command::list::get_all;
use crate::config::Config;
use crate::docker::ContainerHelper;
use crate::download::DownloadHelper;
use crate::io::InputOutputHelper;
use crate::io::IoOp;
use crate::io::lemma_out_lines_push_other;
use crate::io::out_lines;
use crate::strutil::lemma_seq_extends_push_self;
use crate::strutil::lemma_seq_extends_refl;
use crate::strutil::lemma_seq_extends_trans;
use crate::strutil::seq_extends;
use crate::strutil::spec_file_stem;
use crate::strutil::spec_sorted_lex;

verus! {

/// Builds every application in the catalog, in sorted filename order.
///
/// One listing of the applications directory is made first. When it
/// succeeds, the lines printed on standard output are exactly one
/// announcement per listed descriptor, named by its stem, in sorted
/// filename order; when it fails, nothing is printed and the batch fails.
pub fn build_all<I: InputOutputHelper, C: ContainerHelper, D: DownloadHelper>(
    io_helper: &mut I,
    dck_helper: &mut C,
    dl_helper: &mut D,
    options: &BuildOptions,
    config: &Config,
    tmp_dir: &str,
) -> (r: Result<(), CommandError>)
    ensures
        seq_extends(old(io_helper).events(), final(io_helper).events()),
        seq_extends(old(dck_helper).events(), final(dck_helper).events()),
        seq_extends(old(dl_helper).events(), final(dl_helper).events()),
        r matches Err(e) ==> (e.code == CommandExitCode::CannotReadApplicationsFolder || e.code
            == CommandExitCode::DockerBuildFail),
        r matches Err(e) ==> e.msg.len() >= 1,
        ({
            let e = final(io_helper).events();
            let o = old(io_helper).events();
            e.len() > o.len() && (e[o.len() as int] matches IoOp::ListDir(d, p, files) && d
                == config.applications_dir@ && p == "*.yml"@ && (match files {
                None => out_lines(e) == out_lines(o) && (r matches Err(err) && err.code
                    == CommandExitCode::CannotReadApplicationsFolder),
                Some(fs) => exists|sorted_fs: Seq<Seq<char>>|
                    {
                        &&& #[trigger] sorted_fs.to_multiset() == fs.to_multiset()
                        &&& spec_sorted_lex(sorted_fs)
                        &&& out_lines(e) == out_lines(o) + sorted_fs.map_values(
                            |f: Seq<char>| spec_announce(spec_file_stem(f)),
                        )
                        &&& (r is Ok ==> forall|i: int|
                            0 <= i < sorted_fs.len() ==> spec_app_built(
                                e,
                                final(dck_helper).events(),
                                *config,
                                tmp_dir@,
                                spec_file_stem(#[trigger] sorted_fs[i]),
                            ))
                    },
            }))
        }),
{
    let ghost io0 = old(io_helper).events();
    let ghost dck0 = old(dck_helper).events();
    let ghost dl0 = old(dl_helper).events();
    proof {
        lemma_seq_extends_refl(io0);
        lemma_seq_extends_refl(dck0);
        lemma_seq_extends_refl(dl0);
    }
    match get_all(io_helper, config) {
        Ok(app_list) => {
            let ghost io1 = io_helper.events();
            proof {
                assert(io0.push(io_helper.events().last()) =~= io_helper.events());
                lemma_seq_extends_push_self(io0, io_helper.events().last());
                lemma_out_lines_push_other(io0, io_helper.events().last());
                assert(io1[io0.len() as int] == io1.last());
            }
            let r = build_some_application(
                io_helper,
                dck_helper,
                dl_helper,
                tmp_dir,
                options,
                config,
                &app_list,
            );
            proof {
                lemma_seq_extends_trans(io0, io1, io_helper.events());
                let e = io_helper.events();
                assert(e[io0.len() as int] == io1[io0.len() as int]) by {
                    assert(e.take(io1.len() as int) == io1);
                    assert(e.take(io1.len() as int)[io0.len() as int] == e[io0.len() as int]);
                }
                match io1.last() {
                    IoOp::ListDir(d, p, files) => {
                        match files {
                            Some(fs) => {
                                let sorted_fs = choose|sorted_fs: Seq<Seq<char>>|
                                    {
                                        &&& #[trigger] sorted_fs.to_multiset()
                                            == fs.to_multiset()
                                        &&& sorted_fs.len() == fs.len()
                                        &&& spec_sorted_lex(sorted_fs)
                                        &&& app_list.len() == fs.len()
                                        &&& forall|i: int|
                                            0 <= i < app_list.len()
                                                ==> app_list.deep_view()[i] == spec_file_stem(
                                                #[trigger] sorted_fs[i],
                                            )
                                    };
                                assert(app_list.deep_view().map_values(
                                    |a: Seq<char>| spec_announce(a),
                                ) =~= sorted_fs.map_values(
                                    |f: Seq<char>| spec_announce(spec_file_stem(f)),
                                ));
                                assert(out_lines(e) == out_lines(io0) + sorted_fs.map_values(
                                    |f: Seq<char>| spec_announce(spec_file_stem(f)),
                                ));
                                if r is Ok {
                                    assert forall|i2: int|
                                        0 <= i2 < sorted_fs.len() implies spec_app_built(
                                        e,
                                        dck_helper.events(),
                                        *config,
                                        tmp_dir@,
                                        spec_file_stem(#[trigger] sorted_fs[i2]),
                                    ) by {
                                        assert(app_list.deep_view()[i2] == spec_file_stem(
                                            sorted_fs[i2],
                                        ));
                                        assert(spec_app_built(
                                            e,
                                            dck_helper.events(),
                                            *config,
                                            tmp_dir@,
                                            app_list.deep_view()[i2],
                                        ));
                                    }
                                }
                            },
                            None => {},
                        }
                    },
                    _ => {},
                }
            }
            r
        },
        Err(err) => {
            proof {
                assert(io0.push(io_helper.events().last()) =~= io_helper.events());
                lemma_seq_extends_push_self(io0, io_helper.events().last());
                lemma_out_lines_push_other(io0, io_helper.events().last());
                assert(io_helper.events()[io0.len() as int] == io_helper.events().last());
            }
            Err(err)
        },
    }
}

} // verus!
