//! The `missing` selector: the applications whose image does not exist yet.

use vstd::prelude::*;
use crate::command::CommandError;
use crate::command::CommandExitCode;
use crate::command::check::CheckApplication;
use crate::command::check::get_check_application;
use crate::command::check::spec_check_outcome;
use crate::config::Config;
use crate::docker::ContainerHelper;
use crate::io::InputOutputHelper;
use crate::io::IoOp;
use crate::strutil::lemma_push_deep_view;
use crate::strutil::seq_extends;

verus! {

/// The names of the entries that are readable but have no built image,
/// in order.
pub open spec fn spec_missing_names(apps: Seq<CheckApplication>) -> Seq<Seq<char>>
    decreases apps.len(),
{
    if apps.len() == 0 {
        Seq::empty()
    } else {
        let rest = spec_missing_names(apps.drop_last());
        if !apps.last().is_error && !apps.last().is_build {
            rest.push(apps.last().name@)
        } else {
            rest
        }
    }
}

/// The applications that are readable but have no built image yet, in
/// sorted filename order: exactly the names of the catalog scan's entries
/// that are neither errors nor already built.
pub fn get_missing_application<I: InputOutputHelper, C: ContainerHelper>(
    io_helper: &mut I,
    dck_helper: &mut C,
    config: &Config,
) -> (r: Result<Vec<String>, CommandError>)
    ensures
        seq_extends(old(io_helper).events(), final(io_helper).events()),
        seq_extends(old(dck_helper).events(), final(dck_helper).events()),
        r matches Err(e) ==> (e.code == CommandExitCode::CannotReadApplicationsFolder
            && e.msg.len() >= 1),
        old(io_helper).events().len() < final(io_helper).events().len(),
        final(io_helper).events()[old(io_helper).events().len() as int] matches IoOp::ListDir(
            d,
            p,
            files,
        ) && d == config.applications_dir@ && p == "*.yml"@ && (match files {
            Some(fs) => r matches Ok(list) && exists|apps: Seq<CheckApplication>|
                #[trigger] spec_check_outcome(
                    apps,
                    fs,
                    old(io_helper).events(),
                    final(io_helper).events(),
                    final(dck_helper).events(),
                ) && list.deep_view() == spec_missing_names(apps),
            None => r matches Err(e) && e.code == CommandExitCode::CannotReadApplicationsFolder,
        }),
{
    let list_applications = match get_check_application(io_helper, dck_helper, config) {
        Ok(r) => r,
        Err(err) => {
            return Err(err);
        },
    };
    let ghost apps_view: Seq<CheckApplication> = list_applications@;
    let mut list_app: Vec<String> = Vec::new();
    let mut i: usize = 0;
    proof {
        assert(apps_view.take(0int) =~= Seq::<CheckApplication>::empty());
        assert(list_app.deep_view() =~= spec_missing_names(apps_view.take(0int)));
    }
    while i < list_applications.len()
        invariant
            i <= list_applications.len(),
            apps_view == list_applications@,
            list_app.deep_view() == spec_missing_names(apps_view.take(i as int)),
        decreases list_applications.len() - i,
    {
        let a = &list_applications[i];
        proof {
            assert(apps_view.take(i + 1).drop_last() =~= apps_view.take(i as int));
            assert(apps_view.take(i + 1).last() == apps_view[i as int]);
        }
        if !a.is_error && !a.is_build {
            let ghost prev = list_app;
            let ghost x = a.name;
            list_app.push(a.name.clone());
            proof {
                lemma_push_deep_view(prev, list_app, x);
                assert(list_app.deep_view() =~= spec_missing_names(apps_view.take(i + 1)));
            }
        } else {
            proof {
                assert(list_app.deep_view() =~= spec_missing_names(apps_view.take(i + 1)));
            }
        }
        i += 1;
    }
    proof {
        assert(apps_view.take(list_applications.len() as int) =~= apps_view);
    }
    Ok(list_app)
}

} // verus!
