//! The `build` command: resolves the selector, keeps one workspace for the
//! whole batch, drives each application's pipeline, and aggregates the
//! partial failures into one batch outcome.

pub mod all;
pub mod base;
pub mod dockerfile;
pub mod missing;
pub mod one;

use vstd::prelude::*;
use vstd::string::StringExecFns;
use crate::command::CommandError;
use crate::command::CommandExitCode;
use crate::command::CommandParameter;
use crate::config::Config;
use crate::config::create_config_filename_path;
use crate::config::dockerfile::DOCKERFILE_BASE_FILENAME;
use crate::config::dockerfile::ENTRYPOINT_FILENAME;
use crate::docker::ContainerHelper;
use crate::download::DownloadHelper;
use crate::io::InputOutputHelper;
use crate::io::IoOp;
use crate::io::convert_path;
use crate::docker::ContainerOp;
use crate::strutil::spec_path_join;
use crate::strutil::spec_sorted_lex;
use crate::strutil::spec_file_stem;
use crate::io::no_out_lines_added;
use crate::io::lemma_no_out_push;
use crate::io::lemma_no_out_refl;
use crate::io::lemma_no_out_trans;
use crate::io::lemma_no_out_keeps_out_lines;
use crate::io::lemma_out_lines_push_line;
use crate::io::lemma_out_lines_push_other;
use crate::io::out_lines;
use crate::strutil::lemma_seq_extends_push;
use crate::strutil::lemma_seq_extends_push_self;
use crate::strutil::lemma_seq_extends_refl;
use crate::strutil::lemma_seq_extends_trans;
use crate::strutil::path_join;
use crate::strutil::scat2;
use crate::strutil::scat3;
use crate::strutil::seq_extends;
use crate::strutil::six_digits;
use crate::strutil::spec_starts_with;
use crate::strutil::str_eq;
use crate::strutil::str_starts_with;
use crate::template::ManifestData;
use crate::template::render_manifest;
use crate::template::spec_render;
use self::all::build_all;
use self::base::build_base;
use self::missing::get_missing_application;
use self::one::build_one_application;
use self::one::spec_app_built;
use self::one::lemma_app_built_extends;

verus! {

/// The batch-level options of the `build` command.
pub struct BuildOptions {
    /// Build every application of the catalog.
    pub all: bool,
    /// Build only the shared base image.
    pub base: bool,
    /// Force the build, bypassing the engine's cache.
    pub force: bool,
    /// Build only the applications whose image does not exist yet.
    pub missing: bool,
    /// Never check whether a cached artifact has a newer remote version.
    pub skip_redownload: bool,
}

/// First half of the message shown for an unknown option.
pub const UNKNOWN_OPTION_PREFIX: &'static str = "d-sh build: invalid option '";

/// Second half of the message shown for an unknown option.
pub const UNKNOWN_OPTION_SUFFIX: &'static str =
    "'\nTry 'd-sh build --help' for more information.\n";

/// Relies on rand::random_range: a value drawn uniformly from the given
/// range; both ranges here are non-empty, so the call returns a value inside
/// them. The letter is returned as a one-character string.
#[verifier::external_body]
fn random_token_parts() -> (r: (String, u32))
    ensures
        r.0@.len() == 1,
        'A' as u32 <= r.0@[0] as u32,
        (r.0@[0] as u32) < ('Z' as u32),
        r.1 < 999999,
{
    let letter: char = rand::random_range(b'A'..b'Z') as char;
    let number: u32 = rand::random_range(0u32..999999u32);
    (letter.to_string(), number)
}

/// A fresh workspace token: one uppercase letter, then six decimal digits.
fn random_string() -> (r: String)
    ensures
        r@.len() == 7,
        'A' as u32 <= r@[0] as u32,
        (r@[0] as u32) < ('Z' as u32),
        forall|i: int| 1 <= i < 7 ==> crate::strutil::spec_is_ascii_digit(#[trigger] r@[i]),
{
    let (letter, number) = random_token_parts();
    let digits = six_digits(number);
    let r = scat2(letter.as_str(), digits.as_str());
    proof {
        crate::strutil::lemma_six_digits_are_digits(number as nat);
        assert(r@[0] == letter@[0]);
        assert(forall|i: int| 1 <= i < 7 ==> r@[i] == digits@[i - 1]);
    }
    r
}

/// Removes the batch's workspace; a failure yields its own exit code and
/// never overrides the batch outcome.
pub fn remove_tmp_dir<I: InputOutputHelper>(io_helper: &mut I, tmp_dir: &str) -> (r:
    CommandExitCode)
    ensures
        final(io_helper).events() == old(io_helper).events().push(
            IoOp::RemoveDir(tmp_dir@, r == CommandExitCode::Success),
        ),
        r == CommandExitCode::Success || r == CommandExitCode::CannotDeleteTemporaryFolder,
{
    match io_helper.remove_dir_all(tmp_dir) {
        Ok(_) => CommandExitCode::Success,
        Err(_) => CommandExitCode::CannotDeleteTemporaryFolder,
    }
}

/// Whether `p` is the manifest template's path for this configuration: the
/// configured one with its `~/` resolved, or the default under some home
/// directory.
pub open spec fn spec_is_template_path(config: Config, p: Seq<char>) -> bool {
    match config.dockerfile_filename {
        Some(d) => exists|h: Option<Seq<char>>| p == crate::io::spec_convert_path(h, d@),
        None => exists|h: Seq<char>| p == crate::config::spec_config_path(h, "Dockerfile.hbs"@),
    }
}

/// Whether `p` is the entrypoint script's path for this configuration.
pub open spec fn spec_is_entrypoint_path(config: Config, p: Seq<char>) -> bool {
    match config.entrypoint_filename {
        Some(d) => exists|h: Option<Seq<char>>| p == crate::io::spec_convert_path(h, d@),
        None => exists|h: Seq<char>| p == crate::config::spec_config_path(h, "entrypoint.sh"@),
    }
}

/// The manifest template's path: the configured one, or the default under
/// the home directory.
pub fn template_path(config: &Config) -> (r: Result<String, CommandError>)
    ensures
        r matches Err(e) ==> (e.code == CommandExitCode::CannotGetHomeFolder && e.msg.len() >= 1),
        r matches Ok(p) ==> spec_is_template_path(*config, p@),
{
    match &config.dockerfile_filename {
        Some(d) => Ok(convert_path(d.as_str())),
        None => match create_config_filename_path(DOCKERFILE_BASE_FILENAME) {
            Some(p) => Ok(p),
            None => {
                let mut msg: Vec<String> = Vec::new();
                msg.push(String::from_str("Unable to get your home dir!"));
                Err(CommandError { msg, code: CommandExitCode::CannotGetHomeFolder })
            },
        },
    }
}

/// The entrypoint script's path: the configured one, or the default under
/// the home directory.
pub fn entrypoint_path(config: &Config) -> (r: Result<String, CommandError>)
    ensures
        r matches Err(e) ==> (e.code == CommandExitCode::CannotGetHomeFolder && e.msg.len() >= 1),
        r matches Ok(p) ==> spec_is_entrypoint_path(*config, p@),
{
    match &config.entrypoint_filename {
        Some(d) => Ok(convert_path(d.as_str())),
        None => match create_config_filename_path(ENTRYPOINT_FILENAME) {
            Some(p) => Ok(p),
            None => {
                let mut msg: Vec<String> = Vec::new();
                msg.push(String::from_str("Unable to get your home dir!"));
                Err(CommandError { msg, code: CommandExitCode::CannotGetHomeFolder })
            },
        },
    }
}

/// The engine options of one build: `--no-cache` exactly on a forced batch.
pub fn make_build_args(options: &BuildOptions) -> (r: Vec<String>)
    ensures
        options.force ==> r.deep_view() == seq!["--no-cache"@],
        !options.force ==> r.deep_view() == Seq::<Seq<char>>::empty(),
{
    let mut build_args: Vec<String> = Vec::new();
    proof {
        assert(build_args.deep_view() =~= Seq::<Seq<char>>::empty());
    }
    if options.force {
        build_args.push(String::from_str("--no-cache"));
        proof {
            assert(build_args.deep_view() =~= seq!["--no-cache"@]);
        }
    }
    build_args
}

/// Renders the manifest over `template` and writes it to `output_filename`.
///
/// The written contents are exactly what the engine renders; a template the
/// engine rejects is reported with its own code, a failed write with
/// another.
pub fn render_and_write<I: InputOutputHelper>(
    io_helper: &mut I,
    template: &str,
    output_filename: &str,
    data: &ManifestData,
) -> (r: Result<(), CommandError>)
    ensures
        no_out_lines_added(old(io_helper).events(), final(io_helper).events()),
        r matches Err(e) ==> e.msg.len() >= 1,
        final(io_helper).events().len() <= old(io_helper).events().len() + 1,
        r is Ok ==> (final(io_helper).events().len() == old(io_helper).events().len() + 1 && (
        final(io_helper).events().last() matches IoOp::WriteFile(out, s, true) && out
            == output_filename@ && spec_render(template@, *data) == Some(s))),
        r is Ok <==> (spec_render(template@, *data) is Some && final(io_helper).events().len()
            == old(io_helper).events().len() + 1 && (final(io_helper).events().last()
            matches IoOp::WriteFile(_, _, true))),
        r matches Err(e) ==> (e.code == CommandExitCode::DockerfileTemplateInvalid || e.code
            == CommandExitCode::CannotGenerateDockerfile),
        (r matches Err(e) && e.code == CommandExitCode::DockerfileTemplateInvalid) <==> spec_render(
            template@,
            *data,
        ) is None,
        (r matches Err(e) && e.code == CommandExitCode::DockerfileTemplateInvalid) ==> final(io_helper).events() == old(io_helper).events(),
        r matches Err(e) ==> (e.code == CommandExitCode::DockerfileTemplateInvalid ==> (
        e.msg.len() == 2 && e.msg[0]@ == "Something is wrong in Dockerfile template!"@)),
        r matches Err(e) ==> (e.code == CommandExitCode::CannotGenerateDockerfile ==> (e.msg.len()
            == 2 && e.msg[0]@
            == "Unable to generate Dockerfile for build. Please check right!"@)),
        (r matches Err(e) && e.code == CommandExitCode::CannotGenerateDockerfile) <==> (
        spec_render(template@, *data) is Some && final(io_helper).events().len() == old(
            io_helper,
        ).events().len() + 1 && (final(io_helper).events().last() matches IoOp::WriteFile(
            _,
            _,
            false,
        ))),
{
    let ghost o = old(io_helper).events();
    proof {
        lemma_no_out_refl(o);
    }
    let content = match render_manifest(template, data) {
        Ok(c) => c,
        Err(err) => {
            let mut msg: Vec<String> = Vec::new();
            msg.push(String::from_str("Something is wrong in Dockerfile template!"));
            msg.push(err);
            return Err(CommandError { msg, code: CommandExitCode::DockerfileTemplateInvalid });
        },
    };
    if let Err(err) = io_helper.file_write(output_filename, content.as_str()) {
        proof {
            lemma_no_out_push(o, o, io_helper.events().last());
            assert(o.push(io_helper.events().last()) =~= io_helper.events());
        }
        let mut msg: Vec<String> = Vec::new();
        msg.push(String::from_str("Unable to generate Dockerfile for build. Please check right!"));
        msg.push(err);
        return Err(CommandError { msg, code: CommandExitCode::CannotGenerateDockerfile });
    }
    proof {
        lemma_no_out_push(o, o, io_helper.events().last());
        assert(o.push(io_helper.events().last()) =~= io_helper.events());
    }
    Ok(())
}

/// Renders the manifest template file to `output_filename`.
///
/// The template's existence is checked and its text read first; a missing
/// template asks the user to run `init`, and on success the written
/// manifest is exactly what the engine renders from the file's text.
pub fn generate_dockerfile<I: InputOutputHelper>(
    io_helper: &mut I,
    template_filename: &str,
    output_filename: &str,
    data: &ManifestData,
) -> (r: Result<(), CommandError>)
    ensures
        no_out_lines_added(old(io_helper).events(), final(io_helper).events()),
        r matches Err(e) ==> e.msg.len() >= 1,
        final(io_helper).events().len() > old(io_helper).events().len(),
        ({
            let e = final(io_helper).events();
            let o = old(io_helper).events();
            e[o.len() as int] matches IoOp::QueryExists(t, ex) && t == template_filename@ && ((
            r matches Err(err) && err.code == CommandExitCode::TemplateNotFound) <==> !ex)
        }),
        r is Ok ==> ({
            let e = final(io_helper).events();
            let o = old(io_helper).events();
            e.len() == o.len() + 3 && (e[o.len() as int + 1] matches IoOp::ReadFile(tp, c) && tp
                == template_filename@ && (c matches Some(tc) && (e.last()
                matches IoOp::WriteFile(out, s, true) && out == output_filename@ && spec_render(
                tc,
                *data,
            ) == Some(s))))
        }),
        r is Ok <==> ({
            let e = final(io_helper).events();
            let o = old(io_helper).events();
            e.len() == o.len() + 3 && (e[o.len() as int] matches IoOp::QueryExists(_, ex) && ex)
                && (e[o.len() as int + 1] matches IoOp::ReadFile(_, c) && (c matches Some(tc)
                && spec_render(tc, *data) is Some)) && (e.last() matches IoOp::WriteFile(
                _,
                _,
                ok,
            ) && ok)
        }),
        ({
            let e = final(io_helper).events();
            let o = old(io_helper).events();
            (e[o.len() as int] matches IoOp::QueryExists(_, ex) && !ex) ==> (r matches Err(err)
                && err.msg.len() == 1 && err.msg[0]@ == "The file '"@ + template_filename@
                + "' doesn't exits. Please run 'init' command first."@)
        }),
        r matches Err(e) ==> (e.code == CommandExitCode::TemplateNotFound || e.code
            == CommandExitCode::DockerfileTemplateInvalid || e.code
            == CommandExitCode::CannotGenerateDockerfile),
        r matches Err(e) ==> ({
            let ev = final(io_helper).events();
            let o = old(io_helper).events();
            &&& (e.code == CommandExitCode::TemplateNotFound ==> ev.len() == o.len() + 1 && (
            ev.last() matches IoOp::QueryExists(_, ex) && !ex))
            &&& (e.code == CommandExitCode::CannotGenerateDockerfile ==> (e.msg.len() == 2 && ((
            (ev.last() matches IoOp::ReadFile(_, c) && c is None) && e.msg[0]@
                == "Unable to read Dockerfile template. Please check right!"@) || ((
            ev.last() matches IoOp::WriteFile(_, _, ok) && !ok) && e.msg[0]@
                == "Unable to generate Dockerfile for build. Please check right!"@))))
            &&& (e.code == CommandExitCode::DockerfileTemplateInvalid ==> (ev.len() == o.len()
                + 2 && (ev.last() matches IoOp::ReadFile(_, c) && (c matches Some(tc)
                && spec_render(tc, *data) is None)) && e.msg.len() == 2 && e.msg[0]@
                == "Something is wrong in Dockerfile template!"@))
        }),
{
    let ghost o = old(io_helper).events();
    proof {
        lemma_no_out_refl(o);
    }
    if !io_helper.file_exits(template_filename) {
        proof {
            lemma_no_out_push(o, o, io_helper.events().last());
            assert(o.push(io_helper.events().last()) =~= io_helper.events());
        }
        let mut msg: Vec<String> = Vec::new();
        msg.push(
            scat3(
                "The file '",
                template_filename,
                "' doesn't exits. Please run 'init' command first.",
            ),
        );
        return Err(CommandError { msg, code: CommandExitCode::TemplateNotFound });
    }
    proof {
        lemma_no_out_push(o, o, io_helper.events().last());
        assert(o.push(io_helper.events().last()) =~= io_helper.events());
    }
    let ghost o1 = io_helper.events();
    let source_template = match io_helper.file_read_at_string(template_filename) {
        Ok(t) => t,
        Err(err) => {
            proof {
                lemma_no_out_refl(o1);
                lemma_no_out_push(o1, o1, io_helper.events().last());
                assert(o1.push(io_helper.events().last()) =~= io_helper.events());
                lemma_no_out_trans(o, o1, io_helper.events());
            }
            let mut msg: Vec<String> = Vec::new();
            msg.push(String::from_str("Unable to read Dockerfile template. Please check right!"));
            msg.push(err);
            return Err(CommandError { msg, code: CommandExitCode::CannotGenerateDockerfile });
        },
    };
    proof {
        lemma_no_out_refl(o1);
        lemma_no_out_push(o1, o1, io_helper.events().last());
        assert(o1.push(io_helper.events().last()) =~= io_helper.events());
        lemma_no_out_trans(o, o1, io_helper.events());
    }
    let ghost o2 = io_helper.events();
    let r = render_and_write(io_helper, source_template.as_str(), output_filename, data);
    proof {
        lemma_no_out_trans(o, o2, io_helper.events());
    }
    r
}

/// One batch failure: the failing application's name and its message lines.
pub open spec fn spec_header(name: Seq<char>) -> Seq<char> {
    "Build "@ + name + " failed!"@
}

/// The aggregated message of a batch: for every failure, its header line
/// followed by its own message lines, in batch order.
pub open spec fn spec_batch_message(fails: Seq<(Seq<char>, Seq<Seq<char>>)>) -> Seq<Seq<char>>
    decreases fails.len(),
{
    if fails.len() == 0 {
        Seq::empty()
    } else {
        spec_batch_message(fails.drop_last()) + seq![spec_header(fails.last().0)]
            + fails.last().1
    }
}

/// The failures of a batch, as name and message views.
pub open spec fn spec_failures_view(fs: Seq<(String, CommandError)>) -> Seq<
    (Seq<char>, Seq<Seq<char>>),
> {
    fs.map_values(|p: (String, CommandError)| (p.0@, p.1.msg.deep_view()))
}

/// Concludes a batch: it succeeds exactly when no application failed, and
/// otherwise fails with one combined message that lists, for every failed
/// application, its header line followed by its own message lines, in batch
/// order.
pub fn aggregate_batch_failures(failures: Vec<(String, CommandError)>) -> (r: Result<
    (),
    CommandError,
>)
    ensures
        r is Ok <==> failures.len() == 0,
        r matches Err(e) ==> e.msg.len() >= 1,
        r matches Err(e) ==> e.code == CommandExitCode::DockerBuildFail && e.msg.deep_view()
            == spec_batch_message(spec_failures_view(failures@)),
{
    if failures.len() == 0 {
        return Ok(());
    }
    let ghost fview = spec_failures_view(failures@);
    let mut err_msg: Vec<String> = Vec::new();
    let mut i: usize = 0;
    while i < failures.len()
        invariant
            i <= failures.len(),
            fview == spec_failures_view(failures@),
            fview.len() == failures.len(),
            err_msg.deep_view() == spec_batch_message(fview.take(i as int)),
        decreases failures.len() - i,
    {
        let ghost before = err_msg.deep_view();
        let name = &failures[i].0;
        let ghost prev0 = err_msg;
        let header_line = scat3("Build ", name.as_str(), " failed!");
        let ghost hx = header_line;
        err_msg.push(header_line);
        proof {
            crate::strutil::lemma_push_deep_view(prev0, err_msg, hx);
            reveal_strlit("Build ");
            reveal_strlit(" failed!");
            assert(fview[i as int].0 == failures@[i as int].0@);
            assert(err_msg.deep_view() =~= before + seq![spec_header(fview[i as int].0)]
                + Seq::<Seq<char>>::empty());
            assert(Seq::<Seq<char>>::empty() =~= failures@[i as int].1.msg.deep_view().take(
                0int,
            ));
        }
        let detail = &failures[i].1.msg;
        let mut k: usize = 0;
        while k < detail.len()
            invariant
                k <= detail.len(),
                err_msg.deep_view() == before + seq![spec_header(fview[i as int].0)]
                    + detail.deep_view().take(k as int),
                fview == spec_failures_view(failures@),
                fview.len() == failures.len(),
                i < failures.len(),
                before == spec_batch_message(fview.take(i as int)),
                fview[i as int].1 == detail.deep_view(),
            decreases detail.len() - k,
        {
            let ghost prevk = err_msg;
            let ghost xk = detail@[k as int];
            err_msg.push(detail[k].clone());
            proof {
                crate::strutil::lemma_push_deep_view(prevk, err_msg, xk);
                assert(detail.deep_view()[k as int] == detail[k as int]@);
                assert(detail.deep_view().take(k + 1) =~= detail.deep_view().take(
                    k as int,
                ).push(detail.deep_view()[k as int]));
                assert(err_msg.deep_view() =~= before + seq![spec_header(fview[i as int].0)]
                    + detail.deep_view().take(k + 1));
            }
            k += 1;
        }
        proof {
            assert(detail.deep_view().take(detail.len() as int) =~= detail.deep_view());
            assert(fview.take(i + 1).drop_last() =~= fview.take(i as int));
            assert(err_msg.deep_view() =~= spec_batch_message(fview.take(i + 1)));
        }
        i += 1;
    }
    proof {
        assert(fview.take(failures.len() as int) =~= fview);
    }
    Err(CommandError { msg: err_msg, code: CommandExitCode::DockerBuildFail })
}

/// Whether a message line has the shape of a batch header.
pub open spec fn spec_is_header_line(l: Seq<char>) -> bool {
    l.len() >= 14 && l.take(6) == "Build "@ && l.skip(l.len() - 8) == " failed!"@
}

/// How many header lines a message holds.
pub open spec fn spec_header_count(msgs: Seq<Seq<char>>) -> int {
    msgs.filter(|l: Seq<char>| spec_is_header_line(l)).len() as int
}

/// A batch that fails with K failures shows exactly K header lines, as long
/// as no failure's own message lines look like a header themselves.
pub proof fn lemma_batch_header_count(fails: Seq<(Seq<char>, Seq<Seq<char>>)>)
    requires
        forall|i: int, j: int|
            0 <= i < fails.len() && 0 <= j < fails[i].1.len() ==> !spec_is_header_line(
                #[trigger] fails[i].1[j],
            ),
    ensures
        spec_header_count(spec_batch_message(fails)) == fails.len(),
    decreases fails.len(),
{
    reveal_strlit("Build ");
    reveal_strlit(" failed!");
    let p = |l: Seq<char>| spec_is_header_line(l);
    if fails.len() == 0 {
        reveal(Seq::filter);
        assert(spec_batch_message(fails).filter(p).len() == 0);
    } else {
        let prefix = fails.drop_last();
        assert forall|i: int, j: int|
            0 <= i < prefix.len() && 0 <= j < prefix[i].1.len() implies !spec_is_header_line(
            #[trigger] prefix[i].1[j],
        ) by {
            assert(prefix[i] == fails[i]);
            assert(!spec_is_header_line(fails[i].1[j]));
        }
        lemma_batch_header_count(prefix);
        let h = spec_header(fails.last().0);
        assert(spec_is_header_line(h)) by {
            let name = fails.last().0;
            assert(h.len() == 6 + name.len() + 8);
            assert(h.take(6) =~= "Build "@);
            assert(h.skip(h.len() - 8) =~= " failed!"@);
        }
        let a = spec_batch_message(prefix);
        let b = seq![h];
        let c = fails.last().1;
        Seq::filter_distributes_over_add(a, b, p);
        Seq::filter_distributes_over_add(a + b, c, p);
        assert(b.filter(p) =~= b) by {
            reveal(Seq::filter);
            assert(b.drop_last() =~= Seq::<Seq<char>>::empty());
            assert(Seq::<Seq<char>>::empty().filter(p).len() == 0);
        }
        assert(c.filter(p).len() == 0) by {
            lemma_filter_none(c, p);
        }
        assert(spec_batch_message(fails) == a + b + c);
    }
}

proof fn lemma_filter_none<A>(s: Seq<A>, p: spec_fn(A) -> bool)
    requires
        forall|i: int| 0 <= i < s.len() ==> !p(#[trigger] s[i]),
    ensures
        s.filter(p).len() == 0,
    decreases s.len(),
{
    reveal(Seq::filter);
    if s.len() > 0 {
        lemma_filter_none(s.drop_last(), p);
    }
}

/// The names among `apps` that the given per-application verdicts mark as
/// failed, in order.
pub open spec fn spec_failed_names(apps: Seq<Seq<char>>, flags: Seq<bool>) -> Seq<Seq<char>>
    decreases apps.len(),
{
    if apps.len() == 0 || flags.len() != apps.len() {
        Seq::empty()
    } else {
        let rest = spec_failed_names(apps.drop_last(), flags.drop_last());
        if flags.last() {
            rest.push(apps.last())
        } else {
            rest
        }
    }
}

/// The announcement line printed before one application's build.
pub open spec fn spec_announce(app: Seq<char>) -> Seq<char> {
    "Building "@ + app + "..."@
}

/// Builds the given applications in order, announcing each, and aggregates
/// the outcome: the batch succeeds exactly when every application did.
///
/// The lines printed on standard output are exactly the announcements, one
/// per application, in the selector's order.
pub fn build_some_application<I: InputOutputHelper, C: ContainerHelper, D: DownloadHelper>(
    io_helper: &mut I,
    dck_helper: &mut C,
    dl_helper: &mut D,
    tmp_dir: &str,
    options: &BuildOptions,
    config: &Config,
    applications: &Vec<String>,
) -> (r: Result<(), CommandError>)
    ensures
        seq_extends(old(io_helper).events(), final(io_helper).events()),
        seq_extends(old(dck_helper).events(), final(dck_helper).events()),
        seq_extends(old(dl_helper).events(), final(dl_helper).events()),
        r matches Err(e) ==> e.msg.len() >= 1,
        out_lines(final(io_helper).events()) == out_lines(old(io_helper).events())
            + applications.deep_view().map_values(|a: Seq<char>| spec_announce(a)),
        r is Ok ==> forall|i: int|
            0 <= i < applications.len() ==> spec_app_built(
                final(io_helper).events(),
                final(dck_helper).events(),
                *config,
                tmp_dir@,
                #[trigger] applications.deep_view()[i],
            ),
        exists|flags: Seq<bool>|
            #![trigger spec_failed_names(applications.deep_view(), flags)]
            {
                &&& flags.len() == applications.len()
                &&& forall|i: int|
                    0 <= i < flags.len() && !flags[i] ==> spec_app_built(
                        final(io_helper).events(),
                        final(dck_helper).events(),
                        *config,
                        tmp_dir@,
                        #[trigger] applications.deep_view()[i],
                    )
                &&& (r is Ok ==> forall|i: int| 0 <= i < flags.len() ==> !(#[trigger] flags[i]))
                &&& (r matches Err(e) ==> (e.code == CommandExitCode::DockerBuildFail && exists|
                    fails: Seq<(Seq<char>, Seq<Seq<char>>)>,
                |
                    #![trigger spec_batch_message(fails)]
                    {
                        &&& e.msg.deep_view() == spec_batch_message(fails)
                        &&& 0 < fails.len() <= applications.len()
                        &&& fails.map_values(|p: (Seq<char>, Seq<Seq<char>>)| p.0)
                            == spec_failed_names(applications.deep_view(), flags)
                        &&& forall|i: int|
                            0 <= i < fails.len() ==> applications.deep_view().contains(
                                #[trigger] fails[i].0,
                            )
                    }))
            },
{
    let ghost io0 = old(io_helper).events();
    let ghost dck0 = old(dck_helper).events();
    let ghost dl0 = old(dl_helper).events();
    proof {
        lemma_seq_extends_refl(io0);
        lemma_seq_extends_refl(dck0);
        lemma_seq_extends_refl(dl0);
    }
    let ghost announce_of = |a: Seq<char>| spec_announce(a);
    proof {
        assert(applications.deep_view().take(0int).map_values(announce_of)
            =~= Seq::<Seq<char>>::empty());
        assert(out_lines(io0) + Seq::<Seq<char>>::empty() =~= out_lines(io0));
    }
    let mut app_build_fail: Vec<(String, CommandError)> = Vec::new();
    let mut i: usize = 0;
    let ghost mut flags: Seq<bool> = Seq::empty();
    proof {
        assert(applications.deep_view().take(0int) =~= Seq::<Seq<char>>::empty());
        assert(spec_failures_view(app_build_fail@).map_values(
            |p: (Seq<char>, Seq<Seq<char>>)| p.0,
        ) =~= spec_failed_names(applications.deep_view().take(0int), flags));
    }
    while i < applications.len()
        invariant
            i <= applications.len(),
            seq_extends(io0, io_helper.events()),
            seq_extends(dck0, dck_helper.events()),
            seq_extends(dl0, dl_helper.events()),
            out_lines(io_helper.events()) == out_lines(io0) + applications.deep_view().take(
                i as int,
            ).map_values(announce_of),
            announce_of == |a: Seq<char>| spec_announce(a),
            app_build_fail.len() <= i,
            flags.len() == i,
            spec_failures_view(app_build_fail@).map_values(
                |p: (Seq<char>, Seq<Seq<char>>)| p.0,
            ) == spec_failed_names(applications.deep_view().take(i as int), flags),
            forall|k: int|
                0 <= k < app_build_fail@.len() ==> applications.deep_view().contains(
                    (#[trigger] app_build_fail@[k]).0@,
                ),
            forall|k: int|
                0 <= k < i && !flags[k] ==> spec_app_built(
                    io_helper.events(),
                    dck_helper.events(),
                    *config,
                    tmp_dir@,
                    #[trigger] applications.deep_view()[k],
                ),
        decreases applications.len() - i,
    {
        let app = &applications[i];
        let announce = scat3("Building ", app.as_str(), "...");
        let ghost io_a = io_helper.events();
        io_helper.println(announce.as_str());
        proof {
            lemma_seq_extends_push_self(io_a, io_helper.events().last());
            assert(io_a.push(io_helper.events().last()) =~= io_helper.events());
            lemma_seq_extends_trans(io0, io_a, io_helper.events());
            lemma_out_lines_push_line(io_a, announce@);
            assert(applications.deep_view()[i as int] == applications[i as int]@);
            assert(announce@ == spec_announce(applications.deep_view()[i as int]));
            assert(applications.deep_view().take(i + 1).map_values(announce_of)
                =~= applications.deep_view().take(i as int).map_values(announce_of).push(
                spec_announce(applications.deep_view()[i as int])));
            assert(out_lines(io_helper.events()) =~= out_lines(io0)
                + applications.deep_view().take(i + 1).map_values(announce_of));
        }
        let ghost io_b = io_helper.events();
        let ghost dck_b = dck_helper.events();
        let ghost dl_b = dl_helper.events();
        let ghost fv_before = spec_failures_view(app_build_fail@);
        let ghost flags_old = flags;
        if let Err(err) = build_one_application(
            io_helper,
            dck_helper,
            dl_helper,
            tmp_dir,
            options,
            config,
            app,
        ) {
            app_build_fail.push((app.clone(), err));
            proof {
                flags = flags.push(true);
                assert(flags.drop_last() =~= flags_old);
                assert(applications.deep_view()[i as int] == app@);
                assert(app_build_fail@.last().0@ == app@);
                lemma_failed_names_step(applications.deep_view(), flags, i as int);
                assert(spec_failures_view(app_build_fail@) =~= fv_before.push(
                    (app@, app_build_fail@.last().1.msg.deep_view()),
                ));
                assert(spec_failures_view(app_build_fail@).map_values(
                    |p: (Seq<char>, Seq<Seq<char>>)| p.0,
                ) =~= fv_before.map_values(|p: (Seq<char>, Seq<Seq<char>>)| p.0).push(app@));
                assert(spec_failed_names(applications.deep_view().take(i + 1), flags)
                    == spec_failed_names(applications.deep_view().take(i as int), flags_old)
                    .push(applications.deep_view()[i as int]));
                assert(spec_failures_view(app_build_fail@).map_values(
                    |p: (Seq<char>, Seq<Seq<char>>)| p.0,
                ) =~= spec_failed_names(applications.deep_view().take(i + 1), flags));
            }
        } else {
            proof {
                flags = flags.push(false);
                assert(flags.drop_last() =~= flags_old);
                lemma_failed_names_step(applications.deep_view(), flags, i as int);
                assert(spec_failed_names(applications.deep_view().take(i + 1), flags)
                    == spec_failed_names(applications.deep_view().take(i as int), flags_old));
                assert(spec_failures_view(app_build_fail@).map_values(
                    |p: (Seq<char>, Seq<Seq<char>>)| p.0,
                ) =~= spec_failed_names(applications.deep_view().take(i + 1), flags));
            }
        }
        proof {
            lemma_seq_extends_trans(io0, io_b, io_helper.events());
            lemma_seq_extends_trans(dck0, dck_b, dck_helper.events());
            lemma_seq_extends_trans(dl0, dl_b, dl_helper.events());
            lemma_no_out_keeps_out_lines(io_b, io_helper.events());
            lemma_seq_extends_trans(io_a, io_b, io_helper.events());
            assert forall|k: int|
                0 <= k < i + 1 && !flags[k] implies spec_app_built(
                io_helper.events(),
                dck_helper.events(),
                *config,
                tmp_dir@,
                #[trigger] applications.deep_view()[k],
            ) by {
                if k < i as int {
                    lemma_app_built_extends(
                        io_a,
                        io_helper.events(),
                        dck_b,
                        dck_helper.events(),
                        *config,
                        tmp_dir@,
                        applications.deep_view()[k],
                    );
                }
            }
        }
        i += 1;
    }
    proof {
        assert(applications.deep_view().take(applications.len() as int)
            =~= applications.deep_view());
    }
    let ghost fv = app_build_fail@;
    let ghost fview = spec_failures_view(fv);
    let r = aggregate_batch_failures(app_build_fail);
    proof {
        assert(applications.deep_view().take(applications.len() as int)
            =~= applications.deep_view());
        if r is Ok {
            assert(fv.len() == 0);
            assert(fview.map_values(|p: (Seq<char>, Seq<Seq<char>>)| p.0).len() == 0);
            lemma_failed_names_empty(applications.deep_view(), flags);
            assert forall|i2: int|
                0 <= i2 < applications.len() implies spec_app_built(
                io_helper.events(),
                dck_helper.events(),
                *config,
                tmp_dir@,
                #[trigger] applications.deep_view()[i2],
            ) by {
                assert(!flags[i2]);
            }
        }
        if r is Err {
            assert(fview.len() > 0);
            assert(forall|k: int|
                0 <= k < fview.len() ==> (#[trigger] fview[k]).0 == fv[k].0@);
            assert(forall|k: int|
                0 <= k < fview.len() ==> applications.deep_view().contains(
                    (#[trigger] fview[k]).0,
                ));
            assert(fview.map_values(|p: (Seq<char>, Seq<Seq<char>>)| p.0) == spec_failed_names(
                applications.deep_view(),
                flags,
            ));
        }
    }
    r
}

/// An empty failed-name selection means every verdict was a success.
proof fn lemma_failed_names_empty(apps: Seq<Seq<char>>, flags: Seq<bool>)
    requires
        flags.len() == apps.len(),
        spec_failed_names(apps, flags).len() == 0,
    ensures
        forall|i: int| 0 <= i < flags.len() ==> !(#[trigger] flags[i]),
    decreases apps.len(),
{
    if apps.len() > 0 {
        assert(!flags.last());
        lemma_failed_names_empty(apps.drop_last(), flags.drop_last());
        assert forall|i: int| 0 <= i < flags.len() implies !(#[trigger] flags[i]) by {
            if i < flags.len() - 1 {
                assert(flags.drop_last()[i] == flags[i]);
            }
        }
    }
}

/// One more verdict extends the failed-name selection by the application's
/// name exactly when it failed.
proof fn lemma_failed_names_step(apps: Seq<Seq<char>>, flags: Seq<bool>, i: int)
    requires
        0 <= i < apps.len(),
        flags.len() == i + 1,
    ensures
        spec_failed_names(apps.take(i + 1), flags) == if flags.last() {
            spec_failed_names(apps.take(i), flags.drop_last()).push(apps[i])
        } else {
            spec_failed_names(apps.take(i), flags.drop_last())
        },
{
    assert(apps.take(i + 1).drop_last() =~= apps.take(i));
    assert(apps.take(i + 1).last() == apps[i]);
}

/// An option that asks for the usage text.
pub open spec fn spec_opt_help(o: Seq<char>) -> bool {
    o == "-h"@ || o == "--help"@
}

/// An option the `build` command knows, other than the usage request.
pub open spec fn spec_opt_known(o: Seq<char>) -> bool {
    o == "-a"@ || o == "--all"@ || o == "-b"@ || o == "--base"@ || o == "-f"@ || o == "--force"@
        || o == "-m"@ || o == "--missing"@ || o == "-s"@ || o == "--skip-redownload"@
}

/// How the option list ends: with the usage text, with a refusal of the
/// first unknown option, or by proceeding to the build.
pub enum OptionsOutcome {
    ShowUsage,
    Refuse(Seq<char>),
    Proceed,
}

/// The outcome of scanning the options in order.
pub open spec fn spec_options_outcome(opts: Seq<Seq<char>>) -> OptionsOutcome
    decreases opts.len(),
{
    if opts.len() == 0 {
        OptionsOutcome::Proceed
    } else if spec_opt_help(opts[0]) {
        OptionsOutcome::ShowUsage
    } else if !spec_opt_known(opts[0]) {
        OptionsOutcome::Refuse(opts[0])
    } else {
        spec_options_outcome(opts.drop_first())
    }
}

/// The options among the arguments: those that start with a dash.
pub open spec fn spec_opts_of(args: Seq<Seq<char>>) -> Seq<Seq<char>> {
    args.filter(|a: Seq<char>| spec_starts_with(a, seq!['-']))
}

/// The application names among the arguments: those without a dash.
pub open spec fn spec_apps_of(args: Seq<Seq<char>>) -> Seq<Seq<char>> {
    args.filter(|a: Seq<char>| !spec_starts_with(a, seq!['-']))
}

/// Whether some option is the given flag, in its short or long form.
pub open spec fn spec_flag(opts: Seq<Seq<char>>, short: Seq<char>, long: Seq<char>) -> bool {
    exists|i: int| 0 <= i < opts.len() && (#[trigger] opts[i] == short || opts[i] == long)
}

/// The build options are pairwise distinct words, so matching one form
/// rules the other flags out.
proof fn lemma_option_literals_distinct()
    ensures
        "-h"@ != "-b"@ && "-h"@ != "--base"@ && "-h"@ != "-a"@ && "-h"@ != "--all"@ && "-h"@
            != "-m"@ && "-h"@ != "--missing"@,
        "--help"@ != "-b"@ && "--help"@ != "--base"@ && "--help"@ != "-a"@ && "--help"@
            != "--all"@ && "--help"@ != "-m"@ && "--help"@ != "--missing"@,
        "-a"@ != "-b"@ && "-a"@ != "--base"@ && "-a"@ != "-m"@ && "-a"@ != "--missing"@,
        "--all"@ != "-b"@ && "--all"@ != "--base"@ && "--all"@ != "-m"@ && "--all"@
            != "--missing"@,
        "-b"@ != "-m"@ && "-b"@ != "--missing"@ && "--base"@ != "-m"@ && "--base"@
            != "--missing"@,
        "-f"@ != "-b"@ && "-f"@ != "--base"@ && "-f"@ != "-a"@ && "-f"@ != "--all"@ && "-f"@
            != "-m"@ && "-f"@ != "--missing"@,
        "--force"@ != "-b"@ && "--force"@ != "--base"@ && "--force"@ != "-a"@ && "--force"@
            != "--all"@ && "--force"@ != "-m"@ && "--force"@ != "--missing"@,
        "-s"@ != "-b"@ && "-s"@ != "--base"@ && "-s"@ != "-a"@ && "-s"@ != "--all"@ && "-s"@
            != "-m"@ && "-s"@ != "--missing"@,
        "--skip-redownload"@ != "-b"@ && "--skip-redownload"@ != "--base"@
            && "--skip-redownload"@ != "-a"@ && "--skip-redownload"@ != "--all"@
            && "--skip-redownload"@ != "-m"@ && "--skip-redownload"@ != "--missing"@,
{
    reveal_strlit("-h");
    reveal_strlit("--help");
    reveal_strlit("-a");
    reveal_strlit("--all");
    reveal_strlit("-b");
    reveal_strlit("--base");
    reveal_strlit("-f");
    reveal_strlit("--force");
    reveal_strlit("-m");
    reveal_strlit("--missing");
    reveal_strlit("-s");
    reveal_strlit("--skip-redownload");
    assert("-h"@.len() == 2 && "-a"@.len() == 2 && "-b"@.len() == 2 && "-f"@.len() == 2
        && "-m"@.len() == 2 && "-s"@.len() == 2);
    assert("--help"@.len() == 6 && "--all"@.len() == 5 && "--base"@.len() == 6 && "--force"@.len()
        == 7 && "--missing"@.len() == 9 && "--skip-redownload"@.len() == 17);
    assert("-h"@[1] == 'h' && "-a"@[1] == 'a' && "-b"@[1] == 'b' && "-f"@[1] == 'f' && "-m"@[1]
        == 'm' && "-s"@[1] == 's');
    assert("--help"@[2] == 'h' && "--base"@[2] == 'b');
    assert('h' as u32 != 'b' as u32 && 'h' as u32 != 'a' as u32 && 'h' as u32 != 'm' as u32);
    assert('a' as u32 != 'b' as u32 && 'a' as u32 != 'm' as u32 && 'b' as u32 != 'm' as u32);
    assert('f' as u32 != 'b' as u32 && 'f' as u32 != 'a' as u32 && 'f' as u32 != 'm' as u32);
    assert('s' as u32 != 'b' as u32 && 's' as u32 != 'a' as u32 && 's' as u32 != 'm' as u32);
}

/// One more option extends a flag exactly when it is that flag's short or
/// long form.
proof fn lemma_flag_push(opts: Seq<Seq<char>>, k: int, short: Seq<char>, long: Seq<char>)
    requires
        0 <= k < opts.len(),
    ensures
        spec_flag(opts.take(k + 1), short, long) <==> (spec_flag(opts.take(k), short, long)
            || opts[k] == short || opts[k] == long),
{
    if spec_flag(opts.take(k + 1), short, long) {
        let w = choose|w: int|
            0 <= w < opts.take(k + 1).len() && (#[trigger] opts.take(k + 1)[w] == short
                || opts.take(k + 1)[w] == long);
        if w < k {
            assert(opts.take(k)[w] == opts.take(k + 1)[w]);
        } else {
            assert(opts.take(k + 1)[k] == opts[k]);
        }
    }
    if spec_flag(opts.take(k), short, long) {
        let w = choose|w: int|
            0 <= w < opts.take(k).len() && (#[trigger] opts.take(k)[w] == short || opts.take(k)[w]
                == long);
        assert(opts.take(k + 1)[w] == opts.take(k)[w]);
    }
    if opts[k] == short || opts[k] == long {
        assert(opts.take(k + 1)[k] == opts[k]);
    }
}

proof fn lemma_outcome_skip(opts: Seq<Seq<char>>, k: int)
    requires
        0 <= k <= opts.len(),
        forall|j: int| 0 <= j < k ==> !spec_opt_help(#[trigger] opts[j]) && spec_opt_known(opts[j]),
    ensures
        spec_options_outcome(opts) == spec_options_outcome(opts.skip(k)),
    decreases k,
{
    if k == 0 {
        assert(opts.skip(0) =~= opts);
    } else {
        assert(spec_options_outcome(opts) == spec_options_outcome(opts.drop_first()));
        assert(opts.drop_first() =~= opts.skip(1));
        lemma_outcome_skip(opts.skip(1), k - 1);
        assert(opts.skip(1).skip(k - 1) =~= opts.skip(k));
    }
}

proof fn lemma_apps_of_take(args: Seq<Seq<char>>, i: int)
    requires
        0 <= i < args.len(),
    ensures
        !spec_starts_with(args[i], seq!['-']) ==> spec_apps_of(args.take(i + 1)) == spec_apps_of(
            args.take(i),
        ).push(args[i]),
        spec_starts_with(args[i], seq!['-']) ==> spec_apps_of(args.take(i + 1)) == spec_apps_of(
            args.take(i),
        ),
{
    reveal(Seq::filter);
    let p = |a: Seq<char>| !spec_starts_with(a, seq!['-']);
    assert(args.take(i + 1).drop_last() =~= args.take(i));
    assert(args.take(i + 1).last() == args[i]);
}

proof fn lemma_opts_of_take(args: Seq<Seq<char>>, i: int)
    requires
        0 <= i < args.len(),
    ensures
        spec_starts_with(args[i], seq!['-']) ==> spec_opts_of(args.take(i + 1)) == spec_opts_of(
            args.take(i),
        ).push(args[i]),
        !spec_starts_with(args[i], seq!['-']) ==> spec_opts_of(args.take(i + 1)) == spec_opts_of(
            args.take(i),
        ),
{
    reveal(Seq::filter);
    let p = |a: Seq<char>| spec_starts_with(a, seq!['-']);
    assert(args.take(i + 1).drop_last() =~= args.take(i));
    assert(args.take(i + 1).last() == args[i]);
}

/// The `build` handler.
///
/// A usage request prints the usage text and succeeds; an unknown option is
/// refused without touching anything; otherwise one workspace is created for
/// the whole batch, and — whenever that creation succeeded — the very last
/// filesystem step removes that same workspace again, on the success path
/// and on every failure path alike.
pub fn build<I: InputOutputHelper, C: ContainerHelper, D: DownloadHelper>(
    cmd_param: &CommandParameter,
    io_helper: &mut I,
    dck_helper: &mut C,
    dl_helper: &mut D,
) -> (r: Result<(), CommandError>)
    requires
        cmd_param.config is Some,
    ensures
        ({
            let argv = cmd_param.args.deep_view();
            let opts2 = spec_opts_of(argv);
            let outcome = spec_options_outcome(opts2);
            &&& outcome is ShowUsage ==> (r is Ok && final(io_helper).events() == old(
                io_helper,
            ).events().push(IoOp::OutLine(cmd_param.command.usage@)) && final(dck_helper).events()
                == old(dck_helper).events() && final(dl_helper).events() == old(
                dl_helper,
            ).events())
            &&& (outcome matches OptionsOutcome::Refuse(opt) ==> (r matches Err(e) && e.code
                == CommandExitCode::UnknowOption && final(io_helper).events() == old(
                io_helper,
            ).events() && e.msg.deep_view() == seq![
                UNKNOWN_OPTION_PREFIX@ + opt + UNKNOWN_OPTION_SUFFIX@,
            ] && final(dck_helper).events() == old(dck_helper).events() && final(dl_helper).events() == old(dl_helper).events()))
            &&& outcome is Proceed ==> ({
                let e = final(io_helper).events();
                let o = old(io_helper).events();
                e.len() > o.len() && (e[o.len() as int] matches IoOp::MakeDir(d, ok) && (!ok
                    ==> (r matches Err(err) && err.code == CommandExitCode::CannotCreateFolder
                        && err.msg.len() == 2 && err.msg[0]@ == "Cannot create '"@ + d
                        + "' folder. Please check right!"@ && final(dck_helper).events() == old(dck_helper).events() && final(dl_helper).events() == old(dl_helper).events())) && (ok
                    ==> (e.last() matches IoOp::RemoveDir(d2, _) && d2 == d)))
            })
            &&& (outcome is Proceed && !spec_flag(opts2, "-b"@, "--base"@) && !spec_flag(
                opts2,
                "-a"@,
                "--all"@,
            ) && !spec_flag(opts2, "-m"@, "--missing"@)) ==> ({
                let e = final(io_helper).events();
                let o = old(io_helper).events();
                e[o.len() as int] matches IoOp::MakeDir(d2, ok) && (ok ==> (out_lines(e)
                    == out_lines(o) + spec_apps_of(argv).map_values(
                    |a: Seq<char>| spec_announce(a),
                ) && (r is Ok ==> forall|i: int|
                    0 <= i < spec_apps_of(argv).len() ==> spec_app_built(
                        e,
                        final(dck_helper).events(),
                        *cmd_param.config.unwrap(),
                        d2,
                        #[trigger] spec_apps_of(argv)[i],
                    ))))
            })
            &&& (outcome is Proceed && spec_flag(opts2, "-b"@, "--base"@)) ==> ({
                let e = final(io_helper).events();
                let o = old(io_helper).events();
                e[o.len() as int] matches IoOp::MakeDir(d, ok) && (ok ==> (out_lines(e)
                    == out_lines(o).push("Building base image..."@) && (r is Ok ==> (final(dck_helper).events().last() matches ContainerOp::BuildImage(f, ctx, t, _, built)
                    && built && f == spec_path_join(d, "Dockerfile"@) && ctx == d && t
                    == cmd_param.config.unwrap().dockerfile.tag@))))
            })
            &&& (outcome is Proceed && !spec_flag(opts2, "-b"@, "--base"@) && spec_flag(
                opts2,
                "-a"@,
                "--all"@,
            )) ==> ({
                let e = final(io_helper).events();
                let o = old(io_helper).events();
                e[o.len() as int] matches IoOp::MakeDir(_, ok) && (ok ==> (e.len() > o.len() + 1
                    && (e[o.len() as int + 1] matches IoOp::ListDir(dd, pp, files) && dd
                    == cmd_param.config.unwrap().applications_dir@ && pp == "*.yml"@ && (
                match files {
                    None => out_lines(e) == out_lines(o) && (r matches Err(err2) && err2.code
                        == CommandExitCode::CannotReadApplicationsFolder),
                    Some(fs) => exists|sorted_fs: Seq<Seq<char>>|
                        {
                            &&& #[trigger] sorted_fs.to_multiset() == fs.to_multiset()
                            &&& spec_sorted_lex(sorted_fs)
                            &&& out_lines(e) == out_lines(o) + sorted_fs.map_values(
                                |f2: Seq<char>| spec_announce(spec_file_stem(f2)),
                            )
                        },
                }))))
            })
        }),
        r matches Err(e) ==> e.msg.len() >= 1,
        r matches Err(e) ==> (e.code == CommandExitCode::UnknowOption || e.code
            == CommandExitCode::CannotCreateFolder || e.code
            == CommandExitCode::CannotReadApplicationsFolder || e.code
            == CommandExitCode::DockerBuildFail || e.code == CommandExitCode::TemplateNotFound
            || e.code == CommandExitCode::CannotCopyFile || e.code
            == CommandExitCode::CannotGetHomeFolder || e.code
            == CommandExitCode::CannotGenerateDockerfile || e.code
            == CommandExitCode::DockerfileTemplateInvalid),
{
    let ghost argv = cmd_param.args.deep_view();
    let ghost opts = spec_opts_of(argv);
    let mut options = BuildOptions {
        all: false,
        base: false,
        force: false,
        missing: false,
        skip_redownload: false,
    };
    let mut applications: Vec<String> = Vec::new();
    let mut i: usize = 0;
    let ghost mut k: int = 0;
    proof {
        reveal_strlit("-");
        assert("-"@ =~= seq!['-']);
        assert(argv.take(0int) =~= Seq::<Seq<char>>::empty());
        assert(spec_opts_of(argv.take(0int)) =~= Seq::<Seq<char>>::empty()) by {
            reveal(Seq::filter);
        }
        assert(spec_apps_of(argv.take(0int)) =~= Seq::<Seq<char>>::empty()) by {
            reveal(Seq::filter);
        }
        assert(applications.deep_view() =~= Seq::<Seq<char>>::empty());
        assert(opts.take(0int) =~= Seq::<Seq<char>>::empty());
        assert(!spec_flag(opts.take(0int), "-b"@, "--base"@));
        assert(!spec_flag(opts.take(0int), "-a"@, "--all"@));
        assert(!spec_flag(opts.take(0int), "-m"@, "--missing"@));
    }
    while i < cmd_param.args.len()
        invariant
            i <= cmd_param.args.len(),
            argv == cmd_param.args.deep_view(),
            argv.len() == cmd_param.args.len(),
            opts == spec_opts_of(argv),
            0 <= k <= opts.len(),
            spec_opts_of(argv.take(i as int)) == opts.take(k),
            applications.deep_view() == spec_apps_of(argv.take(i as int)),
            options.base <==> spec_flag(opts.take(k), "-b"@, "--base"@),
            options.all <==> spec_flag(opts.take(k), "-a"@, "--all"@),
            options.missing <==> spec_flag(opts.take(k), "-m"@, "--missing"@),
            forall|j: int|
                0 <= j < k ==> !spec_opt_help(#[trigger] opts[j]) && spec_opt_known(opts[j]),
            io_helper.events() == old(io_helper).events(),
        decreases cmd_param.args.len() - i,
    {
        let arg = &cmd_param.args[i];
        proof {
            assert(argv[i as int] == cmd_param.args[i as int]@);
            lemma_opts_of_take(argv, i as int);
        }
        if str_starts_with(arg.as_str(), "-") {
            proof {
                reveal_strlit("-");
                assert("-"@ =~= seq!['-']);
                assert(spec_starts_with(argv[i as int], seq!['-']));
                lemma_opts_prefix_push(argv, opts, i as int, k);
                assert(opts[k] == argv[i as int]);
            }
            if str_eq(arg.as_str(), "-h") || str_eq(arg.as_str(), "--help") {
                proof {
                    lemma_outcome_skip(opts, k);
                    assert(opts.skip(k)[0] == opts[k]);
                }
                io_helper.println(cmd_param.command.usage);
                return Ok(());
            } else if str_eq(arg.as_str(), "-a") || str_eq(arg.as_str(), "--all") {
                options.all = true;
            } else if str_eq(arg.as_str(), "-b") || str_eq(arg.as_str(), "--base") {
                options.base = true;
            } else if str_eq(arg.as_str(), "-f") || str_eq(arg.as_str(), "--force") {
                options.force = true;
            } else if str_eq(arg.as_str(), "-m") || str_eq(arg.as_str(), "--missing") {
                options.missing = true;
            } else if str_eq(arg.as_str(), "-s") || str_eq(arg.as_str(), "--skip-redownload") {
                options.skip_redownload = true;
            } else {
                proof {
                    lemma_outcome_skip(opts, k);
                    assert(opts.skip(k)[0] == opts[k]);
                }
                let mut msg: Vec<String> = Vec::new();
                msg.push(scat3(UNKNOWN_OPTION_PREFIX, arg.as_str(), UNKNOWN_OPTION_SUFFIX));
                return Err(CommandError { msg, code: CommandExitCode::UnknowOption });
            }
            proof {
                lemma_option_literals_distinct();
                lemma_flag_push(opts, k, "-b"@, "--base"@);
                lemma_flag_push(opts, k, "-a"@, "--all"@);
                lemma_flag_push(opts, k, "-m"@, "--missing"@);
                lemma_apps_of_take(argv, i as int);
                k = k + 1;
            }
        } else {
            let ghost prev_apps = applications;
            applications.push(arg.clone());
            proof {
                reveal_strlit("-");
                assert("-"@ =~= seq!['-']);
                assert(!spec_starts_with(argv[i as int], seq!['-']));
                assert(spec_opts_of(argv.take(i + 1)) == opts.take(k));
                lemma_apps_of_take(argv, i as int);
                crate::strutil::lemma_push_deep_view(prev_apps, applications, *arg);
                assert(applications.deep_view() =~= spec_apps_of(argv.take(i + 1)));
            }
        }
        i += 1;
    }
    proof {
        assert(argv.take(argv.len() as int) =~= argv);
        assert(opts.take(k) == spec_opts_of(argv));
        assert(k == opts.len()) by {
            assert(opts.take(k).len() == opts.len());
        }
        assert(opts.take(k) =~= opts);
        lemma_outcome_skip(opts, k);
        assert(opts.skip(k).len() == 0);
    }
    let config = match cmd_param.config {
        Some(c) => c,
        None => {
            return Ok(());
        },
    };
    let tmp_root = match &config.tmp_dir {
        Some(t) => convert_path(t.as_str()),
        None => String::from_str(DEFAULT_TMP_ROOT),
    };
    let token = random_string();
    let tmp_dir = path_join(tmp_root.as_str(), token.as_str());
    let ghost io0 = io_helper.events();
    if let Err(err) = io_helper.create_dir_all(tmp_dir.as_str()) {
        let mut msg: Vec<String> = Vec::new();
        msg.push(scat3("Cannot create '", tmp_dir.as_str(), "' folder. Please check right!"));
        msg.push(err);
        return Err(CommandError { msg, code: CommandExitCode::CannotCreateFolder });
    }
    let ghost io1 = io_helper.events();
    proof {
        assert(io1 == io0.push(IoOp::MakeDir(tmp_dir@, true)));
        assert(io1[io0.len() as int] matches IoOp::MakeDir(d, ok) && d == tmp_dir@ && ok);
        lemma_out_lines_push_other(io0, IoOp::MakeDir(tmp_dir@, true));
    }
    let result: Result<(), CommandError> = if options.base {
        io_helper.println("Building base image...");
        proof {
            lemma_seq_extends_push_self(io1, io_helper.events().last());
            assert(io1.push(io_helper.events().last()) =~= io_helper.events());
            lemma_out_lines_push_line(io1, "Building base image..."@);
        }
        let ghost io2 = io_helper.events();
        let rr = build_base(io_helper, dck_helper, tmp_dir.as_str(), &options, config);
        proof {
            lemma_seq_extends_trans(io1, io2, io_helper.events());
            lemma_no_out_keeps_out_lines(io2, io_helper.events());
            assert(out_lines(io_helper.events()) == out_lines(io0).push(
                "Building base image..."@,
            ));
        }
        rr
    } else if options.all {
        let ghost io2 = io_helper.events();
        let rr = build_all(io_helper, dck_helper, dl_helper, &options, config, tmp_dir.as_str());
        proof {
            lemma_seq_extends_refl(io1);
            lemma_seq_extends_trans(io1, io2, io_helper.events());
            assert(io_helper.events()[io1.len() as int] == io_helper.events()[io0.len() as int
                + 1]);
        }
        rr
    } else if options.missing {
        match get_missing_application(io_helper, dck_helper, config) {
            Ok(list_applications) => {
                let ghost io2 = io_helper.events();
                let rr = build_some_application(
                    io_helper,
                    dck_helper,
                    dl_helper,
                    tmp_dir.as_str(),
                    &options,
                    config,
                    &list_applications,
                );
                proof {
                    lemma_seq_extends_trans(io1, io2, io_helper.events());
                }
                rr
            },
            Err(err) => {
                proof {
                    lemma_seq_extends_refl(io1);
                }
                Err(err)
            },
        }
    } else {
        let rr = build_some_application(
            io_helper,
            dck_helper,
            dl_helper,
            tmp_dir.as_str(),
            &options,
            config,
            &applications,
        );
        proof {
            assert(out_lines(io_helper.events()) == out_lines(io0) + applications.deep_view()
                .map_values(|a: Seq<char>| spec_announce(a)));
            if rr is Ok {
                let bflags = choose|flags: Seq<bool>|
                    #![trigger spec_failed_names(applications.deep_view(), flags)]
                    {
                        &&& flags.len() == applications.len()
                        &&& forall|i2: int|
                            0 <= i2 < flags.len() && !flags[i2] ==> spec_app_built(
                                io_helper.events(),
                                dck_helper.events(),
                                *config,
                                tmp_dir@,
                                #[trigger] applications.deep_view()[i2],
                            )
                        &&& (rr is Ok ==> forall|i2: int|
                            0 <= i2 < flags.len() ==> !(#[trigger] flags[i2]))
                    };
                assert(forall|i2: int|
                    0 <= i2 < applications.len() ==> spec_app_built(
                        io_helper.events(),
                        dck_helper.events(),
                        *config,
                        tmp_dir@,
                        #[trigger] applications.deep_view()[i2],
                    ));
            }
        }
        rr
    };
    proof {
        assert(seq_extends(io1, io_helper.events()));
        assert(io_helper.events()[io0.len() as int] == io1[io0.len() as int]) by {
            assert(io_helper.events().take(io1.len() as int) == io1);
            assert(io_helper.events().take(io1.len() as int)[io0.len() as int]
                == io_helper.events()[io0.len() as int]);
        }
    }
    let ghost io3 = io_helper.events();
    remove_tmp_dir(io_helper, tmp_dir.as_str());
    proof {
        assert(io_helper.events().last() matches IoOp::RemoveDir(d2, _) && d2 == tmp_dir@);
        assert(io_helper.events()[io0.len() as int] == io3[io0.len() as int]);
        lemma_out_lines_push_other(io3, io_helper.events().last());
        assert(io3.push(io_helper.events().last()) =~= io_helper.events());
        assert(opts.take(k) =~= opts);
        assert(argv.take(argv.len() as int) =~= argv);
        if !options.base && !options.all && !options.missing {
            assert(applications.deep_view() == spec_apps_of(argv));
            assert(out_lines(io_helper.events()) == out_lines(io0) + spec_apps_of(argv)
                .map_values(|a: Seq<char>| spec_announce(a)));
            if result is Ok {
                assert forall|i2: int|
                    0 <= i2 < spec_apps_of(argv).len() implies spec_app_built(
                    io_helper.events(),
                    dck_helper.events(),
                    *config,
                    tmp_dir@,
                    #[trigger] spec_apps_of(argv)[i2],
                ) by {
                    assert(spec_app_built(
                        io3,
                        dck_helper.events(),
                        *config,
                        tmp_dir@,
                        applications.deep_view()[i2],
                    ));
                    assert(seq_extends(io3, io_helper.events())) by {
                        lemma_seq_extends_push_self(io3, io_helper.events().last());
                        assert(io3.push(io_helper.events().last()) =~= io_helper.events());
                    }
                    lemma_seq_extends_refl(dck_helper.events());
                    lemma_app_built_extends(
                        io3,
                        io_helper.events(),
                        dck_helper.events(),
                        dck_helper.events(),
                        *config,
                        tmp_dir@,
                        applications.deep_view()[i2],
                    );
                }
            }
        }
        if options.base {
            assert(out_lines(io_helper.events()) == out_lines(io0).push(
                "Building base image..."@,
            ));
        }
        if !options.base && options.all {
            let e = io_helper.events();
            assert(e[io0.len() as int + 1] == io3[io0.len() as int + 1]) by {
                assert(e.take(io3.len() as int) == io3);
                assert(e.take(io3.len() as int)[io0.len() as int + 1] == e[io0.len() as int
                    + 1]);
            }
        }
    }
    result
}

/// Default root for build workspaces when none is configured: the
/// platform's temporary directory.
pub const DEFAULT_TMP_ROOT: &'static str = "/tmp";

proof fn lemma_opts_prefix_push(args: Seq<Seq<char>>, opts: Seq<Seq<char>>, i: int, k: int)
    requires
        0 <= i < args.len(),
        opts == spec_opts_of(args),
        0 <= k <= opts.len(),
        spec_opts_of(args.take(i)) == opts.take(k),
        spec_starts_with(args[i], seq!['-']),
    ensures
        spec_opts_of(args.take(i + 1)) == opts.take(k).push(args[i]),
        k < opts.len(),
        opts[k] == args[i],
        opts.take(k).push(args[i]) == opts.take(k + 1),
{
    lemma_opts_of_take(args, i);
    lemma_filter_take_prefix(args, i + 1);
    let w = spec_opts_of(args.take(i + 1));
    assert(w == opts.take(k).push(args[i]));
    assert(w.len() == k + 1);
    assert(seq_extends(w, opts));
    assert(k < opts.len());
    assert(opts.take(k + 1) =~= w) by {
        assert(opts.take(w.len() as int) == w);
    }
    assert(opts[k] == args[i]) by {
        assert(opts.take(k + 1)[k] == opts[k]);
        assert(w[k] == args[i]);
    }
}

proof fn lemma_filter_take_prefix(args: Seq<Seq<char>>, i: int)
    requires
        0 <= i <= args.len(),
    ensures
        seq_extends(spec_opts_of(args.take(i)), spec_opts_of(args)),
    decreases args.len() - i,
{
    reveal(Seq::filter);
    if i == args.len() {
        assert(args.take(i) =~= args);
        lemma_seq_extends_refl(spec_opts_of(args));
    } else {
        lemma_opts_of_take(args, i);
        lemma_filter_take_prefix(args, i + 1);
        let a = spec_opts_of(args.take(i));
        let b = spec_opts_of(args.take(i + 1));
        if spec_starts_with(args[i], seq!['-']) {
            assert(b == a.push(args[i]));
            assert(b.take(a.len() as int) =~= a);
            lemma_seq_extends_trans(a, b, spec_opts_of(args));
        } else {
            assert(b == a);
            lemma_seq_extends_refl(a);
            lemma_seq_extends_trans(a, b, spec_opts_of(args));
        }
    }
}

} // verus!
