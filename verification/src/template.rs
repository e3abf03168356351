//! The manifest renderer.
//!
//! One template file serves both the base image and the per-application
//! images. The text is rendered by an outside template engine; what the
//! engine returns is a function of the template and the data alone, so the
//! trusted call names its result and the verified code around it computes the
//! data — in particular the artifact-suffix flags the template branches on.

use vstd::prelude::*;
use serde_json::Value;
use crate::strutil::spec_ends_with;
use crate::strutil::str_ends_with;

verus! {

/// The data handed to the manifest template.
pub enum ManifestData {
    /// The shared base image: its `FROM` image and the aggregated
    /// space-joined dependency list.
    Base { from: String, dependencies: String },
    /// One application image: the base image's tag it builds from and the
    /// artifact file to install.
    Application { from: String, application_filename: String },
}

/// What the template engine renders for the given template text and data.
/// The data is the base flag, the `FROM` image, the dependency list, the
/// artifact file name and its four suffix flags; `None` stands for a
/// template the engine rejects.
pub uninterp spec fn hbs_render(
    template: Seq<char>,
    is_base: bool,
    from: Seq<char>,
    deps: Seq<char>,
    app_filename: Seq<char>,
    is_deb: bool,
    is_tar_bz2: bool,
    is_tar_xz: bool,
    is_tar_gz: bool,
) -> Option<Seq<char>>;

/// Relies on handlebars::Handlebars::render_template: the rendering is a
/// function of the template text and of the data handed in, nothing else.
#[verifier::external_body]
fn render_template_call(
    template: &str,
    is_base: bool,
    from: &str,
    deps: &str,
    app_filename: &str,
    is_deb: bool,
    is_tar_bz2: bool,
    is_tar_xz: bool,
    is_tar_gz: bool,
) -> (r: Result<String, String>)
    ensures
        r matches Ok(s) ==> hbs_render(
            template@,
            is_base,
            from@,
            deps@,
            app_filename@,
            is_deb,
            is_tar_bz2,
            is_tar_xz,
            is_tar_gz,
        ) == Some(s@),
        r matches Err(_) ==> hbs_render(
            template@,
            is_base,
            from@,
            deps@,
            app_filename@,
            is_deb,
            is_tar_bz2,
            is_tar_xz,
            is_tar_gz,
        ) is None,
{
    let mut data = serde_json::Map::new();
    data.insert("dockerfile_from".into(), Value::from(from));
    data.insert("dockerfile_base".into(), Value::from(is_base));
    data.insert("dependencies".into(), Value::from(deps));
    data.insert("application_filename".into(), Value::from(app_filename));
    data.insert("application_is_deb".into(), Value::from(is_deb));
    data.insert("application_is_tar_bz2".into(), Value::from(is_tar_bz2));
    data.insert("application_is_tar_xz".into(), Value::from(is_tar_xz));
    data.insert("application_is_tar_gz".into(), Value::from(is_tar_gz));
    handlebars::Handlebars::new().render_template(template, &data).map_err(|e| e.to_string())
}

/// What the engine renders for `data`: the suffix flags are those of the
/// artifact file name, and the base case carries no artifact at all.
pub open spec fn spec_render(template: Seq<char>, data: ManifestData) -> Option<Seq<char>> {
    match data {
        ManifestData::Base { from, dependencies } => hbs_render(
            template,
            true,
            from@,
            dependencies@,
            Seq::empty(),
            false,
            false,
            false,
            false,
        ),
        ManifestData::Application { from, application_filename } => hbs_render(
            template,
            false,
            from@,
            Seq::empty(),
            application_filename@,
            spec_ends_with(application_filename@, ".deb"@),
            spec_ends_with(application_filename@, ".tar.bz2"@),
            spec_ends_with(application_filename@, ".tar.xz"@),
            spec_ends_with(application_filename@, ".tar.gz"@) || spec_ends_with(
                application_filename@,
                ".tgz"@,
            ),
        ),
    }
}

/// What the engine renders for one application image: the artifact-suffix
/// flags are those of the artifact file name `af`.
pub open spec fn spec_render_app(template: Seq<char>, from: Seq<char>, af: Seq<char>) -> Option<
    Seq<char>,
> {
    hbs_render(
        template,
        false,
        from,
        Seq::empty(),
        af,
        spec_ends_with(af, ".deb"@),
        spec_ends_with(af, ".tar.bz2"@),
        spec_ends_with(af, ".tar.xz"@),
        spec_ends_with(af, ".tar.gz"@) || spec_ends_with(af, ".tgz"@),
    )
}

/// Renders the manifest template over `data`.
///
/// The artifact-suffix flags handed to the engine are computed here, from the
/// artifact file name alone.
pub fn render_manifest(template: &str, data: &ManifestData) -> (r: Result<String, String>)
    ensures
        r matches Ok(s) ==> spec_render(template@, *data) == Some(s@),
        r matches Err(_) ==> spec_render(template@, *data) is None,
{
    match data {
        ManifestData::Base { from, dependencies } => {
            let r = render_template_call(
                template,
                true,
                from.as_str(),
                dependencies.as_str(),
                "",
                false,
                false,
                false,
                false,
            );
            proof {
                reveal_strlit("");
                assert(""@ =~= Seq::<char>::empty());
            }
            r
        },
        ManifestData::Application { from, application_filename } => {
            let af = application_filename.as_str();
            let is_deb = str_ends_with(af, ".deb");
            let is_tar_bz2 = str_ends_with(af, ".tar.bz2");
            let is_tar_xz = str_ends_with(af, ".tar.xz");
            let is_tar_gz = str_ends_with(af, ".tar.gz") || str_ends_with(af, ".tgz");
            let r = render_template_call(
                template,
                false,
                from.as_str(),
                "",
                af,
                is_deb,
                is_tar_bz2,
                is_tar_xz,
                is_tar_gz,
            );
            proof {
                reveal_strlit("");
                assert(""@ =~= Seq::<char>::empty());
            }
            r
        },
    }
}

} // verus!
