//! The container engine, abstracted behind a trait.
//!
//! The embedder implements [`ContainerHelper`] (the shipped implementation
//! drives the real engine; the tests supply an in-memory one). As with the
//! other helpers, every call is recorded in a ghost event log; the engine
//! decides the outcome, so no contract promises success.

use vstd::prelude::*;

verus! {

/// The ghost log of container engine calls.
pub type ContainerEventLog = Seq<ContainerOp>;

/// One call into the container engine, with its outcome.
pub enum ContainerOp {
    /// An image query: image name and the identifiers returned.
    QueryImages(Seq<char>, Seq<Seq<char>>),
    /// An image removal: image name and whether it succeeded.
    DropImage(Seq<char>, bool),
    /// A container run: image, run options, command, command options, success.
    RunContainer(
        Seq<char>,
        Option<Seq<Seq<char>>>,
        Option<Seq<char>>,
        Option<Seq<Seq<char>>>,
        bool,
    ),
    /// An image build: manifest path, context directory, tag, options, success.
    BuildImage(Seq<char>, Seq<char>, Seq<char>, Option<Seq<Seq<char>>>, bool),
}

/// The view of an optional list of arguments.
pub open spec fn opt_args_view(o: Option<&Vec<String>>) -> Option<Seq<Seq<char>>> {
    match o {
        Some(v) => Some(v.deep_view()),
        None => None,
    }
}

/// The view of an optional string.
pub open spec fn opt_str_view(o: Option<&str>) -> Option<Seq<char>> {
    match o {
        Some(s) => Some(s@),
        None => None,
    }
}

/// Container engine access.
pub trait ContainerHelper {
    /// The calls made through this helper so far, oldest first.
    spec fn events(&self) -> Seq<ContainerOp>;

    /// List images, returning their identifiers.
    fn list_image(&mut self, image_name: &str) -> (r: Vec<String>)
        ensures
            final(self).events() == old(self).events().push(
                ContainerOp::QueryImages(image_name@, r.deep_view()),
            ),
    ;

    /// Remove an image; true on success.
    fn remove_image(&mut self, image_name: &str) -> (r: bool)
        ensures
            final(self).events() == old(self).events().push(
                ContainerOp::DropImage(image_name@, r),
            ),
    ;

    /// Run an image in a container; true on success.
    fn run_container(
        &mut self,
        image_name: &str,
        run_options: Option<&Vec<String>>,
        cmd: Option<&str>,
        cmd_options: Option<&Vec<String>>,
    ) -> (r: bool)
        ensures
            final(self).events() == old(self).events().push(
                ContainerOp::RunContainer(
                    image_name@,
                    opt_args_view(run_options),
                    opt_str_view(cmd),
                    opt_args_view(cmd_options),
                    r,
                ),
            ),
    ;

    /// Build an image from a manifest; true on success.
    fn build_image(
        &mut self,
        docker_filename: &str,
        docker_context_path: &str,
        docker_tag: &str,
        build_options: Option<&Vec<String>>,
    ) -> (r: bool)
        ensures
            final(self).events() == old(self).events().push(
                ContainerOp::BuildImage(
                    docker_filename@,
                    docker_context_path@,
                    docker_tag@,
                    opt_args_view(build_options),
                    r,
                ),
            ),
    ;
}

} // verus!
