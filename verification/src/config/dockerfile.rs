//! The default manifest template and entrypoint script that `init` writes.

use vstd::prelude::*;

verus! {

/// Default image the base image builds from.
pub const DOCKERFILE_DEFAULT_FROM: &'static str = "ubuntu:18.04";

/// Default tag of the built base image.
pub const DOCKERFILE_DEFAULT_TAG: &'static str = "d-base-image:v1.0.0";

/// File name of the manifest template.
pub const DOCKERFILE_BASE_FILENAME: &'static str = "Dockerfile.hbs";

/// Default manifest template. The base case installs the aggregated
/// dependencies and the entrypoint script; the application case branches on
/// the artifact-suffix flags (`application_is_deb` and the like) that the
/// renderer computes from the artifact file name and hands to the template
/// as data. A custom template must branch on these flags rather than on a
/// string-suffix helper of its own.
pub const DOCKERFILE_BASE: &'static str = r#"FROM {{dockerfile_from}}

{{#if dockerfile_base}}
    RUN apt-get update && \
        apt-get install -y \
          {{dependencies}}

    COPY entrypoint.sh /entrypoint.sh

    ENTRYPOINT ["/bin/sh", "/entrypoint.sh"]
{{else}}

{{#if application_is_deb}}
    COPY {{application_filename}} /tmp/

    RUN apt-get update && \
        apt-get install -y \
          /tmp/{{application_filename}} && \
        rm -f /tmp/{{application_filename}} && \
        apt-get clean && \
        rm -rf /var/lib/apt/lists/*
{{else}}

{{#if application_is_tar_bz2}}
    COPY {{application_filename}} /tmp/

    RUN tar -xjf /tmp/{{application_filename}} -C /opt/ && \
        rm -f /tmp/{{application_filename}}
{{else}}

{{#if application_is_tar_xz}}
    COPY {{application_filename}} /tmp/

    RUN tar -xJf /tmp/{{application_filename}} -C /opt/ && \
        rm -f /tmp/{{application_filename}}
{{else}}

{{#if application_is_tar_gz}}
    COPY {{application_filename}} /tmp/

    RUN tar -xzf /tmp/{{application_filename}} -C /opt/ && \
        rm -f /tmp/{{application_filename}}
{{else}}

RUN apt-get update && \
    apt-get install -y {{application_filename}} && \
    apt-get clean && \
    rm -rf /var/lib/apt/lists/*

{{/if}}

{{/if}}

{{/if}}

{{/if}}

{{/if}}
"#;

/// File name of the entrypoint script.
pub const ENTRYPOINT_FILENAME: &'static str = "entrypoint.sh";

/// Default entrypoint script: it recreates the invoking user inside the
/// container and hands over to the requested command.
pub const ENTRYPOINT: &'static str = r#"#!/bin/sh
groupadd -g ${USERNAME_TO_RUN_GID} ${USERNAME_TO_RUN}
useradd -u ${USERNAME_TO_RUN_UID} -g ${USERNAME_TO_RUN_GID} ${USERNAME_TO_RUN}
mkdir -p /home/${USERNAME_TO_RUN}
chown -R ${USERNAME_TO_RUN}:${USERNAME_TO_RUN} /home/${USERNAME_TO_RUN}/
exec runuser -u ${USERNAME_TO_RUN} -- "$@""#;

} // verus!
