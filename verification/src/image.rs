//! The image handle: a repository name pinned to a concrete manifest, the
//! registry URLs its operations address, and the selectors that pick one
//! entry out of a manifest list.

use vstd::prelude::*;

use crate::manifest::{
    platform_matches, schema_of, HostPlatform, LayerV2_2, ManifestListV2_2, ManifestV2,
};
use crate::registry::RegistryError;

verus! {

/// The URL a manifest is fetched from: `{registry}/v2/{name}/manifests/{reference}`.
pub fn manifest_url(registry_url: &str, name: &str, reference: &str) -> (r: String)
    ensures
        r@ == registry_url@ + "/v2/"@ + name@ + "/manifests/"@ + reference@,
{
    let mut s = registry_url.to_owned();
    s.append("/v2/");
    s.append(name);
    s.append("/manifests/");
    s.append(reference);
    s
}

/// The URL a blob is fetched from: `{registry}/v2/{name}/blobs/{digest}`.
pub fn blob_url(registry_url: &str, name: &str, digest: &str) -> (r: String)
    ensures
        r@ == registry_url@ + "/v2/"@ + name@ + "/blobs/"@ + digest@,
{
    let mut s = registry_url.to_owned();
    s.append("/v2/");
    s.append(name);
    s.append("/blobs/");
    s.append(digest);
    s
}

/// The `Accept` value of a manifest request: the manifest-list media types
/// first, then the single-manifest ones, OCI before Docker.
pub fn manifest_accept_value() -> (r: String)
    ensures
        r@ == "application/vnd.oci.distribution.manifest.list.v2+json"@ + ","@
            + "application/vnd.oci.distribution.manifest.v2+json"@ + ","@
            + "application/vnd.docker.distribution.manifest.list.v2+json"@ + ","@
            + "application/vnd.docker.distribution.manifest.v2+json"@,
{
    let mut s = String::from_str("application/vnd.oci.distribution.manifest.list.v2+json");
    s.append(",");
    s.append("application/vnd.oci.distribution.manifest.v2+json");
    s.append(",");
    s.append("application/vnd.docker.distribution.manifest.list.v2+json");
    s.append(",");
    s.append("application/vnd.docker.distribution.manifest.v2+json");
    s
}

/// A selector picks one entry of a manifest list, by index. Implementations
/// must be pure: a selector performs no I/O and keeps no mutable state.
pub trait ImageSelector {
    fn select_manifest(&self, manifest_list: &ManifestListV2_2) -> (r: Option<usize>)
        ensures
            r matches Some(i) ==> i < manifest_list.manifests.len(),
    ;
}

/// The first entry of the list whose platform matches the host, if any.
pub fn select_first_matching(list: &ManifestListV2_2, host: &HostPlatform) -> (r: Option<usize>)
    ensures
        match r {
            Some(i) => i < list.manifests.len() && platform_matches(
                list.manifests@[i as int].platform,
                *host,
            ) && forall|j: int|
                0 <= j < i ==> !platform_matches(
                    (#[trigger] list.manifests@[j]).platform,
                    *host,
                ),
            None => forall|j: int|
                0 <= j < list.manifests.len() ==> !platform_matches(
                    (#[trigger] list.manifests@[j]).platform,
                    *host,
                ),
        },
{
    let n = list.manifests.len();
    let mut i: usize = 0;
    while i < n
        invariant
            i <= n,
            n == list.manifests.len(),
            forall|j: int|
                0 <= j < i ==> !platform_matches((#[trigger] list.manifests@[j]).platform, *host),
        decreases n - i,
    {
        if list.manifests[i].platform.current_platform_matches(host) {
            return Some(i);
        }
        i += 1;
    }
    None
}

/// Selects the first entry whose platform matches the host it was built
/// with.
pub struct ImagePlatformSelector {
    pub host: HostPlatform,
}

impl ImagePlatformSelector {
    /// A selector for the given host platform.
    pub fn new(host: HostPlatform) -> (r: ImagePlatformSelector)
        ensures
            r.host == host,
    {
        ImagePlatformSelector { host }
    }
}

impl ImageSelector for ImagePlatformSelector {
    fn select_manifest(&self, manifest_list: &ManifestListV2_2) -> (r: Option<usize>)
        ensures
            match r {
                Some(i) => i < manifest_list.manifests.len() && platform_matches(
                    manifest_list.manifests@[i as int].platform,
                    self.host,
                ) && forall|j: int|
                    0 <= j < i ==> !platform_matches(
                        (#[trigger] manifest_list.manifests@[j]).platform,
                        self.host,
                    ),
                None => forall|j: int|
                    0 <= j < manifest_list.manifests.len() ==> !platform_matches(
                        (#[trigger] manifest_list.manifests@[j]).platform,
                        self.host,
                    ),
            },
    {
        select_first_matching(manifest_list, &self.host)
    }
}

/// A selector for tests: always the first entry.
pub struct TestImageSelector {}

impl ImageSelector for TestImageSelector {
    fn select_manifest(&self, manifest_list: &ManifestListV2_2) -> (r: Option<usize>)
        ensures
            manifest_list.manifests.len() >= 1 ==> r == Some(0usize),
            manifest_list.manifests.len() == 0 ==> r is None,
    {
        if manifest_list.manifests.len() >= 1 {
            Some(0)
        } else {
            None
        }
    }
}

/// The digest a selection picks: the selected entry's own digest, or the
/// no-matching-platform error when the selection is empty.
pub fn digest_for_selection(list: &ManifestListV2_2, selection: Option<usize>) -> (r: Result<
    String,
    RegistryError,
>)
    requires
        selection matches Some(i) ==> i < list.manifests.len(),
    ensures
        match selection {
            Some(i) => r matches Ok(d) && d@ == list.manifests@[i as int].digest@,
            None => r matches Err(e) && e is NoMatchingPlatform,
        },
{
    match selection {
        Some(i) => Ok(list.manifests[i].digest.clone()),
        None => Err(RegistryError::NoMatchingPlatform),
    }
}

/// The digest the selector picks out of a manifest list, to be re-fetched as
/// a concrete manifest. Whatever index the selector answers, the digest
/// handed back is that entry's; an empty selection means no entry fits the
/// platform.
pub fn select_manifest_digest<IS: ImageSelector>(list: &ManifestListV2_2, selector: &IS) -> (r:
    Result<String, RegistryError>)
    ensures
        match r {
            Ok(d) => exists|i: int|
                0 <= i < list.manifests.len() && d@ == (#[trigger] list.manifests@[i]).digest@,
            Err(e) => e is NoMatchingPlatform,
        },
{
    digest_for_selection(list, selector.select_manifest(list))
}

/// A repository name pinned to a concrete manifest. A manifest list is
/// never stored: lists are resolved to the selected entry's manifest before
/// an image exists, so every image holds schema 1 or schema 2.
#[derive(Debug)]
pub struct Image {
    name: String,
    manifest: ManifestV2,
}

impl Image {
    /// The repository name of this image.
    pub closed spec fn name_spec(&self) -> Seq<char> {
        self.name@
    }

    /// The manifest this image is pinned to.
    pub closed spec fn manifest_spec(&self) -> ManifestV2 {
        self.manifest
    }

    /// The image's invariant: it never holds a manifest list.
    pub open spec fn wf(&self) -> bool {
        !(self.manifest_spec() is Schema2List)
    }

    /// Pin a repository name to a manifest that was already resolved: a
    /// manifest list must be resolved to a concrete manifest first.
    pub fn from_manifest(name: String, manifest: ManifestV2) -> (r: Image)
        requires
            !(manifest is Schema2List),
        ensures
            r.name_spec() == name@,
            r.manifest_spec() == manifest,
            r.wf(),
    {
        Image { name, manifest }
    }

    /// The repository name.
    pub fn name(&self) -> (r: &str)
        ensures
            r@ == self.name_spec(),
    {
        self.name.as_str()
    }

    /// The manifest.
    pub fn manifest(&self) -> (r: &ManifestV2)
        ensures
            *r == self.manifest_spec(),
    {
        &self.manifest
    }

    /// The digest of the image configuration blob. Only a schema 2 manifest
    /// carries one.
    pub fn config_digest(&self) -> (r: Result<String, RegistryError>)
        ensures
            match self.manifest_spec() {
                ManifestV2::Schema2(m) => r matches Ok(d) && d@ == m.config.digest@,
                _ => r matches Err(RegistryError::UnsupportedManifestSchema(k)) && k == schema_of(
                    self.manifest_spec(),
                ),
            },
    {
        match &self.manifest {
            ManifestV2::Schema2(m) => Ok(m.config.digest.clone()),
            _ => Err(RegistryError::UnsupportedManifestSchema(self.manifest.kind())),
        }
    }

    /// The schema 2 layer list, base first. Schema 1 layers are reached
    /// through `layer_descriptors`.
    pub fn layers(&self) -> (r: Result<&Vec<LayerV2_2>, RegistryError>)
        ensures
            match self.manifest_spec() {
                ManifestV2::Schema2(m) => r matches Ok(l) && *l == m.layers,
                _ => r matches Err(RegistryError::UnsupportedManifestSchema(k)) && k == schema_of(
                    self.manifest_spec(),
                ),
            },
    {
        match &self.manifest {
            ManifestV2::Schema2(m) => Ok(&m.layers),
            _ => Err(RegistryError::UnsupportedManifestSchema(self.manifest.kind())),
        }
    }

    /// The layers to fetch, in the manifest's own order, for schema 2 and
    /// schema 1 alike. Only a stored manifest list — which a constructed
    /// image never holds — has no layers.
    pub fn layer_descriptors(&self) -> (r: Result<Vec<LayerDescriptor>, RegistryError>)
        ensures
            match self.manifest_spec() {
                ManifestV2::Schema2(m) => r matches Ok(v) && v@.len() == m.layers@.len() && (forall|
                    i: int,
                |
                    0 <= i < v@.len() ==> (#[trigger] v@[i]).digest == m.layers@[i].digest && v@[
                        i
                    ].media_type == Some(m.layers@[i].media_type)),
                ManifestV2::Schema1(m) => r matches Ok(v) && v@.len() == m.layers@.len() && (forall|
                    i: int,
                |
                    0 <= i < v@.len() ==> (#[trigger] v@[i]).digest == m.layers@[i].inner && v@[
                        i
                    ].media_type is None),
                ManifestV2::Schema2List(_) => r matches Err(
                    RegistryError::UnsupportedManifestSchema(k),
                ) && k == schema_of(self.manifest_spec()),
            },
    {
        match &self.manifest {
            ManifestV2::Schema2(m) => {
                let mut out: Vec<LayerDescriptor> = Vec::new();
                let n = m.layers.len();
                let mut i: usize = 0;
                while i < n
                    invariant
                        i <= n,
                        n == m.layers@.len(),
                        out@.len() == i,
                        forall|j: int|
                            0 <= j < i ==> (#[trigger] out@[j]).digest == m.layers@[j].digest
                                && out@[j].media_type == Some(m.layers@[j].media_type),
                    decreases n - i,
                {
                    out.push(
                        LayerDescriptor {
                            digest: m.layers[i].digest.clone(),
                            media_type: Some(m.layers[i].media_type.clone()),
                        },
                    );
                    i += 1;
                }
                Ok(out)
            },
            ManifestV2::Schema1(m) => {
                let mut out: Vec<LayerDescriptor> = Vec::new();
                let n = m.layers.len();
                let mut i: usize = 0;
                while i < n
                    invariant
                        i <= n,
                        n == m.layers@.len(),
                        out@.len() == i,
                        forall|j: int|
                            0 <= j < i ==> (#[trigger] out@[j]).digest == m.layers@[j].inner
                                && out@[j].media_type is None,
                    decreases n - i,
                {
                    out.push(
                        LayerDescriptor { digest: m.layers[i].inner.clone(), media_type: None },
                    );
                    i += 1;
                }
                Ok(out)
            },
            ManifestV2::Schema2List(_) => Err(
                RegistryError::UnsupportedManifestSchema(self.manifest.kind()),
            ),
        }
    }
}

/// One layer to fetch: its digest, and its media type when the manifest
/// declares one. A schema 1 manifest declares none; such a layer arrives as
/// a gzipped tar.
#[derive(Debug, Clone, PartialEq)]
pub struct LayerDescriptor {
    pub digest: String,
    pub media_type: Option<String>,
}

impl LayerDescriptor {
    /// Whether the blob behind this layer is gzipped: yes when no media
    /// type is declared, else as the media type says.
    pub fn is_gzipped(&self) -> (r: bool)
        ensures
            r == match self.media_type {
                Some(mt) => crate::manifest::media_is_gzipped(mt@),
                None => true,
            },
    {
        match &self.media_type {
            Some(mt) => crate::text::str_eq(
                mt.as_str(),
                "application/vnd.docker.image.rootfs.diff.tar.gzip",
            ) || crate::text::str_eq(
                mt.as_str(),
                "application/vnd.docker.image.rootfs.foreign.diff.tar.gzip",
            ) || crate::text::str_eq(mt.as_str(), "application/vnd.oci.image.layer.v1.tar+gzip"),
            None => true,
        }
    }
}

} // verus!
