//! Typed models of the image manifest formats — v2 schema 1, v2 schema 2 and
//! the manifest list — and the two-step probe that tells them apart by
//! `schemaVersion` and `mediaType`.

use vstd::prelude::*;

use crate::json::{
    jarr_str, jarr_str_of, jarr_strlist, jarr_strlist_of, jarr_u64, jarr_u64_of, jarrlen,
    jarrlen_of, json_error, jstr, jstr_of, ju64, ju64_of, opt_match, opt_ok, opt_value, req_value,
    FieldRead,
};
use crate::text::{lemma_seg_end_at, seg_end, str_eq, Sep};

verus! {

/// A manifest could not be parsed or recognized.
#[derive(Debug)]
pub enum ManifestError {
    JsonError(serde_json::Error),
    InvalidSchemaVersion(u64),
    InvalidMediaType(String),
}

/// Discriminants of the manifest formats.
#[derive(Debug, Copy, Clone, Eq, PartialEq, Structural, Hash)]
pub enum ManifestV2Schema {
    Schema1,
    Schema2,
    Schema2List,
}

/// The `schemaVersion` field that a JSON document carries, when the document
/// parses and the field is an unsigned integer.
pub uninterp spec fn schema_version_of(s: Seq<char>) -> Option<u64>;

/// The `mediaType` field that a JSON document carries, when the document
/// parses and the field is a string.
pub uninterp spec fn media_type_of(s: Seq<char>) -> Option<Seq<char>>;

/// Relies on serde_json::from_str and Value::as_u64: the `schemaVersion`
/// field read from a JSON document is a function of the text alone.
#[verifier::external_body]
fn read_schema_version(s: &str) -> (r: Result<u64, serde_json::Error>)
    ensures
        match r {
            Ok(n) => schema_version_of(s@) == Some(n),
            Err(_) => schema_version_of(s@) is None,
        },
{
    let v: serde_json::Value = match serde_json::from_str(s) {
        Ok(v) => v,
        Err(e) => return Err(e),
    };
    match v.get("schemaVersion").and_then(serde_json::Value::as_u64) {
        Some(n) => Ok(n),
        None => Err(<serde_json::Error as serde::de::Error>::custom(
            "schemaVersion missing or not an unsigned integer",
        )),
    }
}

/// Relies on serde_json::from_str and Value::as_str: the `mediaType` field
/// read from a JSON document is a function of the text alone.
#[verifier::external_body]
fn read_media_type(s: &str) -> (r: Result<String, serde_json::Error>)
    ensures
        match r {
            Ok(mt) => media_type_of(s@) == Some(mt@),
            Err(_) => media_type_of(s@) is None,
        },
{
    let v: serde_json::Value = match serde_json::from_str(s) {
        Ok(v) => v,
        Err(e) => return Err(e),
    };
    match v.get("mediaType").and_then(serde_json::Value::as_str) {
        Some(mt) => Ok(mt.to_string()),
        None => Err(<serde_json::Error as serde::de::Error>::custom(
            "mediaType missing or not a string",
        )),
    }
}

/// The part of a media type before its first `+`.
pub open spec fn media_type_prefix(mt: Seq<char>) -> Seq<char> {
    mt.subrange(0, seg_end(mt, Sep::Plus, 0))
}

/// The manifest format a media type names, keyed by its prefix before `+`.
/// Docker's media types are accepted alongside the OCI ones.
pub open spec fn route_media_type(mt: Seq<char>) -> Option<ManifestV2Schema> {
    let p = media_type_prefix(mt);
    if p == "application/vnd.oci.distribution.manifest.v2"@ {
        Some(ManifestV2Schema::Schema2)
    } else if p == "application/vnd.oci.distribution.manifest.list.v2"@ {
        Some(ManifestV2Schema::Schema2List)
    } else if p == "application/vnd.docker.distribution.manifest.v2"@ {
        Some(ManifestV2Schema::Schema2)
    } else if p == "application/vnd.docker.distribution.manifest.list.v2"@ {
        Some(ManifestV2Schema::Schema2List)
    } else {
        None
    }
}

/// The media-type prefix before the first `+`, as text.
fn media_type_prefix_exec(mt: &str) -> (r: &str)
    ensures
        r@ == media_type_prefix(mt@),
{
    let n = mt.unicode_len();
    let mut j: usize = 0;
    while j < n && mt.get_char(j) != '+'
        invariant
            j <= n,
            n == mt@.len(),
            forall|k: int| 0 <= k < j ==> !crate::text::is_sep(Sep::Plus, mt@[k]),
        decreases n - j,
    {
        j += 1;
    }
    proof {
        lemma_seg_end_at(mt@, Sep::Plus, 0, j as int);
    }
    mt.substring_char(0, j)
}

/// Route a media type to the manifest format it names.
fn route_media_type_exec(mt: &str) -> (r: Option<ManifestV2Schema>)
    ensures
        r == route_media_type(mt@),
{
    let p = media_type_prefix_exec(mt);
    if str_eq(p, "application/vnd.oci.distribution.manifest.v2") {
        Some(ManifestV2Schema::Schema2)
    } else if str_eq(p, "application/vnd.oci.distribution.manifest.list.v2") {
        Some(ManifestV2Schema::Schema2List)
    } else if str_eq(p, "application/vnd.docker.distribution.manifest.v2") {
        Some(ManifestV2Schema::Schema2)
    } else if str_eq(p, "application/vnd.docker.distribution.manifest.list.v2") {
        Some(ManifestV2Schema::Schema2List)
    } else {
        None
    }
}

/// What the probe reports for a document, given what the document carries.
pub open spec fn probe_result_spec(s: Seq<char>, r: Result<ManifestV2Schema, ManifestError>) -> bool {
    match schema_version_of(s) {
        None => r matches Err(ManifestError::JsonError(_)),
        Some(n) => if n == 1 {
            r == Ok::<ManifestV2Schema, ManifestError>(ManifestV2Schema::Schema1)
        } else if n != 2 {
            r matches Err(ManifestError::InvalidSchemaVersion(m)) && m == n
        } else {
            match media_type_of(s) {
                None => r matches Err(ManifestError::JsonError(_)),
                Some(mt) => match route_media_type(mt) {
                    Some(k) => r == Ok::<ManifestV2Schema, ManifestError>(k),
                    None => r matches Err(ManifestError::InvalidMediaType(m)) && m@ == mt,
                },
            }
        },
    }
}

/// Decide the manifest format of a JSON document: `schemaVersion` 1 is
/// schema 1 whatever its media type; `schemaVersion` 2 is routed by the
/// media-type prefix; anything else is rejected.
pub fn probe_manifest_v2_schema(data: &str) -> (r: Result<ManifestV2Schema, ManifestError>)
    ensures
        probe_result_spec(data@, r),
{
    let n = match read_schema_version(data) {
        Ok(n) => n,
        Err(e) => {
            return Err(ManifestError::JsonError(e));
        },
    };
    if n == 1 {
        return Ok(ManifestV2Schema::Schema1);
    }
    if n != 2 {
        return Err(ManifestError::InvalidSchemaVersion(n));
    }
    let mt = match read_media_type(data) {
        Ok(mt) => mt,
        Err(e) => {
            return Err(ManifestError::JsonError(e));
        },
    };
    match route_media_type_exec(mt.as_str()) {
        Some(k) => Ok(k),
        None => Err(ManifestError::InvalidMediaType(mt)),
    }
}

/// Routing reads nothing after the first `+`: two media types with the same
/// prefix route alike, so a `+json` suffix never changes the outcome.
pub proof fn lemma_route_ignores_suffix(mt1: Seq<char>, mt2: Seq<char>)
    requires
        media_type_prefix(mt1) == media_type_prefix(mt2),
    ensures
        route_media_type(mt1) == route_media_type(mt2),
{
}

/// The routing table on its concrete media types: each of the four
/// distribution media types routes to the format the table names, with and
/// without its `+json` suffix.
#[verifier::rlimit(100)]
pub proof fn lemma_route_table()
    ensures
        route_media_type("application/vnd.oci.distribution.manifest.v2"@) == Some(
            ManifestV2Schema::Schema2,
        ),
        route_media_type("application/vnd.oci.distribution.manifest.v2+json"@) == Some(
            ManifestV2Schema::Schema2,
        ),
        route_media_type("application/vnd.oci.distribution.manifest.list.v2"@) == Some(
            ManifestV2Schema::Schema2List,
        ),
        route_media_type("application/vnd.oci.distribution.manifest.list.v2+json"@) == Some(
            ManifestV2Schema::Schema2List,
        ),
        route_media_type("application/vnd.docker.distribution.manifest.v2"@) == Some(
            ManifestV2Schema::Schema2,
        ),
        route_media_type("application/vnd.docker.distribution.manifest.v2+json"@) == Some(
            ManifestV2Schema::Schema2,
        ),
        route_media_type("application/vnd.docker.distribution.manifest.list.v2"@) == Some(
            ManifestV2Schema::Schema2List,
        ),
        route_media_type("application/vnd.docker.distribution.manifest.list.v2+json"@) == Some(
            ManifestV2Schema::Schema2List,
        ),
{
    reveal_strlit("application/vnd.oci.distribution.manifest.v2");
    reveal_strlit("application/vnd.oci.distribution.manifest.v2+json");
    reveal_strlit("application/vnd.oci.distribution.manifest.list.v2");
    reveal_strlit("application/vnd.oci.distribution.manifest.list.v2+json");
    reveal_strlit("application/vnd.docker.distribution.manifest.v2");
    reveal_strlit("application/vnd.docker.distribution.manifest.v2+json");
    reveal_strlit("application/vnd.docker.distribution.manifest.list.v2");
    reveal_strlit("application/vnd.docker.distribution.manifest.list.v2+json");
    assert("application/vnd.oci.distribution.manifest.v2"@ =~= seq!['a', 'p', 'p', 'l', 'i', 'c', 'a', 't', 'i', 'o', 'n', '/', 'v', 'n', 'd', '.', 'o', 'c', 'i', '.', 'd', 'i', 's', 't', 'r', 'i', 'b', 'u', 't', 'i', 'o', 'n', '.', 'm', 'a', 'n', 'i', 'f', 'e', 's', 't', '.', 'v', '2']);
    assert("application/vnd.oci.distribution.manifest.list.v2"@ =~= seq!['a', 'p', 'p', 'l', 'i', 'c', 'a', 't', 'i', 'o', 'n', '/', 'v', 'n', 'd', '.', 'o', 'c', 'i', '.', 'd', 'i', 's', 't', 'r', 'i', 'b', 'u', 't', 'i', 'o', 'n', '.', 'm', 'a', 'n', 'i', 'f', 'e', 's', 't', '.', 'l', 'i', 's', 't', '.', 'v', '2']);
    assert("application/vnd.docker.distribution.manifest.v2"@ =~= seq!['a', 'p', 'p', 'l', 'i', 'c', 'a', 't', 'i', 'o', 'n', '/', 'v', 'n', 'd', '.', 'd', 'o', 'c', 'k', 'e', 'r', '.', 'd', 'i', 's', 't', 'r', 'i', 'b', 'u', 't', 'i', 'o', 'n', '.', 'm', 'a', 'n', 'i', 'f', 'e', 's', 't', '.', 'v', '2']);
    assert("application/vnd.docker.distribution.manifest.list.v2"@ =~= seq!['a', 'p', 'p', 'l', 'i', 'c', 'a', 't', 'i', 'o', 'n', '/', 'v', 'n', 'd', '.', 'd', 'o', 'c', 'k', 'e', 'r', '.', 'd', 'i', 's', 't', 'r', 'i', 'b', 'u', 't', 'i', 'o', 'n', '.', 'm', 'a', 'n', 'i', 'f', 'e', 's', 't', '.', 'l', 'i', 's', 't', '.', 'v', '2']);
    assert("application/vnd.oci.distribution.manifest.v2+json"@ =~= seq!['a', 'p', 'p', 'l', 'i', 'c', 'a', 't', 'i', 'o', 'n', '/', 'v', 'n', 'd', '.', 'o', 'c', 'i', '.', 'd', 'i', 's', 't', 'r', 'i', 'b', 'u', 't', 'i', 'o', 'n', '.', 'm', 'a', 'n', 'i', 'f', 'e', 's', 't', '.', 'v', '2', '+', 'j', 's', 'o', 'n']);
    assert("application/vnd.oci.distribution.manifest.list.v2+json"@ =~= seq!['a', 'p', 'p', 'l', 'i', 'c', 'a', 't', 'i', 'o', 'n', '/', 'v', 'n', 'd', '.', 'o', 'c', 'i', '.', 'd', 'i', 's', 't', 'r', 'i', 'b', 'u', 't', 'i', 'o', 'n', '.', 'm', 'a', 'n', 'i', 'f', 'e', 's', 't', '.', 'l', 'i', 's', 't', '.', 'v', '2', '+', 'j', 's', 'o', 'n']);
    assert("application/vnd.docker.distribution.manifest.v2+json"@ =~= seq!['a', 'p', 'p', 'l', 'i', 'c', 'a', 't', 'i', 'o', 'n', '/', 'v', 'n', 'd', '.', 'd', 'o', 'c', 'k', 'e', 'r', '.', 'd', 'i', 's', 't', 'r', 'i', 'b', 'u', 't', 'i', 'o', 'n', '.', 'm', 'a', 'n', 'i', 'f', 'e', 's', 't', '.', 'v', '2', '+', 'j', 's', 'o', 'n']);
    assert("application/vnd.docker.distribution.manifest.list.v2+json"@ =~= seq!['a', 'p', 'p', 'l', 'i', 'c', 'a', 't', 'i', 'o', 'n', '/', 'v', 'n', 'd', '.', 'd', 'o', 'c', 'k', 'e', 'r', '.', 'd', 'i', 's', 't', 'r', 'i', 'b', 'u', 't', 'i', 'o', 'n', '.', 'm', 'a', 'n', 'i', 'f', 'e', 's', 't', '.', 'l', 'i', 's', 't', '.', 'v', '2', '+', 'j', 's', 'o', 'n']);
    lemma_route_table_one("application/vnd.oci.distribution.manifest.v2"@, 44);
    lemma_route_table_one("application/vnd.oci.distribution.manifest.v2+json"@, 44);
    lemma_route_table_one("application/vnd.oci.distribution.manifest.list.v2"@, 49);
    lemma_route_table_one("application/vnd.oci.distribution.manifest.list.v2+json"@, 49);
    lemma_route_table_one("application/vnd.docker.distribution.manifest.v2"@, 47);
    lemma_route_table_one("application/vnd.docker.distribution.manifest.v2+json"@, 47);
    lemma_route_table_one("application/vnd.docker.distribution.manifest.list.v2"@, 52);
    lemma_route_table_one("application/vnd.docker.distribution.manifest.list.v2+json"@, 52);
    assert(media_type_prefix("application/vnd.oci.distribution.manifest.v2"@) =~= "application/vnd.oci.distribution.manifest.v2"@);
    assert(media_type_prefix("application/vnd.oci.distribution.manifest.v2+json"@) =~= "application/vnd.oci.distribution.manifest.v2"@);
    assert(media_type_prefix("application/vnd.oci.distribution.manifest.list.v2"@) =~= "application/vnd.oci.distribution.manifest.list.v2"@);
    assert(media_type_prefix("application/vnd.oci.distribution.manifest.list.v2+json"@) =~= "application/vnd.oci.distribution.manifest.list.v2"@);
    assert(media_type_prefix("application/vnd.docker.distribution.manifest.v2"@) =~= "application/vnd.docker.distribution.manifest.v2"@);
    assert(media_type_prefix("application/vnd.docker.distribution.manifest.v2+json"@) =~= "application/vnd.docker.distribution.manifest.v2"@);
    assert(media_type_prefix("application/vnd.docker.distribution.manifest.list.v2"@) =~= "application/vnd.docker.distribution.manifest.list.v2"@);
    assert(media_type_prefix("application/vnd.docker.distribution.manifest.list.v2+json"@) =~= "application/vnd.docker.distribution.manifest.list.v2"@);
}

/// The first `+` of the media type stands at `plus`, or there is none and
/// `plus` is the length.
proof fn lemma_route_table_one(mt: Seq<char>, plus: int)
    requires
        0 <= plus <= mt.len(),
        forall|k: int| 0 <= k < plus ==> mt[k] != '+',
        plus < mt.len() ==> mt[plus] == '+',
    ensures
        seg_end(mt, Sep::Plus, 0) == plus,
{
    lemma_seg_end_at(mt, Sep::Plus, 0, plus);
}

/// A document with `schemaVersion` 1 probes as schema 1, whatever media
/// type it carries.
pub proof fn lemma_probe_schema1(s: Seq<char>, r: Result<ManifestV2Schema, ManifestError>)
    requires
        probe_result_spec(s, r),
        schema_version_of(s) == Some(1u64),
    ensures
        r == Ok::<ManifestV2Schema, ManifestError>(ManifestV2Schema::Schema1),
{
}

/// The `schemaVersion`-only shape of a manifest, read during probing.
#[derive(Debug)]
pub struct ManifestSchemaOnlyV2 {
    schema: u64,
}

impl ManifestSchemaOnlyV2 {
    /// The schema version this probe shape holds.
    pub closed spec fn schema_spec(&self) -> u64 {
        self.schema
    }

    /// Read only the `schemaVersion` field of a manifest document.
    pub fn parse(s: &str) -> (r: Result<ManifestSchemaOnlyV2, ManifestError>)
        ensures
            match r {
                Ok(m) => schema_version_of(s@) == Some(m.schema_spec()),
                Err(_) => schema_version_of(s@) is None,
            },
    {
        match read_schema_version(s) {
            Ok(n) => Ok(ManifestSchemaOnlyV2 { schema: n }),
            Err(e) => Err(ManifestError::JsonError(e)),
        }
    }

    /// The schema version that was read.
    pub fn schema(&self) -> (r: u64)
        ensures
            r == self.schema_spec(),
    {
        self.schema
    }
}

/// The `mediaType`-only shape of a schema 2 manifest, read during probing.
#[derive(Debug)]
pub struct ManifestMediaTypeOnlyV2_2 {
    media_type: String,
}

impl ManifestMediaTypeOnlyV2_2 {
    /// The media type this probe shape holds.
    pub closed spec fn media_type_spec(&self) -> Seq<char> {
        self.media_type@
    }

    /// Read only the `mediaType` field of a manifest document.
    pub fn parse(s: &str) -> (r: Result<ManifestMediaTypeOnlyV2_2, ManifestError>)
        ensures
            match r {
                Ok(m) => media_type_of(s@) == Some(m.media_type_spec()),
                Err(_) => media_type_of(s@) is None,
            },
    {
        match read_media_type(s) {
            Ok(mt) => Ok(ManifestMediaTypeOnlyV2_2 { media_type: mt }),
            Err(e) => Err(ManifestError::JsonError(e)),
        }
    }

    /// The media type that was read.
    pub fn media_type(&self) -> (r: &str)
        ensures
            r@ == self.media_type_spec(),
    {
        self.media_type.as_str()
    }
}

/// One layer reference of a schema 1 manifest.
#[derive(Debug, PartialEq)]
pub struct FsLayerV2_1 {
    /// The `blobSum` digest of the layer.
    pub inner: String,
}

/// One `v1Compatibility` entry of a schema 1 manifest.
#[derive(Debug, PartialEq)]
pub struct V1Compatibility {
    pub inner: String,
}

/// Image Manifest Version 2, Schema 1.
#[derive(Debug, PartialEq)]
pub struct ManifestV2_1 {
    pub schema: u64,
    pub name: String,
    pub tag: String,
    pub architecture: String,
    /// Layer digests, most recent first (opposite of schema 2).
    pub layers: Vec<FsLayerV2_1>,
}

/// The config reference of a schema 2 manifest.
#[derive(Debug, PartialEq)]
pub struct ConfigV2_2 {
    /// The MIME type of the referenced object.
    pub media_type: String,
    /// The expected size in bytes of the object.
    pub size: u64,
    /// The digest of the content.
    pub digest: String,
}

/// One layer reference of a schema 2 manifest.
#[derive(Debug, PartialEq)]
pub struct LayerV2_2 {
    /// The MIME type of the referenced object.
    pub media_type: String,
    /// The expected size in bytes of the object.
    pub size: u64,
    /// The digest of the content.
    pub digest: String,
    /// Alternate locations the content may be fetched from.
    pub urls: Option<Vec<String>>,
}

/// Image Manifest Version 2, Schema 2.
#[derive(Debug, PartialEq)]
pub struct ManifestV2_2 {
    pub schema: u64,
    pub media_type: String,
    /// The configuration object of the image, by digest.
    pub config: ConfigV2_2,
    /// The layer list, ordered starting from the base image.
    pub layers: Vec<LayerV2_2>,
}

/// The platform one manifest-list entry is built for.
#[derive(Debug, PartialEq)]
pub struct ManifestPlatformV2_2 {
    pub architecture: String,
    pub os: String,
    pub osversion: Option<String>,
    pub osfeatures: Option<Vec<String>>,
    pub variant: Option<String>,
    pub features: Option<Vec<String>>,
}

/// One entry of a manifest list.
#[derive(Debug, PartialEq)]
pub struct ManifestListEntryV2_2 {
    pub media_type: String,
    pub size: u64,
    pub digest: String,
    pub platform: ManifestPlatformV2_2,
}

/// The manifest list, or "fat manifest": per-platform manifests by digest.
#[derive(Debug, PartialEq)]
pub struct ManifestListV2_2 {
    pub schema: u64,
    pub media_type: String,
    pub manifests: Vec<ManifestListEntryV2_2>,
}

/// A manifest of any of the three formats.
#[derive(Debug)]
pub enum ManifestV2 {
    Schema1(ManifestV2_1),
    Schema2(ManifestV2_2),
    Schema2List(ManifestListV2_2),
}

/// The format of a manifest value.
pub open spec fn schema_of(m: ManifestV2) -> ManifestV2Schema {
    match m {
        ManifestV2::Schema1(_) => ManifestV2Schema::Schema1,
        ManifestV2::Schema2(_) => ManifestV2Schema::Schema2,
        ManifestV2::Schema2List(_) => ManifestV2Schema::Schema2List,
    }
}

impl ManifestV2 {
    /// The format of this manifest.
    pub fn kind(&self) -> (r: ManifestV2Schema)
        ensures
            r == schema_of(*self),
    {
        match self {
            ManifestV2::Schema1(_) => ManifestV2Schema::Schema1,
            ManifestV2::Schema2(_) => ManifestV2Schema::Schema2,
            ManifestV2::Schema2List(_) => ManifestV2Schema::Schema2List,
        }
    }
}

impl From<ManifestV2> for ManifestV2Schema {
    fn from(manifest: ManifestV2) -> (r: ManifestV2Schema) {
        manifest.kind()
    }
}

impl vstd::std_specs::convert::FromSpecImpl<ManifestV2> for ManifestV2Schema {
    open spec fn obeys_from_spec() -> bool {
        true
    }

    open spec fn from_spec(manifest: ManifestV2) -> ManifestV2Schema {
        schema_of(manifest)
    }
}

/// How one schema 1 layer reference relates to the document.
pub open spec fn fs_layer_matches(s: Seq<char>, i: int, l: FsLayerV2_1) -> bool {
    jarr_str_of(s, "fsLayers"@, i, "blobSum"@, None) == FieldRead::Value(l.inner)
}

pub open spec fn fs_layer_readable(s: Seq<char>, i: int) -> bool {
    jarr_str_of(s, "fsLayers"@, i, "blobSum"@, None) is Value
}

/// How a schema 1 manifest relates to the document it was parsed from.
pub open spec fn schema1_matches(s: Seq<char>, m: ManifestV2_1) -> bool {
    &&& schema_version_of(s) == Some(m.schema)
    &&& jstr_of(s, "name"@, None) == FieldRead::Value(m.name)
    &&& jstr_of(s, "tag"@, None) == FieldRead::Value(m.tag)
    &&& jstr_of(s, "architecture"@, None) == FieldRead::Value(m.architecture)
    &&& jarrlen_of(s, "fsLayers"@) == FieldRead::Value(m.layers@.len() as u64)
    &&& forall|i: int| 0 <= i < m.layers@.len() ==> fs_layer_matches(s, i, #[trigger] m.layers@[i])
}

/// Whether a document holds everything a schema 1 manifest needs.
pub open spec fn schema1_readable(s: Seq<char>) -> bool {
    &&& schema_version_of(s) is Some
    &&& jstr_of(s, "name"@, None) is Value
    &&& jstr_of(s, "tag"@, None) is Value
    &&& jstr_of(s, "architecture"@, None) is Value
    &&& jarrlen_of(s, "fsLayers"@) matches FieldRead::Value(n) && n <= usize::MAX && (forall|
        i: int,
    |
        0 <= i < n ==> fs_layer_readable(s, i))
}

fn build_schema1(s: &str) -> (r: Result<ManifestV2_1, serde_json::Error>)
    ensures
        match r {
            Ok(m) => schema1_matches(s@, m),
            Err(_) => !schema1_readable(s@),
        },
{
    let schema = match read_schema_version(s) {
        Ok(n) => n,
        Err(e) => {
            return Err(e);
        },
    };
    let name = match req_value(jstr(s, "name", None)) {
        Ok(v) => v,
        Err(e) => {
            return Err(e);
        },
    };
    let tag = match req_value(jstr(s, "tag", None)) {
        Ok(v) => v,
        Err(e) => {
            return Err(e);
        },
    };
    let architecture = match req_value(jstr(s, "architecture", None)) {
        Ok(v) => v,
        Err(e) => {
            return Err(e);
        },
    };
    let count = match req_value(jarrlen(s, "fsLayers")) {
        Ok(v) => v,
        Err(e) => {
            return Err(e);
        },
    };
    if count > usize::MAX as u64 {
        return Err(json_error("fsLayers is too long"));
    }
    let n = count as usize;
    let mut layers: Vec<FsLayerV2_1> = Vec::new();
    let mut i: usize = 0;
    while i < n
        invariant
            i <= n,
            n as u64 == count,
            jarrlen_of(s@, "fsLayers"@) == FieldRead::Value(count),
            layers@.len() == i,
            forall|j: int| 0 <= j < i ==> fs_layer_matches(s@, j, #[trigger] layers@[j]),
        decreases n - i,
    {
        match req_value(jarr_str(s, "fsLayers", i, "blobSum", None)) {
            Ok(v) => layers.push(FsLayerV2_1 { inner: v }),
            Err(e) => {
                proof {
                    assert(!fs_layer_readable(s@, i as int));
                }
                return Err(e);
            },
        }
        i += 1;
    }
    Ok(ManifestV2_1 { schema, name, tag, architecture, layers })
}

/// How one schema 2 layer reference relates to the document.
pub open spec fn layer_matches(s: Seq<char>, i: int, l: LayerV2_2) -> bool {
    &&& jarr_str_of(s, "layers"@, i, "mediaType"@, None) == FieldRead::Value(l.media_type)
    &&& jarr_u64_of(s, "layers"@, i, "size"@, None) == FieldRead::Value(l.size)
    &&& jarr_str_of(s, "layers"@, i, "digest"@, None) == FieldRead::Value(l.digest)
    &&& opt_match(jarr_strlist_of(s, "layers"@, i, "urls"@, None), l.urls)
}

pub open spec fn layer_readable(s: Seq<char>, i: int) -> bool {
    &&& jarr_str_of(s, "layers"@, i, "mediaType"@, None) is Value
    &&& jarr_u64_of(s, "layers"@, i, "size"@, None) is Value
    &&& jarr_str_of(s, "layers"@, i, "digest"@, None) is Value
    &&& opt_ok(jarr_strlist_of(s, "layers"@, i, "urls"@, None))
}

fn build_layer(s: &str, i: usize) -> (r: Result<LayerV2_2, serde_json::Error>)
    ensures
        match r {
            Ok(l) => layer_matches(s@, i as int, l),
            Err(_) => !layer_readable(s@, i as int),
        },
{
    let media_type = match req_value(jarr_str(s, "layers", i, "mediaType", None)) {
        Ok(v) => v,
        Err(e) => {
            return Err(e);
        },
    };
    let size = match req_value(jarr_u64(s, "layers", i, "size", None)) {
        Ok(v) => v,
        Err(e) => {
            return Err(e);
        },
    };
    let digest = match req_value(jarr_str(s, "layers", i, "digest", None)) {
        Ok(v) => v,
        Err(e) => {
            return Err(e);
        },
    };
    let urls = match opt_value(jarr_strlist(s, "layers", i, "urls", None)) {
        Ok(v) => v,
        Err(e) => {
            return Err(e);
        },
    };
    Ok(LayerV2_2 { media_type, size, digest, urls })
}

/// How a schema 2 manifest relates to the document it was parsed from.
pub open spec fn schema2_matches(s: Seq<char>, m: ManifestV2_2) -> bool {
    &&& schema_version_of(s) == Some(m.schema)
    &&& media_type_of(s) == Some(m.media_type@)
    &&& jstr_of(s, "config"@, Some("mediaType"@)) == FieldRead::Value(m.config.media_type)
    &&& ju64_of(s, "config"@, Some("size"@)) == FieldRead::Value(m.config.size)
    &&& jstr_of(s, "config"@, Some("digest"@)) == FieldRead::Value(m.config.digest)
    &&& jarrlen_of(s, "layers"@) == FieldRead::Value(m.layers@.len() as u64)
    &&& forall|i: int| 0 <= i < m.layers@.len() ==> layer_matches(s, i, #[trigger] m.layers@[i])
}

/// Whether a document holds everything a schema 2 manifest needs.
pub open spec fn schema2_readable(s: Seq<char>) -> bool {
    &&& schema_version_of(s) is Some
    &&& media_type_of(s) is Some
    &&& jstr_of(s, "config"@, Some("mediaType"@)) is Value
    &&& ju64_of(s, "config"@, Some("size"@)) is Value
    &&& jstr_of(s, "config"@, Some("digest"@)) is Value
    &&& jarrlen_of(s, "layers"@) matches FieldRead::Value(n) && n <= usize::MAX && (forall|i: int|
        0 <= i < n ==> layer_readable(s, i))
}

fn build_schema2(s: &str) -> (r: Result<ManifestV2_2, serde_json::Error>)
    ensures
        match r {
            Ok(m) => schema2_matches(s@, m),
            Err(_) => !schema2_readable(s@),
        },
{
    let schema = match read_schema_version(s) {
        Ok(n) => n,
        Err(e) => {
            return Err(e);
        },
    };
    let media_type = match read_media_type(s) {
        Ok(t) => t,
        Err(e) => {
            return Err(e);
        },
    };
    let config_media_type = match req_value(jstr(s, "config", Some("mediaType"))) {
        Ok(v) => v,
        Err(e) => {
            return Err(e);
        },
    };
    let config_size = match req_value(ju64(s, "config", Some("size"))) {
        Ok(v) => v,
        Err(e) => {
            return Err(e);
        },
    };
    let config_digest = match req_value(jstr(s, "config", Some("digest"))) {
        Ok(v) => v,
        Err(e) => {
            return Err(e);
        },
    };
    let count = match req_value(jarrlen(s, "layers")) {
        Ok(v) => v,
        Err(e) => {
            return Err(e);
        },
    };
    if count > usize::MAX as u64 {
        return Err(json_error("layers is too long"));
    }
    let n = count as usize;
    let mut layers: Vec<LayerV2_2> = Vec::new();
    let mut i: usize = 0;
    while i < n
        invariant
            i <= n,
            n as u64 == count,
            jarrlen_of(s@, "layers"@) == FieldRead::Value(count),
            layers@.len() == i,
            forall|j: int| 0 <= j < i ==> layer_matches(s@, j, #[trigger] layers@[j]),
        decreases n - i,
    {
        match build_layer(s, i) {
            Ok(l) => layers.push(l),
            Err(e) => {
                return Err(e);
            },
        }
        i += 1;
    }
    Ok(
        ManifestV2_2 {
            schema,
            media_type,
            config: ConfigV2_2 {
                media_type: config_media_type,
                size: config_size,
                digest: config_digest,
            },
            layers,
        },
    )
}

/// How one manifest-list entry relates to the document.
pub open spec fn entry_matches(s: Seq<char>, i: int, e: ManifestListEntryV2_2) -> bool {
    &&& jarr_str_of(s, "manifests"@, i, "mediaType"@, None) == FieldRead::Value(e.media_type)
    &&& jarr_u64_of(s, "manifests"@, i, "size"@, None) == FieldRead::Value(e.size)
    &&& jarr_str_of(s, "manifests"@, i, "digest"@, None) == FieldRead::Value(e.digest)
    &&& jarr_str_of(s, "manifests"@, i, "platform"@, Some("architecture"@)) == FieldRead::Value(
        e.platform.architecture,
    )
    &&& jarr_str_of(s, "manifests"@, i, "platform"@, Some("os"@)) == FieldRead::Value(
        e.platform.os,
    )
    &&& opt_match(
        jarr_str_of(s, "manifests"@, i, "platform"@, Some("os.version"@)),
        e.platform.osversion,
    )
    &&& opt_match(
        jarr_strlist_of(s, "manifests"@, i, "platform"@, Some("os.features"@)),
        e.platform.osfeatures,
    )
    &&& opt_match(
        jarr_str_of(s, "manifests"@, i, "platform"@, Some("variant"@)),
        e.platform.variant,
    )
    &&& opt_match(
        jarr_strlist_of(s, "manifests"@, i, "platform"@, Some("features"@)),
        e.platform.features,
    )
}

pub open spec fn entry_readable(s: Seq<char>, i: int) -> bool {
    &&& jarr_str_of(s, "manifests"@, i, "mediaType"@, None) is Value
    &&& jarr_u64_of(s, "manifests"@, i, "size"@, None) is Value
    &&& jarr_str_of(s, "manifests"@, i, "digest"@, None) is Value
    &&& jarr_str_of(s, "manifests"@, i, "platform"@, Some("architecture"@)) is Value
    &&& jarr_str_of(s, "manifests"@, i, "platform"@, Some("os"@)) is Value
    &&& opt_ok(jarr_str_of(s, "manifests"@, i, "platform"@, Some("os.version"@)))
    &&& opt_ok(jarr_strlist_of(s, "manifests"@, i, "platform"@, Some("os.features"@)))
    &&& opt_ok(jarr_str_of(s, "manifests"@, i, "platform"@, Some("variant"@)))
    &&& opt_ok(jarr_strlist_of(s, "manifests"@, i, "platform"@, Some("features"@)))
}

fn build_list_entry(s: &str, i: usize) -> (r: Result<ManifestListEntryV2_2, serde_json::Error>)
    ensures
        match r {
            Ok(e) => entry_matches(s@, i as int, e),
            Err(_) => !entry_readable(s@, i as int),
        },
{
    let media_type = match req_value(jarr_str(s, "manifests", i, "mediaType", None)) {
        Ok(v) => v,
        Err(e) => {
            return Err(e);
        },
    };
    let size = match req_value(jarr_u64(s, "manifests", i, "size", None)) {
        Ok(v) => v,
        Err(e) => {
            return Err(e);
        },
    };
    let digest = match req_value(jarr_str(s, "manifests", i, "digest", None)) {
        Ok(v) => v,
        Err(e) => {
            return Err(e);
        },
    };
    let architecture = match req_value(jarr_str(s, "manifests", i, "platform", Some("architecture"))) {
        Ok(v) => v,
        Err(e) => {
            return Err(e);
        },
    };
    let os = match req_value(jarr_str(s, "manifests", i, "platform", Some("os"))) {
        Ok(v) => v,
        Err(e) => {
            return Err(e);
        },
    };
    let osversion = match opt_value(jarr_str(s, "manifests", i, "platform", Some("os.version"))) {
        Ok(v) => v,
        Err(e) => {
            return Err(e);
        },
    };
    let osfeatures = match opt_value(
        jarr_strlist(s, "manifests", i, "platform", Some("os.features")),
    ) {
        Ok(v) => v,
        Err(e) => {
            return Err(e);
        },
    };
    let variant = match opt_value(jarr_str(s, "manifests", i, "platform", Some("variant"))) {
        Ok(v) => v,
        Err(e) => {
            return Err(e);
        },
    };
    let features = match opt_value(jarr_strlist(s, "manifests", i, "platform", Some("features"))) {
        Ok(v) => v,
        Err(e) => {
            return Err(e);
        },
    };
    Ok(
        ManifestListEntryV2_2 {
            media_type,
            size,
            digest,
            platform: ManifestPlatformV2_2 {
                architecture,
                os,
                osversion,
                osfeatures,
                variant,
                features,
            },
        },
    )
}

/// How a manifest list relates to the document it was parsed from.
pub open spec fn list_matches(s: Seq<char>, m: ManifestListV2_2) -> bool {
    &&& schema_version_of(s) == Some(m.schema)
    &&& media_type_of(s) == Some(m.media_type@)
    &&& jarrlen_of(s, "manifests"@) == FieldRead::Value(m.manifests@.len() as u64)
    &&& forall|i: int|
        0 <= i < m.manifests@.len() ==> entry_matches(s, i, #[trigger] m.manifests@[i])
}

/// Whether a document holds everything a manifest list needs.
pub open spec fn list_readable(s: Seq<char>) -> bool {
    &&& schema_version_of(s) is Some
    &&& media_type_of(s) is Some
    &&& jarrlen_of(s, "manifests"@) matches FieldRead::Value(n) && n <= usize::MAX && (forall|
        i: int,
    |
        0 <= i < n ==> entry_readable(s, i))
}

fn build_list(s: &str) -> (r: Result<ManifestListV2_2, serde_json::Error>)
    ensures
        match r {
            Ok(m) => list_matches(s@, m),
            Err(_) => !list_readable(s@),
        },
{
    let schema = match read_schema_version(s) {
        Ok(n) => n,
        Err(e) => {
            return Err(e);
        },
    };
    let media_type = match read_media_type(s) {
        Ok(t) => t,
        Err(e) => {
            return Err(e);
        },
    };
    let count = match req_value(jarrlen(s, "manifests")) {
        Ok(v) => v,
        Err(e) => {
            return Err(e);
        },
    };
    if count > usize::MAX as u64 {
        return Err(json_error("manifests is too long"));
    }
    let n = count as usize;
    let mut manifests: Vec<ManifestListEntryV2_2> = Vec::new();
    let mut i: usize = 0;
    while i < n
        invariant
            i <= n,
            n as u64 == count,
            jarrlen_of(s@, "manifests"@) == FieldRead::Value(count),
            manifests@.len() == i,
            forall|j: int| 0 <= j < i ==> entry_matches(s@, j, #[trigger] manifests@[j]),
        decreases n - i,
    {
        match build_list_entry(s, i) {
            Ok(entry) => manifests.push(entry),
            Err(e) => {
                return Err(e);
            },
        }
        i += 1;
    }
    Ok(ManifestListV2_2 { schema, media_type, manifests })
}

/// How a parsed manifest's payload relates to the document.
pub open spec fn manifest_payload_matches(s: Seq<char>, m: ManifestV2) -> bool {
    match m {
        ManifestV2::Schema1(p) => schema1_matches(s, p),
        ManifestV2::Schema2(p) => schema2_matches(s, p),
        ManifestV2::Schema2List(p) => list_matches(s, p),
    }
}

/// When a JSON failure is a lawful outcome of the full parse: the probe
/// itself failed on the document, or the format the probe picked cannot be
/// read out of it in full.
pub open spec fn manifest_json_error_allowed(s: Seq<char>) -> bool {
    match schema_version_of(s) {
        None => true,
        Some(n) => if n == 1 {
            !schema1_readable(s)
        } else if n != 2 {
            false
        } else {
            match media_type_of(s) {
                None => true,
                Some(mt) => match route_media_type(mt) {
                    Some(ManifestV2Schema::Schema1) => !schema1_readable(s),
                    Some(ManifestV2Schema::Schema2) => !schema2_readable(s),
                    Some(ManifestV2Schema::Schema2List) => !list_readable(s),
                    None => false,
                },
            }
        },
    }
}

/// What parsing promises: an `Ok` manifest is of the format the probe
/// names and its fields are the document's own; a JSON failure happens only
/// when the document cannot be read in full; the probe's rejections
/// surface unchanged.
pub open spec fn parse_manifest_spec(s: Seq<char>, r: Result<ManifestV2, ManifestError>) -> bool {
    match r {
        Ok(m) => {
            &&& match schema_version_of(s) {
                None => false,
                Some(n) => if n == 1 {
                    m is Schema1
                } else if n != 2 {
                    false
                } else {
                    match media_type_of(s) {
                        None => false,
                        Some(mt) => match route_media_type(mt) {
                            Some(ManifestV2Schema::Schema1) => m is Schema1,
                            Some(ManifestV2Schema::Schema2) => m is Schema2,
                            Some(ManifestV2Schema::Schema2List) => m is Schema2List,
                            None => false,
                        },
                    }
                },
            }
            &&& manifest_payload_matches(s, m)
        },
        Err(ManifestError::JsonError(_)) => manifest_json_error_allowed(s),
        Err(ManifestError::InvalidSchemaVersion(n)) => schema_version_of(s) == Some(n) && n != 1
            && n != 2,
        Err(ManifestError::InvalidMediaType(m)) => schema_version_of(s) == Some(2u64)
            && media_type_of(s) == Some(m@) && route_media_type(m@) is None,
    }
}

impl ManifestV2 {
    /// Parse a manifest document: probe its format, then read that
    /// format's fields out of the same text.
    pub fn parse(s: &str) -> (r: Result<ManifestV2, ManifestError>)
        ensures
            parse_manifest_spec(s@, r),
    {
        let kind = match probe_manifest_v2_schema(s) {
            Ok(k) => k,
            Err(e) => {
                return Err(e);
            },
        };
        match kind {
            ManifestV2Schema::Schema1 => match build_schema1(s) {
                Ok(m) => Ok(ManifestV2::Schema1(m)),
                Err(e) => Err(ManifestError::JsonError(e)),
            },
            ManifestV2Schema::Schema2 => match build_schema2(s) {
                Ok(m) => Ok(ManifestV2::Schema2(m)),
                Err(e) => Err(ManifestError::JsonError(e)),
            },
            ManifestV2Schema::Schema2List => match build_list(s) {
                Ok(m) => Ok(ManifestV2::Schema2List(m)),
                Err(e) => Err(ManifestError::JsonError(e)),
            },
        }
    }
}

impl core::str::FromStr for ManifestV2 {
    type Err = ManifestError;

    fn from_str(s: &str) -> (r: Result<ManifestV2, ManifestError>) {
        ManifestV2::parse(s)
    }
}
/// The media types whose layers arrive gzipped.
pub open spec fn media_is_gzipped(mt: Seq<char>) -> bool {
    mt == "application/vnd.docker.image.rootfs.diff.tar.gzip"@ || mt
        == "application/vnd.docker.image.rootfs.foreign.diff.tar.gzip"@ || mt
        == "application/vnd.oci.image.layer.v1.tar+gzip"@
}

impl LayerV2_2 {
    /// Whether this layer's media type names a gzipped tar.
    pub fn is_gzipped(&self) -> (r: bool)
        ensures
            r == media_is_gzipped(self.media_type@),
    {
        str_eq(self.media_type.as_str(), "application/vnd.docker.image.rootfs.diff.tar.gzip")
            || str_eq(
            self.media_type.as_str(),
            "application/vnd.docker.image.rootfs.foreign.diff.tar.gzip",
        ) || str_eq(self.media_type.as_str(), "application/vnd.oci.image.layer.v1.tar+gzip")
    }
}

/// The platform a host presents, for matching against manifest-list entries.
#[derive(Debug, Clone)]
pub struct HostPlatform {
    pub os: String,
    pub architecture: String,
    pub variant: Option<String>,
}

/// A manifest-list entry's platform matches a host when `os` and
/// `architecture` agree, with `variant` compared only when both sides give
/// one.
pub open spec fn platform_matches(p: ManifestPlatformV2_2, host: HostPlatform) -> bool {
    &&& p.os@ == host.os@
    &&& p.architecture@ == host.architecture@
    &&& (p.variant is Some && host.variant is Some ==> p.variant.unwrap()@
        == host.variant.unwrap()@)
}

impl ManifestPlatformV2_2 {
    /// Whether this platform matches the given host.
    pub fn current_platform_matches(&self, host: &HostPlatform) -> (r: bool)
        ensures
            r == platform_matches(*self, *host),
    {
        if !str_eq(self.os.as_str(), host.os.as_str()) {
            return false;
        }
        if !str_eq(self.architecture.as_str(), host.architecture.as_str()) {
            return false;
        }
        match (&self.variant, &host.variant) {
            (Some(pv), Some(hv)) => str_eq(pv.as_str(), hv.as_str()),
            _ => true,
        }
    }
}

} // verus!
