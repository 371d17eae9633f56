//! Typed model of the `ImageV1` image configuration document, with the
//! exact wire names of the Docker/OCI image specification read during
//! parsing.

use vstd::prelude::*;

use crate::go::{go_arch_of, go_os_of, GoArch, GoOs};
use crate::json::{
    jarr_bool, jarr_bool_of, jarr_str, jarr_str_of, jarrlen, jarrlen_of, jkeys, jkeys_of, jobject,
    jobject_of, json_error, jstr, jstr_of, jstrlist, jstrlist_of, jstrmap, jstrmap_of, opt_match,
    opt_ok, opt_value, req_value, FieldRead,
};

verus! {

/// The image configuration could not be parsed.
#[derive(Debug)]
pub enum ImageSpecError {
    JsonError(serde_json::Error),
}

/// The execution defaults of an image (`config` in the wire document; its
/// keys are capitalized on the wire: `User`, `Env`, `Cmd`, ...).
/// `ExposedPorts` and `Volumes` arrive as objects with empty values; the
/// model keeps their keys.
#[derive(Debug)]
pub struct ConfigV1 {
    pub user: Option<String>,
    pub exposed_ports: Option<Vec<String>>,
    pub env: Option<Vec<String>>,
    pub entrypoint: Option<Vec<String>>,
    pub cmd: Option<Vec<String>>,
    pub volumes: Option<Vec<String>>,
    pub working_dir: Option<String>,
    pub labels: Option<Vec<(String, String)>>,
    pub stop_signal: Option<String>,
}

/// The layer content addresses of an image (`rootfs` on the wire).
#[derive(Debug)]
pub struct RootFSV1 {
    /// Must be `layers` (`type` on the wire).
    pub fs_type: String,
    /// Layer DiffIDs, first to last.
    pub diff_ids: Vec<String>,
}

/// One history entry of an image.
#[derive(Debug)]
pub struct HistoryV1 {
    pub created: Option<String>,
    pub author: Option<String>,
    pub created_by: Option<String>,
    pub comment: Option<String>,
    pub empty_layer: Option<bool>,
}

/// The `ImageV1` image configuration document.
#[derive(Debug)]
pub struct ImageV1 {
    pub created: Option<String>,
    pub author: Option<String>,
    pub architecture: GoArch,
    pub os: GoOs,
    pub config: Option<ConfigV1>,
    pub rootfs: RootFSV1,
    pub history: Option<Vec<HistoryV1>>,
}

/// How a parsed execution config relates to the document.
pub open spec fn config_v1_matches(s: Seq<char>, c: ConfigV1) -> bool {
    &&& opt_match(jstr_of(s, "config"@, Some("User"@)), c.user)
    &&& opt_match(jkeys_of(s, "config"@, Some("ExposedPorts"@)), c.exposed_ports)
    &&& opt_match(jstrlist_of(s, "config"@, Some("Env"@)), c.env)
    &&& opt_match(jstrlist_of(s, "config"@, Some("Entrypoint"@)), c.entrypoint)
    &&& opt_match(jstrlist_of(s, "config"@, Some("Cmd"@)), c.cmd)
    &&& opt_match(jkeys_of(s, "config"@, Some("Volumes"@)), c.volumes)
    &&& opt_match(jstr_of(s, "config"@, Some("WorkingDir"@)), c.working_dir)
    &&& opt_match(jstrmap_of(s, "config"@, Some("Labels"@)), c.labels)
    &&& opt_match(jstr_of(s, "config"@, Some("StopSignal"@)), c.stop_signal)
}

pub open spec fn config_v1_readable(s: Seq<char>) -> bool {
    &&& opt_ok(jstr_of(s, "config"@, Some("User"@)))
    &&& opt_ok(jkeys_of(s, "config"@, Some("ExposedPorts"@)))
    &&& opt_ok(jstrlist_of(s, "config"@, Some("Env"@)))
    &&& opt_ok(jstrlist_of(s, "config"@, Some("Entrypoint"@)))
    &&& opt_ok(jstrlist_of(s, "config"@, Some("Cmd"@)))
    &&& opt_ok(jkeys_of(s, "config"@, Some("Volumes"@)))
    &&& opt_ok(jstr_of(s, "config"@, Some("WorkingDir"@)))
    &&& opt_ok(jstrmap_of(s, "config"@, Some("Labels"@)))
    &&& opt_ok(jstr_of(s, "config"@, Some("StopSignal"@)))
}

/// How one history entry relates to the document.
pub open spec fn history_matches(s: Seq<char>, i: int, h: HistoryV1) -> bool {
    &&& opt_match(jarr_str_of(s, "history"@, i, "created"@, None), h.created)
    &&& opt_match(jarr_str_of(s, "history"@, i, "author"@, None), h.author)
    &&& opt_match(jarr_str_of(s, "history"@, i, "created_by"@, None), h.created_by)
    &&& opt_match(jarr_str_of(s, "history"@, i, "comment"@, None), h.comment)
    &&& opt_match(jarr_bool_of(s, "history"@, i, "empty_layer"@, None), h.empty_layer)
}

pub open spec fn history_readable(s: Seq<char>, i: int) -> bool {
    &&& opt_ok(jarr_str_of(s, "history"@, i, "created"@, None))
    &&& opt_ok(jarr_str_of(s, "history"@, i, "author"@, None))
    &&& opt_ok(jarr_str_of(s, "history"@, i, "created_by"@, None))
    &&& opt_ok(jarr_str_of(s, "history"@, i, "comment"@, None))
    &&& opt_ok(jarr_bool_of(s, "history"@, i, "empty_layer"@, None))
}

/// How a parsed image configuration relates to the document: every field
/// is the document's own, with `architecture` and `os` the parsed forms of
/// recognized `GOARCH` / `GOOS` strings.
pub open spec fn image_v1_matches(s: Seq<char>, img: ImageV1) -> bool {
    &&& opt_match(jstr_of(s, "created"@, None), img.created)
    &&& opt_match(jstr_of(s, "author"@, None), img.author)
    &&& (jstr_of(s, "architecture"@, None) matches FieldRead::Value(a) && go_arch_of(a@) == Some(
        img.architecture,
    ))
    &&& (jstr_of(s, "os"@, None) matches FieldRead::Value(o) && go_os_of(o@) == Some(img.os))
    &&& match jobject_of(s, "config"@) {
        FieldRead::Missing => img.config is None,
        FieldRead::Value(_) => img.config matches Some(c) && config_v1_matches(s, c),
        FieldRead::Invalid => false,
    }
    &&& jstr_of(s, "rootfs"@, Some("type"@)) == FieldRead::Value(img.rootfs.fs_type)
    &&& jstrlist_of(s, "rootfs"@, Some("diff_ids"@)) == FieldRead::Value(img.rootfs.diff_ids)
    &&& match jarrlen_of(s, "history"@) {
        FieldRead::Missing => img.history is None,
        FieldRead::Value(n) => img.history matches Some(h) && h@.len() as u64 == n && (forall|
            i: int,
        |
            0 <= i < h@.len() ==> history_matches(s, i, #[trigger] h@[i])),
        FieldRead::Invalid => false,
    }
}

/// Whether a document holds everything an image configuration needs,
/// `architecture` and `os` being recognized values.
pub open spec fn image_v1_readable(s: Seq<char>) -> bool {
    &&& opt_ok(jstr_of(s, "created"@, None))
    &&& opt_ok(jstr_of(s, "author"@, None))
    &&& (jstr_of(s, "architecture"@, None) matches FieldRead::Value(a) && go_arch_of(a@) is Some)
    &&& (jstr_of(s, "os"@, None) matches FieldRead::Value(o) && go_os_of(o@) is Some)
    &&& match jobject_of(s, "config"@) {
        FieldRead::Missing => true,
        FieldRead::Value(_) => config_v1_readable(s),
        FieldRead::Invalid => false,
    }
    &&& jstr_of(s, "rootfs"@, Some("type"@)) is Value
    &&& jstrlist_of(s, "rootfs"@, Some("diff_ids"@)) is Value
    &&& match jarrlen_of(s, "history"@) {
        FieldRead::Missing => true,
        FieldRead::Value(n) => n <= usize::MAX && (forall|i: int|
            0 <= i < n ==> history_readable(s, i)),
        FieldRead::Invalid => false,
    }
}

fn build_config_v1(s: &str) -> (r: Result<ConfigV1, serde_json::Error>)
    ensures
        match r {
            Ok(c) => config_v1_matches(s@, c),
            Err(_) => !config_v1_readable(s@),
        },
{
    let user = match opt_value(jstr(s, "config", Some("User"))) {
        Ok(v) => v,
        Err(e) => {
            return Err(e);
        },
    };
    let exposed_ports = match opt_value(jkeys(s, "config", Some("ExposedPorts"))) {
        Ok(v) => v,
        Err(e) => {
            return Err(e);
        },
    };
    let env = match opt_value(jstrlist(s, "config", Some("Env"))) {
        Ok(v) => v,
        Err(e) => {
            return Err(e);
        },
    };
    let entrypoint = match opt_value(jstrlist(s, "config", Some("Entrypoint"))) {
        Ok(v) => v,
        Err(e) => {
            return Err(e);
        },
    };
    let cmd = match opt_value(jstrlist(s, "config", Some("Cmd"))) {
        Ok(v) => v,
        Err(e) => {
            return Err(e);
        },
    };
    let volumes = match opt_value(jkeys(s, "config", Some("Volumes"))) {
        Ok(v) => v,
        Err(e) => {
            return Err(e);
        },
    };
    let working_dir = match opt_value(jstr(s, "config", Some("WorkingDir"))) {
        Ok(v) => v,
        Err(e) => {
            return Err(e);
        },
    };
    let labels = match opt_value(jstrmap(s, "config", Some("Labels"))) {
        Ok(v) => v,
        Err(e) => {
            return Err(e);
        },
    };
    let stop_signal = match opt_value(jstr(s, "config", Some("StopSignal"))) {
        Ok(v) => v,
        Err(e) => {
            return Err(e);
        },
    };
    Ok(
        ConfigV1 {
            user,
            exposed_ports,
            env,
            entrypoint,
            cmd,
            volumes,
            working_dir,
            labels,
            stop_signal,
        },
    )
}

fn build_history_entry(s: &str, i: usize) -> (r: Result<HistoryV1, serde_json::Error>)
    ensures
        match r {
            Ok(h) => history_matches(s@, i as int, h),
            Err(_) => !history_readable(s@, i as int),
        },
{
    let created = match opt_value(jarr_str(s, "history", i, "created", None)) {
        Ok(v) => v,
        Err(e) => {
            return Err(e);
        },
    };
    let author = match opt_value(jarr_str(s, "history", i, "author", None)) {
        Ok(v) => v,
        Err(e) => {
            return Err(e);
        },
    };
    let created_by = match opt_value(jarr_str(s, "history", i, "created_by", None)) {
        Ok(v) => v,
        Err(e) => {
            return Err(e);
        },
    };
    let comment = match opt_value(jarr_str(s, "history", i, "comment", None)) {
        Ok(v) => v,
        Err(e) => {
            return Err(e);
        },
    };
    let empty_layer = match opt_value(jarr_bool(s, "history", i, "empty_layer", None)) {
        Ok(v) => v,
        Err(e) => {
            return Err(e);
        },
    };
    Ok(HistoryV1 { created, author, created_by, comment, empty_layer })
}

impl ImageV1 {
    /// Parse an `ImageV1` document: an `Ok` image carries the document's
    /// own field values, with `architecture` and `os` drawn from the
    /// recognized `GOARCH` / `GOOS` sets, and parsing fails exactly when
    /// the document cannot be read in full.
    pub fn parse(s: &str) -> (r: Result<ImageV1, ImageSpecError>)
        ensures
            match r {
                Ok(img) => image_v1_matches(s@, img),
                Err(_) => !image_v1_readable(s@),
            },
    {
        let created = match opt_value(jstr(s, "created", None)) {
            Ok(v) => v,
            Err(e) => {
                return Err(ImageSpecError::JsonError(e));
            },
        };
        let author = match opt_value(jstr(s, "author", None)) {
            Ok(v) => v,
            Err(e) => {
                return Err(ImageSpecError::JsonError(e));
            },
        };
        let architecture = match req_value(jstr(s, "architecture", None)) {
            Ok(a) => match GoArch::from_str(a.as_str()) {
                Ok(arch) => arch,
                Err(_) => {
                    return Err(ImageSpecError::JsonError(json_error("invalid GOARCH value")));
                },
            },
            Err(e) => {
                return Err(ImageSpecError::JsonError(e));
            },
        };
        let os = match req_value(jstr(s, "os", None)) {
            Ok(o) => match GoOs::from_str(o.as_str()) {
                Ok(os) => os,
                Err(_) => {
                    return Err(ImageSpecError::JsonError(json_error("invalid GOOS value")));
                },
            },
            Err(e) => {
                return Err(ImageSpecError::JsonError(e));
            },
        };
        let config = match jobject(s, "config") {
            FieldRead::Missing => None,
            FieldRead::Invalid => {
                return Err(ImageSpecError::JsonError(json_error("config is not an object")));
            },
            FieldRead::Value(_) => match build_config_v1(s) {
                Ok(c) => Some(c),
                Err(e) => {
                    return Err(ImageSpecError::JsonError(e));
                },
            },
        };
        let fs_type = match req_value(jstr(s, "rootfs", Some("type"))) {
            Ok(v) => v,
            Err(e) => {
                return Err(ImageSpecError::JsonError(e));
            },
        };
        let diff_ids = match req_value(jstrlist(s, "rootfs", Some("diff_ids"))) {
            Ok(v) => v,
            Err(e) => {
                return Err(ImageSpecError::JsonError(e));
            },
        };
        let history = match jarrlen(s, "history") {
            FieldRead::Missing => None,
            FieldRead::Invalid => {
                return Err(ImageSpecError::JsonError(json_error("history is not an array")));
            },
            FieldRead::Value(count) => {
                if count > usize::MAX as u64 {
                    return Err(ImageSpecError::JsonError(json_error("history is too long")));
                }
                let n = count as usize;
                let mut entries: Vec<HistoryV1> = Vec::new();
                let mut i: usize = 0;
                while i < n
                    invariant
                        i <= n,
                        n as u64 == count,
                        jarrlen_of(s@, "history"@) == FieldRead::Value(count),
                        entries@.len() == i,
                        forall|j: int|
                            0 <= j < i ==> history_matches(s@, j, #[trigger] entries@[j]),
                    decreases n - i,
                {
                    match build_history_entry(s, i) {
                        Ok(h) => entries.push(h),
                        Err(e) => {
                            return Err(ImageSpecError::JsonError(e));
                        },
                    }
                    i += 1;
                }
                Some(entries)
            },
        };
        Ok(ImageV1 { created, author, architecture, os, config, rootfs: RootFSV1 { fs_type, diff_ids }, history })
    }
}

impl core::str::FromStr for ImageV1 {
    type Err = ImageSpecError;

    fn from_str(s: &str) -> (r: Result<ImageV1, ImageSpecError>) {
        ImageV1::parse(s)
    }
}

} // verus!
