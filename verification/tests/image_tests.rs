//! The image handle, registry URLs, and manifest-list selection.

use opencontainers::image::{
    blob_url, digest_for_selection, manifest_accept_value, manifest_url, select_first_matching,
    select_manifest_digest, Image, ImagePlatformSelector, ImageSelector, TestImageSelector,
};
use opencontainers::manifest::{
    ConfigV2_2, HostPlatform, LayerV2_2, ManifestListEntryV2_2, ManifestListV2_2,
    ManifestPlatformV2_2, ManifestV2, ManifestV2Schema, ManifestV2_2,
};
use opencontainers::registry::RegistryError;

fn entry(arch: &str, os: &str, variant: Option<&str>, digest: &str) -> ManifestListEntryV2_2 {
    ManifestListEntryV2_2 {
        media_type: "application/vnd.docker.distribution.manifest.v2+json".to_string(),
        size: 7143,
        digest: digest.to_string(),
        platform: ManifestPlatformV2_2 {
            architecture: arch.to_string(),
            os: os.to_string(),
            osversion: None,
            osfeatures: None,
            variant: variant.map(str::to_string),
            features: None,
        },
    }
}

fn sample_list() -> ManifestListV2_2 {
    ManifestListV2_2 {
        schema: 2,
        media_type: "application/vnd.docker.distribution.manifest.list.v2+json".to_string(),
        manifests: vec![
            entry("ppc64le", "linux", None, "sha256:aa"),
            entry("amd64", "linux", None, "sha256:bb"),
            entry("amd64", "windows", None, "sha256:cc"),
        ],
    }
}

fn sample_schema2() -> ManifestV2_2 {
    ManifestV2_2 {
        schema: 2,
        media_type: "application/vnd.docker.distribution.manifest.v2+json".to_string(),
        config: ConfigV2_2 {
            media_type: "application/vnd.docker.container.image.v1+json".to_string(),
            size: 7023,
            digest: "sha256:b5b2b2c507a0944348e0303114d8d93aaaa081732b86451d9bce1f432a537bc7"
                .to_string(),
        },
        layers: vec![LayerV2_2 {
            media_type: "application/vnd.docker.image.rootfs.diff.tar.gzip".to_string(),
            size: 32654,
            digest: "sha256:e692418e4cbaf90ca69d05a66403747baa33ee08806650b51fab815ad7fc331f"
                .to_string(),
            urls: None,
        }],
    }
}

#[test]
fn urls_are_assembled_exactly() {
    assert_eq!(
        manifest_url("https://registry-1.docker.io", "library/hello-world", "latest"),
        "https://registry-1.docker.io/v2/library/hello-world/manifests/latest"
    );
    assert_eq!(
        blob_url("https://registry-1.docker.io", "library/hello-world", "sha256:aa"),
        "https://registry-1.docker.io/v2/library/hello-world/blobs/sha256:aa"
    );
}

#[test]
fn accept_value_lists_the_four_manifest_media_types() {
    assert_eq!(
        manifest_accept_value(),
        "application/vnd.oci.distribution.manifest.list.v2+json,\
         application/vnd.oci.distribution.manifest.v2+json,\
         application/vnd.docker.distribution.manifest.list.v2+json,\
         application/vnd.docker.distribution.manifest.v2+json"
    );
}

#[test]
fn platform_selector_picks_first_match() {
    let list = sample_list();
    let host = HostPlatform {
        os: "linux".to_string(),
        architecture: "amd64".to_string(),
        variant: None,
    };
    assert_eq!(select_first_matching(&list, &host), Some(1));

    let selector = ImagePlatformSelector::new(host);
    assert_eq!(selector.select_manifest(&list), Some(1));
    let digest = select_manifest_digest(&list, &selector).unwrap();
    assert_eq!(digest, "sha256:bb");
}

#[test]
fn platform_selector_reports_no_match() {
    let list = sample_list();
    let host = HostPlatform {
        os: "darwin".to_string(),
        architecture: "amd64".to_string(),
        variant: None,
    };
    assert_eq!(select_first_matching(&list, &host), None);
    let selector = ImagePlatformSelector::new(host);
    match select_manifest_digest(&list, &selector) {
        Err(RegistryError::NoMatchingPlatform) => {},
        other => panic!("expected no matching platform, got {:?}", other),
    }
}

#[test]
fn variant_is_compared_only_when_both_sides_give_one() {
    let list = ManifestListV2_2 {
        schema: 2,
        media_type: "application/vnd.docker.distribution.manifest.list.v2+json".to_string(),
        manifests: vec![entry("arm", "linux", Some("v6l"), "sha256:dd")],
    };
    let no_variant = HostPlatform {
        os: "linux".to_string(),
        architecture: "arm".to_string(),
        variant: None,
    };
    assert_eq!(select_first_matching(&list, &no_variant), Some(0));
    let other_variant = HostPlatform {
        os: "linux".to_string(),
        architecture: "arm".to_string(),
        variant: Some("v7l".to_string()),
    };
    assert_eq!(select_first_matching(&list, &other_variant), None);
}

#[test]
fn digest_follows_the_selection() {
    let list = sample_list();
    assert_eq!(digest_for_selection(&list, Some(0)).unwrap(), "sha256:aa");
    assert_eq!(digest_for_selection(&list, Some(1)).unwrap(), "sha256:bb");
    assert_eq!(digest_for_selection(&list, Some(2)).unwrap(), "sha256:cc");
    match digest_for_selection(&list, None) {
        Err(RegistryError::NoMatchingPlatform) => {},
        other => panic!("expected no matching platform, got {:?}", other),
    }
}

#[test]
fn test_selector_takes_the_first_entry() {
    let list = sample_list();
    let selector = TestImageSelector {};
    assert_eq!(selector.select_manifest(&list), Some(0));
    assert_eq!(select_manifest_digest(&list, &selector).unwrap(), "sha256:aa");
}

fn sample_schema1() -> opencontainers::manifest::ManifestV2_1 {
    opencontainers::manifest::ManifestV2_1 {
        schema: 1,
        name: "hello-world".to_string(),
        tag: "latest".to_string(),
        architecture: "amd64".to_string(),
        layers: vec![
            opencontainers::manifest::FsLayerV2_1 { inner: "sha256:aa".to_string() },
            opencontainers::manifest::FsLayerV2_1 { inner: "sha256:bb".to_string() },
        ],
    }
}

#[test]
fn image_config_digest_requires_schema2() {
    let image = Image::from_manifest(
        "library/hello-world".to_string(),
        ManifestV2::Schema2(sample_schema2()),
    );
    assert_eq!(image.name(), "library/hello-world");
    assert_eq!(image.manifest().kind(), ManifestV2Schema::Schema2);
    assert_eq!(
        image.config_digest().unwrap(),
        "sha256:b5b2b2c507a0944348e0303114d8d93aaaa081732b86451d9bce1f432a537bc7"
    );
    assert_eq!(image.layers().unwrap().len(), 1);

    let legacy = Image::from_manifest(
        "library/hello-world".to_string(),
        ManifestV2::Schema1(sample_schema1()),
    );
    match legacy.config_digest() {
        Err(RegistryError::UnsupportedManifestSchema(k)) => {
            assert_eq!(k, ManifestV2Schema::Schema1)
        },
        other => panic!("expected an unsupported schema, got {:?}", other),
    }
}

#[test]
fn layer_descriptors_cover_both_schemas() {
    let image = Image::from_manifest(
        "library/hello-world".to_string(),
        ManifestV2::Schema2(sample_schema2()),
    );
    let descriptors = image.layer_descriptors().unwrap();
    assert_eq!(descriptors.len(), 1);
    assert_eq!(
        descriptors[0].digest,
        "sha256:e692418e4cbaf90ca69d05a66403747baa33ee08806650b51fab815ad7fc331f"
    );
    assert_eq!(
        descriptors[0].media_type.as_deref(),
        Some("application/vnd.docker.image.rootfs.diff.tar.gzip")
    );
    assert!(descriptors[0].is_gzipped());

    let legacy = Image::from_manifest(
        "library/hello-world".to_string(),
        ManifestV2::Schema1(sample_schema1()),
    );
    let descriptors = legacy.layer_descriptors().unwrap();
    assert_eq!(descriptors.len(), 2);
    assert_eq!(descriptors[0].digest, "sha256:aa");
    assert_eq!(descriptors[1].digest, "sha256:bb");
    assert!(descriptors[0].media_type.is_none());
    // An undeclared media type means a gzipped layer.
    assert!(descriptors[0].is_gzipped());
}
