//! Manifest parsing and the schema probe, on the canonical example
//! documents of the Docker image manifest documentation.

use opencontainers::manifest::{
    probe_manifest_v2_schema, LayerV2_2, ManifestMediaTypeOnlyV2_2, ManifestSchemaOnlyV2,
    ManifestV2, ManifestV2Schema,
};

const MANIFEST_V2_1: &str = r#"{
   "schemaVersion": 1,
   "name": "hello-world",
   "tag": "latest",
   "architecture": "amd64",
   "fsLayers": [
      { "blobSum": "sha256:5f70bf18a086007016e948b04aed3b82103a36bea41755b6cddfaf10ace3c6ef" },
      { "blobSum": "sha256:03f4658f8b782e12230c1783426bd3bacce651ce582a4ffb6fbbfa2079428ecb" },
      { "blobSum": "sha256:5f70bf18a086007016e948b04aed3b82103a36bea41755b6cddfaf10ace3c6ef" },
      { "blobSum": "sha256:a3ed95caeb02ffe68cdd9fd84406680ae93d633cb16422d00e8a7c22955b46d4" }
   ],
   "history": []
}"#;

const MANIFEST_V2_2: &str = r#"{
    "schemaVersion": 2,
    "mediaType": "application/vnd.docker.distribution.manifest.v2+json",
    "config": {
        "mediaType": "application/vnd.docker.container.image.v1+json",
        "size": 7023,
        "digest": "sha256:b5b2b2c507a0944348e0303114d8d93aaaa081732b86451d9bce1f432a537bc7"
    },
    "layers": [
        {
            "mediaType": "application/vnd.docker.image.rootfs.diff.tar.gzip",
            "size": 32654,
            "digest": "sha256:e692418e4cbaf90ca69d05a66403747baa33ee08806650b51fab815ad7fc331f"
        },
        {
            "mediaType": "application/vnd.docker.image.rootfs.diff.tar.gzip",
            "size": 16724,
            "digest": "sha256:3c3a4604a545cdc127456d94e421cd355bca5b528f4a9c1905b15da2eb4a4c6b"
        },
        {
            "mediaType": "application/vnd.docker.image.rootfs.diff.tar.gzip",
            "size": 73109,
            "digest": "sha256:ec4b8955958665577945c89419d1af06b5f7636b4ac3da7f12184802ad867736"
        }
    ]
}"#;

const MANIFEST_LIST_V2_2: &str = r#"{
  "schemaVersion": 2,
  "mediaType": "application/vnd.docker.distribution.manifest.list.v2+json",
  "manifests": [
    {
      "mediaType": "application/vnd.docker.distribution.manifest.v2+json",
      "size": 7143,
      "digest": "sha256:e692418e4cbaf90ca69d05a66403747baa33ee08806650b51fab815ad7fc331f",
      "platform": { "architecture": "ppc64le", "os": "linux" }
    },
    {
      "mediaType": "application/vnd.docker.distribution.manifest.v2+json",
      "size": 7682,
      "digest": "sha256:5b0bcabd1ed22e9fb1310cf6c2dec7cdef19f0ad69efa1f392e94a4333501270",
      "platform": { "architecture": "amd64", "os": "linux", "features": [ "sse4" ] }
    }
  ]
}"#;

#[test]
fn test_manifest_v1() {
    let manifest = match ManifestV2::parse(MANIFEST_V2_1).expect("Could not deserialize manifest")
    {
        ManifestV2::Schema1(m) => m,
        other => panic!("expected schema 1, got {:?}", other),
    };

    assert_eq!(manifest.schema, 1);
    assert_eq!(manifest.name, "hello-world");
    assert_eq!(manifest.tag, "latest");
    assert_eq!(manifest.architecture, "amd64");
    assert_eq!(manifest.layers.len(), 4);
}

#[test]
fn test_manifest_v2() {
    let manifest = match ManifestV2::parse(MANIFEST_V2_2).expect("Could not deserialize manifest")
    {
        ManifestV2::Schema2(m) => m,
        other => panic!("expected schema 2, got {:?}", other),
    };

    assert_eq!(manifest.schema, 2);
    assert_eq!(manifest.media_type, "application/vnd.docker.distribution.manifest.v2+json");

    assert_eq!(manifest.config.media_type, "application/vnd.docker.container.image.v1+json");
    assert_eq!(manifest.config.size, 7023);
    assert_eq!(
        manifest.config.digest,
        "sha256:b5b2b2c507a0944348e0303114d8d93aaaa081732b86451d9bce1f432a537bc7"
    );

    assert_eq!(manifest.layers.len(), 3);

    assert_eq!(
        manifest.layers[0],
        LayerV2_2 {
            media_type: "application/vnd.docker.image.rootfs.diff.tar.gzip".into(),
            size: 32654,
            digest: "sha256:e692418e4cbaf90ca69d05a66403747baa33ee08806650b51fab815ad7fc331f"
                .into(),
            urls: None,
        }
    );

    assert_eq!(
        manifest.layers[1],
        LayerV2_2 {
            media_type: "application/vnd.docker.image.rootfs.diff.tar.gzip".into(),
            size: 16724,
            digest: "sha256:3c3a4604a545cdc127456d94e421cd355bca5b528f4a9c1905b15da2eb4a4c6b"
                .into(),
            urls: None,
        }
    );

    assert_eq!(
        manifest.layers[2],
        LayerV2_2 {
            media_type: "application/vnd.docker.image.rootfs.diff.tar.gzip".into(),
            size: 73109,
            digest: "sha256:ec4b8955958665577945c89419d1af06b5f7636b4ac3da7f12184802ad867736"
                .into(),
            urls: None,
        }
    );
}

#[test]
fn test_manifest_list_v2() {
    let manifest_list = match ManifestV2::parse(MANIFEST_LIST_V2_2).expect(
        "Could not deserialize manifest list",
    ) {
        ManifestV2::Schema2List(m) => m,
        other => panic!("expected a manifest list, got {:?}", other),
    };

    assert_eq!(manifest_list.schema, 2);
    assert_eq!(
        manifest_list.media_type,
        "application/vnd.docker.distribution.manifest.list.v2+json"
    );
    assert_eq!(manifest_list.manifests.len(), 2);
}

#[test]
fn manifest_test_manifest_v1() {
    let manifest = match ManifestV2::parse(MANIFEST_V2_1).expect("Could not deserialize manifest")
    {
        ManifestV2::Schema1(m) => m,
        other => panic!("expected schema 1, got {:?}", other),
    };

    assert_eq!(manifest.schema, 1);
    assert_eq!(manifest.name, "hello-world");
    assert_eq!(manifest.tag, "latest");
    assert_eq!(manifest.architecture, "amd64");
    assert_eq!(manifest.layers.len(), 4);
}

#[test]
fn manifest_test_manifest_v2() {
    let manifest = match ManifestV2::parse(MANIFEST_V2_2).expect("Could not deserialize manifest")
    {
        ManifestV2::Schema2(m) => m,
        other => panic!("expected schema 2, got {:?}", other),
    };

    assert_eq!(manifest.schema, 2);
    assert_eq!(manifest.config.size, 7023);
    assert_eq!(manifest.layers.len(), 3);
    assert_eq!(manifest.layers[0].size, 32654);
    assert_eq!(manifest.layers[1].size, 16724);
    assert_eq!(manifest.layers[2].size, 73109);
}

#[test]
fn manifest_test_manifest_list_v2() {
    let manifest_list = match ManifestV2::parse(MANIFEST_LIST_V2_2).expect(
        "Could not deserialize manifest list",
    ) {
        ManifestV2::Schema2List(m) => m,
        other => panic!("expected a manifest list, got {:?}", other),
    };

    assert_eq!(manifest_list.schema, 2);
    assert_eq!(manifest_list.manifests.len(), 2);
}

#[test]
fn test_manifest_schemaonly_schema1() {
    let manifest = ManifestSchemaOnlyV2::parse(MANIFEST_V2_1).expect(
        "Could not deserialize manifest",
    );
    assert_eq!(manifest.schema(), 1);
}

#[test]
fn test_manifest_schemaonly_schema2() {
    let manifest = ManifestSchemaOnlyV2::parse(MANIFEST_V2_2).expect(
        "Could not deserialize manifest",
    );
    assert_eq!(manifest.schema(), 2);
}

#[test]
fn test_manifest_schemaonly_schema2_list() {
    let manifest = ManifestSchemaOnlyV2::parse(MANIFEST_LIST_V2_2).expect(
        "Could not deserialize manifest",
    );
    assert_eq!(manifest.schema(), 2);
}

#[test]
fn test_manifest_mediatypeonly_schema2() {
    let manifest = ManifestMediaTypeOnlyV2_2::parse(MANIFEST_V2_2).expect(
        "Could not deserialize manifest",
    );
    assert_eq!(manifest.media_type(), "application/vnd.docker.distribution.manifest.v2+json");
}

#[test]
fn test_manifest_mediatypeonly_schema2_list() {
    let manifest = ManifestMediaTypeOnlyV2_2::parse(MANIFEST_LIST_V2_2).expect(
        "Could not deserialize manifest",
    );
    assert_eq!(
        manifest.media_type(),
        "application/vnd.docker.distribution.manifest.list.v2+json"
    );
}

#[test]
fn test_probe_manifest_schema1() {
    let schema = probe_manifest_v2_schema(MANIFEST_V2_1).expect("could not probe manifest schema");
    assert_eq!(schema, ManifestV2Schema::Schema1);
}

#[test]
fn test_probe_manifest_schema2() {
    let schema = probe_manifest_v2_schema(MANIFEST_V2_2).expect("could not probe manifest schema");
    assert_eq!(schema, ManifestV2Schema::Schema2);
}

#[test]
fn test_probe_manifest_schema2_list() {
    let schema = probe_manifest_v2_schema(MANIFEST_LIST_V2_2).expect(
        "could not probe manifest schema",
    );
    assert_eq!(schema, ManifestV2Schema::Schema2List);
}

#[test]
fn test_parse_manifest_v2() {
    let manifest: ManifestV2 = MANIFEST_V2_1.parse().expect("Could not parse manifest schema 1");
    assert_eq!(ManifestV2Schema::from(manifest), ManifestV2Schema::Schema1);

    let manifest: ManifestV2 = MANIFEST_V2_2.parse().expect("Could not parse manifest schema 2");
    assert_eq!(ManifestV2Schema::from(manifest), ManifestV2Schema::Schema2);

    let manifest: ManifestV2 = MANIFEST_LIST_V2_2.parse().expect(
        "Could not parse manifest schema 2 list",
    );
    assert_eq!(ManifestV2Schema::from(manifest), ManifestV2Schema::Schema2List);
}

#[test]
fn probe_rejects_unknown_schema_version() {
    let doc = r#"{ "schemaVersion": 3, "mediaType": "application/vnd.docker.distribution.manifest.v2+json" }"#;
    match probe_manifest_v2_schema(doc) {
        Err(opencontainers::manifest::ManifestError::InvalidSchemaVersion(n)) => {
            assert_eq!(n, 3)
        },
        other => panic!("expected an invalid schema version, got {:?}", other),
    }
}

#[test]
fn probe_rejects_unknown_media_type() {
    let doc = r#"{ "schemaVersion": 2, "mediaType": "text/plain+json" }"#;
    match probe_manifest_v2_schema(doc) {
        Err(opencontainers::manifest::ManifestError::InvalidMediaType(m)) => {
            assert_eq!(m, "text/plain+json")
        },
        other => panic!("expected an invalid media type, got {:?}", other),
    }
}

#[test]
fn probe_rejects_malformed_json() {
    assert!(matches!(
        probe_manifest_v2_schema("not json at all"),
        Err(opencontainers::manifest::ManifestError::JsonError(_))
    ));
}

#[test]
fn probe_routes_oci_media_types() {
    let doc = r#"{ "schemaVersion": 2, "mediaType": "application/vnd.oci.distribution.manifest.v2+json" }"#;
    assert_eq!(probe_manifest_v2_schema(doc).unwrap(), ManifestV2Schema::Schema2);
    let doc = r#"{ "schemaVersion": 2, "mediaType": "application/vnd.oci.distribution.manifest.list.v2+json" }"#;
    assert_eq!(probe_manifest_v2_schema(doc).unwrap(), ManifestV2Schema::Schema2List);
}

#[test]
fn round_trip_schema2_semantic_fields() {
    let first = match ManifestV2::parse(MANIFEST_V2_2).unwrap() {
        ManifestV2::Schema2(m) => m,
        other => panic!("expected schema 2, got {:?}", other),
    };

    let mut layers = String::new();
    for (i, layer) in first.layers.iter().enumerate() {
        if i > 0 {
            layers.push(',');
        }
        layers.push_str(&format!(
            "{{\"mediaType\":\"{}\",\"size\":{},\"digest\":\"{}\"}}",
            layer.media_type, layer.size, layer.digest
        ));
    }
    let rebuilt = format!(
        "{{\"schemaVersion\":{},\"mediaType\":\"{}\",\"config\":{{\"mediaType\":\"{}\",\"size\":{},\"digest\":\"{}\"}},\"layers\":[{}]}}",
        first.schema,
        first.media_type,
        first.config.media_type,
        first.config.size,
        first.config.digest,
        layers,
    );

    let second = match ManifestV2::parse(&rebuilt).unwrap() {
        ManifestV2::Schema2(m) => m,
        other => panic!("expected schema 2, got {:?}", other),
    };
    assert_eq!(first, second);
}

#[test]
fn round_trip_manifest_list_semantic_fields() {
    let first = match ManifestV2::parse(MANIFEST_LIST_V2_2).unwrap() {
        ManifestV2::Schema2List(m) => m,
        other => panic!("expected a manifest list, got {:?}", other),
    };

    let mut entries = String::new();
    for (i, entry) in first.manifests.iter().enumerate() {
        if i > 0 {
            entries.push(',');
        }
        let mut platform = format!(
            "\"architecture\":\"{}\",\"os\":\"{}\"",
            entry.platform.architecture, entry.platform.os
        );
        if let Some(features) = &entry.platform.features {
            let quoted: Vec<String> = features.iter().map(|f| format!("\"{}\"", f)).collect();
            platform.push_str(&format!(",\"features\":[{}]", quoted.join(",")));
        }
        entries.push_str(&format!(
            "{{\"mediaType\":\"{}\",\"size\":{},\"digest\":\"{}\",\"platform\":{{{}}}}}",
            entry.media_type, entry.size, entry.digest, platform
        ));
    }
    let rebuilt = format!(
        "{{\"schemaVersion\":{},\"mediaType\":\"{}\",\"manifests\":[{}]}}",
        first.schema, first.media_type, entries,
    );

    let second = match ManifestV2::parse(&rebuilt).unwrap() {
        ManifestV2::Schema2List(m) => m,
        other => panic!("expected a manifest list, got {:?}", other),
    };
    assert_eq!(first, second);
}

#[test]
fn layer_gzip_detection() {
    let gz = LayerV2_2 {
        media_type: "application/vnd.docker.image.rootfs.diff.tar.gzip".into(),
        size: 1,
        digest: "sha256:00".into(),
        urls: None,
    };
    assert!(gz.is_gzipped());
    let foreign = LayerV2_2 {
        media_type: "application/vnd.docker.image.rootfs.foreign.diff.tar.gzip".into(),
        size: 1,
        digest: "sha256:00".into(),
        urls: None,
    };
    assert!(foreign.is_gzipped());
    let oci = LayerV2_2 {
        media_type: "application/vnd.oci.image.layer.v1.tar+gzip".into(),
        size: 1,
        digest: "sha256:00".into(),
        urls: None,
    };
    assert!(oci.is_gzipped());
    let plain = LayerV2_2 {
        media_type: "application/vnd.oci.image.layer.v1.tar".into(),
        size: 1,
        digest: "sha256:00".into(),
        urls: None,
    };
    assert!(!plain.is_gzipped());
}
