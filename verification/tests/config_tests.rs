//! The `ImageV1` image configuration model, and the Go platform tags.

use opencontainers::go::{GoArch, GoError, GoOs};
use opencontainers::image_config::ImageV1;

const CONFIG_V1: &str = r#"{
    "created": "2015-10-31T22:22:56.015925234Z",
    "author": "Alyssa P. Hacker <alyspdev@example.com>",
    "architecture": "amd64",
    "os": "linux",
    "config": {
        "User": "alice",
        "ExposedPorts": { "8080/tcp": {} },
        "Env": [ "PATH=/usr/local/sbin:/usr/local/bin:/usr/sbin:/usr/bin:/sbin:/bin", "FOO=oci_is_a", "BAR=well_written_spec" ],
        "Entrypoint": [ "/bin/my-app-binary" ],
        "Cmd": [ "--foreground", "--config", "/etc/my-app.d/default.cfg" ],
        "Volumes": { "/var/job-result-data": {}, "/var/log/my-app-logs": {} },
        "WorkingDir": "/home/alice",
        "Labels": { "com.example.project.git.url": "https://example.com/project.git" }
    },
    "rootfs": {
      "diff_ids": [
        "sha256:c6f988f4874bb0add23a778f753c65efe992244e148a1d2ec2a8b664fb66bbd1",
        "sha256:5f70bf18a086007016e948b04aed3b82103a36bea41755b6cddfaf10ace3c6ef"
      ],
      "type": "layers"
    },
    "history": [
      {
        "created": "2015-10-31T22:22:54.690851953Z",
        "created_by": "/bin/sh -c #(nop) ADD file:a3bc1e842b69636f9df5256c49c5374fb4eef1e281fe3f282c65fb853ee171c5 in /"
      },
      {
        "created": "2015-10-31T22:22:55.613815829Z",
        "created_by": "/bin/sh -c #(nop) CMD [\"sh\"]",
        "empty_layer": true
      }
    ]
}"#;

#[test]
fn test_config_v1() {
    let image = ImageV1::parse(CONFIG_V1).expect("Could not deserialize configs");

    assert_eq!(image.architecture, GoArch::AMD64);
    assert_eq!(image.os, GoOs::Linux);
}

#[test]
fn config_v1_inner_fields_are_read() {
    let image = ImageV1::parse(CONFIG_V1).unwrap();
    let config = image.config.expect("the document has a config");
    assert_eq!(config.user.as_deref(), Some("alice"));
    assert_eq!(config.exposed_ports.as_ref().unwrap(), &vec!["8080/tcp".to_string()]);
    assert_eq!(config.env.as_ref().unwrap().len(), 3);
    assert_eq!(config.working_dir.as_deref(), Some("/home/alice"));
    assert_eq!(
        config.labels.as_ref().unwrap()[0],
        (
            "com.example.project.git.url".to_string(),
            "https://example.com/project.git".to_string()
        )
    );
    assert_eq!(image.rootfs.fs_type, "layers");
    assert_eq!(image.rootfs.diff_ids.len(), 2);
    let history = image.history.unwrap();
    assert_eq!(history.len(), 2);
    assert_eq!(history[1].empty_layer, Some(true));
}

#[test]
fn config_v1_rejects_unknown_platform_values() {
    let doc = r#"{ "architecture": "amd65", "os": "linux", "rootfs": { "type": "layers", "diff_ids": [] } }"#;
    assert!(ImageV1::parse(doc).is_err());
}

#[test]
fn go_os_round_trips() {
    assert_eq!(GoOs::from_str("linux").unwrap(), GoOs::Linux);
    assert_eq!(GoOs::from_str("windows").unwrap(), GoOs::Windows);
    assert_eq!(GoOs::Linux.as_str(), "linux");
    assert_eq!(GoOs::ZOS.as_str(), "zos");
    match GoOs::from_str("template-os") {
        Err(GoError::InvalidGoOs(s)) => assert_eq!(s, "template-os"),
        other => panic!("expected an invalid GOOS, got {:?}", other),
    }
}

#[test]
fn go_arch_round_trips() {
    assert_eq!(GoArch::from_str("amd64").unwrap(), GoArch::AMD64);
    assert_eq!(GoArch::from_str("386").unwrap(), GoArch::I386);
    assert_eq!(GoArch::from_str("arm64").unwrap(), GoArch::ARM64);
    assert_eq!(GoArch::AMD64.as_str(), "amd64");
    assert_eq!(GoArch::MIPS64p32le.as_str(), "mips64p32le");
    match GoArch::from_str("z80") {
        Err(GoError::InvalidGoArch(s)) => assert_eq!(s, "z80"),
        other => panic!("expected an invalid GOARCH, got {:?}", other),
    }
}
