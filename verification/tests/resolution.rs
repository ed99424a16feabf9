use container::container::Container;
use container::errors::Error;
use container::image::{parse_reference, Image};
use container::opts::Opts;
use container::run;
use container::settings::{Disk, Settings};

fn settings_with(images_dir: &str, containers_dir: &str) -> Settings {
    Settings {
        disk: Disk {
            root_dir: "/".to_string(),
            images_dir: images_dir.to_string(),
            containers_dir: containers_dir.to_string(),
        },
    }
}

#[test]
fn parse_name_only_defaults_tag() {
    let r = parse_reference("alpine").unwrap();
    assert_eq!(r.name.as_str(), "alpine");
    assert_eq!(r.tag.as_str(), "latest");
}

#[test]
fn parse_name_and_tag() {
    let r = parse_reference("alpine:3.19").unwrap();
    assert_eq!(r.name.as_str(), "alpine");
    assert_eq!(r.tag.as_str(), "3.19");
}

#[test]
fn parse_defaulting_matches_explicit_latest() {
    let a = parse_reference("alpine").unwrap();
    let b = parse_reference("alpine:latest").unwrap();
    assert_eq!(a.name.as_str(), b.name.as_str());
    assert_eq!(a.tag.as_str(), b.tag.as_str());
}

#[test]
fn parse_rejects_empty_reference() {
    assert_eq!(parse_reference("").unwrap_err(), Error::InvalidReference);
}

#[test]
fn parse_rejects_three_parts() {
    assert_eq!(
        parse_reference("repo:tag:extra").unwrap_err(),
        Error::InvalidReference
    );
}

#[test]
fn parse_rejects_empty_tag_after_colon() {
    assert_eq!(parse_reference("repo:").unwrap_err(), Error::InvalidReference);
}

#[test]
fn parse_rejects_empty_name() {
    assert_eq!(parse_reference(":tag").unwrap_err(), Error::InvalidReference);
}

#[test]
fn parse_rejects_lone_colon() {
    assert_eq!(parse_reference(":").unwrap_err(), Error::InvalidReference);
}

#[test]
fn assemble_missing_volume_is_image_not_found() {
    let r = Image::assemble(
        "alpine".to_string(),
        "/images/alpine/latest".to_string(),
        false,
    );
    assert_eq!(r.unwrap_err(), Error::ImageNotFound);
}

#[test]
fn assemble_present_volume_resolves() {
    let im = Image::assemble(
        "alpine".to_string(),
        "/images/alpine/latest".to_string(),
        true,
    )
    .unwrap();
    assert_eq!(im.name.as_str(), "alpine");
    assert_eq!(im.volume.path.as_str(), "/images/alpine/latest");
}

#[test]
fn resolution_rejects_malformed_before_disk() {
    let settings = settings_with("/definitely/not/here", "/tmp");
    let r = Image::new("a:b:c".to_string(), &settings);
    assert_eq!(r.unwrap_err(), Error::InvalidReference);
}

#[test]
fn resolution_missing_volume_is_image_not_found() {
    let settings = settings_with("/definitely/not/here", "/tmp");
    let r = Image::new("alpine".to_string(), &settings);
    assert_eq!(r.unwrap_err(), Error::ImageNotFound);
}

#[test]
fn resolution_finds_existing_directory() {
    // `<images_dir>/<name>/<tag>` with images_dir `/`, name `usr`, tag
    // `bin` lands on `//usr/bin`, which exists on any ordinary host.
    let settings = settings_with("/", "/tmp");
    let im = Image::new("usr:bin".to_string(), &settings).unwrap();
    assert_eq!(im.name.as_str(), "usr:bin");
    assert_eq!(im.volume.path.as_str(), "//usr/bin");
}

#[test]
fn generated_identities_are_short_lowercase_hex() {
    for _ in 0..100 {
        let id = Container::generate_uuid();
        assert_eq!(id.len(), 12);
        assert!(id.chars().all(|c| c.is_ascii_hexdigit() && !c.is_ascii_uppercase()));
    }
}

#[test]
fn generated_identities_do_not_collide() {
    let mut ids: Vec<String> = Vec::new();
    for _ in 0..10000 {
        ids.push(Container::generate_uuid());
    }
    ids.sort();
    for w in ids.windows(2) {
        assert_ne!(w[0], w[1]);
    }
}

#[test]
fn allocation_creates_directory_and_plans_snapshot() {
    let holder = tempfile::tempdir().unwrap();
    let containers_dir = holder.path().to_str().unwrap().to_string();
    let settings = settings_with("/", &containers_dir);
    let c = Container::new(&settings).unwrap();
    assert_eq!(c.uuid.len(), 12);
    assert_eq!(c.dir, format!("{}/{}", containers_dir, c.uuid));
    assert_eq!(c.fs.path, format!("{}/fs", c.dir));
    assert!(holder.path().join(&c.uuid).is_dir());
}

#[test]
fn allocation_fails_with_io_error_without_parent() {
    let settings = settings_with("/", "/definitely/not/here");
    match Container::new(&settings) {
        Err(Error::IoError(_)) => {}
        other => panic!("expected an IoError, got {:?}", other),
    }
}

#[test]
fn run_prepares_a_full_launch() {
    let holder = tempfile::tempdir().unwrap();
    let containers_dir = holder.path().to_str().unwrap().to_string();
    let settings = settings_with("/", &containers_dir);
    let opts = Opts {
        image: "usr:bin".to_string(),
        command: vec!["echo".to_string(), "hello".to_string()],
    };
    let launch = run(opts, &settings).unwrap();
    assert_eq!(launch.image.volume.path.as_str(), "//usr/bin");
    assert_eq!(launch.plan.hostname, launch.container.uuid);
    assert_eq!(launch.plan.root_volume.path, launch.container.fs.path);
    assert_eq!(launch.plan.command, vec!["echo".to_string(), "hello".to_string()]);
}

#[test]
fn run_rejects_malformed_reference_first() {
    let settings = settings_with("/", "/tmp");
    let opts = Opts { image: "a:b:c".to_string(), command: vec![] };
    assert_eq!(run(opts, &settings).unwrap_err(), Error::InvalidReference);
}

#[test]
fn run_rejects_empty_command_after_allocation() {
    let holder = tempfile::tempdir().unwrap();
    let containers_dir = holder.path().to_str().unwrap().to_string();
    let settings = settings_with("/", &containers_dir);
    let opts = Opts { image: "usr:bin".to_string(), command: vec![] };
    match run(opts, &settings) {
        Err(Error::InvalidCommand(_)) => {}
        other => panic!("expected InvalidCommand, got {:?}", other),
    }
}
