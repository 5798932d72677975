use addon_publish::docker_registry::{
    build_command, get_access_credentials, inspect_command, push_command, read_size, BuildAction,
    BuildEvent, BuildRun, DockerCredentials, Phase,
};
use addon_publish::dto::addons::{AddonEntryCommon, AddonFileEntry, AddonService, BuildContext};
use addon_publish::dto::text_map::TextMap;
use addon_publish::dto::BuildInstruction;
use addon_publish::registry::{mean_image_size, publish_record, try_publish_record};
use addon_publish::tooling::{check_tool_version, judge, ToolCheck};
use addon_publish::targets::{
    allowed_architecture, classify_build_file, discover_targets, image_name_for, BuildFile,
};

fn strings(parts: &[&str]) -> Vec<String> {
    parts.iter().map(|p| p.to_string()).collect()
}

fn target(filename: &str, arch: &str) -> BuildInstruction {
    BuildInstruction {
        filename: filename.to_string(),
        arch: arch.to_string(),
        image_name: format!("docker.io/openhabx/myaddon_{}:1.2.0", arch),
        build: false,
        uploaded: false,
        image_size: 0,
    }
}

fn exited(success: bool) -> BuildEvent {
    BuildEvent::Exited { success }
}

fn inspected(output: Option<&str>) -> BuildEvent {
    BuildEvent::Inspected { output: output.map(|o| o.to_string()) }
}

#[test]
fn credentials_are_joined_by_a_colon() {
    let credentials =
        DockerCredentials { Username: "robot".to_string(), Secret: "s3cr:et".to_string() };
    assert_eq!(get_access_credentials(&credentials), "robot:s3cr:et");
}

#[test]
fn architectures_on_the_allow_list() {
    for arch in ["aarch64", "armhf", "i386", "amd64"] {
        assert!(allowed_architecture(arch));
    }
    for arch in ["", "arm64", "AMD64", "amd64 ", "mips"] {
        assert!(!allowed_architecture(arch));
    }
}

#[test]
fn image_names_carry_id_architecture_and_version() {
    assert_eq!(image_name_for("myaddon", "armhf", "1.2.0"), "docker.io/openhabx/myaddon_armhf:1.2.0");
}

#[test]
fn build_files_are_classified() {
    assert_eq!(classify_build_file("README.md", "a", "1"), BuildFile::Other);
    assert_eq!(classify_build_file("dockerfile", "a", "1"), BuildFile::Other);
    assert_eq!(classify_build_file("Dockerfil", "a", "1"), BuildFile::Other);
    assert_eq!(
        classify_build_file("Dockerfile", "myaddon", "1.2.0"),
        BuildFile::Target { instruction: target("Dockerfile", "amd64") }
    );
    assert_eq!(
        classify_build_file("Dockerfile.aarch64", "myaddon", "1.2.0"),
        BuildFile::Target { instruction: target("Dockerfile.aarch64", "aarch64") }
    );
    assert_eq!(
        classify_build_file("Dockerfile-i386", "myaddon", "1.2.0"),
        BuildFile::Target { instruction: target("Dockerfile-i386", "i386") }
    );
    assert_eq!(
        classify_build_file("Dockerfile.mips", "a", "1"),
        BuildFile::Unsupported { arch: "mips".to_string() }
    );
    assert_eq!(
        classify_build_file("Dockerfile.", "a", "1"),
        BuildFile::Unsupported { arch: String::new() }
    );
    assert_eq!(
        classify_build_file("Dockerfileamd64", "a", "1"),
        BuildFile::Unsupported { arch: "md64".to_string() }
    );
}

#[test]
fn targets_are_discovered_in_order() {
    let files = strings(&[
        "addon.yml",
        "Dockerfile.armhf",
        "Dockerfile.riscv",
        "Dockerfile",
        "src",
        "Dockerfile.aarch64",
    ]);
    assert_eq!(
        discover_targets(&files, "myaddon", "1.2.0"),
        vec![
            target("Dockerfile.armhf", "armhf"),
            target("Dockerfile", "amd64"),
            target("Dockerfile.aarch64", "aarch64"),
        ]
    );
    assert_eq!(discover_targets(&strings(&["a", "b"]), "x", "1"), Vec::<BuildInstruction>::new());
}

#[test]
fn tool_arguments() {
    let t = target("Dockerfile.armhf", "armhf");
    assert_eq!(
        build_command(&t, "robot:secret"),
        strings(&[
            "build",
            "-t",
            "docker.io/openhabx/myaddon_armhf:1.2.0",
            "-f",
            "Dockerfile.armhf",
            "--creds=robot:secret",
        ])
    );
    assert_eq!(
        inspect_command(&t),
        strings(&["image", "inspect", "docker.io/openhabx/myaddon_armhf:1.2.0", "--format={{.Size}}"])
    );
    assert_eq!(
        push_command(&t, "robot:secret"),
        strings(&["push", "docker.io/openhabx/myaddon_armhf:1.2.0", "--creds=robot:secret"])
    );
}

#[test]
fn sizes_are_read_from_what_the_tool_prints() {
    assert_eq!(read_size("104857600\n"), Some(104857600));
    assert_eq!(read_size("  42\t"), Some(42));
    assert_eq!(read_size("-7"), Some(-7));
    assert_eq!(read_size(""), None);
    assert_eq!(read_size("Error: no such image"), None);
    assert_eq!(read_size("12 34"), None);
}

#[test]
fn an_empty_run_is_over_at_once() {
    let run = BuildRun::new(Vec::new(), "u:s".to_string());
    assert_eq!(run.phase(), Phase::Done);
    assert_eq!(run.next_action(), BuildAction::Finish);
}

#[test]
fn a_failed_build_does_not_stop_the_run() {
    let mut run = BuildRun::new(
        vec![target("Dockerfile", "amd64"), target("Dockerfile.aarch64", "aarch64")],
        "u:s".to_string(),
    );
    assert_eq!(run.phase(), Phase::Building { target: 0 });
    run.record(exited(false));
    assert_eq!(run.phase(), Phase::Inspecting { target: 0 });
    run.record(inspected(None));
    assert_eq!(run.phase(), Phase::Building { target: 1 });
    assert_eq!(
        run.next_action(),
        BuildAction::Build {
            arguments: strings(&[
                "build",
                "-t",
                "docker.io/openhabx/myaddon_aarch64:1.2.0",
                "-f",
                "Dockerfile.aarch64",
                "--creds=u:s",
            ])
        }
    );
    run.record(exited(true));
    run.record(inspected(Some("2048\n")));
    assert_eq!(run.phase(), Phase::Pushing { target: 1 });
    assert_eq!(run.targets()[0].build, false);
    assert_eq!(run.targets()[0].image_size, 0);
    assert_eq!(run.targets()[1].build, true);
    assert_eq!(run.targets()[1].image_size, 2048);
}

#[test]
fn unbuilt_targets_are_not_pushed() {
    let mut first = target("Dockerfile", "amd64");
    first.build = false;
    let mut second = target("Dockerfile.armhf", "armhf");
    second.build = true;
    let mut third = target("Dockerfile.i386", "i386");
    third.build = false;
    let mut fourth = target("Dockerfile.aarch64", "aarch64");
    fourth.build = true;
    let mut run = BuildRun::pushing(vec![first, second, third, fourth], "u:s".to_string());
    assert_eq!(run.phase(), Phase::Pushing { target: 1 });
    assert_eq!(
        run.next_action(),
        BuildAction::Push {
            arguments: strings(&["push", "docker.io/openhabx/myaddon_armhf:1.2.0", "--creds=u:s"])
        }
    );
    run.record(exited(false));
    assert_eq!(run.phase(), Phase::Pushing { target: 3 });
    run.record(exited(true));
    assert_eq!(run.phase(), Phase::Done);
    let targets = run.into_targets();
    let uploaded: Vec<bool> = targets.iter().map(|t| t.uploaded).collect();
    assert_eq!(uploaded, vec![false, false, false, true]);
}

#[test]
fn nothing_built_means_nothing_pushed() {
    let run = BuildRun::pushing(vec![target("Dockerfile", "amd64")], "u:s".to_string());
    assert_eq!(run.phase(), Phase::Done);
}

#[test]
fn an_inspection_without_a_number_keeps_the_size() {
    let mut t = target("Dockerfile", "amd64");
    t.image_size = 77;
    let mut run = BuildRun::new(vec![t], "u:s".to_string());
    run.record(exited(true));
    run.record(inspected(Some("Error: image not known")));
    assert_eq!(run.targets()[0].image_size, 77);
    assert_eq!(run.phase(), Phase::Pushing { target: 0 });
}

#[test]
fn events_out_of_turn_change_nothing() {
    let mut run = BuildRun::new(vec![target("Dockerfile", "amd64")], "u:s".to_string());
    run.record(inspected(Some("5")));
    assert_eq!(run.phase(), Phase::Building { target: 0 });
    assert_eq!(run.targets()[0].image_size, 0);
    run.record(exited(true));
    run.record(exited(false));
    assert_eq!(run.phase(), Phase::Inspecting { target: 0 });
    assert_eq!(run.targets()[0].build, true);
}

fn manifest(id: &str, version: &str, services: Vec<(&str, AddonService)>) -> AddonFileEntry {
    AddonFileEntry {
        services: TextMap::from_entries(
            services.into_iter().map(|(k, v)| (k.to_string(), v)).collect(),
        ),
        x_ohx_registry: AddonEntryCommon {
            title: "My addon".to_string(),
            id: id.to_string(),
            version: version.to_string(),
            ..AddonEntryCommon::default()
        },
        ..AddonFileEntry::default()
    }
}

#[test]
fn two_architectures_one_failing_end_to_end() {
    let files = strings(&["Dockerfile", "Dockerfile.aarch64", "addon.yml"]);
    let targets = discover_targets(&files, "myaddon", "1.2.0");
    assert_eq!(targets.len(), 2);
    let mut run = BuildRun::new(targets, "robot:secret".to_string());
    let mut started: Vec<BuildAction> = Vec::new();
    loop {
        let action = run.next_action();
        let event = match &action {
            BuildAction::Build { arguments } => exited(arguments[2].contains("amd64")),
            BuildAction::Inspect { arguments } => {
                if arguments[2].contains("amd64") {
                    inspected(Some("100000000\n"))
                } else {
                    inspected(None)
                }
            }
            BuildAction::Push { .. } => exited(true),
            BuildAction::Finish => break,
        };
        started.push(action);
        run.record(event);
    }
    let kinds: Vec<&str> = started
        .iter()
        .map(|a| match a {
            BuildAction::Build { .. } => "build",
            BuildAction::Inspect { .. } => "inspect",
            BuildAction::Push { .. } => "push",
            BuildAction::Finish => "finish",
        })
        .collect();
    assert_eq!(kinds, vec!["build", "inspect", "build", "inspect", "push"]);
    let targets = run.into_targets();
    assert_eq!((targets[0].build, targets[0].uploaded, targets[0].image_size), (true, true, 100000000));
    assert_eq!((targets[1].build, targets[1].uploaded, targets[1].image_size), (false, false, 0));

    let input = manifest(
        "myaddon",
        "1.2.0",
        vec![
            (
                "local",
                AddonService {
                    build: Some(BuildContext { context: ".".to_string() }),
                    ports: Some(strings(&["8080"])),
                    ..AddonService::default()
                },
            ),
            ("db", AddonService { image: Some("redis:5".to_string()), ..AddonService::default() }),
        ],
    );
    let record = publish_record(&input, &targets);
    assert_eq!(record.archs, strings(&["amd64", "aarch64"]));
    assert_eq!(record.size, 50000000);
    assert_eq!(record.x_ohx_registry, input.x_ohx_registry);
    assert_eq!(record.x_runtime, input.x_runtime);
    assert_eq!(record.services.len(), 2);
    let published = record.services.entries();
    assert_eq!(published[0].0, "local");
    assert_eq!(published[0].1.build, None);
    assert_eq!(published[0].1.image, Some("docker.io/openhabx/myaddon:1.2.0".to_string()));
    assert_eq!(published[0].1.ports, Some(strings(&["8080"])));
    assert_eq!(published[1], input.services.entries()[1]);
}

#[test]
fn mean_size_rounds_towards_zero() {
    let sized = |sizes: &[i64]| -> Vec<BuildInstruction> {
        sizes
            .iter()
            .map(|s| {
                let mut t = target("Dockerfile", "amd64");
                t.image_size = *s;
                t
            })
            .collect()
    };
    assert_eq!(mean_image_size(&sized(&[1, 2])), 1);
    assert_eq!(mean_image_size(&sized(&[-1, -2])), -1);
    assert_eq!(mean_image_size(&sized(&[7])), 7);
    assert_eq!(mean_image_size(&sized(&[i64::MAX, i64::MAX, i64::MAX])), i64::MAX);
    assert_eq!(mean_image_size(&sized(&[i64::MIN, i64::MIN])), i64::MIN);
    assert_eq!(mean_image_size(&sized(&[100, 0, 0])), 33);
}

#[test]
fn no_targets_no_record() {
    let input = manifest("a", "1", vec![]);
    assert_eq!(try_publish_record(&input, &Vec::new()), None);
    assert!(try_publish_record(&input, &vec![target("Dockerfile", "amd64")]).is_some());
}

#[test]
fn tool_versions_are_compared_with_1_5_0() {
    assert_eq!(check_tool_version("1.5.0"), ToolCheck::Supported);
    assert_eq!(check_tool_version("1.6.2"), ToolCheck::Supported);
    assert_eq!(check_tool_version("2.0.0"), ToolCheck::Supported);
    assert_eq!(check_tool_version("1.4.9"), ToolCheck::TooOld);
    assert_eq!(check_tool_version("0.12.1"), ToolCheck::TooOld);
    assert_eq!(check_tool_version("1.5.0-rc1"), ToolCheck::TooOld);
    assert_eq!(check_tool_version("1.5"), ToolCheck::Unreadable);
    assert_eq!(check_tool_version("latest"), ToolCheck::Unreadable);
    assert_eq!(judge(None), ToolCheck::Unreadable);
    assert_eq!(judge(Some(true)), ToolCheck::TooOld);
    assert_eq!(judge(Some(false)), ToolCheck::Supported);
}
