use addon_publish::dto::addons::{
    AddonEntryCommon, AddonFileEntry, AddonPermission, AddonPermissions, AddonService, Permissions,
};
use addon_publish::dto::text_map::TextMap;
use addon_publish::validate::{
    check_image, check_port, check_volume, judge_image, validate, validate_addons_file,
    ValidationError,
    ViolationKind,
};

fn catalog(ids: &[&str]) -> AddonPermissions {
    TextMap::from_entries(
        ids.iter()
            .map(|id| {
                (
                    id.to_string(),
                    AddonPermission {
                        id: id.to_string(),
                        label: format!("label of {}", id),
                        description: String::new(),
                        standalone: false,
                    },
                )
            })
            .collect(),
    )
}

fn strings(parts: &[&str]) -> Option<Vec<String>> {
    Some(parts.iter().map(|p| p.to_string()).collect())
}

fn manifest(services: Vec<(&str, AddonService)>) -> AddonFileEntry {
    AddonFileEntry {
        services: TextMap::from_entries(
            services.into_iter().map(|(id, s)| (id.to_string(), s)).collect(),
        ),
        x_ohx_registry: AddonEntryCommon {
            id: "ohx-ci-test-addon".to_string(),
            version: "1.0.0".to_string(),
            ..AddonEntryCommon::default()
        },
        ..AddonFileEntry::default()
    }
}

fn error(kind: ViolationKind, service: &str, token: &str) -> ValidationError {
    ValidationError { kind, service: service.to_string(), token: token.to_string() }
}

fn with_ports(ports: &[&str]) -> AddonService {
    AddonService { ports: strings(ports), ..AddonService::default() }
}

#[test]
fn open_validate_addons_file_test() {
    let d = manifest(vec![(
        "ohx-ci-test",
        AddonService {
            image: Some("docker.io/ohx-ci-test:latest".to_string()),
            ports: strings(&["8080:8080"]),
            ..AddonService::default()
        },
    )]);
    assert_eq!(validate(&d, &catalog(&[])), Some(Ok(())));
    assert_eq!(d.x_ohx_registry.id, "ohx-ci-test-addon");
}

#[test]
fn well_formed_manifest_validates() {
    let d = manifest(vec![
        (
            "api",
            AddonService {
                image: Some("registry.example.org:5000/my_image-1:v2".to_string()),
                ports: strings(&["8080:80/tcp", "22", "5000-5010:5000-5010", "6060:6060/udp"]),
                permissions: Some(Permissions {
                    mandatory: vec!["NETWORK".to_string()],
                    optional: vec!["USB".to_string()],
                }),
                depends_on: strings(&["worker"]),
                volumes: strings(&["logvolume:/var/log"]),
                ..AddonService::default()
            },
        ),
        ("worker", AddonService { image: Some("worker".to_string()), ..AddonService::default() }),
    ]);
    assert_eq!(validate_addons_file(&d, &catalog(&["NETWORK", "USB"])), Ok(()));
}

#[test]
fn empty_service_map_is_rejected() {
    let d = manifest(vec![]);
    assert_eq!(
        validate_addons_file(&d, &catalog(&[])),
        Err(error(ViolationKind::NoServices, "", ""))
    );
}

#[test]
fn host_port_below_1024_is_rejected() {
    let d = manifest(vec![("api", with_ports(&["80:8080"]))]);
    assert_eq!(
        validate_addons_file(&d, &catalog(&[])),
        Err(error(ViolationKind::PrivilegedPort, "api", "80"))
    );
}

#[test]
fn container_port_below_1024_is_accepted() {
    let d = manifest(vec![("api", with_ports(&["8080:80"]))]);
    assert_eq!(validate_addons_file(&d, &catalog(&[])), Ok(()));
}

#[test]
fn single_position_port_is_unrestricted() {
    let d = manifest(vec![("api", with_ports(&["22"]))]);
    assert_eq!(validate_addons_file(&d, &catalog(&[])), Ok(()));
    assert_eq!(check_port("api", "100-200"), None);
}

#[test]
fn port_rules_each_give_their_error() {
    assert_eq!(check_port("s", "80/sctp"), Some(error(ViolationKind::PortProtocol, "s", "80/sctp")));
    assert_eq!(check_port("s", "1:2:3"), Some(error(ViolationKind::PortPositions, "s", "1:2:3")));
    assert_eq!(
        check_port("s", "5000-5010-5020"),
        Some(error(ViolationKind::PortRange, "s", "5000-5010-5020"))
    );
    assert_eq!(check_port("s", "http"), Some(error(ViolationKind::PortNumber, "s", "http")));
    assert_eq!(check_port("s", "70000"), Some(error(ViolationKind::PortNumber, "s", "70000")));
    assert_eq!(check_port("s", "8080:"), Some(error(ViolationKind::PortNumber, "s", "")));
    assert_eq!(
        check_port("s", "2000-500:8080"),
        Some(error(ViolationKind::PrivilegedPort, "s", "500"))
    );
    assert_eq!(check_port("s", "2000-3000:80-90/udp"), None);
    assert_eq!(check_port("s", "8080/tcp"), None);
}

#[test]
fn missing_dependency_is_rejected_with_its_id() {
    let d = manifest(vec![
        ("api", AddonService::default()),
        ("worker", AddonService { depends_on: strings(&["ghost"]), ..AddonService::default() }),
    ]);
    let result = validate_addons_file(&d, &catalog(&[]));
    assert_eq!(result, Err(error(ViolationKind::Dependency, "worker", "ghost")));
    assert!(result.unwrap_err().message().contains("ghost"));
}

#[test]
fn unknown_permissions_are_rejected() {
    let wants = |mandatory: &[&str], optional: &[&str]| AddonService {
        permissions: Some(Permissions {
            mandatory: mandatory.iter().map(|p| p.to_string()).collect(),
            optional: optional.iter().map(|p| p.to_string()).collect(),
        }),
        ..AddonService::default()
    };
    let known = catalog(&["NETWORK"]);
    assert_eq!(
        validate_addons_file(&manifest(vec![("s", wants(&["NETWORK", "ROOT"], &["X"]))]), &known),
        Err(error(ViolationKind::MandatoryPermission, "s", "ROOT"))
    );
    assert_eq!(
        validate_addons_file(&manifest(vec![("s", wants(&["NETWORK"], &["X"]))]), &known),
        Err(error(ViolationKind::OptionalPermission, "s", "X"))
    );
}

#[test]
fn image_references_are_checked() {
    assert_eq!(check_image("s", "my-image:latest"), None);
    assert_eq!(check_image("s", "docker.io/my_image"), None);
    assert_eq!(check_image("s", "localhost:5000/img:1"), None);
    assert_eq!(
        check_image("s", "host:port/img"),
        Some(error(ViolationKind::RegistryAddress, "s", "host:port/img"))
    );
    assert_eq!(check_image("s", "docker.io/Img"), Some(error(ViolationKind::ImageName, "s", "Img")));
    assert_eq!(
        check_image("s", "docker.io/openhabx/img"),
        Some(error(ViolationKind::ImageName, "s", "docker.io"))
    );
    assert_eq!(check_image("s", ""), Some(error(ViolationKind::ImageName, "s", "")));
}

#[test]
fn only_the_log_volume_is_accepted() {
    assert_eq!(check_volume("s", "logvolume"), None);
    assert_eq!(check_volume("s", "logvolume:/var/log:ro"), None);
    assert_eq!(
        check_volume("s", "data:/var/lib"),
        Some(error(ViolationKind::Volume, "s", "data:/var/lib"))
    );
}

#[test]
fn first_violation_wins() {
    let d = manifest(vec![
        (
            "a",
            AddonService {
                ports: strings(&["8080", "x"]),
                volumes: strings(&["data"]),
                ..AddonService::default()
            },
        ),
        ("b", AddonService { image: Some("UPPER".to_string()), ..AddonService::default() }),
    ]);
    assert_eq!(
        validate_addons_file(&d, &catalog(&[])),
        Err(error(ViolationKind::PortNumber, "a", "x"))
    );
}

#[test]
fn messages_name_service_and_token() {
    assert_eq!(error(ViolationKind::NoServices, "", "").message(), "No services defined");
    assert_eq!(
        error(ViolationKind::ImageName, "api", "Img").message(),
        "Service image name invalid for api: Img"
    );
    assert_eq!(
        error(ViolationKind::PrivilegedPort, "api", "80").message(),
        "You cannot map to a port below 1024. Those are for privileged services only! For api: 80"
    );
    assert_eq!(
        error(ViolationKind::Dependency, "worker", "ghost").message(),
        "For now you can only depend on services defined in your own addon.yml. For worker: Did not find 'ghost'!"
    );
    assert_eq!(
        error(ViolationKind::Volume, "api", "data:/x").message(),
        "There is currently only 'logvolume' supported. For api. You requested volume: 'data:/x'!"
    );
}

#[test]
fn image_verdict_follows_the_two_matches() {
    assert_eq!(judge_image("s", "docker.io/img", true, true), None);
    assert_eq!(
        judge_image("s", "docker.io/img", false, true),
        Some(error(ViolationKind::RegistryAddress, "s", "docker.io/img"))
    );
    assert_eq!(
        judge_image("s", "docker.io/img", false, false),
        Some(error(ViolationKind::RegistryAddress, "s", "docker.io/img"))
    );
    assert_eq!(
        judge_image("s", "docker.io/img", true, false),
        Some(error(ViolationKind::ImageName, "s", "img"))
    );
    assert_eq!(judge_image("s", "img", false, true), None);
    assert_eq!(judge_image("s", "a/b/c", true, false), Some(error(ViolationKind::ImageName, "s", "a")));
}

#[test]
fn a_cloned_manifest_is_equal() {
    let d = manifest(vec![
        (
            "api",
            AddonService {
                image: Some("img:1".to_string()),
                ports: strings(&["8080:80"]),
                pid: Some("host".to_string()),
                permissions: Some(Permissions {
                    mandatory: vec!["NETWORK".to_string()],
                    optional: vec![],
                }),
                ..AddonService::default()
            },
        ),
        ("worker", AddonService::default()),
    ]);
    let copy = d.clone();
    assert_eq!(copy, d);
    assert_eq!(validate_addons_file(&copy, &catalog(&["NETWORK"])), Ok(()));
}
