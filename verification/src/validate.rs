//! The rules that a manifest has to meet before it is built and published,
//! and the engine that finds the first rule a manifest breaks.

use crate::dto::addons::{
    AddonFileEntry, AddonFileEntryView, AddonPermissions, AddonService, AddonServiceView,
    Permissions, PermissionsView,
};
use crate::pattern::{is_match, regex_compiles, regex_is_match, usable};
use crate::text::{parse_u16, spec_parse_u16, split, split_text, text_eq};
use vstd::prelude::*;
use vstd::string::*;

verus! {

/// What a registry address looks like: anything without a colon, then
/// optionally a colon and a port number.
pub const REGISTRY_PATTERN: &'static str = r"^[^:]*([:]\d+)?$";

/// What an image name looks like: lower-case letters, digits, `_` and `-`,
/// then optionally a colon and a tag of lower-case letters and digits.
pub const IMAGE_NAME_PATTERN: &'static str = r"^[_\-a-z0-9]+(:[a-z0-9]+)?$";

/// The lowest port that a service may take on the host.
pub const FIRST_UNPRIVILEGED_PORT: u16 = 1024;

/// Whether both patterns can be used for matching.
pub open spec fn patterns_compile() -> bool {
    regex_compiles(REGISTRY_PATTERN@) && regex_compiles(IMAGE_NAME_PATTERN@)
}

/// The rule that a manifest breaks.
#[derive(Debug, Clone, Copy, PartialEq, Eq, Structural)]
pub enum ViolationKind {
    /// The manifest defines no service.
    NoServices,
    /// The part of an image reference before `/` is no registry address.
    RegistryAddress,
    /// The image's name does not have the form of an image name.
    ImageName,
    /// A mandatory permission is not in the catalog.
    MandatoryPermission,
    /// An optional permission is not in the catalog.
    OptionalPermission,
    /// What follows `/` in a port is neither `tcp` nor `udp`.
    PortProtocol,
    /// A port has more than two positions separated by `:`.
    PortPositions,
    /// A position of a port has more than two bounds separated by `-`.
    PortRange,
    /// A bound of a port is no unsigned 16-bit number.
    PortNumber,
    /// A bound on the host side of a port is below 1024.
    PrivilegedPort,
    /// A service depends on a service that the manifest does not define.
    Dependency,
    /// A volume is not the log volume.
    Volume,
}

/// The first rule that a manifest breaks, with the service that breaks it
/// and the text that is at fault. Both are empty where no service is defined.
#[derive(Debug, PartialEq)]
pub struct ValidationError {
    pub kind: ViolationKind,
    pub service: String,
    pub token: String,
}

/// What a [`ValidationError`] holds, as mathematical values.
pub struct ValidationErrorView {
    pub kind: ViolationKind,
    pub service: Seq<char>,
    pub token: Seq<char>,
}

impl DeepView for ValidationError {
    type V = ValidationErrorView;

    open spec fn deep_view(&self) -> ValidationErrorView {
        ValidationErrorView { kind: self.kind, service: self.service@, token: self.token@ }
    }
}

impl Clone for ValidationError {
    fn clone(&self) -> (copy: Self)
        ensures
            copy.deep_view() == self.deep_view(),
    {
        ValidationError {
            kind: self.kind,
            service: self.service.clone(),
            token: self.token.clone(),
        }
    }
}

/// The first entry of `s` that holds something.
pub open spec fn first_some<E>(s: Seq<Option<E>>) -> Option<E>
    decreases s.len(),
{
    if s.len() == 0 {
        None
    } else if s[0] is Some {
        s[0]
    } else {
        first_some(s.skip(1))
    }
}

/// Where the entries before position `i` hold nothing and the entry
/// at `i`, if there is one, holds something, that entry is the first.
pub proof fn lemma_first_some<E>(s: Seq<Option<E>>, i: int)
    requires
        0 <= i <= s.len(),
        forall|k: int| 0 <= k < i ==> s[k] is None,
        i < s.len() ==> s[i] is Some,
    ensures
        first_some(s) == (if i < s.len() {
            s[i]
        } else {
            None
        }),
    decreases i,
{
    if i > 0 {
        let t = s.skip(1);
        assert forall|k: int| 0 <= k < i - 1 implies t[k] is None by {
            assert(t[k] == s[k + 1]);
        }
        lemma_first_some(t, i - 1);
    }
}

/// Nothing is found exactly where every entry holds nothing, and what is
/// found is an entry with nothing before it.
pub proof fn lemma_first_some_found<E>(s: Seq<Option<E>>)
    ensures
        first_some(s) is None <==> forall|k: int| 0 <= k < s.len() ==> s[k] is None,
        first_some(s) is Some ==> exists|i: int|
            0 <= i < s.len() && #[trigger] s[i] == first_some(s) && forall|k: int|
                0 <= k < i ==> s[k] is None,
    decreases s.len(),
{
    if s.len() > 0 {
        if s[0] is Some {
            assert(s[0] == first_some(s));
        } else {
            let t = s.skip(1);
            lemma_first_some_found(t);
            if first_some(t) is Some {
                let i = choose|i: int|
                    0 <= i < t.len() && #[trigger] t[i] == first_some(t) && forall|k: int|
                        0 <= k < i ==> t[k] is None;
                assert(s[i + 1] == first_some(s));
                assert forall|k: int| 0 <= k < i + 1 implies s[k] is None by {
                    if k > 0 {
                        assert(s[k] == t[k - 1]);
                    }
                }
            } else {
                assert forall|k: int| 0 <= k < s.len() implies s[k] is None by {
                    if k > 0 {
                        assert(s[k] == t[k - 1]);
                    }
                }
            }
        }
    }
}

/// The report that `service` breaks the rule `kind` with `token`.
pub open spec fn violation(kind: ViolationKind, service: Seq<char>, token: Seq<char>) -> Option<
    ValidationErrorView,
> {
    Some(ValidationErrorView { kind, service, token })
}

/// The registry address of an image reference: the first of two parts
/// separated by `/`. A reference of one part, or of more than two, has none.
pub open spec fn registry_part(image: Seq<char>) -> Option<Seq<char>> {
    let parts = split(image, '/');
    if parts.len() == 2 {
        Some(parts[0])
    } else {
        None
    }
}

/// The name in an image reference: the second of two parts separated by
/// `/`, and otherwise the first part.
pub open spec fn name_part(image: Seq<char>) -> Seq<char> {
    let parts = split(image, '/');
    if parts.len() == 2 {
        parts[1]
    } else {
        parts[0]
    }
}

/// What is wrong with an image reference, given whether its registry
/// address and its name have the right form. The address is looked at first.
pub open spec fn image_verdict(
    service: Seq<char>,
    image: Seq<char>,
    registry_fits: bool,
    name_fits: bool,
) -> Option<ValidationErrorView> {
    if registry_part(image) is Some && !registry_fits {
        violation(ViolationKind::RegistryAddress, service, image)
    } else if !name_fits {
        violation(ViolationKind::ImageName, service, name_part(image))
    } else {
        None
    }
}

/// Whether the registry address of an image reference matches the
/// pattern for registry addresses. A reference without an address fits.
pub open spec fn registry_fits(image: Seq<char>) -> bool {
    match registry_part(image) {
        Some(address) => regex_is_match(REGISTRY_PATTERN@, address),
        None => true,
    }
}

/// Whether the name in an image reference matches the pattern for image names.
pub open spec fn name_fits(image: Seq<char>) -> bool {
    regex_is_match(IMAGE_NAME_PATTERN@, name_part(image))
}

/// What is wrong with an image reference.
pub open spec fn image_violation(service: Seq<char>, image: Seq<char>) -> Option<
    ValidationErrorView,
> {
    image_verdict(service, image, registry_fits(image), name_fits(image))
}

/// For each permission asked for, the report that it is unknown, if it is.
pub open spec fn permission_reports(
    kind: ViolationKind,
    service: Seq<char>,
    wanted: Seq<Seq<char>>,
    known: Set<Seq<char>>,
) -> Seq<Option<ValidationErrorView>> {
    Seq::new(
        wanted.len(),
        |i: int|
            if known.contains(wanted[i]) {
                None
            } else {
                violation(kind, service, wanted[i])
            },
    )
}

/// The first permission that is not in the catalog, the mandatory ones
/// coming before the optional ones.
pub open spec fn permissions_violation(
    service: Seq<char>,
    permissions: PermissionsView,
    known: Set<Seq<char>>,
) -> Option<ValidationErrorView> {
    let mandatory = first_some(
        permission_reports(
            ViolationKind::MandatoryPermission,
            service,
            permissions.mandatory,
            known,
        ),
    );
    if mandatory is Some {
        mandatory
    } else {
        first_some(
            permission_reports(
                ViolationKind::OptionalPermission,
                service,
                permissions.optional,
                known,
            ),
        )
    }
}

/// What is wrong with one bound of a port: it is no number, or it is on
/// the host side and privileged.
pub open spec fn bound_violation(service: Seq<char>, bound: Seq<char>, host: bool) -> Option<
    ValidationErrorView,
> {
    match spec_parse_u16(bound) {
        None => violation(ViolationKind::PortNumber, service, bound),
        Some(number) => if host && number < FIRST_UNPRIVILEGED_PORT {
            violation(ViolationKind::PrivilegedPort, service, bound)
        } else {
            None
        },
    }
}

/// For each bound of a position, what is wrong with it.
pub open spec fn bound_reports(service: Seq<char>, bounds: Seq<Seq<char>>, host: bool) -> Seq<
    Option<ValidationErrorView>,
> {
    Seq::new(bounds.len(), |i: int| bound_violation(service, bounds[i], host))
}

/// What is wrong with one position of a port: a single bound or two bounds
/// separated by `-`.
pub open spec fn position_violation(service: Seq<char>, position: Seq<char>, host: bool) -> Option<
    ValidationErrorView,
> {
    let bounds = split(position, '-');
    if bounds.len() > 2 {
        violation(ViolationKind::PortRange, service, position)
    } else {
        first_some(bound_reports(service, bounds, host))
    }
}

/// For each position of a port, what is wrong with it. Of two positions
/// the first is the host's.
pub open spec fn position_reports(service: Seq<char>, positions: Seq<Seq<char>>) -> Seq<
    Option<ValidationErrorView>,
> {
    Seq::new(
        positions.len(),
        |i: int| position_violation(service, positions[i], positions.len() == 2 && i == 0),
    )
}

/// What is wrong with one port: the mapping before the first `/`, and
/// the protocol after it, if there is one.
pub open spec fn port_violation(service: Seq<char>, port: Seq<char>) -> Option<
    ValidationErrorView,
> {
    let parts = split(port, '/');
    let positions = split(parts[0], ':');
    if parts.len() > 1 && parts[1] != "udp"@ && parts[1] != "tcp"@ {
        violation(ViolationKind::PortProtocol, service, port)
    } else if positions.len() > 2 {
        violation(ViolationKind::PortPositions, service, parts[0])
    } else {
        first_some(position_reports(service, positions))
    }
}

/// For each port of a service, what is wrong with it.
pub open spec fn port_reports(service: Seq<char>, ports: Seq<Seq<char>>) -> Seq<
    Option<ValidationErrorView>,
> {
    Seq::new(ports.len(), |i: int| port_violation(service, ports[i]))
}

/// For each service that is depended on, the report that the manifest
/// does not define it, if it does not.
pub open spec fn dependency_reports(
    service: Seq<char>,
    depends_on: Seq<Seq<char>>,
    ids: Seq<Seq<char>>,
) -> Seq<Option<ValidationErrorView>> {
    Seq::new(
        depends_on.len(),
        |i: int|
            if ids.contains(depends_on[i]) {
                None
            } else {
                violation(ViolationKind::Dependency, service, depends_on[i])
            },
    )
}

/// What is wrong with one volume: what stands before its first `:` is
/// not `logvolume`.
pub open spec fn volume_violation(service: Seq<char>, volume: Seq<char>) -> Option<
    ValidationErrorView,
> {
    if split(volume, ':')[0] == "logvolume"@ {
        None
    } else {
        violation(ViolationKind::Volume, service, volume)
    }
}

/// For each volume of a service, what is wrong with it.
pub open spec fn volume_reports(service: Seq<char>, volumes: Seq<Seq<char>>) -> Seq<
    Option<ValidationErrorView>,
> {
    Seq::new(volumes.len(), |i: int| volume_violation(service, volumes[i]))
}

/// The first of two findings.
pub open spec fn or_else<E>(first: Option<E>, second: Option<E>) -> Option<E> {
    if first is Some {
        first
    } else {
        second
    }
}

/// What is wrong with the image of a service, if it names one.
pub open spec fn service_image_violation(id: Seq<char>, service: AddonServiceView) -> Option<
    ValidationErrorView,
> {
    match service.image {
        Some(image) => image_violation(id, image),
        None => None,
    }
}

/// What is wrong with the permissions of a service, if it asks for any.
pub open spec fn service_permissions_violation(
    id: Seq<char>,
    service: AddonServiceView,
    known: Set<Seq<char>>,
) -> Option<ValidationErrorView> {
    match service.permissions {
        Some(permissions) => permissions_violation(id, permissions, known),
        None => None,
    }
}

/// What is wrong with the ports of a service, if it has any.
pub open spec fn service_ports_violation(id: Seq<char>, service: AddonServiceView) -> Option<
    ValidationErrorView,
> {
    match service.ports {
        Some(ports) => first_some(port_reports(id, ports)),
        None => None,
    }
}

/// What is wrong with the dependencies of a service, if it has any.
pub open spec fn service_dependency_violation(
    id: Seq<char>,
    service: AddonServiceView,
    ids: Seq<Seq<char>>,
) -> Option<ValidationErrorView> {
    match service.depends_on {
        Some(depends_on) => first_some(dependency_reports(id, depends_on, ids)),
        None => None,
    }
}

/// What is wrong with the volumes of a service, if it has any.
pub open spec fn service_volumes_violation(id: Seq<char>, service: AddonServiceView) -> Option<
    ValidationErrorView,
> {
    match service.volumes {
        Some(volumes) => first_some(volume_reports(id, volumes)),
        None => None,
    }
}

/// The first rule that a service breaks: its image is looked at first,
/// then its permissions, its ports, its dependencies and its volumes.
pub open spec fn service_violation(
    id: Seq<char>,
    service: AddonServiceView,
    ids: Seq<Seq<char>>,
    known: Set<Seq<char>>,
) -> Option<ValidationErrorView> {
    or_else(
        service_image_violation(id, service),
        or_else(
            service_permissions_violation(id, service, known),
            or_else(
                service_ports_violation(id, service),
                or_else(
                    service_dependency_violation(id, service, ids),
                    service_volumes_violation(id, service),
                ),
            ),
        ),
    )
}

/// For each service of a manifest, the first rule that it breaks.
pub open spec fn service_reports(file: AddonFileEntryView, known: Set<Seq<char>>) -> Seq<
    Option<ValidationErrorView>,
> {
    Seq::new(
        file.services.len(),
        |i: int| service_violation(file.services[i].0, file.services[i].1, file.service_ids(), known),
    )
}

/// The first rule that a manifest breaks, its services taken in order, or
/// `None` where it breaks none.
pub open spec fn manifest_violation(file: AddonFileEntryView, known: Set<Seq<char>>) -> Option<
    ValidationErrorView,
> {
    if file.services.len() == 0 {
        violation(ViolationKind::NoServices, Seq::empty(), Seq::empty())
    } else {
        first_some(service_reports(file, known))
    }
}

/// The report that `service` breaks the rule `kind` with `token`.
fn report(kind: ViolationKind, service: &str, token: &str) -> (e: ValidationError)
    ensures
        Some(e.deep_view()) == violation(kind, service@, token@),
{
    ValidationError { kind, service: String::from_str(service), token: String::from_str(token) }
}

/// Says what is wrong with an image reference, given whether its
/// registry address and its name have the right form.
pub fn judge_image(service: &str, image: &str, registry_fits: bool, name_fits: bool) -> (found:
    Option<ValidationError>)
    ensures
        found.deep_view() == image_verdict(service@, image@, registry_fits, name_fits),
{
    let parts = split_text(image, '/');
    if parts.len() == 2 && !registry_fits {
        return Some(report(ViolationKind::RegistryAddress, service, image));
    }
    if !name_fits {
        let name: &str = if parts.len() == 2 {
            parts[1].as_str()
        } else {
            parts[0].as_str()
        };
        return Some(report(ViolationKind::ImageName, service, name));
    }
    None
}

/// Looks at an image reference: matches its parts against the two
/// patterns and says what is wrong.
pub fn check_image(service: &str, image: &str) -> (found: Option<ValidationError>)
    requires
        patterns_compile(),
    ensures
        found.deep_view() == image_violation(service@, image@),
{
    let parts = split_text(image, '/');
    let address_fits = if parts.len() == 2 {
        is_match(REGISTRY_PATTERN, parts[0].as_str())
    } else {
        true
    };
    let name: &str = if parts.len() == 2 {
        parts[1].as_str()
    } else {
        parts[0].as_str()
    };
    let name_matches = is_match(IMAGE_NAME_PATTERN, name);
    judge_image(service, image, address_fits, name_matches)
}

/// Looks for the first permission of a list that the catalog does not know.
fn check_permission_list(
    kind: ViolationKind,
    service: &str,
    wanted: &Vec<String>,
    catalog: &AddonPermissions,
) -> (found: Option<ValidationError>)
    ensures
        found.deep_view() == first_some(
            permission_reports(kind, service@, wanted.deep_view(), catalog.key_set()),
        ),
{
    let ghost reports = permission_reports(kind, service@, wanted.deep_view(), catalog.key_set());
    let n = wanted.len();
    let mut i: usize = 0;
    while i < n
        invariant
            i <= n,
            n == wanted@.len(),
            reports == permission_reports(kind, service@, wanted.deep_view(), catalog.key_set()),
            forall|k: int| 0 <= k < i ==> reports[k] is None,
        decreases n - i,
    {
        if !catalog.contains_key(wanted[i].as_str()) {
            let e = report(kind, service, wanted[i].as_str());
            proof {
                lemma_first_some(reports, i as int);
            }
            return Some(e);
        }
        i += 1;
    }
    proof {
        lemma_first_some(reports, n as int);
    }
    None
}

/// Looks for the first permission of a service that the catalog does not know.
pub fn check_permissions(service: &str, permissions: &Permissions, catalog: &AddonPermissions) -> (found:
    Option<ValidationError>)
    ensures
        found.deep_view() == permissions_violation(
            service@,
            permissions.deep_view(),
            catalog.key_set(),
        ),
{
    let mandatory = check_permission_list(
        ViolationKind::MandatoryPermission,
        service,
        &permissions.mandatory,
        catalog,
    );
    if mandatory.is_some() {
        return mandatory;
    }
    check_permission_list(
        ViolationKind::OptionalPermission,
        service,
        &permissions.optional,
        catalog,
    )
}

/// Looks at one bound of a port.
pub fn check_bound(service: &str, bound: &str, host: bool) -> (found: Option<ValidationError>)
    ensures
        found.deep_view() == bound_violation(service@, bound@, host),
{
    match parse_u16(bound) {
        None => Some(report(ViolationKind::PortNumber, service, bound)),
        Some(number) => {
            if host && number < FIRST_UNPRIVILEGED_PORT {
                Some(report(ViolationKind::PrivilegedPort, service, bound))
            } else {
                None
            }
        },
    }
}

/// Looks at one position of a port.
#[verifier::loop_isolation(false)]
pub fn check_position(service: &str, position: &str, host: bool) -> (found: Option<
    ValidationError,
>)
    ensures
        found.deep_view() == position_violation(service@, position@, host),
{
    let bounds = split_text(position, '-');
    if bounds.len() > 2 {
        return Some(report(ViolationKind::PortRange, service, position));
    }
    let ghost reports = bound_reports(service@, bounds.deep_view(), host);
    let n = bounds.len();
    let mut i: usize = 0;
    while i < n
        invariant
            i <= n,
            n == bounds@.len(),
            reports == bound_reports(service@, bounds.deep_view(), host),
            forall|k: int| 0 <= k < i ==> reports[k] is None,
        decreases n - i,
    {
        let found = check_bound(service, bounds[i].as_str(), host);
        if found.is_some() {
            proof {
                lemma_first_some(reports, i as int);
            }
            return found;
        }
        i += 1;
    }
    proof {
        lemma_first_some(reports, n as int);
    }
    None
}

/// Looks at one port of a service.
#[verifier::loop_isolation(false)]
pub fn check_port(service: &str, port: &str) -> (found: Option<ValidationError>)
    ensures
        found.deep_view() == port_violation(service@, port@),
{
    let parts = split_text(port, '/');
    if parts.len() > 1 && !text_eq(parts[1].as_str(), "udp") && !text_eq(
        parts[1].as_str(),
        "tcp",
    ) {
        return Some(report(ViolationKind::PortProtocol, service, port));
    }
    let positions = split_text(parts[0].as_str(), ':');
    if positions.len() > 2 {
        return Some(report(ViolationKind::PortPositions, service, parts[0].as_str()));
    }
    let ghost reports = position_reports(service@, positions.deep_view());
    let n = positions.len();
    let mut i: usize = 0;
    while i < n
        invariant
            i <= n,
            n == positions@.len(),
            reports == position_reports(service@, positions.deep_view()),
            forall|k: int| 0 <= k < i ==> reports[k] is None,
        decreases n - i,
    {
        let found = check_position(service, positions[i].as_str(), n == 2 && i == 0);
        if found.is_some() {
            proof {
                lemma_first_some(reports, i as int);
            }
            return found;
        }
        i += 1;
    }
    proof {
        lemma_first_some(reports, n as int);
    }
    None
}

/// Looks for the first port of a list with something wrong.
pub fn check_ports(service: &str, ports: &Vec<String>) -> (found: Option<ValidationError>)
    ensures
        found.deep_view() == first_some(port_reports(service@, ports.deep_view())),
{
    let ghost reports = port_reports(service@, ports.deep_view());
    let n = ports.len();
    let mut i: usize = 0;
    while i < n
        invariant
            i <= n,
            n == ports@.len(),
            reports == port_reports(service@, ports.deep_view()),
            forall|k: int| 0 <= k < i ==> reports[k] is None,
        decreases n - i,
    {
        let found = check_port(service, ports[i].as_str());
        if found.is_some() {
            proof {
                lemma_first_some(reports, i as int);
            }
            return found;
        }
        i += 1;
    }
    proof {
        lemma_first_some(reports, n as int);
    }
    None
}

/// Whether the manifest defines a service with this id.
pub fn defines_service(data: &AddonFileEntry, id: &str) -> (found: bool)
    ensures
        found == data.deep_view().service_ids().contains(id@),
{
    let ghost ids = data.deep_view().service_ids();
    let found = data.services.contains_key(id);
    proof {
        if found {
            let at = choose|i: int|
                0 <= i < data.services@.len() && (#[trigger] data.services@[i]).0 == id@;
            assert(ids[at] == id@);
        } else {
            assert forall|k: int| 0 <= k < ids.len() implies ids[k] != id@ by {
                assert(data.services@[k].0 == ids[k]);
            }
        }
    }
    found
}

/// Looks for the first dependency of a list that the manifest does not define.
pub fn check_dependencies(service: &str, depends_on: &Vec<String>, data: &AddonFileEntry) -> (found:
    Option<ValidationError>)
    ensures
        found.deep_view() == first_some(
            dependency_reports(service@, depends_on.deep_view(), data.deep_view().service_ids()),
        ),
{
    let ghost reports = dependency_reports(
        service@,
        depends_on.deep_view(),
        data.deep_view().service_ids(),
    );
    let n = depends_on.len();
    let mut i: usize = 0;
    while i < n
        invariant
            i <= n,
            n == depends_on@.len(),
            reports == dependency_reports(
                service@,
                depends_on.deep_view(),
                data.deep_view().service_ids(),
            ),
            forall|k: int| 0 <= k < i ==> reports[k] is None,
        decreases n - i,
    {
        if !defines_service(data, depends_on[i].as_str()) {
            let e = report(ViolationKind::Dependency, service, depends_on[i].as_str());
            proof {
                lemma_first_some(reports, i as int);
            }
            return Some(e);
        }
        i += 1;
    }
    proof {
        lemma_first_some(reports, n as int);
    }
    None
}

/// Looks at one volume of a service.
pub fn check_volume(service: &str, volume: &str) -> (found: Option<ValidationError>)
    ensures
        found.deep_view() == volume_violation(service@, volume@),
{
    let parts = split_text(volume, ':');
    if text_eq(parts[0].as_str(), "logvolume") {
        None
    } else {
        Some(report(ViolationKind::Volume, service, volume))
    }
}

/// Looks for the first volume of a list with something wrong.
pub fn check_volumes(service: &str, volumes: &Vec<String>) -> (found: Option<ValidationError>)
    ensures
        found.deep_view() == first_some(volume_reports(service@, volumes.deep_view())),
{
    let ghost reports = volume_reports(service@, volumes.deep_view());
    let n = volumes.len();
    let mut i: usize = 0;
    while i < n
        invariant
            i <= n,
            n == volumes@.len(),
            reports == volume_reports(service@, volumes.deep_view()),
            forall|k: int| 0 <= k < i ==> reports[k] is None,
        decreases n - i,
    {
        let found = check_volume(service, volumes[i].as_str());
        if found.is_some() {
            proof {
                lemma_first_some(reports, i as int);
            }
            return found;
        }
        i += 1;
    }
    proof {
        lemma_first_some(reports, n as int);
    }
    None
}

/// Looks for the first rule that a service of the manifest breaks.
pub fn check_service(
    id: &str,
    service: &AddonService,
    data: &AddonFileEntry,
    catalog: &AddonPermissions,
) -> (found: Option<ValidationError>)
    requires
        patterns_compile(),
    ensures
        found.deep_view() == service_violation(
            id@,
            service.deep_view(),
            data.deep_view().service_ids(),
            catalog.key_set(),
        ),
{
    if let Some(image) = &service.image {
        let found = check_image(id, image.as_str());
        if found.is_some() {
            return found;
        }
    }
    if let Some(permissions) = &service.permissions {
        let found = check_permissions(id, permissions, catalog);
        if found.is_some() {
            return found;
        }
    }
    if let Some(ports) = &service.ports {
        let found = check_ports(id, ports);
        if found.is_some() {
            return found;
        }
    }
    if let Some(depends_on) = &service.depends_on {
        let found = check_dependencies(id, depends_on, data);
        if found.is_some() {
            return found;
        }
    }
    if let Some(volumes) = &service.volumes {
        return check_volumes(id, volumes);
    }
    None
}

/// Whether a result of validation is the one that the rules give for
/// this manifest and catalog.
pub open spec fn is_verdict(
    result: Result<(), ValidationError>,
    file: AddonFileEntryView,
    known: Set<Seq<char>>,
) -> bool {
    match result {
        Ok(_) => manifest_violation(file, known) is None,
        Err(e) => manifest_violation(file, known) == Some(e.deep_view()),
    }
}

/// Validates a manifest: `Ok` where it breaks no rule, else the first rule
/// that it breaks, its services taken in order.
#[verifier::loop_isolation(false)]
pub fn validate_addons_file(data: &AddonFileEntry, catalog: &AddonPermissions) -> (result: Result<
    (),
    ValidationError,
>)
    requires
        patterns_compile(),
    ensures
        is_verdict(result, data.deep_view(), catalog.key_set()),
        result is Ok <==> manifest_ok(data.deep_view(), catalog.key_set()),
{
    proof {
        lemma_valid_manifest(data.deep_view(), catalog.key_set());
    }
    let services = data.services.entries();
    let n = services.len();
    if n == 0 {
        proof {
            reveal_strlit("");
            assert(""@ =~= Seq::<char>::empty());
        }
        return Err(report(ViolationKind::NoServices, "", ""));
    }
    let ghost reports = service_reports(data.deep_view(), catalog.key_set());
    let mut i: usize = 0;
    while i < n
        invariant
            i <= n,
            n == services@.len(),
            patterns_compile(),
            reports == service_reports(data.deep_view(), catalog.key_set()),
            forall|k: int| 0 <= k < i ==> reports[k] is None,
        decreases n - i,
    {
        let found = check_service(services[i].0.as_str(), &services[i].1, data, catalog);
        match found {
            Some(e) => {
                proof {
                    lemma_first_some(reports, i as int);
                }
                return Err(e);
            },
            None => {},
        }
        i += 1;
    }
    proof {
        lemma_first_some(reports, n as int);
    }
    Ok(())
}

/// Validates a manifest where the two patterns can be used, and says
/// `None` where they cannot.
pub fn validate(data: &AddonFileEntry, catalog: &AddonPermissions) -> (result: Option<
    Result<(), ValidationError>,
>)
    ensures
        result is Some <==> patterns_compile(),
        result matches Some(verdict) ==> is_verdict(verdict, data.deep_view(), catalog.key_set()),
        result matches Some(verdict) ==> (verdict is Ok <==> manifest_ok(
            data.deep_view(),
            catalog.key_set(),
        )),
{
    if usable(REGISTRY_PATTERN) && usable(IMAGE_NAME_PATTERN) {
        Some(validate_addons_file(data, catalog))
    } else {
        None
    }
}

/// An image reference with nothing wrong: a name of the right form, after
/// a registry address of the right form where there are two parts.
pub open spec fn image_ok(image: Seq<char>) -> bool {
    registry_fits(image) && name_fits(image)
}

/// A bound with nothing wrong: a 16-bit number, at least 1024 on the host side.
pub open spec fn bound_ok(bound: Seq<char>, host: bool) -> bool {
    match spec_parse_u16(bound) {
        Some(number) => host ==> number >= FIRST_UNPRIVILEGED_PORT,
        None => false,
    }
}

/// A position with nothing wrong: one or two bounds, each of them fine.
pub open spec fn position_ok(position: Seq<char>, host: bool) -> bool {
    let bounds = split(position, '-');
    &&& bounds.len() <= 2
    &&& forall|i: int| 0 <= i < bounds.len() ==> bound_ok(#[trigger] bounds[i], host)
}

/// A port with nothing wrong: a protocol, if any, of `tcp` or `udp`, and
/// one or two positions, each of them fine, the first of two being the host's.
pub open spec fn port_ok(port: Seq<char>) -> bool {
    let parts = split(port, '/');
    let positions = split(parts[0], ':');
    &&& parts.len() > 1 ==> parts[1] == "udp"@ || parts[1] == "tcp"@
    &&& positions.len() <= 2
    &&& forall|i: int|
        0 <= i < positions.len() ==> position_ok(
            #[trigger] positions[i],
            positions.len() == 2 && i == 0,
        )
}

/// A volume with nothing wrong: the log volume.
pub open spec fn volume_ok(volume: Seq<char>) -> bool {
    split(volume, ':')[0] == "logvolume"@
}

/// Whether every text of a list is in a set.
pub open spec fn all_known(wanted: Seq<Seq<char>>, known: Set<Seq<char>>) -> bool {
    forall|i: int| 0 <= i < wanted.len() ==> known.contains(#[trigger] wanted[i])
}

/// A service with nothing wrong.
pub open spec fn service_ok(
    service: AddonServiceView,
    ids: Seq<Seq<char>>,
    known: Set<Seq<char>>,
) -> bool {
    &&& service.image matches Some(image) ==> image_ok(image)
    &&& service.permissions matches Some(permissions) ==> all_known(permissions.mandatory, known)
        && all_known(permissions.optional, known)
    &&& service.ports matches Some(ports) ==> forall|i: int|
        0 <= i < ports.len() ==> port_ok(#[trigger] ports[i])
    &&& service.depends_on matches Some(depends_on) ==> forall|i: int|
        0 <= i < depends_on.len() ==> ids.contains(#[trigger] depends_on[i])
    &&& service.volumes matches Some(volumes) ==> forall|i: int|
        0 <= i < volumes.len() ==> volume_ok(#[trigger] volumes[i])
}

/// A manifest with nothing wrong: it has a service, every image reference
/// has the right form, every permission is in the catalog, every port is
/// well formed, every dependency is a service of the manifest, and every
/// volume is the log volume.
pub open spec fn manifest_ok(file: AddonFileEntryView, known: Set<Seq<char>>) -> bool {
    &&& file.services.len() > 0
    &&& forall|i: int|
        0 <= i < file.services.len() ==> service_ok(
            (#[trigger] file.services[i]).1,
            file.service_ids(),
            known,
        )
}

/// A position is reported exactly where something is wrong with it.
pub proof fn lemma_position_ok(service: Seq<char>, position: Seq<char>, host: bool)
    ensures
        position_violation(service, position, host) is None <==> position_ok(position, host),
{
    let bounds = split(position, '-');
    let reports = bound_reports(service, bounds, host);
    lemma_first_some_found(reports);
    if bounds.len() <= 2 {
        assert forall|i: int| 0 <= i < bounds.len() implies (reports[i] is None <==> bound_ok(
            #[trigger] bounds[i],
            host,
        )) by {}
        if position_ok(position, host) {
            assert forall|k: int| 0 <= k < reports.len() implies reports[k] is None by {
                assert(bound_ok(bounds[k], host));
            }
        }
    }
}

/// A port is reported exactly where something is wrong with it.
pub proof fn lemma_port_ok(service: Seq<char>, port: Seq<char>)
    ensures
        port_violation(service, port) is None <==> port_ok(port),
{
    let parts = split(port, '/');
    let positions = split(parts[0], ':');
    let reports = position_reports(service, positions);
    lemma_first_some_found(reports);
    assert forall|i: int| 0 <= i < positions.len() implies (reports[i] is None <==> position_ok(
        #[trigger] positions[i],
        positions.len() == 2 && i == 0,
    )) by {
        lemma_position_ok(service, positions[i], positions.len() == 2 && i == 0);
    }
    if port_ok(port) {
        assert forall|k: int| 0 <= k < reports.len() implies reports[k] is None by {
            assert(position_ok(positions[k], positions.len() == 2 && k == 0));
        }
    }
}

/// A list of permissions is reported exactly where one of them is unknown.
pub proof fn lemma_permissions_ok(
    kind: ViolationKind,
    service: Seq<char>,
    wanted: Seq<Seq<char>>,
    known: Set<Seq<char>>,
)
    ensures
        first_some(permission_reports(kind, service, wanted, known)) is None <==> all_known(
            wanted,
            known,
        ),
{
    let reports = permission_reports(kind, service, wanted, known);
    lemma_first_some_found(reports);
    assert forall|i: int| 0 <= i < wanted.len() implies (reports[i] is None <==> known.contains(
        #[trigger] wanted[i],
    )) by {}
    if all_known(wanted, known) {
        assert forall|k: int| 0 <= k < reports.len() implies reports[k] is None by {
            assert(known.contains(wanted[k]));
        }
    }
}

/// A service is reported exactly where something is wrong with it.
pub proof fn lemma_service_ok(
    id: Seq<char>,
    service: AddonServiceView,
    ids: Seq<Seq<char>>,
    known: Set<Seq<char>>,
)
    ensures
        service_violation(id, service, ids, known) is None <==> service_ok(service, ids, known),
{
    if let Some(permissions) = service.permissions {
        lemma_permissions_ok(
            ViolationKind::MandatoryPermission,
            id,
            permissions.mandatory,
            known,
        );
        lemma_permissions_ok(ViolationKind::OptionalPermission, id, permissions.optional, known);
    }
    if let Some(ports) = service.ports {
        let reports = port_reports(id, ports);
        lemma_first_some_found(reports);
        assert forall|i: int| 0 <= i < ports.len() implies (reports[i] is None <==> port_ok(
            #[trigger] ports[i],
        )) by {
            lemma_port_ok(id, ports[i]);
        }
        if forall|i: int| 0 <= i < ports.len() ==> port_ok(#[trigger] ports[i]) {
            assert forall|k: int| 0 <= k < reports.len() implies reports[k] is None by {
                assert(port_ok(ports[k]));
            }
        }
    }
    if let Some(depends_on) = service.depends_on {
        let reports = dependency_reports(id, depends_on, ids);
        lemma_first_some_found(reports);
        assert forall|i: int| 0 <= i < depends_on.len() implies (reports[i] is None
            <==> ids.contains(#[trigger] depends_on[i])) by {}
        if forall|i: int| 0 <= i < depends_on.len() ==> ids.contains(#[trigger] depends_on[i]) {
            assert forall|k: int| 0 <= k < reports.len() implies reports[k] is None by {
                assert(ids.contains(depends_on[k]));
            }
        }
    }
    if let Some(volumes) = service.volumes {
        let reports = volume_reports(id, volumes);
        lemma_first_some_found(reports);
        assert forall|i: int| 0 <= i < volumes.len() implies (reports[i] is None <==> volume_ok(
            #[trigger] volumes[i],
        )) by {}
        if forall|i: int| 0 <= i < volumes.len() ==> volume_ok(#[trigger] volumes[i]) {
            assert forall|k: int| 0 <= k < reports.len() implies reports[k] is None by {
                assert(volume_ok(volumes[k]));
            }
        }
    }
}

/// A manifest passes validation exactly where it has a service, every
/// image reference has the right form, every permission is in the catalog,
/// every port is well formed, every dependency is a service of the manifest,
/// and every volume is the log volume.
pub proof fn lemma_valid_manifest(file: AddonFileEntryView, known: Set<Seq<char>>)
    ensures
        manifest_violation(file, known) is None <==> manifest_ok(file, known),
{
    let reports = service_reports(file, known);
    lemma_first_some_found(reports);
    assert forall|i: int| 0 <= i < file.services.len() implies (reports[i] is None <==> service_ok(
        (#[trigger] file.services[i]).1,
        file.service_ids(),
        known,
    )) by {
        lemma_service_ok(file.services[i].0, file.services[i].1, file.service_ids(), known);
    }
    if manifest_ok(file, known) {
        assert forall|k: int| 0 <= k < reports.len() implies reports[k] is None by {
            assert(service_ok(file.services[k].1, file.service_ids(), known));
        }
    }
}

/// A port of two positions is rejected where a bound of the first, the
/// host's, is a number below 1024.
pub proof fn lemma_privileged_host_port(service: Seq<char>, port: Seq<char>, bound: int)
    requires
        split(split(port, '/')[0], ':').len() == 2,
        0 <= bound < split(split(split(port, '/')[0], ':')[0], '-').len(),
        spec_parse_u16(split(split(split(port, '/')[0], ':')[0], '-')[bound]) is Some,
        spec_parse_u16(split(split(split(port, '/')[0], ':')[0], '-')[bound])->0
            < FIRST_UNPRIVILEGED_PORT,
    ensures
        port_violation(service, port) is Some,
{
    let positions = split(split(port, '/')[0], ':');
    let bounds = split(positions[0], '-');
    lemma_port_ok(service, port);
    if port_ok(port) {
        assert(position_ok(positions[0], true));
        assert(bound_ok(bounds[bound], true));
    }
}

/// A port of a single position, without a protocol, is accepted whatever
/// its numbers are: one or two bounds, each a 16-bit number.
pub proof fn lemma_single_position_port(service: Seq<char>, port: Seq<char>)
    requires
        split(port, '/').len() == 1,
        split(port, ':').len() == 1,
        split(port, '-').len() <= 2,
        forall|i: int|
            0 <= i < split(port, '-').len() ==> spec_parse_u16(#[trigger] split(port, '-')[i])
                is Some,
    ensures
        port_violation(service, port) is None,
{
    crate::text::lemma_split_whole(port, '/');
    crate::text::lemma_split_whole(port, ':');
    let positions = split(port, ':');
    assert(positions[0] == port);
    lemma_port_ok(service, port);
    assert forall|i: int| 0 <= i < positions.len() implies position_ok(
        #[trigger] positions[i],
        positions.len() == 2 && i == 0,
    ) by {
        let bounds = split(port, '-');
        assert forall|k: int| 0 <= k < bounds.len() implies bound_ok(#[trigger] bounds[k], false) by {
            assert(spec_parse_u16(bounds[k]) is Some);
        }
    }
}

/// A manifest in which a service depends on an id that names no service
/// of the manifest is rejected.
pub proof fn lemma_missing_dependency(
    file: AddonFileEntryView,
    known: Set<Seq<char>>,
    service: int,
    dependency: int,
)
    requires
        0 <= service < file.services.len(),
        file.services[service].1.depends_on is Some,
        0 <= dependency < file.services[service].1.depends_on->0.len(),
        !file.service_ids().contains(file.services[service].1.depends_on->0[dependency]),
    ensures
        manifest_violation(file, known) is Some,
{
    lemma_valid_manifest(file, known);
    if manifest_ok(file, known) {
        assert(service_ok(file.services[service].1, file.service_ids(), known));
    }
}

/// A missing dependency is reported by its id: where nothing is wrong
/// before it (not with the services before, not with the service's own
/// image, permissions and ports, not with the dependencies listed before
/// it), the manifest is rejected for that dependency, naming the service and
/// the id that no service of the manifest has.
pub proof fn lemma_missing_dependency_is_named(
    file: AddonFileEntryView,
    known: Set<Seq<char>>,
    service: int,
    dependency: int,
)
    requires
        0 <= service < file.services.len(),
        forall|k: int|
            0 <= k < service ==> service_violation(
                (#[trigger] file.services[k]).0,
                file.services[k].1,
                file.service_ids(),
                known,
            ) is None,
        service_image_violation(file.services[service].0, file.services[service].1) is None,
        service_permissions_violation(file.services[service].0, file.services[service].1, known)
            is None,
        service_ports_violation(file.services[service].0, file.services[service].1) is None,
        file.services[service].1.depends_on is Some,
        0 <= dependency < file.services[service].1.depends_on->0.len(),
        forall|j: int|
            0 <= j < dependency ==> file.service_ids().contains(
                #[trigger] file.services[service].1.depends_on->0[j],
            ),
        !file.service_ids().contains(file.services[service].1.depends_on->0[dependency]),
    ensures
        manifest_violation(file, known) == violation(
            ViolationKind::Dependency,
            file.services[service].0,
            file.services[service].1.depends_on->0[dependency],
        ),
{
    let id = file.services[service].0;
    let depends_on = file.services[service].1.depends_on->0;
    let inner = dependency_reports(id, depends_on, file.service_ids());
    assert forall|j: int| 0 <= j < dependency implies inner[j] is None by {
        assert(file.service_ids().contains(depends_on[j]));
    }
    lemma_first_some(inner, dependency);
    let reports = service_reports(file, known);
    assert forall|k: int| 0 <= k < service implies reports[k] is None by {
        assert(service_violation(
            file.services[k].0,
            file.services[k].1,
            file.service_ids(),
            known,
        ) is None);
    }
    lemma_first_some(reports, service);
}

/// A manifest that is rejected for a dependency is rejected with the id
/// that is missing: the id names no service of the manifest, and a service
/// of the manifest, the one reported, depends on it.
pub proof fn lemma_dependency_report(file: AddonFileEntryView, known: Set<Seq<char>>)
    requires
        manifest_violation(file, known) is Some,
        manifest_violation(file, known)->0.kind == ViolationKind::Dependency,
    ensures
        !file.service_ids().contains(manifest_violation(file, known)->0.token),
        exists|s: int, d: int|
            0 <= s < file.services.len() && (#[trigger] file.services[s]).0 == manifest_violation(
                file,
                known,
            )->0.service && file.services[s].1.depends_on is Some && 0 <= d
                < file.services[s].1.depends_on->0.len()
                && #[trigger] file.services[s].1.depends_on->0[d] == manifest_violation(
                file,
                known,
            )->0.token,
{
    let reports = service_reports(file, known);
    lemma_first_some_found(reports);
    let s = choose|i: int|
        0 <= i < reports.len() && #[trigger] reports[i] == first_some(reports) && forall|k: int|
            0 <= k < i ==> reports[k] is None;
    let id = file.services[s].0;
    let svc = file.services[s].1;
    let ids = file.service_ids();
    lemma_report_kinds(id, svc, ids, known);
    let deps = svc.depends_on->0;
    let inner = dependency_reports(id, deps, ids);
    lemma_first_some_found(inner);
    let d = choose|i: int|
        0 <= i < inner.len() && #[trigger] inner[i] == first_some(inner) && forall|k: int|
            0 <= k < i ==> inner[k] is None;
    assert(file.services[s].1.depends_on->0[d] == manifest_violation(file, known)->0.token);
}

/// Whether a rule is one of the rules on ports.
pub open spec fn is_port_rule(kind: ViolationKind) -> bool {
    kind == ViolationKind::PortProtocol || kind == ViolationKind::PortPositions || kind
        == ViolationKind::PortRange || kind == ViolationKind::PortNumber || kind
        == ViolationKind::PrivilegedPort
}

/// What is reported of a service names the service, and a report of a
/// missing dependency comes from the list of its dependencies.
pub proof fn lemma_report_kinds(
    id: Seq<char>,
    service: AddonServiceView,
    ids: Seq<Seq<char>>,
    known: Set<Seq<char>>,
)
    ensures
        service_violation(id, service, ids, known) matches Some(e) ==> e.service == id,
        service_violation(id, service, ids, known) matches Some(e) ==> (e.kind
            == ViolationKind::Dependency ==> service.depends_on is Some && service_violation(
            id,
            service,
            ids,
            known,
        ) == first_some(dependency_reports(id, service.depends_on->0, ids))),
{
    if let Some(permissions) = service.permissions {
        lemma_first_some_found(
            permission_reports(
                ViolationKind::MandatoryPermission,
                id,
                permissions.mandatory,
                known,
            ),
        );
        lemma_first_some_found(
            permission_reports(ViolationKind::OptionalPermission, id, permissions.optional, known),
        );
    }
    if let Some(ports) = service.ports {
        let reports = port_reports(id, ports);
        lemma_first_some_found(reports);
        assert forall|i: int| 0 <= i < ports.len() implies (#[trigger] reports[i] matches Some(e)
            ==> e.service == id && is_port_rule(e.kind)) by {
            lemma_port_report(id, ports[i]);
        }
    }
    if let Some(depends_on) = service.depends_on {
        lemma_first_some_found(dependency_reports(id, depends_on, ids));
    }
    if let Some(volumes) = service.volumes {
        lemma_first_some_found(volume_reports(id, volumes));
    }
}

/// What is reported of a port names the service and one of the rules on ports.
pub proof fn lemma_port_report(service: Seq<char>, port: Seq<char>)
    ensures
        port_violation(service, port) matches Some(e) ==> e.service == service && is_port_rule(
            e.kind,
        ),
{
    let parts = split(port, '/');
    let positions = split(parts[0], ':');
    let reports = position_reports(service, positions);
    lemma_first_some_found(reports);
    assert forall|i: int| 0 <= i < positions.len() implies (#[trigger] reports[i] matches Some(e)
        ==> e.service == service && is_port_rule(e.kind)) by {
        let host = positions.len() == 2 && i == 0;
        lemma_first_some_found(bound_reports(service, split(positions[i], '-'), host));
    }
}

/// What a message says before it names the service.
pub open spec fn message_head(kind: ViolationKind) -> Seq<char> {
    match kind {
        ViolationKind::NoServices => "No services defined"@,
        ViolationKind::RegistryAddress => "Service registry address invalid for "@,
        ViolationKind::ImageName => "Service image name invalid for "@,
        ViolationKind::MandatoryPermission => "Mandatory permission unknown for "@,
        ViolationKind::OptionalPermission => "Optional permission unknown for "@,
        ViolationKind::PortProtocol => "Ports pattern invalid. The part after / must be tcp or udp for "@,
        ViolationKind::PortPositions => "Ports pattern invalid. Maximum of two colon separated segments allowed for "@,
        ViolationKind::PortRange => "Ports pattern invalid. A range can have only two segments "@,
        ViolationKind::PortNumber => "A port must be a number! For "@,
        ViolationKind::PrivilegedPort => "You cannot map to a port below 1024. Those are for privileged services only! For "@,
        ViolationKind::Dependency => "For now you can only depend on services defined in your own addon.yml. For "@,
        ViolationKind::Volume => "There is currently only 'logvolume' supported. For "@,
    }
}

/// What a message says between the service and the text at fault.
pub open spec fn message_link(kind: ViolationKind) -> Seq<char> {
    match kind {
        ViolationKind::NoServices => ""@,
        ViolationKind::Dependency => ": Did not find '"@,
        ViolationKind::Volume => ". You requested volume: '"@,
        _ => ": "@,
    }
}

/// What a message says after the text at fault.
pub open spec fn message_tail(kind: ViolationKind) -> Seq<char> {
    match kind {
        ViolationKind::Dependency => "'!"@,
        ViolationKind::Volume => "'!"@,
        _ => ""@,
    }
}

/// The message for a report: what the rule says, with the service and
/// the text at fault in their places.
pub open spec fn message_text(e: ValidationErrorView) -> Seq<char> {
    message_head(e.kind) + e.service + message_link(e.kind) + e.token + message_tail(e.kind)
}

fn head_of(kind: ViolationKind) -> (text: &'static str)
    ensures
        text@ == message_head(kind),
{
    match kind {
        ViolationKind::NoServices => "No services defined",
        ViolationKind::RegistryAddress => "Service registry address invalid for ",
        ViolationKind::ImageName => "Service image name invalid for ",
        ViolationKind::MandatoryPermission => "Mandatory permission unknown for ",
        ViolationKind::OptionalPermission => "Optional permission unknown for ",
        ViolationKind::PortProtocol => "Ports pattern invalid. The part after / must be tcp or udp for ",
        ViolationKind::PortPositions => "Ports pattern invalid. Maximum of two colon separated segments allowed for ",
        ViolationKind::PortRange => "Ports pattern invalid. A range can have only two segments ",
        ViolationKind::PortNumber => "A port must be a number! For ",
        ViolationKind::PrivilegedPort => "You cannot map to a port below 1024. Those are for privileged services only! For ",
        ViolationKind::Dependency => "For now you can only depend on services defined in your own addon.yml. For ",
        ViolationKind::Volume => "There is currently only 'logvolume' supported. For ",
    }
}

fn link_of(kind: ViolationKind) -> (text: &'static str)
    ensures
        text@ == message_link(kind),
{
    match kind {
        ViolationKind::NoServices => "",
        ViolationKind::Dependency => ": Did not find '",
        ViolationKind::Volume => ". You requested volume: '",
        _ => ": ",
    }
}

fn tail_of(kind: ViolationKind) -> (text: &'static str)
    ensures
        text@ == message_tail(kind),
{
    match kind {
        ViolationKind::Dependency => "'!",
        ViolationKind::Volume => "'!",
        _ => "",
    }
}

impl ValidationError {
    /// The message for this report.
    pub fn message(&self) -> (text: String)
        ensures
            text@ == message_text(self.deep_view()),
    {
        let mut text = String::from_str(head_of(self.kind));
        text.append(self.service.as_str());
        text.append(link_of(self.kind));
        text.append(self.token.as_str());
        text.append(tail_of(self.kind));
        text
    }
}

} // verus!
