//! The addon manifest and the registry's records, as plain data, each with
//! its mathematical view.

use crate::dto::text_map::TextMap;
use vstd::prelude::*;
use vstd::string::*;

verus! {

/// A permission that a service may ask for.
#[derive(Debug, PartialEq, Default)]
pub struct AddonPermission {
    pub id: String,
    pub label: String,
    pub description: String,
    pub standalone: bool,
}

/// The known permissions, by permission id. The catalog is read, never changed.
pub type AddonPermissions = TextMap<AddonPermission>;

/// Usage figures of one addon.
#[derive(Debug, Clone, Copy, PartialEq, Default)]
pub struct AddonStats {
    /// Voters.
    pub v: u64,
    /// Rating points, summed.
    pub p: i64,
    /// Downloads.
    pub d: i64,
    /// Starts.
    pub s: u64,
    /// Issues.
    pub iss: u64,
    /// When the figures were last checked.
    pub t: i64,
}

/// How far an addon is still looked after.
#[derive(Debug, Clone, Copy, PartialEq, Eq, Structural)]
pub enum StatusCode {
    AVAILABLE,
    REPLACED,
    REMOVED,
    UNMAINTAINED,
}

impl Default for StatusCode {
    fn default() -> (code: Self)
        ensures
            code == StatusCode::AVAILABLE,
    {
        StatusCode::AVAILABLE
    }
}

/// The status of an addon, with an explanation in one or more languages.
#[derive(Debug, PartialEq, Default)]
pub struct Status {
    pub code: StatusCode,
    pub description: Option<String>,
    pub descriptions: Option<TextMap<String>>,
}

/// What a [`Status`] holds, as mathematical values.
pub struct StatusView {
    pub code: StatusCode,
    pub description: Option<Seq<char>>,
    pub descriptions: Option<Seq<(Seq<char>, Seq<char>)>>,
}

impl DeepView for Status {
    type V = StatusView;

    open spec fn deep_view(&self) -> StatusView {
        StatusView {
            code: self.code,
            description: self.description.deep_view(),
            descriptions: self.descriptions.deep_view(),
        }
    }
}

/// What describes and identifies an addon, in the manifest and in the registry alike.
#[derive(Debug, PartialEq, Default)]
pub struct AddonEntryCommon {
    pub title: String,
    pub titles: Option<TextMap<String>>,
    pub description: String,
    pub descriptions: Option<TextMap<String>>,
    pub authors: Vec<String>,
    pub manufacturers: Vec<String>,
    pub products: Vec<String>,
    pub homepage: Option<String>,
    pub license: String,
    pub github: Option<String>,
    pub changelog_url: Option<String>,
    pub type_field: String,
    pub id: String,
    pub version: String,
    pub status: Status,
}

/// What an [`AddonEntryCommon`] holds, as mathematical values.
pub struct AddonEntryCommonView {
    pub title: Seq<char>,
    pub titles: Option<Seq<(Seq<char>, Seq<char>)>>,
    pub description: Seq<char>,
    pub descriptions: Option<Seq<(Seq<char>, Seq<char>)>>,
    pub authors: Seq<Seq<char>>,
    pub manufacturers: Seq<Seq<char>>,
    pub products: Seq<Seq<char>>,
    pub homepage: Option<Seq<char>>,
    pub license: Seq<char>,
    pub github: Option<Seq<char>>,
    pub changelog_url: Option<Seq<char>>,
    pub type_field: Seq<char>,
    pub id: Seq<char>,
    pub version: Seq<char>,
    pub status: StatusView,
}

impl DeepView for AddonEntryCommon {
    type V = AddonEntryCommonView;

    open spec fn deep_view(&self) -> AddonEntryCommonView {
        AddonEntryCommonView {
            title: self.title@,
            titles: self.titles.deep_view(),
            description: self.description@,
            descriptions: self.descriptions.deep_view(),
            authors: self.authors.deep_view(),
            manufacturers: self.manufacturers.deep_view(),
            products: self.products.deep_view(),
            homepage: self.homepage.deep_view(),
            license: self.license@,
            github: self.github.deep_view(),
            changelog_url: self.changelog_url.deep_view(),
            type_field: self.type_field@,
            id: self.id@,
            version: self.version@,
            status: self.status.deep_view(),
        }
    }
}

/// An addon as the registry lists it.
#[derive(Debug, PartialEq, Default)]
pub struct AddonRegistryEntry {
    pub entry: AddonEntryCommon,
    pub owner: String,
    pub last_updated: i64,
}

/// The registry's catalog, by addon id.
pub type AddonEntryMap = TextMap<AddonRegistryEntry>;

/// The registry's usage figures, by addon id.
pub type AddonMapStats = TextMap<AddonStats>;

/// A directory from which a service's image is built.
#[derive(Debug, PartialEq, Default)]
pub struct BuildContext {
    pub context: String,
}

/// What a [`BuildContext`] holds, as mathematical values.
pub struct BuildContextView {
    pub context: Seq<char>,
}

impl DeepView for BuildContext {
    type V = BuildContextView;

    open spec fn deep_view(&self) -> BuildContextView {
        BuildContextView { context: self.context@ }
    }
}

impl Clone for BuildContext {
    fn clone(&self) -> (copy: Self)
        ensures
            copy.deep_view() == self.deep_view(),
    {
        BuildContext { context: self.context.clone() }
    }
}

/// The memory that an addon needs at run time.
#[derive(Debug, Clone, Copy, PartialEq, Eq, Structural, Default)]
pub struct AddonRuntimeRequirements {
    pub memory_min: i64,
    pub memory_max: i64,
}

/// The permissions that a service asks for.
#[derive(Debug, PartialEq, Default)]
pub struct Permissions {
    pub mandatory: Vec<String>,
    pub optional: Vec<String>,
}

/// What a [`Permissions`] holds, as mathematical values.
pub struct PermissionsView {
    pub mandatory: Seq<Seq<char>>,
    pub optional: Seq<Seq<char>>,
}

impl DeepView for Permissions {
    type V = PermissionsView;

    open spec fn deep_view(&self) -> PermissionsView {
        PermissionsView {
            mandatory: self.mandatory.deep_view(),
            optional: self.optional.deep_view(),
        }
    }
}

/// One service of an addon. A service with a `build` context is built
/// locally; otherwise `image` names what it runs.
#[derive(Debug, PartialEq, Default)]
pub struct AddonService {
    pub ports: Option<Vec<String>>,
    pub firewall_allow: Option<Vec<String>>,
    pub cap_add: Option<Vec<String>>,
    pub cap_drop: Option<Vec<String>>,
    pub devices: Option<Vec<String>>,
    pub pid: Option<String>,
    pub ipc: Option<String>,
    pub permissions: Option<Permissions>,
    pub image: Option<String>,
    pub build: Option<BuildContext>,
    pub depends_on: Option<Vec<String>>,
    pub volumes: Option<Vec<String>>,
}

/// What an [`AddonService`] holds, as mathematical values.
pub struct AddonServiceView {
    pub ports: Option<Seq<Seq<char>>>,
    pub firewall_allow: Option<Seq<Seq<char>>>,
    pub cap_add: Option<Seq<Seq<char>>>,
    pub cap_drop: Option<Seq<Seq<char>>>,
    pub devices: Option<Seq<Seq<char>>>,
    pub pid: Option<Seq<char>>,
    pub ipc: Option<Seq<char>>,
    pub permissions: Option<PermissionsView>,
    pub image: Option<Seq<char>>,
    pub build: Option<BuildContextView>,
    pub depends_on: Option<Seq<Seq<char>>>,
    pub volumes: Option<Seq<Seq<char>>>,
}

impl DeepView for AddonService {
    type V = AddonServiceView;

    open spec fn deep_view(&self) -> AddonServiceView {
        AddonServiceView {
            ports: self.ports.deep_view(),
            firewall_allow: self.firewall_allow.deep_view(),
            cap_add: self.cap_add.deep_view(),
            cap_drop: self.cap_drop.deep_view(),
            devices: self.devices.deep_view(),
            pid: self.pid.deep_view(),
            ipc: self.ipc.deep_view(),
            permissions: self.permissions.deep_view(),
            image: self.image.deep_view(),
            build: self.build.deep_view(),
            depends_on: self.depends_on.deep_view(),
            volumes: self.volumes.deep_view(),
        }
    }
}

/// The manifest of an addon: its services by id, what describes it, and
/// what it needs at run time.
#[derive(Debug, PartialEq, Default)]
pub struct AddonFileEntry {
    pub services: TextMap<AddonService>,
    pub x_ohx_registry: AddonEntryCommon,
    pub x_runtime: AddonRuntimeRequirements,
}

/// What an [`AddonFileEntry`] holds, as mathematical values.
pub struct AddonFileEntryView {
    pub services: Seq<(Seq<char>, AddonServiceView)>,
    pub x_ohx_registry: AddonEntryCommonView,
    pub x_runtime: AddonRuntimeRequirements,
}

impl DeepView for AddonFileEntry {
    type V = AddonFileEntryView;

    open spec fn deep_view(&self) -> AddonFileEntryView {
        AddonFileEntryView {
            services: self.services.deep_view(),
            x_ohx_registry: self.x_ohx_registry.deep_view(),
            x_runtime: self.x_runtime,
        }
    }
}

impl AddonFileEntryView {
    /// The ids of the services, in the manifest's order.
    pub open spec fn service_ids(self) -> Seq<Seq<char>> {
        Seq::new(self.services.len(), |i: int| self.services[i].0)
    }
}

/// The record that is published: the manifest with the architectures that
/// were built and the size of the images.
#[derive(Debug, PartialEq, Default)]
pub struct AddonFileEntryPlusStats {
    pub services: TextMap<AddonService>,
    pub x_ohx_registry: AddonEntryCommon,
    pub x_runtime: AddonRuntimeRequirements,
    pub archs: Vec<String>,
    pub size: i64,
}

/// What an [`AddonFileEntryPlusStats`] holds, as mathematical values.
pub struct AddonFileEntryPlusStatsView {
    pub services: Seq<(Seq<char>, AddonServiceView)>,
    pub x_ohx_registry: AddonEntryCommonView,
    pub x_runtime: AddonRuntimeRequirements,
    pub archs: Seq<Seq<char>>,
    pub size: int,
}

impl DeepView for AddonFileEntryPlusStats {
    type V = AddonFileEntryPlusStatsView;

    open spec fn deep_view(&self) -> AddonFileEntryPlusStatsView {
        AddonFileEntryPlusStatsView {
            services: self.services.deep_view(),
            x_ohx_registry: self.x_ohx_registry.deep_view(),
            x_runtime: self.x_runtime,
            archs: self.archs.deep_view(),
            size: self.size as int,
        }
    }
}

/// What the registry knows of an addon beyond its description.
#[derive(Debug, PartialEq, Default)]
pub struct AddonDetailedInfo {
    pub reviewed_by: Vec<String>,
    pub archs: Vec<String>,
    pub size: i64,
    pub runtime: AddonRuntimeRequirements,
    pub services: TextMap<AddonService>,
}

/// A copy of a list of texts.
pub fn copy_texts(texts: &Vec<String>) -> (copy: Vec<String>)
    ensures
        copy.deep_view() == texts.deep_view(),
{
    let mut copy: Vec<String> = Vec::new();
    let n = texts.len();
    let mut i: usize = 0;
    while i < n
        invariant
            i <= n,
            n == texts@.len(),
            copy@.len() == i,
            forall|k: int| 0 <= k < i ==> copy@[k]@ == texts@[k]@,
        decreases n - i,
    {
        copy.push(texts[i].clone());
        i += 1;
    }
    assert(copy.deep_view() =~= texts.deep_view());
    copy
}

/// A copy of a text that may be missing.
pub fn copy_optional_text(text: &Option<String>) -> (copy: Option<String>)
    ensures
        copy.deep_view() == text.deep_view(),
{
    match text {
        Some(t) => Some(t.clone()),
        None => None,
    }
}

/// A copy of a list of texts that may be missing.
pub fn copy_optional_texts(texts: &Option<Vec<String>>) -> (copy: Option<Vec<String>>)
    ensures
        copy.deep_view() == texts.deep_view(),
{
    match texts {
        Some(t) => Some(copy_texts(t)),
        None => None,
    }
}

/// A copy of a map of texts that may be missing.
pub fn copy_optional_map(map: &Option<TextMap<String>>) -> (copy: Option<TextMap<String>>)
    ensures
        copy.deep_view() == map.deep_view(),
{
    match map {
        Some(texts) => {
            let entries = texts.entries();
            let mut values: Vec<String> = Vec::new();
            let n = entries.len();
            let mut i: usize = 0;
            while i < n
                invariant
                    i <= n,
                    n == entries@.len(),
                    values@.len() == i,
                    forall|k: int| 0 <= k < i ==> values@[k]@ == (#[trigger] entries@[k]).1@,
                decreases n - i,
            {
                values.push(entries[i].1.clone());
                i += 1;
            }
            let copy = texts.with_values(values);
            assert forall|k: int| 0 <= k < texts@.len() implies copy.deep_view()[k]
                == texts.deep_view()[k] by {
                assert(copy@[k].1 == values@[k]);
                assert(entries@[k].1 == texts@[k].1);
            }
            assert(copy.deep_view() =~= texts.deep_view());
            Some(copy)
        },
        None => None,
    }
}

impl Clone for Status {
    fn clone(&self) -> (copy: Self)
        ensures
            copy.deep_view() == self.deep_view(),
    {
        Status {
            code: self.code,
            description: copy_optional_text(&self.description),
            descriptions: copy_optional_map(&self.descriptions),
        }
    }
}

impl Clone for AddonEntryCommon {
    fn clone(&self) -> (copy: Self)
        ensures
            copy.deep_view() == self.deep_view(),
    {
        AddonEntryCommon {
            title: self.title.clone(),
            titles: copy_optional_map(&self.titles),
            description: self.description.clone(),
            descriptions: copy_optional_map(&self.descriptions),
            authors: copy_texts(&self.authors),
            manufacturers: copy_texts(&self.manufacturers),
            products: copy_texts(&self.products),
            homepage: copy_optional_text(&self.homepage),
            license: self.license.clone(),
            github: copy_optional_text(&self.github),
            changelog_url: copy_optional_text(&self.changelog_url),
            type_field: self.type_field.clone(),
            id: self.id.clone(),
            version: self.version.clone(),
            status: self.status.clone(),
        }
    }
}

impl Clone for Permissions {
    fn clone(&self) -> (copy: Self)
        ensures
            copy.deep_view() == self.deep_view(),
    {
        Permissions {
            mandatory: copy_texts(&self.mandatory),
            optional: copy_texts(&self.optional),
        }
    }
}

impl Clone for AddonService {
    fn clone(&self) -> (copy: Self)
        ensures
            copy.deep_view() == self.deep_view(),
    {
        AddonService {
            ports: copy_optional_texts(&self.ports),
            firewall_allow: copy_optional_texts(&self.firewall_allow),
            cap_add: copy_optional_texts(&self.cap_add),
            cap_drop: copy_optional_texts(&self.cap_drop),
            devices: copy_optional_texts(&self.devices),
            pid: copy_optional_text(&self.pid),
            ipc: copy_optional_text(&self.ipc),
            permissions: match &self.permissions {
                Some(p) => Some(p.clone()),
                None => None,
            },
            image: copy_optional_text(&self.image),
            build: match &self.build {
                Some(b) => Some(b.clone()),
                None => None,
            },
            depends_on: copy_optional_texts(&self.depends_on),
            volumes: copy_optional_texts(&self.volumes),
        }
    }
}

/// A copy of the services of a manifest.
pub fn copy_services(services: &TextMap<AddonService>) -> (copy: TextMap<AddonService>)
    ensures
        copy.deep_view() == services.deep_view(),
{
    let entries = services.entries();
    let mut values: Vec<AddonService> = Vec::new();
    let n = entries.len();
    let mut i: usize = 0;
    while i < n
        invariant
            i <= n,
            n == entries@.len(),
            values@.len() == i,
            forall|k: int|
                0 <= k < i ==> values@[k].deep_view() == (#[trigger] entries@[k]).1.deep_view(),
        decreases n - i,
    {
        values.push(entries[i].1.clone());
        i += 1;
    }
    let copy = services.with_values(values);
    assert forall|k: int| 0 <= k < services@.len() implies copy.deep_view()[k]
        == services.deep_view()[k] by {
        assert(copy@[k].1 == values@[k]);
        assert(entries@[k].1 == services@[k].1);
    }
    assert(copy.deep_view() =~= services.deep_view());
    copy
}

impl Clone for AddonPermission {
    fn clone(&self) -> (copy: Self)
        ensures
            copy.id@ == self.id@,
            copy.label@ == self.label@,
            copy.description@ == self.description@,
            copy.standalone == self.standalone,
    {
        AddonPermission {
            id: self.id.clone(),
            label: self.label.clone(),
            description: self.description.clone(),
            standalone: self.standalone,
        }
    }
}

impl Clone for AddonRegistryEntry {
    fn clone(&self) -> (copy: Self)
        ensures
            copy.entry.deep_view() == self.entry.deep_view(),
            copy.owner@ == self.owner@,
            copy.last_updated == self.last_updated,
    {
        AddonRegistryEntry {
            entry: self.entry.clone(),
            owner: self.owner.clone(),
            last_updated: self.last_updated,
        }
    }
}

impl Clone for AddonFileEntry {
    fn clone(&self) -> (copy: Self)
        ensures
            copy.deep_view() == self.deep_view(),
    {
        AddonFileEntry {
            services: copy_services(&self.services),
            x_ohx_registry: self.x_ohx_registry.clone(),
            x_runtime: self.x_runtime,
        }
    }
}

impl Clone for AddonFileEntryPlusStats {
    fn clone(&self) -> (copy: Self)
        ensures
            copy.deep_view() == self.deep_view(),
    {
        AddonFileEntryPlusStats {
            services: copy_services(&self.services),
            x_ohx_registry: self.x_ohx_registry.clone(),
            x_runtime: self.x_runtime,
            archs: copy_texts(&self.archs),
            size: self.size,
        }
    }
}

impl Clone for AddonDetailedInfo {
    fn clone(&self) -> (copy: Self)
        ensures
            copy.reviewed_by.deep_view() == self.reviewed_by.deep_view(),
            copy.archs.deep_view() == self.archs.deep_view(),
            copy.size == self.size,
            copy.runtime == self.runtime,
            copy.services.deep_view() == self.services.deep_view(),
    {
        AddonDetailedInfo {
            reviewed_by: copy_texts(&self.reviewed_by),
            archs: copy_texts(&self.archs),
            size: self.size,
            runtime: self.runtime,
            services: copy_services(&self.services),
        }
    }
}

} // verus!
