//! The registry: a local copy of its catalog that is good for a while, and
//! the record that publishes an addon to it.

use crate::dto::addons::{
    AddonFileEntry, AddonFileEntryPlusStats, AddonFileEntryPlusStatsView, AddonFileEntryView,
    AddonService, AddonServiceView,
};
use crate::dto::{BuildInstruction, BuildInstructionView};
use crate::targets::{published_image, published_image_for};
use vstd::prelude::*;
use vstd::string::*;

verus! {

/// Where the catalog is read from.
pub const REGISTRY_DATA_URL: &'static str = "https://raw.githubusercontent.com/openhab-nodes/addons-registry/master/extensions.json";

/// Where the usage figures are read from.
pub const REGISTRY_METADATA_URL: &'static str = "https://raw.githubusercontent.com/openhab-nodes/addons-registry/master/extensions_stats.json";

/// Where an addon is published to.
pub const PUBLISH_ENDPOINT: &'static str = "https://registry.openhabx.com/addon";

/// The age in seconds from which on the local copy of the catalog is stale.
pub const FRESHNESS_WINDOW: u64 = 500;

/// The status with which the registry accepts a record.
pub const ACCEPTED: u16 = 200;

/// Whether a local copy of this age is still good. No age means that
/// there is no copy, or that its age cannot be told.
pub open spec fn is_fresh(age: Option<u64>) -> bool {
    match age {
        Some(seconds) => seconds < FRESHNESS_WINDOW,
        None => false,
    }
}

/// Whether a local copy of this age is still good.
pub fn cache_is_fresh(age: Option<u64>) -> (fresh: bool)
    ensures
        fresh == is_fresh(age),
{
    match age {
        Some(seconds) => seconds < FRESHNESS_WINDOW,
        None => false,
    }
}

/// Where the lookup of the catalog stands. `T` is the catalog.
#[derive(Debug, PartialEq)]
pub enum CacheState<T> {
    /// Nothing is known yet: the age of the local copy is to be told.
    Unchecked,
    /// The local copy is fresh: it is to be read.
    Reading,
    /// There is no good local copy: the catalog is to be fetched.
    Fetching,
    /// The catalog was fetched: the local copy is to be overwritten with it.
    Writing { snapshot: T },
    /// The catalog is at hand.
    Ready { snapshot: T },
    /// The catalog could not be fetched.
    Failed,
}

/// What the caller reports back.
#[derive(Debug, PartialEq)]
pub enum CacheEvent<T> {
    /// The age of the local copy in seconds, if there is a copy and its
    /// age can be told.
    Age { seconds: Option<u64> },
    /// The local copy was read: the catalog in it, if it could be read.
    Cached { snapshot: Option<T> },
    /// The registry was asked: the catalog, if it answered with one.
    Fetched { snapshot: Option<T> },
    /// The local copy was overwritten.
    Written,
}

/// What the caller is to do next.
#[derive(Debug, Clone, Copy, PartialEq, Eq, Structural)]
pub enum CacheAction {
    /// Tell the age of the local copy and report `Age`.
    CheckAge,
    /// Read the local copy and report `Cached`.
    ReadCache,
    /// Fetch the catalog from the registry and report `Fetched`.
    Fetch,
    /// Overwrite the local copy with the catalog and report `Written`.
    WriteCache,
    /// Use the catalog.
    Finish,
    /// Give up.
    Abort,
}

/// The state that follows `state` when `event` is reported. An event that
/// the state was not waiting for changes nothing.
pub open spec fn cache_step<T>(state: CacheState<T>, event: CacheEvent<T>) -> CacheState<T> {
    match state {
        CacheState::Unchecked => match event {
            CacheEvent::Age { seconds } => if is_fresh(seconds) {
                CacheState::Reading
            } else {
                CacheState::Fetching
            },
            _ => state,
        },
        CacheState::Reading => match event {
            CacheEvent::Cached { snapshot: Some(snapshot) } => CacheState::Ready { snapshot },
            CacheEvent::Cached { snapshot: None } => CacheState::Fetching,
            _ => state,
        },
        CacheState::Fetching => match event {
            CacheEvent::Fetched { snapshot: Some(snapshot) } => CacheState::Writing { snapshot },
            CacheEvent::Fetched { snapshot: None } => CacheState::Failed,
            _ => state,
        },
        CacheState::Writing { snapshot } => match event {
            CacheEvent::Written => CacheState::Ready { snapshot },
            _ => state,
        },
        CacheState::Ready { snapshot } => state,
        CacheState::Failed => state,
    }
}

/// What the caller is to do in a state.
pub open spec fn cache_action<T>(state: CacheState<T>) -> CacheAction {
    match state {
        CacheState::Unchecked => CacheAction::CheckAge,
        CacheState::Reading => CacheAction::ReadCache,
        CacheState::Fetching => CacheAction::Fetch,
        CacheState::Writing { snapshot } => CacheAction::WriteCache,
        CacheState::Ready { snapshot } => CacheAction::Finish,
        CacheState::Failed => CacheAction::Abort,
    }
}

impl<T> CacheState<T> {
    /// The state that follows when `event` is reported.
    pub fn advance(self, event: CacheEvent<T>) -> (next: CacheState<T>)
        ensures
            next == cache_step(self, event),
    {
        match self {
            CacheState::Unchecked => match event {
                CacheEvent::Age { seconds } => {
                    if cache_is_fresh(seconds) {
                        CacheState::Reading
                    } else {
                        CacheState::Fetching
                    }
                },
                _ => CacheState::Unchecked,
            },
            CacheState::Reading => match event {
                CacheEvent::Cached { snapshot: Some(snapshot) } => CacheState::Ready { snapshot },
                CacheEvent::Cached { snapshot: None } => CacheState::Fetching,
                _ => CacheState::Reading,
            },
            CacheState::Fetching => match event {
                CacheEvent::Fetched { snapshot: Some(snapshot) } => CacheState::Writing {
                    snapshot,
                },
                CacheEvent::Fetched { snapshot: None } => CacheState::Failed,
                _ => CacheState::Fetching,
            },
            CacheState::Writing { snapshot } => match event {
                CacheEvent::Written => CacheState::Ready { snapshot },
                _ => CacheState::Writing { snapshot },
            },
            CacheState::Ready { snapshot } => CacheState::Ready { snapshot },
            CacheState::Failed => CacheState::Failed,
        }
    }

    /// What the caller is to do next.
    pub fn next_action(&self) -> (action: CacheAction)
        ensures
            action == cache_action(*self),
    {
        match self {
            CacheState::Unchecked => CacheAction::CheckAge,
            CacheState::Reading => CacheAction::ReadCache,
            CacheState::Fetching => CacheAction::Fetch,
            CacheState::Writing { snapshot } => CacheAction::WriteCache,
            CacheState::Ready { snapshot } => CacheAction::Finish,
            CacheState::Failed => CacheAction::Abort,
        }
    }

    /// The catalog that is to be written or used, if the state holds one.
    pub fn snapshot(&self) -> (snapshot: Option<&T>)
        ensures
            match *self {
                CacheState::Writing { snapshot: held } => snapshot == Some(&held),
                CacheState::Ready { snapshot: held } => snapshot == Some(&held),
                _ => snapshot is None,
            },
    {
        match self {
            CacheState::Writing { snapshot } => Some(snapshot),
            CacheState::Ready { snapshot } => Some(snapshot),
            _ => None,
        }
    }

    /// The catalog, where it is at hand.
    pub fn into_snapshot(self) -> (snapshot: Option<T>)
        ensures
            match self {
                CacheState::Ready { snapshot: held } => snapshot == Some(held),
                _ => snapshot is None,
            },
    {
        match self {
            CacheState::Ready { snapshot } => Some(snapshot),
            _ => None,
        }
    }
}

/// A local copy that is under 500 seconds old and can be read is used as
/// it is: the registry is not asked, and nothing is written.
pub proof fn lemma_fresh_copy_is_used<T>(seconds: u64, snapshot: T)
    requires
        seconds < FRESHNESS_WINDOW,
    ensures
        cache_step(CacheState::<T>::Unchecked, CacheEvent::Age { seconds: Some(seconds) })
            == CacheState::<T>::Reading,
        cache_action(CacheState::<T>::Reading) == CacheAction::ReadCache,
        cache_step(CacheState::Reading, CacheEvent::Cached { snapshot: Some(snapshot) }) == (
        CacheState::Ready { snapshot }),
{
}

/// A local copy that is missing, stale or unreadable makes the catalog
/// be fetched; what is fetched overwrites the local copy before it is used.
pub proof fn lemma_stale_copy_is_replaced<T>(age: Option<u64>, snapshot: T)
    ensures
        !is_fresh(age) ==> cache_step(CacheState::<T>::Unchecked, CacheEvent::Age { seconds: age })
            == CacheState::<T>::Fetching,
        cache_step(CacheState::<T>::Reading, CacheEvent::Cached { snapshot: None })
            == CacheState::<T>::Fetching,
        cache_action(CacheState::<T>::Fetching) == CacheAction::Fetch,
        cache_step(CacheState::Fetching, CacheEvent::Fetched { snapshot: Some(snapshot) }) == (
        CacheState::Writing { snapshot }),
        cache_action(CacheState::Writing { snapshot }) == CacheAction::WriteCache,
        cache_step(CacheState::Writing { snapshot }, CacheEvent::Written) == (CacheState::Ready {
            snapshot,
        }),
        cache_step(CacheState::<T>::Fetching, CacheEvent::Fetched { snapshot: None })
            == CacheState::<T>::Failed,
{
}

/// The catalog comes to hand in two ways only: read from a fresh local
/// copy, or fetched and written to the local copy.
pub proof fn lemma_catalog_origin<T>(state: CacheState<T>, event: CacheEvent<T>)
    requires
        !(state is Ready),
        cache_step(state, event) is Ready,
    ensures
        state is Reading || state is Writing,
        state is Reading ==> event == (CacheEvent::Cached {
            snapshot: Some(cache_step(state, event)->Ready_snapshot),
        }),
        state is Writing ==> event == CacheEvent::<T>::Written && state->Writing_snapshot
            == cache_step(state, event)->Ready_snapshot,
{
}

/// Whether the registry accepted a record, by the status of its answer.
pub fn accepted(status: u16) -> (ok: bool)
    ensures
        ok == (status == ACCEPTED),
{
    status == ACCEPTED
}

/// A service as it is published: one that is built locally names the
/// published image in place of its build context; any other stays as it is.
pub open spec fn published_service(service: AddonServiceView, image: Seq<char>) -> AddonServiceView {
    if service.build is Some {
        AddonServiceView { build: None, image: Some(image), ..service }
    } else {
        service
    }
}

/// The services as they are published, under their ids.
pub open spec fn published_services(
    services: Seq<(Seq<char>, AddonServiceView)>,
    image: Seq<char>,
) -> Seq<(Seq<char>, AddonServiceView)> {
    Seq::new(services.len(), |i: int| (services[i].0, published_service(services[i].1, image)))
}

/// The architectures of the targets, built or not, in their order.
pub open spec fn architectures(targets: Seq<BuildInstructionView>) -> Seq<Seq<char>> {
    Seq::new(targets.len(), |i: int| targets[i].arch)
}

/// The sizes of the images of the targets, added up.
pub open spec fn total_size(targets: Seq<BuildInstructionView>) -> int
    decreases targets.len(),
{
    if targets.len() == 0 {
        0
    } else {
        total_size(targets.drop_last()) + targets.last().image_size
    }
}

/// The quotient of `a` by a positive `b`, rounded towards zero.
pub open spec fn truncated_quotient(a: int, b: int) -> int {
    if a >= 0 {
        a / b
    } else {
        -((-a) / b)
    }
}

/// The mean of the sizes of the images of all targets, rounded towards
/// zero. A target without an image counts with the size it has, 0 where
/// nothing was recorded.
pub open spec fn mean_size(targets: Seq<BuildInstructionView>) -> int {
    truncated_quotient(total_size(targets), targets.len() as int)
}

/// The record that publishes an addon: its manifest as it is, but for the
/// services that are built locally, with the architectures of all targets
/// and the mean size of their images.
pub open spec fn publish_view(
    file: AddonFileEntryView,
    targets: Seq<BuildInstructionView>,
) -> AddonFileEntryPlusStatsView {
    AddonFileEntryPlusStatsView {
        services: published_services(
            file.services,
            published_image(file.x_ohx_registry.id, file.x_ohx_registry.version),
        ),
        x_ohx_registry: file.x_ohx_registry,
        x_runtime: file.x_runtime,
        archs: architectures(targets),
        size: mean_size(targets),
    }
}

/// The mean of numbers that fit 64 bits fits 64 bits.
pub proof fn lemma_mean_fits(total: int, count: int)
    requires
        count > 0,
        count * i64::MIN <= total <= count * i64::MAX,
    ensures
        i64::MIN <= truncated_quotient(total, count) <= i64::MAX,
{
    let least = i64::MIN as int;
    let most = i64::MAX as int;
    if total >= 0 {
        assert(total / count <= most) by (nonlinear_arith)
            requires
                count > 0,
                0 <= total <= count * most,
                most >= 0,
        ;
        assert(total / count >= 0) by (nonlinear_arith)
            requires
                count > 0,
                0 <= total,
        ;
    } else {
        let positive = -total;
        let bound = -least;
        assert(positive / count <= bound) by (nonlinear_arith)
            requires
                count > 0,
                0 <= positive <= count * bound,
                bound >= 0,
        ;
        assert(positive / count >= 0) by (nonlinear_arith)
            requires
                count > 0,
                0 <= positive,
        ;
    }
}

/// The mean of the sizes of the images of all targets, rounded towards zero.
pub fn mean_image_size(targets: &Vec<BuildInstruction>) -> (mean: i64)
    requires
        targets@.len() > 0,
    ensures
        mean == mean_size(targets.deep_view()),
{
    let ghost views = targets.deep_view();
    let n = targets.len();
    let mut total: i128 = 0;
    let mut i: usize = 0;
    assert(views.take(0) =~= Seq::empty());
    while i < n
        invariant
            i <= n,
            n == targets@.len(),
            views == targets.deep_view(),
            total == total_size(views.take(i as int)),
            i * i64::MIN <= total <= i * i64::MAX,
        decreases n - i,
    {
        proof {
            assert(views.take(i + 1).drop_last() =~= views.take(i as int));
            assert(views.take(i + 1).last() == views[i as int]);
        }
        total = total + targets[i].image_size as i128;
        i += 1;
    }
    proof {
        assert(views.take(n as int) =~= views);
        lemma_mean_fits(total as int, n as int);
    }
    let mean: i128 = total / (n as i128);
    mean as i64
}

/// The architectures of the targets, built or not, in their order.
pub fn list_architectures(targets: &Vec<BuildInstruction>) -> (archs: Vec<String>)
    ensures
        archs.deep_view() == architectures(targets.deep_view()),
{
    let mut archs: Vec<String> = Vec::new();
    let n = targets.len();
    let mut i: usize = 0;
    while i < n
        invariant
            i <= n,
            n == targets@.len(),
            archs@.len() == i,
            forall|k: int| 0 <= k < i ==> archs@[k]@ == targets@[k].arch@,
        decreases n - i,
    {
        archs.push(targets[i].arch.clone());
        i += 1;
    }
    assert(archs.deep_view() =~= architectures(targets.deep_view()));
    archs
}

/// A service as it is published under the image `image`.
pub fn publish_service(service: &AddonService, image: &str) -> (published: AddonService)
    ensures
        published.deep_view() == published_service(service.deep_view(), image@),
{
    let mut published = service.clone();
    if published.build.is_some() {
        published.build = None;
        published.image = Some(String::from_str(image));
    }
    published
}

/// Puts together the record that publishes an addon.
pub fn publish_record(input_file: &AddonFileEntry, build_instructions: &Vec<BuildInstruction>) -> (record:
    AddonFileEntryPlusStats)
    requires
        build_instructions@.len() > 0,
    ensures
        record.deep_view() == publish_view(
            input_file.deep_view(),
            build_instructions.deep_view(),
        ),
{
    let image = published_image_for(
        input_file.x_ohx_registry.id.as_str(),
        input_file.x_ohx_registry.version.as_str(),
    );
    let entries = input_file.services.entries();
    let mut published: Vec<AddonService> = Vec::new();
    let n = entries.len();
    let mut i: usize = 0;
    while i < n
        invariant
            i <= n,
            n == entries@.len(),
            published@.len() == i,
            forall|k: int|
                0 <= k < i ==> (#[trigger] published@[k]).deep_view() == published_service(
                    entries@[k].1.deep_view(),
                    image@,
                ),
        decreases n - i,
    {
        published.push(publish_service(&entries[i].1, image.as_str()));
        i += 1;
    }
    let services = input_file.services.with_values(published);
    assert(services.deep_view() =~= published_services(
        input_file.deep_view().services,
        image@,
    ));
    AddonFileEntryPlusStats {
        services,
        x_ohx_registry: input_file.x_ohx_registry.clone(),
        x_runtime: input_file.x_runtime,
        archs: list_architectures(build_instructions),
        size: mean_image_size(build_instructions),
    }
}

/// Puts together the record that publishes an addon, where there is a
/// target to publish; without any target there is no record.
pub fn try_publish_record(
    input_file: &AddonFileEntry,
    build_instructions: &Vec<BuildInstruction>,
) -> (record: Option<AddonFileEntryPlusStats>)
    ensures
        record is Some <==> build_instructions@.len() > 0,
        record matches Some(r) ==> r.deep_view() == publish_view(
            input_file.deep_view(),
            build_instructions.deep_view(),
        ),
{
    if build_instructions.len() > 0 {
        Some(publish_record(input_file, build_instructions))
    } else {
        None
    }
}

/// No build context is published: every service of the record is without
/// one, and a service that had one names the published image.
pub proof fn lemma_no_build_context_is_published(
    file: AddonFileEntryView,
    targets: Seq<BuildInstructionView>,
)
    ensures
        publish_view(file, targets).services.len() == file.services.len(),
        forall|i: int|
            0 <= i < file.services.len() ==> {
                let published = #[trigger] publish_view(file, targets).services[i];
                &&& published.0 == file.services[i].0
                &&& published.1.build is None
                &&& file.services[i].1.build is Some ==> published.1.image == Some(
                    published_image(file.x_ohx_registry.id, file.x_ohx_registry.version),
                )
                &&& file.services[i].1.build is None ==> published.1 == file.services[i].1
            },
{
}

/// Every target is listed with its architecture, built or not, and every
/// target counts for the size, with whatever size it has.
pub proof fn lemma_every_target_is_published(
    file: AddonFileEntryView,
    targets: Seq<BuildInstructionView>,
)
    ensures
        publish_view(file, targets).archs.len() == targets.len(),
        forall|i: int|
            0 <= i < targets.len() ==> #[trigger] publish_view(file, targets).archs[i]
                == targets[i].arch,
        publish_view(file, targets).size == truncated_quotient(
            total_size(targets),
            targets.len() as int,
        ),
{
}

} // verus!
