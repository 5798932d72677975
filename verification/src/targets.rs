//! Finding what to build: one image for each build file of a supported
//! architecture.

use crate::dto::{BuildInstruction, BuildInstructionView};
use crate::text::{chars_of, piece, starts_with, text_eq};
use vstd::prelude::*;
use vstd::string::*;

verus! {

/// The name of a build file. A file of this very name is for the default
/// architecture; with anything appended, it is for the architecture named
/// after the first appended character.
pub const BUILD_FILE: &'static str = "Dockerfile";

/// The architecture of a build file that names none.
pub const DEFAULT_ARCHITECTURE: &'static str = "amd64";

/// Where the images are kept.
pub const IMAGE_NAMESPACE: &'static str = "docker.io/openhabx/";

/// Whether images can be built for an architecture.
pub open spec fn is_allowed_architecture(arch: Seq<char>) -> bool {
    arch == "aarch64"@ || arch == "armhf"@ || arch == "i386"@ || arch == "amd64"@
}

/// Whether images can be built for an architecture.
pub fn allowed_architecture(arch: &str) -> (allowed: bool)
    ensures
        allowed == is_allowed_architecture(arch@),
{
    text_eq(arch, "aarch64") || text_eq(arch, "armhf") || text_eq(arch, "i386") || text_eq(
        arch,
        "amd64",
    )
}

/// The architecture that a file is a build file for, or `None` where it
/// is no build file.
pub open spec fn architecture_of(filename: Seq<char>) -> Option<Seq<char>> {
    if !BUILD_FILE@.is_prefix_of(filename) {
        None
    } else if filename == BUILD_FILE@ {
        Some(DEFAULT_ARCHITECTURE@)
    } else {
        Some(filename.skip(BUILD_FILE@.len() + 1 as int))
    }
}

/// The name of the image of an addon for an architecture.
pub open spec fn image_name(id: Seq<char>, arch: Seq<char>, version: Seq<char>) -> Seq<char> {
    IMAGE_NAMESPACE@ + id + "_"@ + arch + ":"@ + version
}

/// The name under which an addon is published, whatever the architecture.
pub open spec fn published_image(id: Seq<char>, version: Seq<char>) -> Seq<char> {
    IMAGE_NAMESPACE@ + id + ":"@ + version
}

/// A target that nothing has been done for yet.
pub open spec fn fresh_target(
    filename: Seq<char>,
    arch: Seq<char>,
    id: Seq<char>,
    version: Seq<char>,
) -> BuildInstructionView {
    BuildInstructionView {
        filename,
        arch,
        image_name: image_name(id, arch, version),
        build: false,
        uploaded: false,
        image_size: 0,
    }
}

/// What a file of the manifest's directory is.
#[derive(Debug, PartialEq)]
pub enum BuildFile {
    /// No build file.
    Other,
    /// A build file for an architecture that is not supported.
    Unsupported { arch: String },
    /// A build file for a supported architecture, with what to build from it.
    Target { instruction: BuildInstruction },
}

/// What a [`BuildFile`] holds, as mathematical values.
pub enum BuildFileView {
    Other,
    Unsupported { arch: Seq<char> },
    Target { instruction: BuildInstructionView },
}

impl DeepView for BuildFile {
    type V = BuildFileView;

    open spec fn deep_view(&self) -> BuildFileView {
        match self {
            BuildFile::Other => BuildFileView::Other,
            BuildFile::Unsupported { arch } => BuildFileView::Unsupported { arch: arch@ },
            BuildFile::Target { instruction } => BuildFileView::Target {
                instruction: instruction.deep_view(),
            },
        }
    }
}

/// What the file `filename` is, for the addon `id` in version `version`.
pub open spec fn classify(filename: Seq<char>, id: Seq<char>, version: Seq<char>) -> BuildFileView {
    match architecture_of(filename) {
        None => BuildFileView::Other,
        Some(arch) => if is_allowed_architecture(arch) {
            BuildFileView::Target { instruction: fresh_target(filename, arch, id, version) }
        } else {
            BuildFileView::Unsupported { arch }
        },
    }
}

/// The targets among `filenames`, in their order.
pub open spec fn discovered(filenames: Seq<Seq<char>>, id: Seq<char>, version: Seq<char>) -> Seq<
    BuildInstructionView,
>
    decreases filenames.len(),
{
    if filenames.len() == 0 {
        Seq::empty()
    } else {
        let before = discovered(filenames.drop_last(), id, version);
        match classify(filenames.last(), id, version) {
            BuildFileView::Target { instruction } => before.push(instruction),
            _ => before,
        }
    }
}

/// The name of the image of an addon for an architecture.
pub fn image_name_for(id: &str, arch: &str, version: &str) -> (name: String)
    ensures
        name@ == image_name(id@, arch@, version@),
{
    let mut name = String::from_str(IMAGE_NAMESPACE);
    name.append(id);
    name.append("_");
    name.append(arch);
    name.append(":");
    name.append(version);
    name
}

/// The name under which an addon is published.
pub fn published_image_for(id: &str, version: &str) -> (name: String)
    ensures
        name@ == published_image(id@, version@),
{
    let mut name = String::from_str(IMAGE_NAMESPACE);
    name.append(id);
    name.append(":");
    name.append(version);
    name
}

/// Says what the file `filename` is, for the addon `id` in version `version`.
pub fn classify_build_file(filename: &str, id: &str, version: &str) -> (kind: BuildFile)
    ensures
        kind.deep_view() == classify(filename@, id@, version@),
{
    if !starts_with(filename, BUILD_FILE) {
        return BuildFile::Other;
    }
    let length = chars_of(filename).len();
    let plain = chars_of(BUILD_FILE).len();
    let arch = if length == plain {
        assert(filename@ =~= BUILD_FILE@);
        String::from_str(DEFAULT_ARCHITECTURE)
    } else {
        piece(filename, plain + 1, length)
    };
    if allowed_architecture(arch.as_str()) {
        let image_name = image_name_for(id, arch.as_str(), version);
        BuildFile::Target {
            instruction: BuildInstruction {
                filename: String::from_str(filename),
                arch,
                image_name,
                build: false,
                uploaded: false,
                image_size: 0,
            },
        }
    } else {
        BuildFile::Unsupported { arch }
    }
}

/// Picks the targets among `filenames`, in their order.
pub fn discover_targets(filenames: &Vec<String>, id: &str, version: &str) -> (targets: Vec<
    BuildInstruction,
>)
    ensures
        targets.deep_view() == discovered(filenames.deep_view(), id@, version@),
{
    let mut targets: Vec<BuildInstruction> = Vec::new();
    let n = filenames.len();
    let mut i: usize = 0;
    assert(filenames.deep_view().take(0) =~= Seq::empty());
    assert(targets.deep_view() =~= Seq::empty());
    while i < n
        invariant
            i <= n,
            n == filenames@.len(),
            targets.deep_view() == discovered(filenames.deep_view().take(i as int), id@, version@),
        decreases n - i,
    {
        let ghost before = targets.deep_view();
        let ghost names = filenames.deep_view();
        proof {
            assert(names.take(i + 1).drop_last() =~= names.take(i as int));
            assert(names.take(i + 1).last() == filenames@[i as int]@);
        }
        match classify_build_file(filenames[i].as_str(), id, version) {
            BuildFile::Target { instruction } => {
                targets.push(instruction);
                assert(targets.deep_view() =~= before.push(instruction.deep_view()));
            },
            _ => {},
        }
        i += 1;
    }
    assert(filenames.deep_view().take(n as int) =~= filenames.deep_view());
    targets
}

/// Every target that is found is fresh: not built, not uploaded, of size 0,
/// and for a supported architecture.
pub proof fn lemma_discovered_fresh(filenames: Seq<Seq<char>>, id: Seq<char>, version: Seq<char>)
    ensures
        forall|i: int|
            0 <= i < discovered(filenames, id, version).len() ==> {
                let t = #[trigger] discovered(filenames, id, version)[i];
                &&& !t.build
                &&& !t.uploaded
                &&& t.image_size == 0
                &&& is_allowed_architecture(t.arch)
                &&& t.image_name == image_name(id, t.arch, version)
            },
    decreases filenames.len(),
{
    if filenames.len() > 0 {
        let before = discovered(filenames.drop_last(), id, version);
        let all = discovered(filenames, id, version);
        lemma_discovered_fresh(filenames.drop_last(), id, version);
        assert forall|i: int| 0 <= i < all.len() implies {
            let t = #[trigger] all[i];
            &&& !t.build
            &&& !t.uploaded
            &&& t.image_size == 0
            &&& is_allowed_architecture(t.arch)
            &&& t.image_name == image_name(id, t.arch, version)
        } by {
            if i < before.len() {
                assert(all[i] == before[i]);
            }
        }
    }
}

} // verus!
