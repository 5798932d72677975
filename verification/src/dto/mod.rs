//! The data that the stages hand to each other.

use vstd::prelude::*;

pub mod addons;
pub mod text_map;

verus! {

/// One image to build: a build file and the architecture it is for, with
/// what became of it.
#[derive(Debug, PartialEq, Default)]
pub struct BuildInstruction {
    pub filename: String,
    pub arch: String,
    pub image_name: String,
    pub build: bool,
    pub uploaded: bool,
    pub image_size: i64,
}

/// What a [`BuildInstruction`] holds, as mathematical values.
pub struct BuildInstructionView {
    pub filename: Seq<char>,
    pub arch: Seq<char>,
    pub image_name: Seq<char>,
    pub build: bool,
    pub uploaded: bool,
    pub image_size: int,
}

impl DeepView for BuildInstruction {
    type V = BuildInstructionView;

    open spec fn deep_view(&self) -> BuildInstructionView {
        BuildInstructionView {
            filename: self.filename@,
            arch: self.arch@,
            image_name: self.image_name@,
            build: self.build,
            uploaded: self.uploaded,
            image_size: self.image_size as int,
        }
    }
}

impl Clone for BuildInstruction {
    fn clone(&self) -> (copy: Self)
        ensures
            copy.deep_view() == self.deep_view(),
    {
        BuildInstruction {
            filename: self.filename.clone(),
            arch: self.arch.clone(),
            image_name: self.image_name.clone(),
            build: self.build,
            uploaded: self.uploaded,
            image_size: self.image_size,
        }
    }
}

} // verus!
