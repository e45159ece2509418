//! What can stop the preparation of a volume.

use vstd::prelude::*;

verus! {

/// A fault in a volume's configuration, or a device that cannot hold what
/// the volume needs. None of these mends itself between frames.
#[derive(Clone, Copy, Debug, PartialEq, Eq, Structural)]
pub enum GiError {
    /// The volume has no texels: its resolution is zero.
    ZeroResolution,
    /// The volume has no cascades.
    ZeroCascades,
    /// The device cannot hold the volume's texture: its longest edge would
    /// have `requested` texels, and the device takes `limit` at most.
    TextureTooLarge { requested: u64, limit: u32 },
    /// The device cannot hold the pipeline layout: the layout lists `needed`
    /// bind groups, and the device takes `limit` at most.
    TooManyBindGroups { needed: u32, limit: u32 },
}

impl GiError {
    /// The sentence that says what is wrong.
    pub open spec fn spec_message(self) -> Seq<char> {
        match self {
            GiError::ZeroResolution => "the radiance volume's resolution is zero"@,
            GiError::ZeroCascades => "the radiance volume has no cascades"@,
            GiError::TextureTooLarge { .. } => "the radiance volume's texture exceeds the device's limit"@,
            GiError::TooManyBindGroups { .. } => "the radiance volume's pipelines bind more groups than the device takes"@,
        }
    }

    /// The sentence that says what is wrong.
    pub fn message(&self) -> (text: String)
        ensures
            text@ == self.spec_message(),
    {
        match self {
            GiError::ZeroResolution => "the radiance volume's resolution is zero".to_owned(),
            GiError::ZeroCascades => "the radiance volume has no cascades".to_owned(),
            GiError::TextureTooLarge { .. } => "the radiance volume's texture exceeds the device's limit".to_owned(),
            GiError::TooManyBindGroups { .. } => "the radiance volume's pipelines bind more groups than the device takes".to_owned(),
        }
    }
}

} // verus!
