//! The selector between the two pipeline variants.

use vstd::prelude::*;

verus! {

/// Which of the two precompiled pipelines the next frame binds.
#[derive(Clone, Copy, Debug, PartialEq, Eq, Structural)]
pub enum ShaderInUse {
    Shader1,
    Shader2,
}

impl ShaderInUse {
    /// The other variant.
    pub open spec fn other(self) -> ShaderInUse {
        match self {
            ShaderInUse::Shader1 => ShaderInUse::Shader2,
            ShaderInUse::Shader2 => ShaderInUse::Shader1,
        }
    }

    /// Flips the selector: a total two-way match.
    pub fn toggled(self) -> (next: ShaderInUse)
        ensures
            next == self.other(),
            next != self,
    {
        match self {
            ShaderInUse::Shader1 => ShaderInUse::Shader2,
            ShaderInUse::Shader2 => ShaderInUse::Shader1,
        }
    }

    /// Toggling is cyclic with period two: one flip changes the variant, two
    /// flips restore it.
    pub proof fn lemma_other_is_involution(self)
        ensures
            self.other() != self,
            self.other().other() == self,
    {
    }
}

} // verus!
