//! The arena's vocabulary: the named surfaces a collider can be made of, and
//! the colours the yard was designed around.
//!
//! Where each wall stands is float geometry and is built beside the
//! collision code; what a wall is made of is decided here.

pub mod palette;

use vstd::prelude::*;

verus! {

/// Named materials the renderer maps to its own. The simulation says which
/// surface a wall is; it has no business knowing what a material is.
#[derive(Debug, Clone, Copy, PartialEq, Eq, Structural)]
pub enum Surface {
    Concrete,
    Steel,
    SteelDark,
    Plating,
    Rust,
    Hazard,
    Glass,
}

impl Surface {
    /// The tag a collider of this surface carries.
    pub open spec fn tag_text(self) -> Seq<char> {
        match self {
            Surface::Concrete => "concrete"@,
            Surface::Steel => "steel"@,
            Surface::SteelDark => "steel-dark"@,
            Surface::Plating => "plating"@,
            Surface::Rust => "rust"@,
            Surface::Hazard => "hazard"@,
            Surface::Glass => "glass"@,
        }
    }
}

/// The tag a collider of `surface` carries, which impacts report back.
pub fn surface_tag(surface: Surface) -> (r: &'static str)
    ensures
        r@ == surface.tag_text(),
{
    match surface {
        Surface::Concrete => "concrete",
        Surface::Steel => "steel",
        Surface::SteelDark => "steel-dark",
        Surface::Plating => "plating",
        Surface::Rust => "rust",
        Surface::Hazard => "hazard",
        Surface::Glass => "glass",
    }
}

/// No two surfaces share a tag, so an impact names the surface it hit.
pub proof fn lemma_surface_tags_are_distinct(a: Surface, b: Surface)
    ensures
        a.tag_text() == b.tag_text() ==> a == b,
{
    reveal_strlit("concrete");
    reveal_strlit("steel");
    reveal_strlit("steel-dark");
    reveal_strlit("plating");
    reveal_strlit("rust");
    reveal_strlit("hazard");
    reveal_strlit("glass");
    if a.tag_text() == b.tag_text() {
        let (x, y) = (a.tag_text(), b.tag_text());
        assert(x.len() == y.len() && x[0] == y[0]);
    }
}

} // verus!
