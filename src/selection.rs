//! Which of flooring, mortar and grout an estimate computes. Mortar and grout
//! never go together, and at least one of the three is always chosen.

use vstd::prelude::*;

verus! {

/// One of the three things a flooring estimate can compute.
#[derive(Clone, Copy, Debug, PartialEq, Eq, Structural)]
pub enum Material {
    Flooring,
    Mortar,
    Grout,
}

/// The allowed choices.
#[derive(Clone, Copy, Debug, PartialEq, Eq, Structural)]
pub enum Selection {
    Flooring,
    Mortar,
    Grout,
    FlooringMortar,
    FlooringGrout,
}

/// Flags (flooring, mortar, grout) that hold one or two choices, and never
/// mortar with grout.
pub open spec fn valid_flags(f: (bool, bool, bool)) -> bool {
    let n = (if f.0 { 1int } else { 0 }) + (if f.1 { 1int } else { 0 }) + (if f.2 { 1int } else { 0 });
    &&& 1 <= n <= 2
    &&& !(f.1 && f.2)
}

impl Selection {
    /// The choice as flags (flooring, mortar, grout).
    pub open spec fn flags(self) -> (bool, bool, bool) {
        match self {
            Selection::Flooring => (true, false, false),
            Selection::Mortar => (false, true, false),
            Selection::Grout => (false, false, true),
            Selection::FlooringMortar => (true, true, false),
            Selection::FlooringGrout => (true, false, true),
        }
    }

    pub fn flooring(&self) -> (r: bool)
        ensures
            r == self.flags().0,
    {
        matches!(self, Selection::Flooring | Selection::FlooringMortar | Selection::FlooringGrout)
    }

    pub fn mortar(&self) -> (r: bool)
        ensures
            r == self.flags().1,
    {
        matches!(self, Selection::Mortar | Selection::FlooringMortar)
    }

    pub fn grout(&self) -> (r: bool)
        ensures
            r == self.flags().2,
    {
        matches!(self, Selection::Grout | Selection::FlooringGrout)
    }

    /// The choice after the box of `m` is clicked. Turning on a third
    /// choice, or mortar beside grout, drops the one that clashes; turning
    /// off the last choice leaves flooring on.
    pub open spec fn toggle_spec(self, m: Material) -> Selection {
        match (self, m) {
            (Selection::Flooring, Material::Flooring) => Selection::Flooring,
            (Selection::Flooring, Material::Mortar) => Selection::FlooringMortar,
            (Selection::Flooring, Material::Grout) => Selection::FlooringGrout,
            (Selection::Mortar, Material::Flooring) => Selection::FlooringMortar,
            (Selection::Mortar, Material::Mortar) => Selection::Flooring,
            (Selection::Mortar, Material::Grout) => Selection::Grout,
            (Selection::Grout, Material::Flooring) => Selection::FlooringGrout,
            (Selection::Grout, Material::Mortar) => Selection::Mortar,
            (Selection::Grout, Material::Grout) => Selection::Flooring,
            (Selection::FlooringMortar, Material::Flooring) => Selection::Mortar,
            (Selection::FlooringMortar, Material::Mortar) => Selection::Flooring,
            (Selection::FlooringMortar, Material::Grout) => Selection::FlooringGrout,
            (Selection::FlooringGrout, Material::Flooring) => Selection::Grout,
            (Selection::FlooringGrout, Material::Mortar) => Selection::FlooringMortar,
            (Selection::FlooringGrout, Material::Grout) => Selection::Flooring,
        }
    }

    pub fn toggle(self, m: Material) -> (r: Selection)
        ensures
            r == self.toggle_spec(m),
            valid_flags(r.flags()),
    {
        match (self, m) {
            (Selection::Flooring, Material::Flooring) => Selection::Flooring,
            (Selection::Flooring, Material::Mortar) => Selection::FlooringMortar,
            (Selection::Flooring, Material::Grout) => Selection::FlooringGrout,
            (Selection::Mortar, Material::Flooring) => Selection::FlooringMortar,
            (Selection::Mortar, Material::Mortar) => Selection::Flooring,
            (Selection::Mortar, Material::Grout) => Selection::Grout,
            (Selection::Grout, Material::Flooring) => Selection::FlooringGrout,
            (Selection::Grout, Material::Mortar) => Selection::Mortar,
            (Selection::Grout, Material::Grout) => Selection::Flooring,
            (Selection::FlooringMortar, Material::Flooring) => Selection::Mortar,
            (Selection::FlooringMortar, Material::Mortar) => Selection::Flooring,
            (Selection::FlooringMortar, Material::Grout) => Selection::FlooringGrout,
            (Selection::FlooringGrout, Material::Flooring) => Selection::Grout,
            (Selection::FlooringGrout, Material::Mortar) => Selection::FlooringMortar,
            (Selection::FlooringGrout, Material::Grout) => Selection::Flooring,
        }
    }
}

/// The choice after clicking the boxes of `ms` in turn.
pub open spec fn toggle_all(s: Selection, ms: Seq<Material>) -> Selection
    decreases ms.len(),
{
    if ms.len() == 0 {
        s
    } else {
        toggle_all(s, ms.drop_last()).toggle_spec(ms.last())
    }
}

/// After any sequence of clicks, one or two of flooring, mortar and grout
/// are chosen, and never mortar together with grout.
pub proof fn lemma_toggles_keep_selection_valid(s: Selection, ms: Seq<Material>)
    ensures
        valid_flags(toggle_all(s, ms).flags()),
    decreases ms.len(),
{
    if ms.len() > 0 {
        lemma_toggles_keep_selection_valid(s, ms.drop_last());
    }
}

/// Turning on flooring, mortar or grout where it is off leaves it on.
pub proof fn lemma_toggle_turns_on(s: Selection, m: Material)
    ensures
        m == Material::Flooring && !s.flags().0 ==> s.toggle_spec(m).flags().0,
        m == Material::Mortar && !s.flags().1 ==> s.toggle_spec(m).flags().1,
        m == Material::Grout && !s.flags().2 ==> s.toggle_spec(m).flags().2,
{
}

} // verus!
