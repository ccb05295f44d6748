//! Saved defaults for the mortar factor and the grout coefficient.

use vstd::prelude::*;

verus! {

/// How mortar is spread: on the floor only, or on floor and tile.
#[derive(Clone, Copy, Debug, PartialEq, Eq, Structural)]
pub enum ApplicationMethod {
    SingleSided,
    DoubleSided,
}

/// Saved defaults, as text. An empty text stands for the built-in default.
#[derive(Clone, Debug)]
pub struct Settings {
    pub single_sided_factor: String,
    pub double_sided_factor: String,
    pub grout_coefficient: String,
}

pub open spec fn or_default(s: Seq<char>, d: Seq<char>) -> Seq<char> {
    if s.len() == 0 {
        d
    } else {
        s
    }
}

pub open spec fn default_factor(m: ApplicationMethod) -> Seq<char> {
    match m {
        ApplicationMethod::SingleSided => "5.0"@,
        ApplicationMethod::DoubleSided => "7.0"@,
    }
}

impl Settings {
    /// Settings with every value left to its built-in default.
    pub fn empty() -> (r: Settings)
        ensures
            r.single_sided_factor@.len() == 0,
            r.double_sided_factor@.len() == 0,
            r.grout_coefficient@.len() == 0,
    {
        Settings {
            single_sided_factor: String::new(),
            double_sided_factor: String::new(),
            grout_coefficient: String::new(),
        }
    }

    pub open spec fn saved_factor(&self, m: ApplicationMethod) -> Seq<char> {
        match m {
            ApplicationMethod::SingleSided => self.single_sided_factor@,
            ApplicationMethod::DoubleSided => self.double_sided_factor@,
        }
    }

    /// The mortar factor for a method: the saved one, else 5.0 kg/m² for
    /// single-sided and 7.0 kg/m² for double-sided spreading.
    pub fn mortar_factor(&self, m: ApplicationMethod) -> (r: String)
        ensures
            r@ == or_default(self.saved_factor(m), default_factor(m)),
    {
        let saved = match m {
            ApplicationMethod::SingleSided => &self.single_sided_factor,
            ApplicationMethod::DoubleSided => &self.double_sided_factor,
        };
        if saved.as_str().unicode_len() == 0 {
            match m {
                ApplicationMethod::SingleSided => String::from_str("5.0"),
                ApplicationMethod::DoubleSided => String::from_str("7.0"),
            }
        } else {
            saved.clone()
        }
    }

    /// The grout coefficient: the saved one, else 1.58.
    pub fn grout_coefficient_or_default(&self) -> (r: String)
        ensures
            r@ == or_default(self.grout_coefficient@, "1.58"@),
    {
        if self.grout_coefficient.as_str().unicode_len() == 0 {
            String::from_str("1.58")
        } else {
            self.grout_coefficient.clone()
        }
    }

    /// Saves `factor` as the default for a method.
    pub fn save_mortar_factor(&mut self, m: ApplicationMethod, factor: &String)
        ensures
            final(self).saved_factor(m) == factor@,
            final(self).grout_coefficient@ == old(self).grout_coefficient@,
            m == ApplicationMethod::SingleSided ==> final(self).double_sided_factor@ == old(
                self,
            ).double_sided_factor@,
            m == ApplicationMethod::DoubleSided ==> final(self).single_sided_factor@ == old(
                self,
            ).single_sided_factor@,
    {
        match m {
            ApplicationMethod::SingleSided => self.single_sided_factor = factor.clone(),
            ApplicationMethod::DoubleSided => self.double_sided_factor = factor.clone(),
        }
    }

    /// Saves `coefficient` as the default grout coefficient.
    pub fn save_grout_coefficient(&mut self, coefficient: &String)
        ensures
            final(self).grout_coefficient@ == coefficient@,
            final(self).single_sided_factor@ == old(self).single_sided_factor@,
            final(self).double_sided_factor@ == old(self).double_sided_factor@,
    {
        self.grout_coefficient = coefficient.clone();
    }
}

} // verus!
