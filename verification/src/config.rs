//! Small pieces of the UI configuration that do not involve measurements:
//! the appearance preference, font-family lists, and load diagnostics.

use vstd::prelude::*;

use crate::text::{trim, trim_str};

verus! {

#[derive(Clone, Copy, Debug, PartialEq, Eq, Structural)]
pub enum AppearancePreference {
    System,
    Light,
    Dark,
}

/// The preference a configuration word names, ignoring surrounding
/// whitespace.
pub open spec fn spec_appearance(value: Seq<char>) -> Option<AppearancePreference> {
    let t = trim(value);
    if t == "system"@ {
        Some(AppearancePreference::System)
    } else if t == "light"@ {
        Some(AppearancePreference::Light)
    } else if t == "dark"@ {
        Some(AppearancePreference::Dark)
    } else {
        None
    }
}

impl AppearancePreference {
    pub fn parse(value: &str) -> (r: Option<Self>)
        ensures
            r == spec_appearance(value@),
    {
        let t = trim_str(value);
        if t == "system".to_string() {
            Some(AppearancePreference::System)
        } else if t == "light".to_string() {
            Some(AppearancePreference::Light)
        } else if t == "dark".to_string() {
            Some(AppearancePreference::Dark)
        } else {
            None
        }
    }
}

/// Font families with surrounding whitespace removed and blanks dropped.
pub open spec fn spec_sanitize(families: Seq<Seq<char>>) -> Seq<Seq<char>>
    decreases families.len(),
{
    if families.len() == 0 {
        Seq::empty()
    } else {
        let prev = spec_sanitize(families.drop_last());
        let t = trim(families.last());
        if t.len() == 0 {
            prev
        } else {
            prev.push(t)
        }
    }
}

/// Trim each family name and drop blank ones.
pub fn sanitize_families(families: &Vec<String>) -> (r: Vec<String>)
    ensures
        r@.map_values(|s: String| s@) == spec_sanitize(families@.map_values(|s: String| s@)),
{
    let ghost all = families@.map_values(|s: String| s@);
    let mut out: Vec<String> = Vec::new();
    let mut i: usize = 0;
    while i < families.len()
        invariant
            0 <= i <= families@.len(),
            all == families@.map_values(|s: String| s@),
            out@.map_values(|s: String| s@) == spec_sanitize(all.subrange(0, i as int)),
        decreases families@.len() - i,
    {
        assert(all.subrange(0, i + 1).drop_last() =~= all.subrange(0, i as int));
        assert(all.subrange(0, i + 1).last() == families@[i as int]@);
        let t = trim_str(families[i].as_str());
        if !t.as_str().is_empty() {
            let ghost before = out@.map_values(|s: String| s@);
            out.push(t);
            assert(out@.map_values(|s: String| s@) =~= before.push(out@.last()@));
        }
        i = i + 1;
    }
    assert(all.subrange(0, families@.len() as int) =~= all);
    out
}

#[derive(Clone, Debug, Default, PartialEq, Eq)]
pub struct ConfigurationDiagnostics {
    pub warnings: Vec<String>,
    pub used_full_default_fallback: bool,
}

impl ConfigurationDiagnostics {
    /// No warning was raised and the defaults were not substituted wholesale.
    pub fn is_clean(&self) -> (r: bool)
        ensures
            r == (self.warnings@.len() == 0 && !self.used_full_default_fallback),
    {
        self.warnings.len() == 0 && !self.used_full_default_fallback
    }
}

} // verus!
