use crate::bindings::{debug_text_of_list, list_debug_text};
use vstd::prelude::*;

verus! {

/// Where a site points: one target, several (proxy upstreams), or none yet.
pub enum TargetSite {
    NoTarget,
    Single(String),
    Multiple(Vec<String>),
}

/// The mathematical value of a `TargetSite`.
pub enum TargetSpec {
    NoTarget,
    Single(Seq<char>),
    Multiple(Seq<Seq<char>>),
}

impl View for TargetSite {
    type V = TargetSpec;

    open spec fn view(&self) -> TargetSpec {
        match self {
            TargetSite::NoTarget => TargetSpec::NoTarget,
            TargetSite::Single(s) => TargetSpec::Single(s@),
            TargetSite::Multiple(v) => TargetSpec::Multiple(v.deep_view()),
        }
    }
}

/// The targets of a site, in order.
pub open spec fn targets_of(t: TargetSpec) -> Seq<Seq<char>> {
    match t {
        TargetSpec::NoTarget => Seq::empty(),
        TargetSpec::Single(s) => seq![s],
        TargetSpec::Multiple(v) => v,
    }
}

/// The target site built from a list of targets: one target is `Single`,
/// any other number is `Multiple`.
pub open spec fn target_from_list(v: Seq<Seq<char>>) -> TargetSpec {
    if v.len() == 1 {
        TargetSpec::Single(v[0])
    } else {
        TargetSpec::Multiple(v)
    }
}

/// The text of a target site: a JSON-like list for `Single` and `NoTarget`,
/// the `Debug` text of the list for `Multiple`.
pub open spec fn target_text(t: TargetSpec) -> Seq<char> {
    match t {
        TargetSpec::NoTarget => "[]"@,
        TargetSpec::Single(s) => "[\""@ + s + "\"]"@,
        TargetSpec::Multiple(v) => debug_text_of_list(v),
    }
}

impl TargetSite {
    /// The one target of a `Single` site.
    pub fn get_single_site(&self) -> (r: &String)
        requires
            self@ is Single,
        ensures
            TargetSpec::Single(r@) == self@,
    {
        match self {
            TargetSite::Single(s) => s,
            _ => unreached(),
        }
    }

    /// The text of the target site.
    pub fn to_string(&self) -> (r: String)
        ensures
            r@ == target_text(self@),
    {
        match self {
            TargetSite::NoTarget => String::from_str("[]"),
            TargetSite::Single(t) => {
                let mut s = String::from_str("[\"");
                s.append(t.as_str());
                s.append("\"]");
                s
            },
            TargetSite::Multiple(v) => list_debug_text(v),
        }
    }

    /// Builds the site for a list of targets.
    pub fn from_list(v: Vec<String>) -> (r: TargetSite)
        ensures
            r@ == target_from_list(v.deep_view()),
    {
        if v.len() == 1 {
            let mut v = v;
            let ghost dv = v.deep_view();
            let s = v.pop().unwrap();
            assert(s@ == dv[0]);
            TargetSite::Single(s)
        } else {
            TargetSite::Multiple(v)
        }
    }
}

impl Default for TargetSite {
    fn default() -> (r: Self)
        ensures
            r@ == TargetSpec::NoTarget,
    {
        TargetSite::NoTarget
    }
}

} // verus!
