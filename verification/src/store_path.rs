//! Paths in the nix store.
use vstd::prelude::*;
use vstd::std_specs::cmp::PartialEqSpecImpl;

verus! {

/// A path in the nix store, held as the absolute path that names it. It has no short form:
/// a path without its `/nix/store/` cannot be written by mistake.
#[derive(Debug)]
pub struct SafeStorePath {
    absolute_path: String,
}

impl View for SafeStorePath {
    type V = Seq<char>;

    closed spec fn view(&self) -> Seq<char> {
        self.absolute_path@
    }
}

impl SafeStorePath {
    /// Wraps a text that is known to be an absolute store path.
    pub fn of_absolute_path(absolute_path: String) -> (path: Self)
        ensures
            path@ == absolute_path@,
    {
        SafeStorePath { absolute_path }
    }

    /// The absolute path.
    pub fn to_absolute_path(&self) -> (s: String)
        ensures
            s@ == self@,
    {
        self.absolute_path.clone()
    }
}

impl Clone for SafeStorePath {
    fn clone(&self) -> (r: Self)
        ensures
            r == *self,
    {
        SafeStorePath { absolute_path: self.absolute_path.clone() }
    }
}

impl PartialEq for SafeStorePath {
    fn eq(&self, other: &Self) -> (r: bool) {
        self.absolute_path == other.absolute_path
    }
}

impl PartialEqSpecImpl for SafeStorePath {
    open spec fn obeys_eq_spec() -> bool {
        true
    }

    open spec fn eq_spec(&self, other: &Self) -> bool {
        self@ == other@
    }
}

impl Eq for SafeStorePath {

}

/// The texts of a sequence of store paths.
pub open spec fn paths(v: Seq<SafeStorePath>) -> Seq<Seq<char>> {
    v.map_values(|p: SafeStorePath| p@)
}

} // verus!
