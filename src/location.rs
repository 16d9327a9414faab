//! Where the preference file lives: set once at start-up, read by every load
//! and save.
use std::path::PathBuf;
use vstd::prelude::*;

verus! {

#[verifier::external_type_specification]
#[verifier::external_body]
pub struct ExPathBuf(PathBuf);

/// Relies on `PathBuf::clone`: the copy holds the same path.
#[verifier::external_body]
fn copy_path(p: &PathBuf) -> (r: PathBuf)
    ensures
        r == *p,
{
    p.clone()
}

/// The location of the preference file, unset until start-up sets it.
pub struct ConfigLocation {
    path: Option<PathBuf>,
}

impl View for ConfigLocation {
    type V = Option<PathBuf>;

    closed spec fn view(&self) -> Option<PathBuf> {
        self.path
    }
}

impl ConfigLocation {
    pub fn new() -> (r: Self)
        ensures
            r@ is None,
    {
        ConfigLocation { path: None }
    }

    /// Sets the location once; a location already set stays. Returns whether
    /// `path` was taken.
    pub fn set_config_path(&mut self, path: PathBuf) -> (r: bool)
        ensures
            r == old(self)@ is None,
            final(self)@ == (if r { Some(path) } else { old(self)@ }),
    {
        if self.path.is_none() {
            self.path = Some(path);
            true
        } else {
            false
        }
    }

    /// The location of the preference file, if it has been set.
    pub fn get_config_path(&self) -> (r: Option<PathBuf>)
        ensures
            r == self@,
    {
        match &self.path {
            Some(p) => Some(copy_path(p)),
            None => None,
        }
    }
}

} // verus!
