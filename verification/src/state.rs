//! The one piece of mutable state the shell owns: the configured
//! screenshot output directory. The surrounding binary holds a value of
//! this type behind a mutual-exclusion lock and hands each command a
//! reference; unset is the empty string.

use vstd::prelude::*;
use crate::messages::format_set_path_message;
use crate::messages::set_path_message;

verus! {

pub struct AppState {
    pub screenshot_path: String,
}

impl AppState {
    /// A fresh state: no screenshot directory configured yet.
    pub fn new() -> (r: AppState)
        ensures
            r.screenshot_path@ == Seq::<char>::empty(),
    {
        AppState { screenshot_path: String::new() }
    }

    /// Overwrites the stored directory and returns the confirmation
    /// message shown to the UI. Setting never fails.
    pub fn set_screenshot_path(&mut self, path: String) -> (r: Result<String, String>)
        ensures
            final(self).screenshot_path@ == path@,
            r is Ok && r->Ok_0@ == set_path_message(path@),
    {
        let message = format_set_path_message(path.as_str());
        self.screenshot_path = path;
        Ok(message)
    }

    /// Returns the stored directory, the empty string while unset.
    pub fn get_screenshot_path(&self) -> (r: String)
        ensures
            r@ == self.screenshot_path@,
    {
        self.screenshot_path.clone()
    }
}

} // verus!
