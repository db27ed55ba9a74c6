//! The line that names the program, filling the area it is given.

use crate::components::Component;
use crate::config::Config;
use vstd::prelude::*;

verus! {

/// The information line, drawn over its whole area.
pub struct InfoBar {
    pub config: Config,
}

impl InfoBar {
    /// The line under the configuration in force before any was read.
    pub fn new() -> (r: Self)
        ensures
            r.config.is_default(),
            !r.config.confirm_quit,
            r.config.groups@.len() == 0,
    {
        InfoBar { config: Config::default() }
    }
}

impl Component for InfoBar {
    open spec fn wf(&self) -> bool {
        true
    }
}

} // verus!
