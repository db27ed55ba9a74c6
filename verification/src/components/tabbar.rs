//! A tab strip with fixed titles.

use crate::components::Component;
use vstd::prelude::*;

verus! {

/// A tab strip that only shows its titles.
pub struct TabBar {
    pub tabs: Vec<String>,
}

impl Default for TabBar {
    fn default() -> (r: Self)
        ensures
            r.tabs@.len() == 0,
    {
        TabBar { tabs: Vec::new() }
    }
}

impl TabBar {
    /// The strip with its one tab, "Welcome".
    pub fn new() -> (r: Self)
        ensures
            r.tabs.deep_view() == seq!["Welcome"@],
    {
        let mut tabs: Vec<String> = Vec::new();
        tabs.push("Welcome".to_string());
        assert(tabs.deep_view() =~= seq!["Welcome"@]);
        TabBar { tabs }
    }
}

impl Component for TabBar {
    open spec fn wf(&self) -> bool {
        true
    }
}

} // verus!
