//! The tab strip: the titles of the open tabs and which one is selected.

use crate::components::Component;
use vstd::prelude::*;

verus! {

/// The tab strip.
pub struct TabBar {
    tabs: Vec<String>,
    selected_tab: usize,
}

/// What a tab strip shows.
pub struct TabBarView {
    pub tabs: Seq<Seq<char>>,
    pub selected_tab: usize,
}

impl View for TabBar {
    type V = TabBarView;

    closed spec fn view(&self) -> TabBarView {
        TabBarView { tabs: self.tabs.deep_view(), selected_tab: self.selected_tab }
    }
}

impl Default for TabBar {
    fn default() -> (r: Self)
        ensures
            r@.tabs == Seq::<Seq<char>>::empty(),
            r@.selected_tab == 0,
    {
        TabBar::new()
    }
}

impl TabBar {
    /// A strip without tabs.
    pub fn new() -> (r: Self)
        ensures
            r@.tabs == Seq::<Seq<char>>::empty(),
            r@.selected_tab == 0,
    {
        let r = TabBar { tabs: Vec::new(), selected_tab: 0 };
        assert(r@.tabs =~= Seq::<Seq<char>>::empty());
        r
    }

    /// Adds a tab at the end.
    pub fn add_tab(&mut self, tab: String)
        ensures
            final(self)@.tabs == old(self)@.tabs.push(tab@),
            final(self)@.selected_tab == old(self)@.selected_tab,
    {
        self.tabs.push(tab);
        assert(self@.tabs =~= old(self)@.tabs.push(tab@));
    }

    /// Removes the tab at `tab_idx`; the tabs behind it move up. Where
    /// there is no such tab, nothing changes.
    pub fn remove_tab(&mut self, tab_idx: usize)
        ensures
            final(self)@.selected_tab == old(self)@.selected_tab,
            final(self)@.tabs == if tab_idx < old(self)@.tabs.len() {
                old(self)@.tabs.remove(tab_idx as int)
            } else {
                old(self)@.tabs
            },
    {
        if tab_idx < self.tabs.len() {
            self.tabs.remove(tab_idx);
            assert(self@.tabs =~= old(self)@.tabs.remove(tab_idx as int));
        }
    }

    /// Selects the tab at `tab_idx`.
    pub fn select(&mut self, tab_idx: usize)
        ensures
            final(self)@.tabs == old(self)@.tabs,
            final(self)@.selected_tab == tab_idx,
    {
        self.selected_tab = tab_idx;
    }

    /// The titles of the tabs, in order.
    pub fn titles(&self) -> (r: &Vec<String>)
        ensures
            r.deep_view() == self@.tabs,
    {
        &self.tabs
    }

    /// The place of the selected tab.
    pub fn selected(&self) -> (r: usize)
        ensures
            r == self@.selected_tab,
    {
        self.selected_tab
    }
}

impl Component for TabBar {
    open spec fn wf(&self) -> bool {
        true
    }
}

} // verus!
