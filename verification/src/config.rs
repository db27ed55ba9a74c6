//! Configuration snapshot handed to every component.

use vstd::prelude::*;

verus! {

/// Directories the application keeps its files in.
#[derive(Debug)]
pub struct AppConfig {
    pub _data_dir: String,
    pub _config_dir: String,
}

/// One feed of a configured group. Name and description are optional: the
/// fetched document supplies them when they are missing.
#[derive(Debug)]
pub struct FeedConfig {
    pub name: Option<String>,
    pub desc: Option<String>,
    pub link: String,
}

/// One configured group with its feeds.
#[derive(Debug)]
pub struct GroupConfig {
    pub name: String,
    pub desc: String,
    pub feeds: Vec<FeedConfig>,
}

/// The whole configuration.
#[derive(Debug)]
pub struct Config {
    pub config: AppConfig,
    pub confirm_quit: bool,
    pub groups: Vec<GroupConfig>,
}

/// The value a missing `confirm_quit` entry takes when a configuration
/// document is read: quitting asks for confirmation unless told otherwise.
pub fn default_as_true() -> (b: bool)
    ensures
        b,
{
    true
}

impl Clone for AppConfig {
    fn clone(&self) -> (r: Self)
        ensures
            r == *self,
    {
        AppConfig { _data_dir: self._data_dir.clone(), _config_dir: self._config_dir.clone() }
    }
}

impl Default for AppConfig {
    fn default() -> (r: Self)
        ensures
            r._data_dir@ == Seq::<char>::empty(),
            r._config_dir@ == Seq::<char>::empty(),
    {
        AppConfig { _data_dir: String::new(), _config_dir: String::new() }
    }
}

impl Clone for FeedConfig {
    fn clone(&self) -> (r: Self)
        ensures
            r == *self,
    {
        let name = match &self.name {
            Some(n) => Some(n.clone()),
            None => None,
        };
        let desc = match &self.desc {
            Some(d) => Some(d.clone()),
            None => None,
        };
        FeedConfig { name, desc, link: self.link.clone() }
    }
}

impl Default for FeedConfig {
    fn default() -> (r: Self)
        ensures
            r.name is None,
            r.desc is None,
            r.link@ == Seq::<char>::empty(),
    {
        FeedConfig { name: None, desc: None, link: String::new() }
    }
}

impl Clone for GroupConfig {
    fn clone(&self) -> (r: Self)
        ensures
            r.name == self.name,
            r.desc == self.desc,
            r.feeds@ == self.feeds@,
    {
        GroupConfig {
            name: self.name.clone(),
            desc: self.desc.clone(),
            feeds: clone_feeds(&self.feeds),
        }
    }
}

impl Default for GroupConfig {
    fn default() -> (r: Self)
        ensures
            r.name@ == Seq::<char>::empty(),
            r.desc@ == Seq::<char>::empty(),
            r.feeds@ == Seq::<FeedConfig>::empty(),
    {
        GroupConfig { name: String::new(), desc: String::new(), feeds: Vec::new() }
    }
}

/// Two group lists that hold the same groups with the same feeds.
pub open spec fn same_groups(a: Seq<GroupConfig>, b: Seq<GroupConfig>) -> bool {
    &&& a.len() == b.len()
    &&& forall|i: int|
        0 <= i < a.len() ==> {
            &&& (#[trigger] a[i]).name == b[i].name
            &&& a[i].desc == b[i].desc
            &&& a[i].feeds@ == b[i].feeds@
        }
}

impl Config {
    /// The configuration in force before any document was read: no
    /// groups, no directories, and quitting without confirmation.
    pub open spec fn is_default(&self) -> bool {
        &&& !self.confirm_quit
        &&& self.groups@.len() == 0
        &&& self.config._data_dir@.len() == 0
        &&& self.config._config_dir@.len() == 0
    }

    /// Two configurations that say the same.
    pub open spec fn same_as(&self, other: &Config) -> bool {
        &&& self.config == other.config
        &&& self.confirm_quit == other.confirm_quit
        &&& same_groups(self.groups@, other.groups@)
    }
}

impl Clone for Config {
    fn clone(&self) -> (r: Self)
        ensures
            r.same_as(self),
    {
        let mut groups: Vec<GroupConfig> = Vec::new();
        let mut i: usize = 0;
        while i < self.groups.len()
            invariant
                i <= self.groups.len(),
                groups.len() == i,
                same_groups(groups@, self.groups@.take(i as int)),
            decreases self.groups.len() - i,
        {
            groups.push(self.groups[i].clone());
            i += 1;
        }
        assert(self.groups@.take(i as int) == self.groups@);
        Config { config: self.config.clone(), confirm_quit: self.confirm_quit, groups }
    }
}

impl Default for Config {
    /// The configuration in force before any document was read: no groups,
    /// and quitting without confirmation.
    fn default() -> (r: Self)
        ensures
            r.is_default(),
            !r.confirm_quit,
            r.groups@ == Seq::<GroupConfig>::empty(),
            r.config._data_dir@ == Seq::<char>::empty(),
            r.config._config_dir@ == Seq::<char>::empty(),
    {
        Config { config: AppConfig::default(), confirm_quit: false, groups: Vec::new() }
    }
}

/// Copies a list of feed entries.
fn clone_feeds(feeds: &Vec<FeedConfig>) -> (r: Vec<FeedConfig>)
    ensures
        r@ == feeds@,
{
    let mut out: Vec<FeedConfig> = Vec::new();
    let mut i: usize = 0;
    while i < feeds.len()
        invariant
            i <= feeds.len(),
            out@ == feeds@.take(i as int),
        decreases feeds.len() - i,
    {
        out.push(feeds[i].clone());
        i += 1;
    }
    assert(feeds@.take(i as int) == feeds@);
    out
}

} // verus!
