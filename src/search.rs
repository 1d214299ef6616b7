//! Values that describe search plugins and what a search covers.
use vstd::prelude::*;
use vstd::string::*;

verus! {

/// The model of a list of (category id, category name) pairs.
pub open spec fn pairs_view(v: Seq<(String, String)>) -> Seq<(Seq<char>, Seq<char>)> {
    Seq::new(v.len(), |i: int| (v[i].0@, v[i].1@))
}

/// A copy of `v`, pair by pair.
fn copy_pairs(v: &Vec<(String, String)>) -> (r: Vec<(String, String)>)
    ensures
        pairs_view(r@) == pairs_view(v@),
{
    let mut r: Vec<(String, String)> = Vec::new();
    let mut i: usize = 0;
    while i < v.len()
        invariant
            i <= v@.len(),
            r@.len() == i,
            forall|k: int| 0 <= k < i ==> #[trigger] r@[k].0@ == v@[k].0@ && r@[k].1@ == v@[k].1@,
        decreases v@.len() - i,
    {
        r.push((v[i].0.clone(), v[i].1.clone()));
        i = i + 1;
    }
    assert(pairs_view(r@) =~= pairs_view(v@));
    r
}

/// A search plugin: its name, and the categories it supports as
/// (id, name) pairs.
#[derive(Debug, Clone)]
pub struct SearchPlugin {
    pub name: String,
    pub categories: Vec<(String, String)>,
}

/// The model of a `SearchPlugin`.
pub struct SearchPluginView {
    pub name: Seq<char>,
    pub categories: Seq<(Seq<char>, Seq<char>)>,
}

impl View for SearchPlugin {
    type V = SearchPluginView;

    open spec fn view(&self) -> SearchPluginView {
        SearchPluginView { name: self.name@, categories: pairs_view(self.categories@) }
    }
}

impl SearchPlugin {
    /// A plugin named `search_plugin` with a copy of `categories`.
    pub fn new(search_plugin: String, categories: &Vec<(String, String)>) -> (r: SearchPlugin)
        ensures
            r@.name == search_plugin@,
            r@.categories == pairs_view(categories@),
    {
        SearchPlugin { name: search_plugin, categories: copy_pairs(categories) }
    }

    /// A copy of this plugin.
    fn duplicate(&self) -> (r: SearchPlugin)
        ensures
            r@ == self@,
    {
        SearchPlugin { name: self.name.clone(), categories: copy_pairs(&self.categories) }
    }

    /// Pairs each name with the categories at the same position; extra items
    /// of the longer list are dropped.
    pub fn from_vec(search_plugins_vec: &Vec<String>, categories: &Vec<Vec<(String, String)>>) -> (r:
        Vec<SearchPlugin>)
        ensures
            r@.len() == if search_plugins_vec@.len() <= categories@.len() {
                search_plugins_vec@.len()
            } else {
                categories@.len()
            },
            forall|i: int|
                0 <= i < r@.len() ==> (#[trigger] r@[i])@.name == search_plugins_vec@[i]@ && r@[i]@.categories
                    == pairs_view(categories@[i]@),
    {
        let n: usize = if search_plugins_vec.len() <= categories.len() {
            search_plugins_vec.len()
        } else {
            categories.len()
        };
        let mut r: Vec<SearchPlugin> = Vec::new();
        let mut i: usize = 0;
        while i < n
            invariant
                n <= search_plugins_vec@.len(),
                n <= categories@.len(),
                i <= n,
                r@.len() == i,
                forall|k: int|
                    0 <= k < i ==> (#[trigger] r@[k])@.name == search_plugins_vec@[k]@
                        && r@[k]@.categories == pairs_view(categories@[k]@),
            decreases n - i,
        {
            r.push(SearchPlugin::new(search_plugins_vec[i].clone(), &categories[i]));
            i = i + 1;
        }
        r
    }

    /// The plugin's name.
    pub fn get_name(&self) -> (r: String)
        ensures
            r@ == self@.name,
    {
        self.name.clone()
    }

    /// The plugin's categories as (id, name) pairs.
    pub fn get_categories(&self) -> (r: Vec<(String, String)>)
        ensures
            pairs_view(r@) == self@.categories,
    {
        copy_pairs(&self.categories)
    }

    /// The ids of the plugin's categories, in order.
    pub fn get_ids(&self) -> (r: Vec<String>)
        ensures
            r@.len() == self@.categories.len(),
            forall|i: int| 0 <= i < r@.len() ==> #[trigger] r@[i]@ == self@.categories[i].0,
    {
        let mut r: Vec<String> = Vec::new();
        let mut i: usize = 0;
        while i < self.categories.len()
            invariant
                i <= self.categories@.len(),
                r@.len() == i,
                forall|k: int| 0 <= k < i ==> #[trigger] r@[k]@ == self.categories@[k].0@,
            decreases self.categories@.len() - i,
        {
            r.push(self.categories[i].0.clone());
            i = i + 1;
        }
        r
    }

    /// The names of the plugin's categories, in order.
    pub fn get_names(&self) -> (r: Vec<String>)
        ensures
            r@.len() == self@.categories.len(),
            forall|i: int| 0 <= i < r@.len() ==> #[trigger] r@[i]@ == self@.categories[i].1,
    {
        let mut r: Vec<String> = Vec::new();
        let mut i: usize = 0;
        while i < self.categories.len()
            invariant
                i <= self.categories@.len(),
                r@.len() == i,
                forall|k: int| 0 <= k < i ==> #[trigger] r@[k]@ == self.categories@[k].1@,
            decreases self.categories@.len() - i,
        {
            r.push(self.categories[i].1.clone());
            i = i + 1;
        }
        r
    }
}

/// Which search plugins an operation covers.
#[derive(Debug, Clone)]
pub enum SearchPluginsDescriptor {
    All,
    Enabled,
    Custom(Vec<SearchPlugin>),
}

impl SearchPluginsDescriptor {
    /// The plugins of a `Custom` selection.
    pub fn get_inner(&self) -> (r: Vec<SearchPlugin>)
        requires
            self is Custom,
        ensures
            r@.len() == self->Custom_0@.len(),
            forall|i: int| 0 <= i < r@.len() ==> (#[trigger] r@[i])@ == self->Custom_0@[i]@,
    {
        match self {
            SearchPluginsDescriptor::Custom(v) => {
                let mut r: Vec<SearchPlugin> = Vec::new();
                let mut i: usize = 0;
                while i < v.len()
                    invariant
                        i <= v@.len(),
                        r@.len() == i,
                        forall|k: int| 0 <= k < i ==> (#[trigger] r@[k])@ == v@[k]@,
                    decreases v@.len() - i,
                {
                    r.push(v[i].duplicate());
                    i = i + 1;
                }
                r
            },
            _ => Vec::new(),
        }
    }
}

/// Which search plugins an operation covers, by name.
#[derive(Debug, Clone)]
pub enum SearchPluginsSpec {
    All,
    Enabled,
    Custom(Vec<String>),
}

/// Which categories a search covers.
#[derive(Debug, Clone)]
pub enum Categories {
    All,
    Custom(Vec<String>),
}

} // verus!
