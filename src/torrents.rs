//! Values that describe torrents in requests: hashes, categories, states,
//! the filter of the torrent list, and torrents to add.
use vstd::prelude::*;
use vstd::string::*;
use crate::error::{Error, ErrorType, message_of};
use crate::sep_vec::{SepVec, join};

verus! {

/// A torrent's name and its info hash.
#[derive(Debug, Clone)]
pub struct TorrentHash {
    pub name: String,
    pub hash: String,
}

impl TorrentHash {
    /// A torrent hash made of `name` and `hash`. Nothing checks that the
    /// hash names a torrent that exists.
    pub fn new(name: String, hash: String) -> (r: TorrentHash)
        ensures
            r.name@ == name@,
            r.hash@ == hash@,
    {
        TorrentHash { name, hash }
    }

    /// Pairs the names with the hashes, position by position; extra items of
    /// the longer list are dropped.
    pub fn new_multiple(names: Vec<String>, hashes: Vec<String>) -> (r: Vec<TorrentHash>)
        ensures
            r@.len() == if names@.len() <= hashes@.len() {
                names@.len()
            } else {
                hashes@.len()
            },
            forall|i: int|
                0 <= i < r@.len() ==> (#[trigger] r@[i]).name@ == names@[i]@ && r@[i].hash@
                    == hashes@[i]@,
    {
        let n: usize = if names.len() <= hashes.len() {
            names.len()
        } else {
            hashes.len()
        };
        let mut r: Vec<TorrentHash> = Vec::new();
        let mut i: usize = 0;
        while i < n
            invariant
                n <= names@.len(),
                n <= hashes@.len(),
                i <= n,
                r@.len() == i,
                forall|k: int|
                    0 <= k < i ==> (#[trigger] r@[k]).name@ == names@[k]@ && r@[k].hash@
                        == hashes@[k]@,
            decreases n - i,
        {
            r.push(TorrentHash::new(names[i].clone(), hashes[i].clone()));
            i = i + 1;
        }
        r
    }
}

/// The category filter of a torrent query.
#[derive(Debug)]
pub enum Category {
    /// Torrents without a category.
    NoCategory,
    /// Torrents of any category.
    AnyCategory,
    /// Torrents of the named category.
    Custom(String),
}

impl Category {
    /// The value sent for this filter: empty for no category, absent for any
    /// category, the name for a named one.
    pub fn get_str_category(&self) -> (r: Option<String>)
        ensures
            match self {
                Category::NoCategory => r matches Some(s) && s@.len() == 0,
                Category::AnyCategory => r is None,
                Category::Custom(name) => r matches Some(s) && s@ == name@,
            },
    {
        match self {
            Category::NoCategory => Some(String::new()),
            Category::AnyCategory => None,
            Category::Custom(s) => Some(s.clone()),
        }
    }

    /// The category that a string names: an empty string means no category,
    /// any other string that named category.
    pub fn get_category_from_str(string: String) -> (r: Category)
        ensures
            string@.len() == 0 ==> r is NoCategory,
            string@.len() != 0 ==> (r matches Category::Custom(s) && s@ == string@),
    {
        if string.as_str().unicode_len() == 0 {
            Category::NoCategory
        } else {
            Category::Custom(string)
        }
    }
}

/// The state filter of a torrent query.
#[derive(Debug, Clone, Copy, PartialEq, Eq, Structural)]
pub enum State {
    All,
    Downloading,
    Seeding,
    Completed,
    Paused,
    Active,
    Inactive,
    Resumed,
    Stalled,
    StalledUploading,
    StalledDownloading,
    Errored,
}

/// The name of each state: its variant's name in snake case.
pub open spec fn state_name(s: State) -> Seq<char> {
    match s {
        State::All => "all"@,
        State::Downloading => "downloading"@,
        State::Seeding => "seeding"@,
        State::Completed => "completed"@,
        State::Paused => "paused"@,
        State::Active => "active"@,
        State::Inactive => "inactive"@,
        State::Resumed => "resumed"@,
        State::Stalled => "stalled"@,
        State::StalledUploading => "stalled_uploading"@,
        State::StalledDownloading => "stalled_downloading"@,
        State::Errored => "errored"@,
    }
}

impl State {
    /// The name of this state.
    pub fn get_str_state(&self) -> (r: String)
        ensures
            r@ == state_name(*self),
    {
        match self {
            State::All => String::from_str("all"),
            State::Downloading => String::from_str("downloading"),
            State::Seeding => String::from_str("seeding"),
            State::Completed => String::from_str("completed"),
            State::Paused => String::from_str("paused"),
            State::Active => String::from_str("active"),
            State::Inactive => String::from_str("inactive"),
            State::Resumed => String::from_str("resumed"),
            State::Stalled => String::from_str("stalled"),
            State::StalledUploading => String::from_str("stalled_uploading"),
            State::StalledDownloading => String::from_str("stalled_downloading"),
            State::Errored => String::from_str("errored"),
        }
    }

    /// The state that a name names; a string that names no state is a
    /// `ParameterNotExpected` error.
    pub fn get_state_from_str(string: String) -> (r: Result<State, Error>)
        ensures
            match r {
                Ok(s) => state_name(s) == string@,
                Err(e) => (forall|s: State| state_name(s) != string@) && e.err_type
                    == ErrorType::ParameterNotExpected && e.code is None && e.message@
                    == message_of(e.err_type),
            },
    {
        let states = [
            State::All,
            State::Downloading,
            State::Seeding,
            State::Completed,
            State::Paused,
            State::Active,
            State::Inactive,
            State::Resumed,
            State::Stalled,
            State::StalledUploading,
            State::StalledDownloading,
            State::Errored,
        ];
        let mut i: usize = 0;
        while i < 12
            invariant
                i <= 12,
                states@ == seq![
                    State::All,
                    State::Downloading,
                    State::Seeding,
                    State::Completed,
                    State::Paused,
                    State::Active,
                    State::Inactive,
                    State::Resumed,
                    State::Stalled,
                    State::StalledUploading,
                    State::StalledDownloading,
                    State::Errored,
                ],
                forall|k: int| 0 <= k < i ==> state_name(#[trigger] states@[k]) != string@,
            decreases 12 - i,
        {
            let candidate = states[i];
            let name = candidate.get_str_state();
            if string == name {
                return Ok(candidate);
            }
            i = i + 1;
        }
        assert forall|s: State| state_name(s) != string@ by {
            match s {
                State::All => assert(states@[0] == s),
                State::Downloading => assert(states@[1] == s),
                State::Seeding => assert(states@[2] == s),
                State::Completed => assert(states@[3] == s),
                State::Paused => assert(states@[4] == s),
                State::Active => assert(states@[5] == s),
                State::Inactive => assert(states@[6] == s),
                State::Resumed => assert(states@[7] == s),
                State::Stalled => assert(states@[8] == s),
                State::StalledUploading => assert(states@[9] == s),
                State::StalledDownloading => assert(states@[10] == s),
                State::Errored => assert(states@[11] == s),
            }
        }
        Err(Error::build(ErrorType::ParameterNotExpected, None))
    }
}

/// The filter of a torrent-list query, in the form that is sent: each field
/// that is set becomes one query parameter.
#[derive(Debug, Clone)]
pub struct TorrentListGetConfig {
    pub filter: Option<String>,
    pub category: Option<String>,
    pub tag: Option<String>,
    pub sort: Option<String>,
    pub reverse: Option<bool>,
    pub limit: Option<u64>,
    pub offset: Option<i64>,
    pub hashes: Option<SepVec>,
}

impl TorrentListGetConfig {
    /// A filter that sets nothing, the same as `builder().build()`.
    pub fn new() -> (r: TorrentListGetConfig)
        ensures
            r.filter is None,
            r.category is None,
            r.tag is None,
            r.sort is None,
            r.reverse is None,
            r.limit is None,
            r.offset is None,
            r.hashes is None,
    {
        TorrentListGetConfigBuilder::new().build()
    }

    /// A builder with nothing set.
    pub fn builder() -> (r: TorrentListGetConfigBuilder)
        ensures
            r.is_empty(),
    {
        TorrentListGetConfigBuilder::new()
    }
}

/// Builds a `TorrentListGetConfig` one field at a time.
#[derive(Debug)]
pub struct TorrentListGetConfigBuilder {
    pub filter: Option<State>,
    pub category: Option<Category>,
    pub tag: Option<String>,
    pub sort: Option<String>,
    pub reverse: Option<bool>,
    pub limit: Option<u64>,
    pub offset: Option<i64>,
    pub hashes: Option<Vec<String>>,
}

impl TorrentListGetConfigBuilder {
    /// Whether no field is set.
    pub open spec fn is_empty(&self) -> bool {
        &&& self.filter is None
        &&& self.category is None
        &&& self.tag is None
        &&& self.sort is None
        &&& self.reverse is None
        &&& self.limit is None
        &&& self.offset is None
        &&& self.hashes is None
    }

    /// A builder with nothing set.
    pub fn new() -> (r: TorrentListGetConfigBuilder)
        ensures
            r.is_empty(),
    {
        TorrentListGetConfigBuilder {
            filter: None,
            category: None,
            tag: None,
            sort: None,
            reverse: None,
            limit: None,
            offset: None,
            hashes: None,
        }
    }

    /// The filter: the state by its name, the category as
    /// `Category::get_str_category` gives it, the hashes separated by `|`,
    /// and the other fields as they were set.
    pub fn build(self) -> (r: TorrentListGetConfig)
        ensures
            match self.filter {
                Some(st) => r.filter matches Some(f) && f@ == state_name(st),
                None => r.filter is None,
            },
            match self.category {
                Some(Category::NoCategory) => r.category matches Some(c) && c@.len() == 0,
                Some(Category::Custom(name)) => r.category matches Some(c) && c@ == name@,
                _ => r.category is None,
            },
            r.tag == self.tag,
            r.sort == self.sort,
            r.reverse == self.reverse,
            r.limit == self.limit,
            r.offset == self.offset,
            match self.hashes {
                Some(v) => r.hashes matches Some(h) && h@.items == v.deep_view() && h@.separator
                    == "|"@,
                None => r.hashes is None,
            },
    {
        let filter = match self.filter {
            Some(st) => Some(st.get_str_state()),
            None => None,
        };
        let category = match self.category {
            Some(c) => c.get_str_category(),
            None => None,
        };
        let hashes = match self.hashes {
            Some(v) => Some(SepVec::new(v, String::from_str("|"))),
            None => None,
        };
        TorrentListGetConfig {
            filter,
            category,
            tag: self.tag,
            sort: self.sort,
            reverse: self.reverse,
            limit: self.limit,
            offset: self.offset,
            hashes,
        }
    }

    /// Sets the state filter.
    pub fn filter(self, value: State) -> (r: Self)
        ensures
            r == (TorrentListGetConfigBuilder { filter: Some(value), ..self }),
    {
        TorrentListGetConfigBuilder { filter: Some(value), ..self }
    }

    /// Sets the category filter.
    pub fn category(self, value: Category) -> (r: Self)
        ensures
            r == (TorrentListGetConfigBuilder { category: Some(value), ..self }),
    {
        TorrentListGetConfigBuilder { category: Some(value), ..self }
    }

    /// Sets the tag filter.
    pub fn tag(self, value: String) -> (r: Self)
        ensures
            r == (TorrentListGetConfigBuilder { tag: Some(value), ..self }),
    {
        TorrentListGetConfigBuilder { tag: Some(value), ..self }
    }

    /// Sets the field to sort by.
    pub fn sort(self, value: String) -> (r: Self)
        ensures
            r == (TorrentListGetConfigBuilder { sort: Some(value), ..self }),
    {
        TorrentListGetConfigBuilder { sort: Some(value), ..self }
    }

    /// Sets whether the order is reversed.
    pub fn reverse(self, value: bool) -> (r: Self)
        ensures
            r == (TorrentListGetConfigBuilder { reverse: Some(value), ..self }),
    {
        TorrentListGetConfigBuilder { reverse: Some(value), ..self }
    }

    /// Sets the largest number of torrents returned.
    pub fn limit(self, value: u64) -> (r: Self)
        ensures
            r == (TorrentListGetConfigBuilder { limit: Some(value), ..self }),
    {
        TorrentListGetConfigBuilder { limit: Some(value), ..self }
    }

    /// Sets the offset of the first torrent returned.
    pub fn offset(self, value: i64) -> (r: Self)
        ensures
            r == (TorrentListGetConfigBuilder { offset: Some(value), ..self }),
    {
        TorrentListGetConfigBuilder { offset: Some(value), ..self }
    }

    /// Restricts the list to the torrents with these hashes.
    pub fn hashes(self, value: Vec<String>) -> (r: Self)
        ensures
            r == (TorrentListGetConfigBuilder { hashes: Some(value), ..self }),
    {
        TorrentListGetConfigBuilder { hashes: Some(value), ..self }
    }
}

/// Either every torrent, or the chosen ones.
#[derive(Debug, Clone)]
pub enum TorrentHashesDesc {
    All,
    Hashes(Vec<TorrentHash>),
}

/// The hashes of `v`, in order.
pub open spec fn hashes_of(v: Seq<TorrentHash>) -> Seq<Seq<char>> {
    Seq::new(v.len(), |i: int| v[i].hash@)
}

impl TorrentHashesDesc {
    /// The value sent for this selection: `all`, or the hashes joined by
    /// `separator`.
    pub fn get_string(&self, separator: &str) -> (r: String)
        ensures
            match self {
                TorrentHashesDesc::All => r@ == "all"@,
                TorrentHashesDesc::Hashes(v) => r@ == join(hashes_of(v@), separator@),
            },
    {
        match self {
            TorrentHashesDesc::All => String::from_str("all"),
            TorrentHashesDesc::Hashes(v) => {
                let mut hashes: Vec<String> = Vec::new();
                let mut i: usize = 0;
                while i < v.len()
                    invariant
                        i <= v@.len(),
                        hashes@.len() == i,
                        forall|k: int| 0 <= k < i ==> #[trigger] hashes@[k]@ == v@[k].hash@,
                    decreases v@.len() - i,
                {
                    hashes.push(v[i].hash.clone());
                    i = i + 1;
                }
                assert(hashes.deep_view() =~= hashes_of(v@));
                SepVec::new(hashes, String::from_str(separator)).to_string()
            },
        }
    }
}

/// One file of a torrent: its index within the torrent and its name.
#[derive(Debug, Clone)]
pub struct TorrentContent {
    pub id: u64,
    pub name: String,
}

/// How a torrent to add is given.
#[derive(Debug, Clone)]
pub enum TorrentType {
    /// By a URL or magnet link.
    Url(String),
    /// By the path of a `.torrent` file, read when the torrent is added.
    TorrentFile(String),
}

/// A torrent to add, as it is sent.
#[derive(Debug, Clone)]
pub enum TorrentInner {
    Url(String),
    RawTorrent(String),
}

/// A torrent to add.
#[derive(Debug, Clone)]
pub struct Torrent {
    inner: TorrentInner,
}

impl Torrent {
    /// The torrent that `torrent_type` describes. A file is not read here.
    pub fn new(torrent_type: TorrentType) -> (r: Torrent)
        ensures
            match torrent_type {
                TorrentType::Url(s) => r.view() matches TorrentInner::Url(t) && t@ == s@,
                TorrentType::TorrentFile(s) => r.view() matches TorrentInner::RawTorrent(t) && t@
                    == s@,
            },
    {
        match torrent_type {
            TorrentType::Url(s) => Torrent { inner: TorrentInner::Url(s) },
            TorrentType::TorrentFile(s) => Torrent { inner: TorrentInner::RawTorrent(s) },
        }
    }

    /// How the torrent is sent.
    pub closed spec fn view(&self) -> TorrentInner {
        self.inner
    }

    /// How the torrent is sent.
    pub fn get_inner(&self) -> (r: TorrentInner)
        ensures
            match (r, self.view()) {
                (TorrentInner::Url(a), TorrentInner::Url(b)) => a@ == b@,
                (TorrentInner::RawTorrent(a), TorrentInner::RawTorrent(b)) => a@ == b@,
                _ => false,
            },
    {
        match &self.inner {
            TorrentInner::Url(s) => TorrentInner::Url(s.clone()),
            TorrentInner::RawTorrent(s) => TorrentInner::RawTorrent(s.clone()),
        }
    }
}

} // verus!
