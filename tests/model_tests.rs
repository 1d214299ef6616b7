use qbittorrent_rust::error::{Error, ErrorType};
use qbittorrent_rust::log::{GetLogConfig, GetLogConfigBuilder};
use qbittorrent_rust::rss::RssAutoDownloadRule;
use qbittorrent_rust::search::{SearchPlugin, SearchPluginsDescriptor};
use qbittorrent_rust::sep_vec::SepVec;
use qbittorrent_rust::torrents::{
    Category, State, Torrent, TorrentHash, TorrentHashesDesc, TorrentInner, TorrentListGetConfig, TorrentType,
};

#[test]
fn error_messages() {
    let e = Error::build(ErrorType::MiscNetError(404), Some(404));
    assert_eq!(e.message, "there was an error during a request. error code: 404");
    let e = Error::build(ErrorType::MiscNetError(0), None);
    assert_eq!(e.message, "there was an error during a request. error code: 0");
    let e = Error::build(ErrorType::MiscNetError(65535), None);
    assert_eq!(e.message, "there was an error during a request. error code: 65535");
    assert_eq!(ErrorType::TorrentsNotSet.get_message(), "no torrents were specified.");
    assert_eq!(
        ErrorType::JsonSerdeError(String::from("eof")).get_message(),
        "there was an error while handling JSON data. error: eof"
    );
}

#[test]
fn state_names_round_trip() {
    let all = [
        State::All,
        State::Downloading,
        State::Seeding,
        State::Completed,
        State::Paused,
        State::Active,
        State::Inactive,
        State::Resumed,
        State::Stalled,
        State::StalledUploading,
        State::StalledDownloading,
        State::Errored,
    ];
    for s in all {
        let name = s.get_str_state();
        assert_eq!(State::get_state_from_str(name).unwrap(), s);
    }
    assert_eq!(State::StalledUploading.get_str_state(), "stalled_uploading");
    let e = State::get_state_from_str(String::from("sleeping")).unwrap_err();
    assert!(matches!(e.err_type, ErrorType::ParameterNotExpected));
    assert_eq!(e.code, None);
}

#[test]
fn categories() {
    assert!(matches!(Category::get_category_from_str(String::new()), Category::NoCategory));
    match Category::get_category_from_str(String::from("movies")) {
        Category::Custom(s) => assert_eq!(s, "movies"),
        other => panic!("unexpected {:?}", other),
    }
    assert_eq!(Category::NoCategory.get_str_category(), Some(String::new()));
    assert_eq!(Category::AnyCategory.get_str_category(), None);
    assert_eq!(Category::Custom(String::from("tv")).get_str_category(), Some(String::from("tv")));
}

#[test]
fn torrent_list_config() {
    let c = TorrentListGetConfig::new();
    assert!(c.filter.is_none() && c.category.is_none() && c.hashes.is_none());
    let c = TorrentListGetConfig::builder()
        .filter(State::Paused)
        .category(Category::NoCategory)
        .limit(10)
        .hashes(vec![String::from("a"), String::from("b")])
        .build();
    assert_eq!(c.filter, Some(String::from("paused")));
    assert_eq!(c.category, Some(String::new()));
    assert_eq!(c.limit, Some(10));
    assert_eq!(c.offset, None);
    assert_eq!(c.hashes.unwrap().to_string(), "a|b");
}

#[test]
fn torrent_hashes() {
    let v = TorrentHash::new_multiple(
        vec![String::from("n1"), String::from("n2"), String::from("n3")],
        vec![String::from("h1"), String::from("h2")],
    );
    assert_eq!(v.len(), 2);
    assert_eq!(v[1].name, "n2");
    assert_eq!(v[1].hash, "h2");
    assert_eq!(TorrentHashesDesc::All.get_string("|"), "all");
    assert_eq!(TorrentHashesDesc::Hashes(v).get_string("|"), "h1|h2");
    assert_eq!(TorrentHashesDesc::Hashes(vec![]).get_string("|"), "");
}

#[test]
fn sep_vec_layout() {
    let s = SepVec::new(vec![String::from("x"), String::from("y"), String::from("z")], String::from(","));
    assert_eq!(s.len_vector(), 3);
    assert_eq!(s.len_total(), 5);
    assert_eq!(s.to_vec(), vec!["x", ",", "y", ",", "z"]);
    assert_eq!(s.to_string(), "x,y,z");
    assert_eq!(s.inner_vec(), vec!["x", "y", "z"]);
    let empty = SepVec::new(vec![], String::from(","));
    assert_eq!(empty.len_total(), 0);
    assert!(empty.to_vec().is_empty());
    assert_eq!(empty.to_string(), "");
}

#[test]
fn torrents_to_add() {
    match Torrent::new(TorrentType::Url(String::from("magnet:?xt=abc"))).get_inner() {
        TorrentInner::Url(u) => assert_eq!(u, "magnet:?xt=abc"),
        other => panic!("unexpected {:?}", other),
    }
    match Torrent::new(TorrentType::TorrentFile(String::from("/tmp/a.torrent"))).get_inner() {
        TorrentInner::RawTorrent(p) => assert_eq!(p, "/tmp/a.torrent"),
        other => panic!("unexpected {:?}", other),
    }
}

#[test]
fn search_plugins() {
    let cats = vec![
        (String::from("1"), String::from("movies")),
        (String::from("2"), String::from("tv")),
    ];
    let p = SearchPlugin::new(String::from("piratebay"), &cats);
    assert_eq!(p.get_name(), "piratebay");
    assert_eq!(p.get_categories(), cats);
    assert_eq!(p.get_ids(), vec!["1", "2"]);
    assert_eq!(p.get_names(), vec!["movies", "tv"]);
    let many = SearchPlugin::from_vec(&vec![String::from("a"), String::from("b")], &vec![cats.clone()]);
    assert_eq!(many.len(), 1);
    assert_eq!(many[0].name, "a");
    let d = SearchPluginsDescriptor::Custom(many);
    assert_eq!(d.get_inner()[0].categories, cats);
}

#[test]
fn log_config() {
    let c = GetLogConfig::new();
    assert_eq!(
        c,
        GetLogConfig { normal: true, info: true, warning: true, critical: true, last_known_id: -1 }
    );
    assert_eq!(GetLogConfig::builder().build(), c);
    let c = GetLogConfigBuilder::new().info(false).last_known_id(42).build();
    assert!(c.normal);
    assert!(!c.info);
    assert_eq!(c.last_known_id, 42);
}

#[test]
fn rss_rule() {
    let r = RssAutoDownloadRule::builder().build();
    assert!(!r.enabled);
    assert_eq!(r.must_contain, "");
    assert!(r.affected_feeds.is_empty());
    assert_eq!(r.ignore_days, 0);
    let r = RssAutoDownloadRule::builder()
        .enabled(true)
        .must_contain(String::from("1080p"))
        .affected_feeds(vec![String::from("http://feed")])
        .ignore_days(3)
        .build();
    assert!(r.enabled);
    assert_eq!(r.must_contain, "1080p");
    assert_eq!(r.affected_feeds, vec!["http://feed"]);
    assert_eq!(r.ignore_days, 3);
}
