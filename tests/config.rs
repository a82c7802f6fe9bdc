use directories::BaseDirs;
use url_bot_rs::{
    expand_tilde, expand_tilde_with, parent_dir, Assembly, Conf, DbType, Outcome, Rtd, Stage,
    Step,
};

fn check_channels(rtd: &Rtd, contains: &str, len: usize) {
    let c = rtd.conf.client.channels.clone().unwrap();
    println!("{:?}", c);

    assert!(c.contains(&contains.to_string()));
    assert_eq!(len, c.len());
}

#[test]
fn conf_add_remove_channel() {
    let mut rtd = Rtd::default();
    check_channels(&rtd, "#url-bot-rs", 1);

    rtd.conf.add_channel("#cheese".to_string());
    check_channels(&rtd, "#cheese", 2);

    rtd.conf.add_channel("#cheese-2".to_string());
    check_channels(&rtd, "#cheese-2", 3);

    rtd.conf.remove_channel(&"#cheese-2".to_string());
    let c = rtd.conf.client.channels.clone().unwrap();

    assert!(!c.contains(&"#cheese-2".to_string()));
    assert_eq!(2, c.len());
}

#[test]
fn test_expand_tilde() {
    let homedir = BaseDirs::new().unwrap().home_dir().to_owned();

    assert_eq!(expand_tilde("/"), "/");
    assert_eq!(expand_tilde("/abc/~def/ghi/"), "/abc/~def/ghi/");
    assert_eq!(expand_tilde("~/"), format!("{}/", homedir.to_str().unwrap()));
    assert_eq!(
        expand_tilde("~/ac/df/gi/"),
        format!("{}/ac/df/gi/", homedir.to_str().unwrap())
    );
}

fn channels(conf: &Conf) -> Vec<String> {
    conf.client.channels.clone().unwrap()
}

#[test]
fn add_channel_twice_appends_once() {
    let mut conf = Conf::default();
    conf.add_channel("#a".to_string());
    assert_eq!(channels(&conf), vec!["#url-bot-rs".to_string(), "#a".to_string()]);
    conf.add_channel("#a".to_string());
    assert_eq!(channels(&conf), vec!["#url-bot-rs".to_string(), "#a".to_string()]);
}

#[test]
fn add_channel_is_case_sensitive() {
    let mut conf = Conf::default();
    conf.add_channel("#URL-BOT-RS".to_string());
    assert_eq!(
        channels(&conf),
        vec!["#url-bot-rs".to_string(), "#URL-BOT-RS".to_string()]
    );
}

#[test]
fn add_channel_without_list_does_nothing() {
    let mut conf = Conf::default();
    conf.client.channels = None;
    conf.add_channel("#a".to_string());
    assert!(conf.client.channels.is_none());
}

#[test]
fn remove_absent_channel_keeps_list() {
    let mut conf = Conf::default();
    conf.add_channel("#b".to_string());
    conf.remove_channel("#zzz");
    assert_eq!(channels(&conf), vec!["#url-bot-rs".to_string(), "#b".to_string()]);
}

#[test]
fn remove_channel_takes_first_match_only() {
    let mut conf = Conf::default();
    conf.client.channels = Some(vec![
        "#x".to_string(),
        "#y".to_string(),
        "#x".to_string(),
    ]);
    conf.remove_channel("#x");
    assert_eq!(channels(&conf), vec!["#y".to_string(), "#x".to_string()]);
}

#[test]
fn default_conf_values() {
    let conf = Conf::default();
    assert_eq!(conf.network.name, "default");
    assert!(!conf.features.history);
    assert!(!conf.features.nick_response);
    assert_eq!(conf.params.url_limit, 10);
    assert_eq!(conf.params.accept_lang, "en");
    assert!(conf.params.status_channels.is_empty());
    assert_eq!(conf.params.nick_response_str, "");
    assert!(conf.database.db_type == DbType::InMemory);
    assert!(conf.database.path.is_none());
    assert_eq!(conf.client.nickname.as_deref(), Some("url-bot-rs"));
    assert_eq!(conf.client.alt_nicks, Some(vec!["url-bot-rs_".to_string()]));
    assert_eq!(conf.client.server.as_deref(), Some("127.0.0.1"));
    assert_eq!(conf.client.port, Some(6667));
    assert_eq!(conf.client.use_ssl, Some(false));
    assert_eq!(conf.client.user_info.as_deref(), Some("Feed me URLs."));
    assert!(conf.client.version.is_none());
}

#[test]
fn expand_with_given_home() {
    assert_eq!(expand_tilde_with("/abs/path", "/home/u"), "/abs/path");
    assert_eq!(expand_tilde_with("~/sub", "/home/u"), "/home/u/sub");
    assert_eq!(expand_tilde_with("~/sub", "/home/u/"), "/home/u/sub");
    assert_eq!(expand_tilde_with("~", "/home/u"), "/home/u/");
    assert_eq!(expand_tilde_with("a/~/b", "/home/u"), "a/~/b");
    assert_eq!(expand_tilde_with("~user/x", "/home/u"), "~user/x");
    assert_eq!(expand_tilde_with("", "/home/u"), "");
}

#[test]
fn parent_dir_cases() {
    assert_eq!(parent_dir("test.f"), None);
    assert_eq!(parent_dir("./test.f"), Some(".".to_string()));
    assert_eq!(parent_dir("../dir/file"), Some("../dir".to_string()));
    assert_eq!(parent_dir("dir2/file"), Some("dir2".to_string()));
    assert_eq!(parent_dir("/tmp/x/test/test.file"), Some("/tmp/x/test".to_string()));
    assert_eq!(parent_dir("/file"), Some("/".to_string()));
    assert_eq!(parent_dir("/"), None);
    assert_eq!(parent_dir(""), None);
    assert_eq!(parent_dir("dir/"), None);
    assert_eq!(parent_dir("a//b/"), Some("a".to_string()));
}

fn history_conf(path: Option<&str>) -> Conf {
    let mut conf = Conf::default();
    conf.features.history = true;
    conf.database.db_type = DbType::SQLite;
    conf.database.path = path.map(|p| p.to_string());
    conf
}

#[test]
fn db_info_precedence() {
    let mut rtd = Rtd::new();
    assert_eq!(rtd.get_db_info(), None);

    rtd.conf = history_conf(Some("data/hist.db"));
    assert_eq!(rtd.get_db_info(), Some("data/hist.db".to_string()));

    rtd.db(Some("other/h.db"));
    assert_eq!(rtd.get_db_info(), Some("other/h.db".to_string()));

    rtd.conf.database.db_type = DbType::InMemory;
    assert_eq!(rtd.get_db_info(), None);

    rtd.conf = history_conf(None);
    rtd.db(None);
    assert_eq!(rtd.get_db_info(), None);

    rtd.conf.features.history = false;
    rtd.db(Some("other/h.db"));
    assert_eq!(rtd.get_db_info(), None);
}

fn step_path(step: &Step) -> Option<String> {
    match step {
        Step::EnsureDir(p) | Step::CheckFile(p) | Step::WriteDefault(p) | Step::ReadConf(p) => {
            Some(p.clone())
        }
        Step::Finished => None,
    }
}

#[test]
fn assemble_fresh_directory() {
    let mut rtd = Rtd::new();
    rtd.conf("target/dir/config.toml");
    let mut build = Assembly::new(rtd, "1.2.3");

    let step = build.step();
    assert!(matches!(step, Step::EnsureDir(_)));
    assert_eq!(step_path(&step).unwrap(), "target/dir/config.toml");

    let step = build.advance(Outcome::DirReady);
    assert!(matches!(step, Step::CheckFile(_)));
    let step = build.advance(Outcome::FileExists(false));
    assert!(matches!(step, Step::WriteDefault(_)));
    assert_eq!(step_path(&step).unwrap(), "target/dir/config.toml");
    let step = build.advance(Outcome::Written);
    assert!(matches!(step, Step::ReadConf(_)));
    let step = build.advance(Outcome::Read(Conf::default()));
    assert!(matches!(step, Step::Finished));

    let rtd = build.into_rtd();
    assert!(!rtd.history);
    assert!(rtd.paths.db.is_none());
    assert_eq!(rtd.paths.conf, "target/dir/config.toml");
    assert_eq!(rtd.conf.client.version.as_deref(), Some("1.2.3"));
}

#[test]
fn assemble_existing_conf_skips_default() {
    let mut rtd = Rtd::new();
    rtd.conf("config.toml");
    let mut build = Assembly::new(rtd, "1.0");
    build.advance(Outcome::DirReady);
    let step = build.advance(Outcome::FileExists(true));
    assert!(matches!(step, Step::ReadConf(_)));
}

#[test]
fn assemble_with_configured_db_path() {
    let mut rtd = Rtd::new();
    rtd.conf("conf/config.toml");
    let mut build = Assembly::new(rtd, "0.1");
    build.advance(Outcome::DirReady);
    build.advance(Outcome::FileExists(true));
    let step = build.advance(Outcome::Read(history_conf(Some("data/hist.db"))));
    assert!(matches!(step, Step::EnsureDir(_)));
    assert_eq!(step_path(&step).unwrap(), "data/hist.db");
    let step = build.advance(Outcome::DirReady);
    assert!(matches!(step, Step::Finished));
    assert!(build.stage == Stage::Done);

    let rtd = build.into_rtd();
    assert!(rtd.history);
    assert_eq!(rtd.paths.db.as_deref(), Some("data/hist.db"));
}

#[test]
fn assemble_with_override_db_path() {
    let mut rtd = Rtd::new();
    rtd.conf("conf/config.toml");
    rtd.db(Some("override/h.db"));
    let mut build = Assembly::new(rtd, "0.1");
    build.advance(Outcome::DirReady);
    build.advance(Outcome::FileExists(true));
    let step = build.advance(Outcome::Read(history_conf(Some("data/hist.db"))));
    assert_eq!(step_path(&step).unwrap(), "override/h.db");
    build.advance(Outcome::DirReady);
    let rtd = build.into_rtd();
    assert_eq!(rtd.paths.db.as_deref(), Some("override/h.db"));
}

#[test]
fn assemble_ignores_unexpected_outcome() {
    let mut rtd = Rtd::new();
    rtd.conf("c.toml");
    let mut build = Assembly::new(rtd, "0.1");
    let step = build.advance(Outcome::Written);
    assert!(matches!(step, Step::EnsureDir(_)));
    assert!(build.stage == Stage::ConfDir);
}
