use vstd::prelude::*;

verus! {

/// `o` holds a string whose characters are `s`.
pub open spec fn holds_str(o: Option<String>, s: Seq<char>) -> bool {
    o matches Some(x) && x@ == s
}

/// The characters of each string of `v`, in order.
pub open spec fn strs(v: Seq<String>) -> Seq<Seq<char>> {
    v.map_values(|s: String| s@)
}

/// Identity of the IRC network the bot is connected to.
#[derive(Clone)]
pub struct Network {
    pub name: String,
}

impl Default for Network {
    fn default() -> (r: Self)
        ensures
            r.name@ == "default"@,
    {
        Network { name: String::from_str("default") }
    }
}


/// Optional behaviours of the bot, each off unless switched on.
#[derive(Clone)]
pub struct Features {
    pub report_metadata: bool,
    pub report_mime: bool,
    pub mask_highlights: bool,
    pub send_notice: bool,
    pub history: bool,
    pub invite: bool,
    pub autosave: bool,
    pub send_errors_to_poster: bool,
    pub reply_with_errors: bool,
    pub partial_urls: bool,
    pub nick_response: bool,
}

impl Features {
    /// Every feature is switched off.
    pub open spec fn all_off(self) -> bool {
        !self.report_metadata && !self.report_mime && !self.mask_highlights && !self.send_notice
            && !self.history && !self.invite && !self.autosave && !self.send_errors_to_poster
            && !self.reply_with_errors && !self.partial_urls && !self.nick_response
    }
}

impl Default for Features {
    fn default() -> (r: Self)
        ensures
            r.all_off(),
    {
        Features {
            report_metadata: false,
            report_mime: false,
            mask_highlights: false,
            send_notice: false,
            history: false,
            invite: false,
            autosave: false,
            send_errors_to_poster: false,
            reply_with_errors: false,
            partial_urls: false,
            nick_response: false,
        }
    }
}

/// Storage behind the message history.
#[derive(Clone, Copy, PartialEq, Eq, Structural)]
pub enum DbType {
    InMemory,
    SQLite,
}

impl Default for DbType {
    fn default() -> (r: Self)
        ensures
            r == DbType::InMemory,
    {
        DbType::InMemory
    }
}

/// Selection of the history storage and the file it may live in.
#[derive(Clone)]
pub struct Database {
    pub db_type: DbType,
    pub path: Option<String>,
}

impl Default for Database {
    fn default() -> (r: Self)
        ensures
            r.db_type == DbType::InMemory,
            r.path is None,
    {
        Database { db_type: DbType::default(), path: None }
    }
}

/// Tunable limits and strings.
#[derive(Clone)]
pub struct Parameters {
    pub url_limit: u8,
    pub accept_lang: String,
    pub status_channels: Vec<String>,
    pub nick_response_str: String,
}

impl Default for Parameters {
    fn default() -> (r: Self)
        ensures
            r.url_limit == 10,
            r.accept_lang@ == "en"@,
            r.status_channels@.len() == 0,
            r.nick_response_str@.len() == 0,
    {
        Parameters {
            url_limit: 10,
            accept_lang: String::from_str("en"),
            status_channels: Vec::new(),
            nick_response_str: String::new(),
        }
    }
}

/// Settings that the IRC client connects with. Every field may be absent;
/// the channel list holds the channels the bot joins.
#[derive(Clone)]
pub struct Connection {
    pub nickname: Option<String>,
    pub nick_password: Option<String>,
    pub alt_nicks: Option<Vec<String>>,
    pub username: Option<String>,
    pub realname: Option<String>,
    pub server: Option<String>,
    pub port: Option<u16>,
    pub password: Option<String>,
    pub use_ssl: Option<bool>,
    pub channels: Option<Vec<String>>,
    pub user_info: Option<String>,
    pub version: Option<String>,
}

impl Connection {
    /// The channel list, as the names it holds.
    pub open spec fn channel_names(self) -> Option<Seq<Seq<char>>> {
        match self.channels {
            Some(v) => Some(strs(v@)),
            None => None,
        }
    }

    /// The connection settings that a fresh configuration starts from.
    pub open spec fn is_initial(self) -> bool {
        &&& holds_str(self.nickname, "url-bot-rs"@)
        &&& holds_str(self.nick_password, Seq::empty())
        &&& (self.alt_nicks matches Some(a) && strs(a@) == seq!["url-bot-rs_"@])
        &&& holds_str(self.username, "url-bot-rs"@)
        &&& holds_str(self.realname, "url-bot-rs"@)
        &&& holds_str(self.server, "127.0.0.1"@)
        &&& self.port == Some(6667u16)
        &&& holds_str(self.password, Seq::empty())
        &&& self.use_ssl == Some(false)
        &&& self.channel_names() == Some(seq!["#url-bot-rs"@])
        &&& holds_str(self.user_info, "Feed me URLs."@)
        &&& self.version is None
    }
}

/// The whole configuration file.
#[derive(Clone)]
pub struct Conf {
    pub network: Network,
    pub features: Features,
    pub params: Parameters,
    pub database: Database,
    pub client: Connection,
}

impl Conf {
    /// Every setting holds its default value.
    pub open spec fn is_default(self) -> bool {
        &&& self.network.name@ == "default"@
        &&& self.features.all_off()
        &&& self.params.url_limit == 10
        &&& self.params.accept_lang@ == "en"@
        &&& self.params.status_channels@.len() == 0
        &&& self.params.nick_response_str@.len() == 0
        &&& self.database.db_type == DbType::InMemory
        &&& self.database.path is None
        &&& self.client.is_initial()
    }
}

fn single(s: &str) -> (r: Vec<String>)
    ensures
        strs(r@) == seq![s@],
{
    let mut v: Vec<String> = Vec::new();
    v.push(String::from_str(s));
    assert(strs(v@) =~= seq![s@]);
    v
}

impl Default for Conf {
    fn default() -> (r: Self)
        ensures
            r.is_default(),
    {
        let client = Connection {
            nickname: Some(String::from_str("url-bot-rs")),
            nick_password: Some(String::new()),
            alt_nicks: Some(single("url-bot-rs_")),
            username: Some(String::from_str("url-bot-rs")),
            realname: Some(String::from_str("url-bot-rs")),
            server: Some(String::from_str("127.0.0.1")),
            port: Some(6667),
            password: Some(String::new()),
            use_ssl: Some(false),
            channels: Some(single("#url-bot-rs")),
            user_info: Some(String::from_str("Feed me URLs.")),
            version: None,
        };
        Conf {
            network: Network::default(),
            features: Features::default(),
            params: Parameters::default(),
            database: Database::default(),
            client,
        }
    }
}


/// `cs` with `name` appended, unless it already holds it.
pub open spec fn with_channel(cs: Seq<Seq<char>>, name: Seq<char>) -> Seq<Seq<char>> {
    if cs.contains(name) {
        cs
    } else {
        cs.push(name)
    }
}

/// `i` is the position of the first occurrence of `name` in `cs`.
pub open spec fn is_first_index(cs: Seq<Seq<char>>, name: Seq<char>, i: int) -> bool {
    &&& 0 <= i < cs.len()
    &&& cs[i] == name
    &&& forall|j: int| 0 <= j < i ==> cs[j] != name
}

/// `cs` without the first occurrence of `name`, or `cs` itself where `name`
/// does not occur.
pub open spec fn without_channel(cs: Seq<Seq<char>>, name: Seq<char>) -> Seq<Seq<char>> {
    if cs.contains(name) {
        cs.remove(choose|i: int| is_first_index(cs, name, i))
    } else {
        cs
    }
}

/// The channel list after adding `name` to `chans`, as `add_channel` does it.
pub open spec fn added(chans: Option<Seq<Seq<char>>>, name: Seq<char>) -> Option<Seq<Seq<char>>> {
    match chans {
        Some(cs) => Some(with_channel(cs, name)),
        None => None,
    }
}

/// The channel list after removing `name` from `chans`, as `remove_channel`
/// does it.
pub open spec fn removed(chans: Option<Seq<Seq<char>>>, name: Seq<char>) -> Option<Seq<Seq<char>>> {
    match chans {
        Some(cs) => Some(without_channel(cs, name)),
        None => None,
    }
}

/// `a` and `b` agree on every setting but the channel list.
pub open spec fn same_but_channels(a: Conf, b: Conf) -> bool {
    &&& a.network == b.network
    &&& a.features == b.features
    &&& a.params == b.params
    &&& a.database == b.database
    &&& a.client.nickname == b.client.nickname
    &&& a.client.nick_password == b.client.nick_password
    &&& a.client.alt_nicks == b.client.alt_nicks
    &&& a.client.username == b.client.username
    &&& a.client.realname == b.client.realname
    &&& a.client.server == b.client.server
    &&& a.client.port == b.client.port
    &&& a.client.password == b.client.password
    &&& a.client.use_ssl == b.client.use_ssl
    &&& a.client.user_info == b.client.user_info
    &&& a.client.version == b.client.version
}

/// Position of the first string of `v` equal to `name`.
fn position_of(v: &Vec<String>, name: &String) -> (r: Option<usize>)
    ensures
        match r {
            Some(i) => is_first_index(strs(v@), name@, i as int),
            None => !strs(v@).contains(name@),
        },
{
    let mut i: usize = 0;
    while i < v.len()
        invariant
            i <= v@.len(),
            forall|j: int| 0 <= j < i ==> v@[j]@ != name@,
        decreases v@.len() - i,
    {
        if v[i] == *name {
            return Some(i);
        }
        i = i + 1;
    }
    proof {
        if strs(v@).contains(name@) {
            let k = choose|k: int| 0 <= k < strs(v@).len() && strs(v@)[k] == name@;
            assert(v@[k]@ == name@);
        }
    }
    None
}

impl Conf {
    /// Adds an IRC channel to the end of the channel list, unless the list
    /// already holds it.
    pub fn add_channel(&mut self, name: String)
        ensures
            final(self).client.channel_names() == added(old(self).client.channel_names(), name@),
            same_but_channels(*final(self), *old(self)),
    {
        if let Some(ref mut c) = self.client.channels {
            if position_of(c, &name).is_none() {
                let ghost before = c@;
                c.push(name);
                assert(strs(c@) =~= strs(before).push(name@));
            }
        }
    }

    /// Removes the first occurrence of an IRC channel from the channel list.
    pub fn remove_channel(&mut self, name: &str)
        ensures
            final(self).client.channel_names() == removed(old(self).client.channel_names(), name@),
            same_but_channels(*final(self), *old(self)),
    {
        let name = String::from_str(name);
        if let Some(ref mut c) = self.client.channels {
            if let Some(index) = position_of(c, &name) {
                let ghost before = c@;
                c.remove(index);
                proof {
                    let k = choose|i: int| is_first_index(strs(before), name@, i);
                    assert(k == index as int);
                    assert(strs(c@) =~= strs(before).remove(index as int));
                }
            }
        }
    }
}


/// Adding a channel twice changes the list only the first time: the earlier
/// entries keep their order, and a name that was missing ends up last.
pub proof fn lemma_add_channel_idempotent(chans: Option<Seq<Seq<char>>>, name: Seq<char>)
    ensures
        added(added(chans, name), name) == added(chans, name),
        chans matches Some(cs) ==> {
            &&& added(chans, name) matches Some(ds)
            &&& ds.subrange(0, cs.len() as int) == cs
            &&& ds.contains(name)
            &&& cs.contains(name) ==> ds == cs
            &&& !cs.contains(name) ==> ds.len() == cs.len() + 1 && ds.last() == name
        },
{
    if let Some(cs) = chans {
        if !cs.contains(name) {
            let ds = cs.push(name);
            assert(ds[cs.len() as int] == name);
            assert(ds.subrange(0, cs.len() as int) =~= cs);
        } else {
            assert(cs.subrange(0, cs.len() as int) =~= cs);
        }
    }
}

/// Removing a channel that the list does not hold leaves the list as it was.
pub proof fn lemma_remove_absent_channel(chans: Option<Seq<Seq<char>>>, name: Seq<char>)
    requires
        chans matches Some(cs) ==> !cs.contains(name),
    ensures
        removed(chans, name) == chans,
{
}

} // verus!
