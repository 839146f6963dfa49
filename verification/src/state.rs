//! What the process keeps for its lifetime: the application key, the session
//! token, and the methods each service may be asked for.

use crate::text::{
    chars_of, cut_at_first, index_of_char, is_blank, is_blank_text, split, split_text, str_eq,
    text_of, trim, trimmed, views,
};
use vstd::hash_set::StringHashSet;
use vstd::prelude::*;

verus! {

/// The methods of the betting service that may be called.
pub open spec fn betting_methods() -> Set<Seq<char>> {
    set![
        "listEventTypes"@,
        "listCompetitions"@,
        "listTimeRanges"@,
        "listEvents"@,
        "listMarketTypes"@,
        "listCountries"@,
        "listVenues"@,
        "listMarketCatalogue"@,
        "listMarketBook"@,
        "listRunnerBook"@,
        "listCurrentOrders"@,
        "listClearedOrders"@,
        "listMarketProfitAndLoss"@,
        "placeOrders"@,
        "cancelOrders"@,
        "replaceOrders"@,
        "updateOrders"@,
    ]
}

/// The methods of the account service that may be called.
pub open spec fn account_methods() -> Set<Seq<char>> {
    set![
        "getAccountFunds"@,
        "getAccountDetails"@,
        "getDeveloperAppKeys"@,
        "getVendorClientId"@,
        "listCurrencyRates"@,
        "getAccountStatement"@,
    ]
}

/// The methods of the heartbeat service that may be called.
pub open spec fn heartbeat_methods() -> Set<Seq<char>> {
    set!["keepAlive"@]
}

/// The allowlist of the betting service.
pub fn build_allowlist_betting() -> (methods: StringHashSet)
    ensures
        methods@ == betting_methods(),
{
    let mut methods = StringHashSet::new();
    methods.insert("listEventTypes".to_owned());
    methods.insert("listCompetitions".to_owned());
    methods.insert("listTimeRanges".to_owned());
    methods.insert("listEvents".to_owned());
    methods.insert("listMarketTypes".to_owned());
    methods.insert("listCountries".to_owned());
    methods.insert("listVenues".to_owned());
    methods.insert("listMarketCatalogue".to_owned());
    methods.insert("listMarketBook".to_owned());
    methods.insert("listRunnerBook".to_owned());
    methods.insert("listCurrentOrders".to_owned());
    methods.insert("listClearedOrders".to_owned());
    methods.insert("listMarketProfitAndLoss".to_owned());
    methods.insert("placeOrders".to_owned());
    methods.insert("cancelOrders".to_owned());
    methods.insert("replaceOrders".to_owned());
    methods.insert("updateOrders".to_owned());
    methods
}

/// The allowlist of the account service.
pub fn build_allowlist_account() -> (methods: StringHashSet)
    ensures
        methods@ == account_methods(),
{
    let mut methods = StringHashSet::new();
    methods.insert("getAccountFunds".to_owned());
    methods.insert("getAccountDetails".to_owned());
    methods.insert("getDeveloperAppKeys".to_owned());
    methods.insert("getVendorClientId".to_owned());
    methods.insert("listCurrencyRates".to_owned());
    methods.insert("getAccountStatement".to_owned());
    methods
}

/// The allowlist of the heartbeat service.
pub fn build_allowlist_heartbeat() -> (methods: StringHashSet)
    ensures
        methods@ == heartbeat_methods(),
{
    let mut methods = StringHashSet::new();
    methods.insert("keepAlive".to_owned());
    methods
}

/// The application key the process runs with: the embedded one unless it is
/// blank, else the one from the environment, else none.
pub open spec fn resolved_app_key(embedded: Seq<char>, from_env: Option<Seq<char>>) -> Seq<char> {
    if !is_blank(embedded) {
        embedded
    } else {
        match from_env {
            Some(key) => key,
            None => Seq::empty(),
        }
    }
}

/// Picks the application key: `embedded` is the key the build carries (empty
/// where it carries none), `from_env` the value of the environment variable
/// `BETFAIR_APP_KEY` where it is set.
pub fn resolve_app_key(embedded: &str, from_env: Option<&str>) -> (key: String)
    ensures
        key@ == resolved_app_key(
            embedded@,
            match from_env {
                Some(v) => Some(v@),
                None => None,
            },
        ),
{
    if !is_blank_text(embedded) {
        return embedded.to_owned();
    }
    match from_env {
        Some(value) => value.to_owned(),
        None => String::new(),
    }
}

/// `v` without the pair of double or single quotes around it, where it has
/// one.
pub open spec fn unquoted(v: Seq<char>) -> Seq<char> {
    if v.len() >= 2 && ((v.first() == '"' && v.last() == '"') || (v.first() == '\'' && v.last()
        == '\'')) {
        v.subrange(1, v.len() - 1)
    } else {
        v
    }
}

/// The value that a line of an environment file gives the application key,
/// where the line sets it. Blank lines and lines that start with `#` set
/// nothing, nor do lines without `=` or with another name before it.
pub open spec fn line_app_key(line: Seq<char>) -> Option<Seq<char>> {
    let t = trimmed(line);
    let i = index_of_char(t, '=');
    if t.len() == 0 || t.first() == '#' || !(0 <= i < t.len()) || trimmed(t.take(i))
        != "BETFAIR_APP_KEY"@ {
        None
    } else {
        Some(unquoted(trimmed(t.skip(i + 1))))
    }
}

/// The application key that the first line among `lines` that sets it gives,
/// unless that value is blank.
pub open spec fn app_key_in_lines(lines: Seq<Seq<char>>) -> Option<Seq<char>>
    decreases lines.len(),
{
    if lines.len() == 0 {
        None
    } else {
        match line_app_key(lines.first()) {
            Some(value) => if is_blank(value) {
                None
            } else {
                Some(value)
            },
            None => app_key_in_lines(lines.drop_first()),
        }
    }
}

/// The application key that an environment file sets.
pub open spec fn dotenv_app_key(text: Seq<char>) -> Option<Seq<char>> {
    app_key_in_lines(split(text, '\n'))
}

fn read_line_app_key(line: &str) -> (value: Option<String>)
    ensures
        match value {
            Some(v) => line_app_key(line@) == Some(v@),
            None => line_app_key(line@) is None,
        },
{
    let t = trim(line);
    let chars = chars_of(t.as_str());
    if chars.len() == 0 || chars[0] == '#' {
        return None;
    }
    let (name, rest) = match cut_at_first(t.as_str(), '=') {
        Some(halves) => halves,
        None => {
            return None;
        },
    };
    let name = trim(name.as_str());
    if !str_eq(name.as_str(), "BETFAIR_APP_KEY") {
        return None;
    }
    let rest = trim(rest.as_str());
    let v = chars_of(rest.as_str());
    let n = v.len();
    if n >= 2 && ((v[0] == '"' && v[n - 1] == '"') || (v[0] == '\'' && v[n - 1] == '\'')) {
        Some(text_of(&v, 1, n - 1))
    } else {
        Some(rest)
    }
}

/// Reads the application key that the text of an environment file sets: the
/// value of the first line that sets `BETFAIR_APP_KEY`, without the quotes
/// around it, unless it is blank.
pub fn force_app_key_from_dotenv(text: &str) -> (key: Option<String>)
    ensures
        match key {
            Some(k) => dotenv_app_key(text@) == Some(k@),
            None => dotenv_app_key(text@) is None,
        },
{
    let lines = split_text(text, '\n');
    let ghost all = split(text@, '\n');
    let mut i: usize = 0;
    assert(all.skip(0) =~= all);
    while i < lines.len()
        invariant
            i <= lines.len(),
            views(lines@) == all,
            all == split(text@, '\n'),
            app_key_in_lines(all) == app_key_in_lines(all.skip(i as int)),
        decreases lines.len() - i,
    {
        assert(all.skip(i as int).first() == lines@[i as int]@);
        assert(all.skip(i as int).drop_first() =~= all.skip(i + 1));
        match read_line_app_key(lines[i].as_str()) {
            Some(value) => {
                if is_blank_text(value.as_str()) {
                    return None;
                }
                return Some(value);
            },
            None => {},
        }
        i += 1;
    }
    None
}

/// The credentials and allowlists of the process.
pub struct AppState {
    /// The application key, fixed at startup.
    pub app_key: String,
    /// The session token of the logged-in user. None, or an empty one, means
    /// that nobody is logged in.
    pub session_token: Option<String>,
    pub allowlist_betting: StringHashSet,
    pub allowlist_account: StringHashSet,
    pub allowlist_heartbeat: StringHashSet,
}

impl AppState {
    /// Whether somebody is logged in.
    pub open spec fn logged_in(&self) -> bool {
        self.session_token matches Some(token) && token@.len() > 0
    }

    /// The state at startup: nobody is logged in, and each service has its
    /// allowlist.
    pub fn new(app_key: String) -> (state: Self)
        ensures
            state.app_key@ == app_key@,
            state.session_token is None,
            state.allowlist_betting@ == betting_methods(),
            state.allowlist_account@ == account_methods(),
            state.allowlist_heartbeat@ == heartbeat_methods(),
    {
        Self {
            app_key,
            session_token: None,
            allowlist_betting: build_allowlist_betting(),
            allowlist_account: build_allowlist_account(),
            allowlist_heartbeat: build_allowlist_heartbeat(),
        }
    }

    /// Whether somebody is logged in.
    pub fn is_logged_in(&self) -> (logged_in: bool)
        ensures
            logged_in == self.logged_in(),
    {
        match &self.session_token {
            Some(token) => !token.as_str().is_empty(),
            None => false,
        }
    }
}

} // verus!
