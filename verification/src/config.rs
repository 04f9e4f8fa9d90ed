use vstd::prelude::*;
use crate::row::{cell_at, is_text_or_null, text_value, typed_text, CellValue, CellView, Row};
use crate::text::{append_str, contains_text, has_prefix, has_substring, trim, trim_str};

verus! {

// ---------------------------------------------------------------------------
// Cloud database settings
// ---------------------------------------------------------------------------

/// The cloud settings file: where the database lives, its token, how often
/// to sync.
#[derive(Debug, Clone, PartialEq)]
pub struct TursoConfigJson {
    pub url: Option<String>,
    pub auth_token: Option<String>,
    pub sync_interval_ms: Option<u64>,
    pub sync_on_start: Option<bool>,
}

pub struct ConfigView {
    pub url: Option<Seq<char>>,
    pub auth_token: Option<Seq<char>>,
    pub sync_interval_ms: Option<u64>,
    pub sync_on_start: Option<bool>,
}

impl View for TursoConfigJson {
    type V = ConfigView;

    open spec fn view(&self) -> ConfigView {
        ConfigView {
            url: self.url.deep_view(),
            auth_token: self.auth_token.deep_view(),
            sync_interval_ms: self.sync_interval_ms,
            sync_on_start: self.sync_on_start,
        }
    }
}

/// The settings with nothing set.
pub open spec fn empty_config() -> ConfigView {
    ConfigView { url: None, auth_token: None, sync_interval_ms: None, sync_on_start: None }
}

impl TursoConfigJson {
    pub fn empty() -> (c: TursoConfigJson)
        ensures
            c@ == empty_config(),
    {
        TursoConfigJson { url: None, auth_token: None, sync_interval_ms: None, sync_on_start: None }
    }
}

/// A settings file is used when it names a database.
pub open spec fn names_database(c: ConfigView) -> bool {
    c.url matches Some(u) && u.len() > 0
}

/// The first settings file that names a database.
pub open spec fn first_usable(cands: Seq<Option<ConfigView>>) -> Option<ConfigView>
    decreases cands.len(),
{
    if cands.len() == 0 {
        None
    } else {
        match cands[0] {
            Some(c) => if names_database(c) {
                Some(c)
            } else {
                first_usable(cands.drop_first())
            },
            None => first_usable(cands.drop_first()),
        }
    }
}

pub open spec fn cands_view(v: Seq<Option<TursoConfigJson>>) -> Seq<Option<ConfigView>> {
    v.map_values(
        |o: Option<TursoConfigJson>|
            match o {
                Some(c) => Some(c@),
                None => None,
            },
    )
}

fn clone_config(c: &TursoConfigJson) -> (r: TursoConfigJson)
    ensures
        r@ == c@,
{
    TursoConfigJson {
        url: match &c.url {
            Some(u) => Some(u.clone()),
            None => None,
        },
        auth_token: match &c.auth_token {
            Some(t) => Some(t.clone()),
            None => None,
        },
        sync_interval_ms: c.sync_interval_ms,
        sync_on_start: c.sync_on_start,
    }
}

/// The settings chosen, and whether they are the built-in ones (which are
/// then written out for the user to edit).
pub struct ConfigChoice {
    pub config: TursoConfigJson,
    pub from_built_in: bool,
}

/// The settings in effect: the first of the settings files, in the order
/// they are looked for, that names a database (a file that is missing or
/// does not parse counts as `None`); else the built-in settings, if they
/// parse; else nothing set.
pub fn read_turso_config(
    candidates: &Vec<Option<TursoConfigJson>>,
    built_in: &Option<TursoConfigJson>,
) -> (r: ConfigChoice)
    ensures
        r.config@ == match first_usable(cands_view(candidates@)) {
            Some(c) => c,
            None => match built_in {
                Some(b) => b@,
                None => empty_config(),
            },
        },
        r.from_built_in <==> (first_usable(cands_view(candidates@)) is None && built_in is Some),
{
    let mut i: usize = 0;
    assert(cands_view(candidates@).skip(0) =~= cands_view(candidates@));
    while i < candidates.len()
        invariant
            i <= candidates@.len(),
            first_usable(cands_view(candidates@)) == first_usable(
                cands_view(candidates@).skip(i as int),
            ),
        decreases candidates.len() - i,
    {
        let ghost rest = cands_view(candidates@).skip(i as int);
        assert(rest.drop_first() =~= cands_view(candidates@).skip(i + 1));
        if let Some(c) = &candidates[i] {
            let usable = match &c.url {
                Some(u) => !u.as_str().is_empty(),
                None => false,
            };
            if usable {
                return ConfigChoice { config: clone_config(c), from_built_in: false };
            }
        }
        i = i + 1;
    }
    match built_in {
        Some(b) => ConfigChoice { config: clone_config(b), from_built_in: true },
        None => ConfigChoice { config: TursoConfigJson::empty(), from_built_in: false },
    }
}

// ---------------------------------------------------------------------------
// Opening the database
// ---------------------------------------------------------------------------

/// How the database is opened: a local file only, or an embedded replica of
/// the cloud database that syncs on its own.
#[derive(Debug, Clone, PartialEq)]
pub enum ConnectionPlan {
    Local,
    Replica { url: String, token: String, sync_interval_secs: u64 },
}

pub enum PlanView {
    Local,
    Replica { url: Seq<char>, token: Seq<char>, sync_interval_secs: u64 },
}

impl View for ConnectionPlan {
    type V = PlanView;

    open spec fn view(&self) -> PlanView {
        match self {
            ConnectionPlan::Local => PlanView::Local,
            ConnectionPlan::Replica { url, token, sync_interval_secs } => PlanView::Replica {
                url: url@,
                token: token@,
                sync_interval_secs: *sync_interval_secs,
            },
        }
    }
}

/// The address a replica syncs with: `libsql://` and `turso://` become
/// `https://`, an address without a scheme gets `https://`, an `http(s)://`
/// address stays.
pub open spec fn formatted_url(u: Seq<char>) -> Seq<char> {
    if "libsql://"@.is_prefix_of(u) {
        "https://"@ + u.skip(9)
    } else if "turso://"@.is_prefix_of(u) {
        "https://"@ + u.skip(8)
    } else if !"https://"@.is_prefix_of(u) && !"http://"@.is_prefix_of(u) {
        "https://"@ + u
    } else {
        u
    }
}

/// The sync interval in whole seconds, a minute by default and ten seconds
/// at least.
pub open spec fn sync_secs(ms: Option<u64>) -> u64 {
    let s = match ms {
        Some(m) => m,
        None => 60000,
    } / 1000;
    if s < 10 {
        10
    } else {
        s
    }
}

/// A replica when the settings give both an address and a token that are
/// not blank; a local file otherwise.
pub open spec fn connection_plan(c: ConfigView) -> PlanView {
    match (c.url, c.auth_token) {
        (Some(u), Some(t)) => if trim(u).len() == 0 || trim(t).len() == 0 {
            PlanView::Local
        } else {
            PlanView::Replica {
                url: formatted_url(trim(u)),
                token: trim(t),
                sync_interval_secs: sync_secs(c.sync_interval_ms),
            }
        },
        _ => PlanView::Local,
    }
}

fn format_url(u: &str) -> (r: String)
    ensures
        r@ == formatted_url(u@),
{
    proof {
        reveal_strlit("libsql://");
        reveal_strlit("turso://");
    }
    let cs = crate::text::chars_of(u);
    if has_prefix(u, "libsql://") {
        let mut s = String::new();
        append_str(&mut s, "https://");
        let rest = crate::text::string_of(crate::text::slice_from(cs.as_slice(), 9).as_slice());
        append_str(&mut s, rest.as_str());
        s
    } else if has_prefix(u, "turso://") {
        let mut s = String::new();
        append_str(&mut s, "https://");
        let rest = crate::text::string_of(crate::text::slice_from(cs.as_slice(), 8).as_slice());
        append_str(&mut s, rest.as_str());
        s
    } else if !has_prefix(u, "https://") && !has_prefix(u, "http://") {
        let mut s = String::new();
        append_str(&mut s, "https://");
        append_str(&mut s, u);
        s
    } else {
        u.to_string()
    }
}

/// How the database is to be opened under the settings `c`.
pub fn plan_connection(c: &TursoConfigJson) -> (p: ConnectionPlan)
    ensures
        p@ == connection_plan(c@),
{
    match (&c.url, &c.auth_token) {
        (Some(raw_url), Some(raw_token)) => {
            let url = trim_str(raw_url.as_str());
            let token = trim_str(raw_token.as_str());
            if url.as_str().is_empty() || token.as_str().is_empty() {
                ConnectionPlan::Local
            } else {
                let ms = match c.sync_interval_ms {
                    Some(m) => m,
                    None => 60000,
                };
                let secs = ms / 1000;
                ConnectionPlan::Replica {
                    url: format_url(url.as_str()),
                    token,
                    sync_interval_secs: if secs < 10 {
                        10
                    } else {
                        secs
                    },
                }
            }
        },
        _ => ConnectionPlan::Local,
    }
}

/// How long opening a replica may take before the local file is used.
pub const REPLICA_TIMEOUT_MS: u64 = 1200;

/// How opening a replica went.
#[derive(Debug, Clone, PartialEq)]
pub enum ReplicaAttempt {
    Opened,
    Failed(String),
    TimedOut,
}

/// The database as opened: whether it syncs with the cloud, and why not
/// when a replica could not be opened.
#[derive(Debug, Clone, PartialEq)]
pub struct ConnectionState {
    pub is_remote: bool,
    pub init_error: Option<String>,
}

/// The message kept when opening a replica failed with `e`.
pub open spec fn replica_error_message(e: Seq<char>) -> Seq<char> {
    "ReplicaInitError: "@ + e
}

pub open spec fn timeout_message() -> Seq<char> {
    "Connection to Turso Cloud timed out during startup"@
}

/// The state after an attempt to open a replica: remote when it opened;
/// otherwise the local file, with the reason kept.
pub fn after_replica_attempt(a: ReplicaAttempt) -> (s: ConnectionState)
    ensures
        s.is_remote <==> a is Opened,
        a is Opened ==> s.init_error is None,
        a matches ReplicaAttempt::Failed(e) ==> s.init_error.deep_view() == Some(
            replica_error_message(e@),
        ),
        a is TimedOut ==> s.init_error.deep_view() == Some(timeout_message()),
{
    match a {
        ReplicaAttempt::Opened => ConnectionState { is_remote: true, init_error: None },
        ReplicaAttempt::Failed(e) => {
            let mut m = String::new();
            append_str(&mut m, "ReplicaInitError: ");
            append_str(&mut m, e.as_str());
            ConnectionState { is_remote: false, init_error: Some(m) }
        },
        ReplicaAttempt::TimedOut => ConnectionState {
            is_remote: false,
            init_error: Some("Connection to Turso Cloud timed out during startup".to_string()),
        },
    }
}

/// The directory the app keeps its data in: the one set at startup, else
/// the platform's app data directory, else the working directory.
pub fn pick_data_dir(config_dir: &Option<String>, app_data_dir: &Option<String>) -> (r: String)
    ensures
        r@ == match config_dir.deep_view() {
            Some(d) => d,
            None => match app_data_dir.deep_view() {
                Some(a) => a,
                None => "."@,
            },
        },
{
    match config_dir {
        Some(d) => d.clone(),
        None => match app_data_dir {
            Some(a) => a.clone(),
            None => ".".to_string(),
        },
    }
}

/// The recorded data directory after `dir` is set: the first one set stays.
pub open spec fn config_dir_after(slot: Option<Seq<char>>, dir: Seq<char>) -> Option<Seq<char>> {
    match slot {
        Some(d) => Some(d),
        None => Some(dir),
    }
}

/// Records the app's data directory; the first directory set stays.
pub fn set_app_config_dir(slot: &mut Option<String>, dir: String)
    ensures
        final(slot).deep_view() == config_dir_after(old(slot).deep_view(), dir@),
{
    if slot.is_none() {
        *slot = Some(dir);
    }
}

// ---------------------------------------------------------------------------
// Syncing and preferences
// ---------------------------------------------------------------------------

/// The report of a manual sync: `sync_ok`, or the sync error; a database
/// that was opened as a local file reports why no replica was opened.
pub open spec fn sync_report_text(result: Result<(), Seq<char>>, init_error: Option<Seq<char>>) -> Seq<
    char,
> {
    match result {
        Ok(_) => "sync_ok"@,
        Err(msg) => if has_substring(msg, "opened in File mode"@) {
            "sync_error: 无法建立云端副本 ("@ + match init_error {
                Some(d) => d,
                None => "未知初始化错误"@,
            } + ")"@
        } else {
            "sync_error: "@ + msg
        },
    }
}

pub fn db_sync_now(result: Result<(), String>, init_error: &Option<String>) -> (r: String)
    ensures
        r@ == sync_report_text(
            match result {
                Ok(_) => Ok(()),
                Err(m) => Err(m@),
            },
            init_error.deep_view(),
        ),
{
    match result {
        Ok(_) => "sync_ok".to_string(),
        Err(msg) => if contains_text(msg.as_str(), "opened in File mode") {
            let mut s = String::new();
            append_str(&mut s, "sync_error: 无法建立云端副本 (");
            match init_error {
                Some(d) => append_str(&mut s, d.as_str()),
                None => append_str(&mut s, "未知初始化错误"),
            }
            append_str(&mut s, ")");
            s
        } else {
            let mut s = String::new();
            append_str(&mut s, "sync_error: ");
            append_str(&mut s, msg.as_str());
            s
        },
    }
}

/// A stored preference: the value of its row (empty when NULL), none when
/// there is no row.
pub fn db_get_preference(row: Option<&Row>) -> (r: Option<String>)
    requires
        row matches Some(x) ==> is_text_or_null(cell_at(x@, 0)),
    ensures
        match row {
            Some(x) => r.deep_view() == Some(
                match typed_text(cell_at(x@, 0)) {
                    Some(s) => s,
                    None => Seq::empty(),
                },
            ),
            None => r is None,
        },
{
    match row {
        Some(x) => Some(x.text_or_default(0)),
        None => None,
    }
}

/// The values a preference upsert binds: `pref_key, pref_value`.
pub fn db_set_preference(key: &str, value: &str) -> (r: Row)
    ensures
        r@ == seq![CellView::Text(key@), CellView::Text(value@)],
{
    let mut cells: Vec<CellValue> = Vec::new();
    cells.push(text_value(key));
    cells.push(text_value(value));
    let r = Row { cells };
    assert(r@ =~= seq![CellView::Text(key@), CellView::Text(value@)]);
    r
}

// ---------------------------------------------------------------------------
// Laws
// ---------------------------------------------------------------------------

/// Once a data directory is set, setting another leaves the first in place.
pub proof fn law_config_dir_first_wins(first: Seq<char>, later: Seq<char>)
    ensures
        config_dir_after(config_dir_after(None, first), later) == Some(first),
{
}

/// A replica always syncs over `http(s)://`, and at most every ten seconds.
pub proof fn law_replica_plan(c: ConfigView)
    ensures
        connection_plan(c) matches PlanView::Replica { url, token, sync_interval_secs } ==> {
            &&& ("https://"@.is_prefix_of(url) || "http://"@.is_prefix_of(url))
            &&& sync_interval_secs >= 10
            &&& token.len() > 0
        },
{
    reveal_strlit("https://");
    reveal_strlit("http://");
    reveal_strlit("libsql://");
    reveal_strlit("turso://");
    if let PlanView::Replica { url, token, sync_interval_secs } = connection_plan(c) {
        let u = trim(c.url->0);
        if "libsql://"@.is_prefix_of(u) {
            assert("https://"@.is_prefix_of("https://"@ + u.skip(9)));
        } else if "turso://"@.is_prefix_of(u) {
            assert("https://"@.is_prefix_of("https://"@ + u.skip(8)));
        } else if !"https://"@.is_prefix_of(u) && !"http://"@.is_prefix_of(u) {
            assert("https://"@.is_prefix_of("https://"@ + u));
        }
    }
}


/// The preferences, by key, after the upsert that binds `params` (`pref_key,
/// pref_value`): ON CONFLICT(pref_key) replaces the value.
pub open spec fn after_preference_upsert(
    prefs: Map<Seq<char>, Seq<char>>,
    params: Seq<CellView>,
) -> Map<Seq<char>, Seq<char>> {
    match (params[0], params[1]) {
        (CellView::Text(k), CellView::Text(v)) => prefs.insert(k, v),
        _ => prefs,
    }
}

/// The row the preference query gives for `key`: its value, none when unset.
pub open spec fn preference_row(prefs: Map<Seq<char>, Seq<char>>, key: Seq<char>) -> Option<
    Seq<CellView>,
> {
    if prefs.dom().contains(key) {
        Some(seq![CellView::Text(prefs[key])])
    } else {
        None
    }
}

/// The last write of a preference wins: after writing `first` and then
/// `last` under `key`, with writes to other keys anywhere in between, the
/// preference reads `last`.
pub proof fn law_preference_last_write_wins(
    prefs: Map<Seq<char>, Seq<char>>,
    key: Seq<char>,
    first: Seq<char>,
    other_key: Seq<char>,
    other_value: Seq<char>,
    last: Seq<char>,
)
    requires
        other_key != key,
    ensures
        ({
            let p1 = after_preference_upsert(prefs, seq![CellView::Text(key), CellView::Text(first)]);
            let p2 = after_preference_upsert(p1, seq![CellView::Text(other_key), CellView::Text(other_value)]);
            let p3 = after_preference_upsert(p2, seq![CellView::Text(key), CellView::Text(last)]);
            let p4 = after_preference_upsert(p3, seq![CellView::Text(other_key), CellView::Text(first)]);
            &&& preference_row(p2, key) == Some(seq![CellView::Text(first)])
            &&& preference_row(p4, key) == Some(seq![CellView::Text(last)])
            &&& typed_text(cell_at(preference_row(p4, key)->0, 0)) == Some(last)
        }),
{
    let p1 = after_preference_upsert(prefs, seq![CellView::Text(key), CellView::Text(first)]);
    let p2 = after_preference_upsert(p1, seq![CellView::Text(other_key), CellView::Text(other_value)]);
    let p3 = after_preference_upsert(p2, seq![CellView::Text(key), CellView::Text(last)]);
    let p4 = after_preference_upsert(p3, seq![CellView::Text(other_key), CellView::Text(first)]);
    assert(p4[key] == last);
    assert(cell_at(seq![CellView::Text(last)], 0) == Some(CellView::Text(last)));
}

} // verus!
