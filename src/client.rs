//! The client's own decisions: where the daemon is, which key to send, how
//! a request's address is formed, and what a long poll found.
use vstd::prelude::*;

use crate::json::{get_text, owned_text, text_field, JsonValue};
use crate::text::{
    chars_of, find_from, occurs_at, opt_chars, opt_string_chars, slice, string_of, trim, trim_end_char,
    trim_end_matches, trim_spec, trim_start_char, trim_start_matches,
};

verus! {

/// The ways in which talking to the daemon can fail.
#[derive(Debug)]
pub enum MonitorError {
    /// The request did not complete, or its answer did not decode.
    Http(String),
    /// The daemon answered with a failure status.
    Syncthing(String),
    /// No API key could be found.
    MissingApiKey,
    /// A local file could not be read or parsed.
    Config(String),
    /// Reading a local file failed.
    Io(String),
}

/// The daemon's address over HTTPS on the loopback interface.
pub open spec fn https_loopback() -> Seq<char> {
    "https://127.0.0.1:8384"@
}

/// The daemon's address over plain HTTP on the loopback interface.
pub open spec fn http_loopback() -> Seq<char> {
    "http://127.0.0.1:8384"@
}

/// `list` with `c` appended, unless `list` already holds it.
pub open spec fn push_unique_spec(list: Seq<Seq<char>>, c: Seq<char>) -> Seq<Seq<char>> {
    if list.contains(c) {
        list
    } else {
        list.push(c)
    }
}

/// The candidate base addresses, in order: an override that is not blank
/// (trimmed), then HTTPS, then HTTP on the loopback interface, each once.
pub open spec fn endpoint_list(override_url: Option<Seq<char>>) -> Seq<Seq<char>> {
    let first: Seq<Seq<char>> = match override_url {
        Some(o) if trim_spec(o).len() > 0 => seq![trim_spec(o)],
        _ => Seq::empty(),
    };
    push_unique_spec(push_unique_spec(first, https_loopback()), http_loopback())
}

/// The characters of each string of a list.
pub open spec fn views(v: Seq<String>) -> Seq<Seq<char>> {
    v.map_values(|s: String| s@)
}

/// Appends `candidate` to `list` unless `list` already holds it.
pub fn push_unique_url(list: &mut Vec<String>, candidate: String)
    ensures
        views(final(list)@) == push_unique_spec(views(old(list)@), candidate@),
{
    let ghost before = views(list@);
    let mut i: usize = 0;
    while i < list.len()
        invariant
            i <= list@.len(),
            before == views(list@),
            forall|k: int| 0 <= k < i ==> list@[k]@ != candidate@,
        decreases list.len() - i,
    {
        if list[i] == candidate {
            assert(before[i as int] == candidate@);
            return;
        }
        i = i + 1;
    }
    assert(!before.contains(candidate@)) by {
        if before.contains(candidate@) {
            let k = choose|k: int| 0 <= k < before.len() && before[k] == candidate@;
            assert(list@[k]@ == candidate@);
        }
    }
    list.push(candidate);
    assert(views(list@) =~= before.push(list@.last()@));
}

/// The connection settings of a session with the daemon: the API key and
/// the candidate base addresses, of which the one at `current_idx` is used.
pub struct ApiSession {
    pub api_key: String,
    pub base_urls: Vec<String>,
    pub current_idx: usize,
}

impl ApiSession {
    /// There is always a base address to use.
    pub open spec fn wf(&self) -> bool {
        self.base_urls@.len() > 0
    }

    /// The base address in use.
    pub open spec fn base_spec(&self) -> Seq<char> {
        let last = self.base_urls@.len() - 1;
        if self.current_idx < last {
            self.base_urls@[self.current_idx as int]@
        } else {
            self.base_urls@[last]@
        }
    }

    /// A session with `api_key` whose candidates follow `override_url`; the
    /// first candidate is used.
    pub fn new(api_key: String, override_url: Option<&str>) -> (r: ApiSession)
        ensures
            r.wf(),
            r.api_key@ == api_key@,
            views(r.base_urls@) == endpoint_list(opt_chars(override_url)),
            r.current_idx == 0,
    {
        let mut base_urls: Vec<String> = Vec::new();
        assert(views(base_urls@) =~= Seq::<Seq<char>>::empty());
        if let Some(custom) = override_url {
            let trimmed = trim(&chars_of(custom));
            if trimmed.len() > 0 {
                push_unique_url(&mut base_urls, string_of(trimmed.as_slice()));
                assert(push_unique_spec(Seq::<Seq<char>>::empty(), trimmed@) =~= seq![trimmed@]);
            }
        }
        push_unique_url(&mut base_urls, String::from_str("https://127.0.0.1:8384"));
        push_unique_url(&mut base_urls, String::from_str("http://127.0.0.1:8384"));
        assert(views(base_urls@).len() > 0);
        ApiSession { api_key, base_urls, current_idx: 0 }
    }

    /// The base address in use.
    pub fn base_url(&self) -> (r: &String)
        requires
            self.wf(),
        ensures
            r@ == self.base_spec(),
    {
        let last = self.base_urls.len() - 1;
        if self.current_idx < last {
            &self.base_urls[self.current_idx]
        } else {
            &self.base_urls[last]
        }
    }

    /// The address of `path` on the base address in use.
    pub fn url_for(&self, path: &str) -> (r: String)
        requires
            self.wf(),
        ensures
            r@ == join_url_spec(self.base_spec(), path@),
    {
        join_url(self.base_url().as_str(), path)
    }
}

/// `base` and `path` joined by exactly one slash.
pub open spec fn join_url_spec(base: Seq<char>, path: Seq<char>) -> Seq<char> {
    trim_end_char(base, '/') + seq!['/'] + trim_start_char(path, '/')
}

/// `base` and `path` joined by exactly one slash.
pub fn join_url(base: &str, path: &str) -> (r: String)
    ensures
        r@ == join_url_spec(base@, path@),
{
    let mut v = trim_end_matches(&chars_of(base), '/');
    v.push('/');
    let tail = trim_start_matches(&chars_of(path), '/');
    let ghost head = v@;
    let mut i: usize = 0;
    while i < tail.len()
        invariant
            i <= tail@.len(),
            v@ == head + tail@.subrange(0, i as int),
        decreases tail.len() - i,
    {
        v.push(tail[i]);
        i = i + 1;
        assert(v@ =~= head + tail@.subrange(0, i as int));
    }
    assert(tail@.subrange(0, tail@.len() as int) =~= tail@);
    string_of(v.as_slice())
}

/// The opening tag of the API key in the daemon's configuration file.
pub open spec fn open_tag() -> Seq<char> {
    "<apikey>"@
}

/// The closing tag of the API key in the daemon's configuration file.
pub open spec fn close_tag() -> Seq<char> {
    "</apikey>"@
}

/// `p` occurs in `s` at `i`, and nowhere in `s` between `from` and `i`.
pub open spec fn first_from(s: Seq<char>, p: Seq<char>, from: int, i: int) -> bool {
    from <= i && occurs_at(s, p, i) && forall|k: int| from <= k < i ==> !occurs_at(s, p, k)
}

/// The first closing tag after the opening tag at `i` is at `j`.
pub open spec fn close_after(s: Seq<char>, i: int, j: int) -> bool {
    first_from(s, close_tag(), i + 8, j)
}

/// The text between the first opening tag and the first closing tag after
/// it, trimmed; nothing when either tag is missing.
pub open spec fn api_key_spec(s: Seq<char>, r: Option<Seq<char>>) -> bool {
    match r {
        Some(k) => exists|i: int, j: int| first_from(s, open_tag(), 0, i) && #[trigger] close_after(s, i, j) && k == trim_spec(s.subrange(i + 8, j)),
        None => forall|i: int| #[trigger] first_from(s, open_tag(), 0, i) ==> forall|j: int| !#[trigger] close_after(s, i, j),
    }
}

/// The API key written in the daemon's configuration file, found by its
/// tags rather than by parsing the whole document.
pub fn extract_api_key(contents: &str) -> (r: Option<String>)
    ensures
        api_key_spec(contents@, opt_string_chars(r)),
{
    let s = chars_of(contents);
    let open = chars_of("<apikey>");
    let close = chars_of("</apikey>");
    proof {
        reveal_strlit("<apikey>");
    }
    assert(open@.len() == 8);
    match find_from(&s, &open, 0) {
        None => {
            assert forall|i: int| #[trigger] first_from(s@, open_tag(), 0, i) implies forall|j: int| !#[trigger] close_after(s@, i, j) by {
                assert(!occurs_at(s@, open@, i));
            }
            None
        },
        Some(i) => {
            let n = s.len();
            assert(i + 8 <= n);
            let start = i + 8;
            match find_from(&s, &close, start) {
                None => {
                    assert forall|i2: int| #[trigger] first_from(s@, open_tag(), 0, i2) implies forall|j: int| !#[trigger] close_after(s@, i2, j) by {
                        if i2 < i {
                            assert(!occurs_at(s@, open@, i2));
                        } else if i2 > i {
                            assert(!occurs_at(s@, open@, i as int));
                        }
                    }
                    None
                },
                Some(j) => {
                    let key = trim(&slice(&s, start, j));
                    assert(close_after(s@, i as int, j as int));
                    Some(string_of(key.as_slice()))
                },
            }
        },
    }
}

/// The key from the environment: taken as it is when it is not blank.
pub open spec fn env_key_spec(value: Option<Seq<char>>) -> Option<Seq<char>> {
    match value {
        Some(v) if trim_spec(v).len() > 0 => Some(v),
        _ => None,
    }
}

/// The API key given by the environment, when it is set and not blank.
pub fn api_key_from_env(value: Option<&str>) -> (r: Option<String>)
    ensures
        opt_string_chars(r) == env_key_spec(opt_chars(value)),
{
    match value {
        Some(v) => {
            if trim(&chars_of(v)).len() > 0 {
                Some(String::from_str(v))
            } else {
                None
            }
        },
        None => None,
    }
}

/// The API key in the daemon's configuration file; without one, the
/// credential is missing.
pub fn api_key_from_config_xml(contents: &str) -> (r: Result<String, MonitorError>)
    ensures
        match r {
            Ok(k) => api_key_spec(contents@, Some(k@)),
            Err(e) => e is MissingApiKey && api_key_spec(contents@, None),
        },
{
    match extract_api_key(contents) {
        Some(k) => Ok(k),
        None => Err(MonitorError::MissingApiKey),
    }
}

/// The GUI address in the daemon's configuration: `gui.address`, when it is
/// a string.
pub open spec fn gui_address_spec(config: JsonValue) -> Option<Seq<char>> {
    match config.field("gui"@) {
        Some(gui) => text_field(gui, "address"@),
        None => None,
    }
}

/// The GUI address in the daemon's configuration.
pub fn gui_address(config: &JsonValue) -> (r: Option<String>)
    ensures
        opt_string_chars(r) == gui_address_spec(*config),
{
    match config.get("gui") {
        Some(gui) => owned_text(get_text(gui, "address")),
        None => None,
    }
}

/// Without a key in the environment and without an opening tag in the
/// configuration file, the credential is missing.
pub proof fn lemma_missing_credential(env_value: Option<Seq<char>>, contents: Seq<char>)
    requires
        env_value is None || trim_spec(env_value->0).len() == 0,
        forall|i: int| !occurs_at(contents, open_tag(), i),
    ensures
        env_key_spec(env_value) is None,
        api_key_spec(contents, None),
{
    assert forall|i: int| #[trigger] first_from(contents, open_tag(), 0, i) implies forall|j: int|
        !#[trigger] close_after(contents, i, j) by {
        assert(!occurs_at(contents, open_tag(), i));
    }
}

/// The shortest and longest waits of a long poll, in seconds.
pub const MIN_WAIT_SECS: u64 = 1;

pub const MAX_WAIT_SECS: u64 = 300;

/// A long poll's wait, clamped to 1 to 300 seconds.
pub fn clamp_wait_secs(secs: u64) -> (r: u64)
    ensures
        r == if secs < 1 { 1 } else if secs > 300 { 300 } else { secs },
{
    if secs < MIN_WAIT_SECS {
        MIN_WAIT_SECS
    } else if secs > MAX_WAIT_SECS {
        MAX_WAIT_SECS
    } else {
        secs
    }
}

/// What a long poll found.
pub struct EventWaitResult {
    pub last_event_id: u64,
    pub has_updates: bool,
}

/// The largest of `since` and the ids.
pub open spec fn max_id(since: u64, ids: Seq<u64>) -> u64
    decreases ids.len(),
{
    if ids.len() == 0 {
        since
    } else {
        let m = max_id(since, ids.drop_last());
        if ids.last() > m {
            ids.last()
        } else {
            m
        }
    }
}

/// The outcome of a long poll after event `since` that returned events
/// with these ids: the largest id seen, and whether any event came.
pub fn wait_result(since: u64, ids: &Vec<u64>) -> (r: EventWaitResult)
    ensures
        r.last_event_id == max_id(since, ids@),
        r.has_updates == (ids@.len() > 0),
        r.last_event_id >= since,
        forall|k: int| 0 <= k < ids@.len() ==> ids@[k] <= r.last_event_id,
{
    let mut last: u64 = since;
    let mut i: usize = 0;
    while i < ids.len()
        invariant
            i <= ids@.len(),
            last == max_id(since, ids@.subrange(0, i as int)),
            last >= since,
            forall|k: int| 0 <= k < i ==> ids@[k] <= last,
        decreases ids.len() - i,
    {
        assert(ids@.subrange(0, i + 1).drop_last() =~= ids@.subrange(0, i as int));
        if ids[i] > last {
            last = ids[i];
        }
        i = i + 1;
    }
    assert(ids@.subrange(0, ids@.len() as int) =~= ids@);
    EventWaitResult { last_event_id: last, has_updates: ids.len() > 0 }
}

} // verus!
