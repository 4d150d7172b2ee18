//! Events from the daemon's event log: which ones are file changes, what
//! they say, and the latest change per folder.
use vstd::prelude::*;

use crate::json::{
    get_text, get_text_of_first3, opt_text, owned_text, text_field, text_of_first3, JsonValue,
};
use crate::text::{opt_string_chars, string_of};

verus! {

/// One entry of the daemon's event log.
pub struct SyncthingEvent {
    pub id: u64,
    pub event_type: String,
    pub time: String,
    pub data: JsonValue,
}

/// A recent file change in a folder.
pub struct FolderChange {
    pub name: String,
    pub action: String,
    pub when: String,
    pub origin: Option<String>,
}

/// The event types that denote a change to files.
pub open spec fn is_file_event_spec(t: Seq<char>) -> bool {
    t == "ItemFinished"@ || t == "ItemStarted"@ || t == "LocalIndexUpdated"@ || t
        == "RemoteIndexUpdated"@ || t == "ItemDownloaded"@ || t == "FolderSummary"@ || t
        == "FolderCompletion"@
}

/// Whether an event of this type denotes a change to files.
pub fn is_file_event(event_type: &str) -> (r: bool)
    ensures
        r == is_file_event_spec(event_type@),
{
    let t = String::from_str(event_type);
    t == String::from_str("ItemFinished") || t == String::from_str("ItemStarted") || t
        == String::from_str("LocalIndexUpdated") || t == String::from_str("RemoteIndexUpdated")
        || t == String::from_str("ItemDownloaded") || t == String::from_str("FolderSummary") || t
        == String::from_str("FolderCompletion")
}

/// The file named by one entry of an `items` or `files` list.
pub open spec fn entry_name(e: JsonValue) -> Option<Seq<char>> {
    text_of_first3(e, "path"@, "item"@, "file"@)
}

/// The first entry of a list that names a file.
pub open spec fn first_entry_name(entries: Seq<JsonValue>) -> Option<Seq<char>>
    decreases entries.len(),
{
    if entries.len() == 0 {
        None
    } else if entry_name(entries[0]) is Some {
        entry_name(entries[0])
    } else {
        first_entry_name(entries.drop_first())
    }
}

/// The first entry of a list that gives an action.
pub open spec fn first_entry_action(entries: Seq<JsonValue>) -> Option<Seq<char>>
    decreases entries.len(),
{
    if entries.len() == 0 {
        None
    } else if text_field(entries[0], "action"@) is Some {
        text_field(entries[0], "action"@)
    } else {
        first_entry_action(entries.drop_first())
    }
}

/// The elements of the list under `key`, when that field is a list.
pub open spec fn list_field(data: JsonValue, key: Seq<char>) -> Option<Seq<JsonValue>> {
    match data.field(key) {
        Some(f) => f.elements(),
        None => None,
    }
}

/// The first file named by an entry of the list under `key`.
pub open spec fn name_in_list(data: JsonValue, key: Seq<char>) -> Option<Seq<char>> {
    match list_field(data, key) {
        Some(es) => first_entry_name(es),
        None => None,
    }
}

/// The file that an event's payload names: `item`, then `file`, then the
/// first entry of `items`, then the first entry of `files`.
pub open spec fn file_name_of(data: JsonValue) -> Option<Seq<char>> {
    if text_field(data, "item"@) is Some {
        text_field(data, "item"@)
    } else if text_field(data, "file"@) is Some {
        text_field(data, "file"@)
    } else if name_in_list(data, "items"@) is Some {
        name_in_list(data, "items"@)
    } else {
        name_in_list(data, "files"@)
    }
}

/// The action that an event's payload gives: `action`, then the first entry
/// of `items` that has one.
pub open spec fn action_of(data: JsonValue) -> Option<Seq<char>> {
    if text_field(data, "action"@) is Some {
        text_field(data, "action"@)
    } else {
        match list_field(data, "items"@) {
            Some(es) => first_entry_action(es),
            None => None,
        }
    }
}

/// The device that an event's payload names: the first present of `device`,
/// `peerID` and `id`, when it is a string.
pub open spec fn origin_of(data: JsonValue) -> Option<Seq<char>> {
    text_of_first3(data, "device"@, "peerID"@, "id"@)
}

fn first_name_in(entries: &Vec<JsonValue>) -> (r: Option<String>)
    ensures
        opt_string_chars(r) == first_entry_name(entries@),
{
    let mut i: usize = 0;
    assert(entries@.subrange(0, entries@.len() as int) =~= entries@);
    while i < entries.len()
        invariant
            i <= entries@.len(),
            first_entry_name(entries@) == first_entry_name(
                entries@.subrange(i as int, entries@.len() as int),
            ),
        decreases entries.len() - i,
    {
        let ghost rest = entries@.subrange(i as int, entries@.len() as int);
        assert(rest.drop_first() =~= entries@.subrange(i + 1, entries@.len() as int));
        assert(rest[0] == entries@[i as int]);
        let name = get_text_of_first3(&entries[i], "path", "item", "file");
        if name.is_some() {
            return owned_text(name);
        }
        i = i + 1;
    }
    None
}

fn first_action_in(entries: &Vec<JsonValue>) -> (r: Option<String>)
    ensures
        opt_string_chars(r) == first_entry_action(entries@),
{
    let mut i: usize = 0;
    assert(entries@.subrange(0, entries@.len() as int) =~= entries@);
    while i < entries.len()
        invariant
            i <= entries@.len(),
            first_entry_action(entries@) == first_entry_action(
                entries@.subrange(i as int, entries@.len() as int),
            ),
        decreases entries.len() - i,
    {
        let ghost rest = entries@.subrange(i as int, entries@.len() as int);
        assert(rest.drop_first() =~= entries@.subrange(i + 1, entries@.len() as int));
        assert(rest[0] == entries@[i as int]);
        let action = get_text(&entries[i], "action");
        if action.is_some() {
            return owned_text(action);
        }
        i = i + 1;
    }
    None
}

fn name_in(data: &JsonValue, key: &str) -> (r: Option<String>)
    ensures
        opt_string_chars(r) == name_in_list(*data, key@),
{
    match data.get(key) {
        Some(f) => match f.as_array() {
            Some(entries) => first_name_in(entries),
            None => None,
        },
        None => None,
    }
}

impl SyncthingEvent {
    /// The folder that the payload names.
    pub open spec fn folder_spec(&self) -> Option<Seq<char>> {
        text_field(self.data, "folder"@)
    }

    /// Whether this event records a change to a named file of folder `f`.
    pub open spec fn touches(&self, f: Seq<char>) -> bool {
        is_file_event_spec(self.event_type@) && self.folder_spec() == Some(f) && file_name_of(
            self.data,
        ) is Some
    }

    /// The folder that the payload names.
    pub fn folder_id(&self) -> (r: Option<&str>)
        ensures
            opt_text(r) == self.folder_spec(),
    {
        get_text(&self.data, "folder")
    }

    /// The file that the payload names.
    pub fn file_name(&self) -> (r: Option<String>)
        ensures
            opt_string_chars(r) == file_name_of(self.data),
    {
        let item = get_text(&self.data, "item");
        if item.is_some() {
            return owned_text(item);
        }
        let file = get_text(&self.data, "file");
        if file.is_some() {
            return owned_text(file);
        }
        let from_items = name_in(&self.data, "items");
        if from_items.is_some() {
            return from_items;
        }
        name_in(&self.data, "files")
    }

    /// The action that the payload gives.
    pub fn action(&self) -> (r: Option<String>)
        ensures
            opt_string_chars(r) == action_of(self.data),
    {
        let action = get_text(&self.data, "action");
        if action.is_some() {
            return owned_text(action);
        }
        match self.data.get("items") {
            Some(f) => match f.as_array() {
                Some(entries) => first_action_in(entries),
                None => None,
            },
            None => None,
        }
    }

    /// The device that the payload names.
    pub fn origin(&self) -> (r: Option<String>)
        ensures
            opt_string_chars(r) == origin_of(self.data),
    {
        owned_text(get_text_of_first3(&self.data, "device", "peerID", "id"))
    }
}

/// Milliseconds since the Unix epoch of an RFC 3339 time stamp.
pub uninterp spec fn rfc3339_millis(s: Seq<char>) -> Option<i64>;

/// Relies on `chrono::DateTime::parse_from_rfc3339` and `timestamp_millis`:
/// the instant that an RFC 3339 time stamp denotes, or nothing when it does
/// not parse.
#[verifier::external_body]
fn parse_rfc3339_millis(s: &str) -> (r: Option<i64>)
    ensures
        r == rfc3339_millis(s@),
{
    match chrono::DateTime::parse_from_rfc3339(s) {
        Ok(t) => Some(t.timestamp_millis()),
        Err(_) => None,
    }
}

/// The decimal digit `d`.
pub open spec fn digit_char(d: nat) -> char {
    ((48 + d) as u32) as char
}

/// The decimal representation of `n`, without leading zeros.
pub open spec fn decimal_spec(n: nat) -> Seq<char>
    decreases n,
{
    if n < 10 {
        seq![digit_char(n)]
    } else {
        decimal_spec(n / 10).push(digit_char(n % 10))
    }
}

/// Appends the decimal digits of `n` to `out`.
fn push_decimal(n: u128, out: &mut Vec<char>)
    ensures
        final(out)@ == old(out)@ + decimal_spec(n as nat),
    decreases n,
{
    if n >= 10 {
        push_decimal(n / 10, out);
    }
    let d: u8 = (n % 10) as u8;
    out.push((48u8 + d) as char);
    proof {
        if n < 10 {
            assert(old(out)@ + decimal_spec(n as nat) =~= old(out)@.push(digit_char(n as nat)));
        } else {
            assert(old(out)@ + decimal_spec(n as nat) =~= (old(out)@ + decimal_spec((n / 10) as nat)).push(
                digit_char((n % 10) as nat),
            ));
        }
    }
}

/// The decimal representation of `n`.
fn decimal(n: u128) -> (r: String)
    ensures
        r@ == decimal_spec(n as nat),
{
    let mut digits: Vec<char> = Vec::new();
    push_decimal(n, &mut digits);
    assert(digits@ =~= decimal_spec(n as nat));
    string_of(digits.as_slice())
}

/// Milliseconds in a minute, an hour and a day.
pub const MINUTE_MILLIS: u64 = 60000;

pub const HOUR_MILLIS: u64 = 3600000;

pub const DAY_MILLIS: u64 = 86400000;

/// How long ago something happened, from the time elapsed in milliseconds:
/// under a minute is "just now"; otherwise whole minutes, hours or days.
pub open spec fn relative_label(elapsed: int) -> Seq<char> {
    if elapsed < 60000 {
        "just now"@
    } else if elapsed < 3600000 {
        decimal_spec((elapsed / 60000) as nat) + " min ago"@
    } else if elapsed < 86400000 {
        decimal_spec((elapsed / 3600000) as nat) + " h ago"@
    } else {
        decimal_spec((elapsed / 86400000) as nat) + " d ago"@
    }
}

/// How long ago a time stamp lies before `now_millis`; the time stamp itself
/// when it does not parse.
pub open spec fn relative_time_spec(iso: Seq<char>, now_millis: i64) -> Seq<char> {
    match rfc3339_millis(iso) {
        Some(t) => relative_label(now_millis - t),
        None => iso,
    }
}

/// Label for a time `elapsed_millis` in the past.
pub fn relative_time_label(elapsed_millis: i128) -> (r: String)
    ensures
        r@ == relative_label(elapsed_millis as int),
{
    if elapsed_millis < MINUTE_MILLIS as i128 {
        return String::from_str("just now");
    }
    let e: u128 = elapsed_millis as u128;
    if e < HOUR_MILLIS as u128 {
        let mut s = decimal(e / MINUTE_MILLIS as u128);
        s.append(" min ago");
        s
    } else if e < DAY_MILLIS as u128 {
        let mut s = decimal(e / HOUR_MILLIS as u128);
        s.append(" h ago");
        s
    } else {
        let mut s = decimal(e / DAY_MILLIS as u128);
        s.append(" d ago");
        s
    }
}

/// How long ago the RFC 3339 time stamp `iso_time` lies before `now_millis`.
pub fn format_relative_time(iso_time: &str, now_millis: i64) -> (r: String)
    ensures
        r@ == relative_time_spec(iso_time@, now_millis),
{
    match parse_rfc3339_millis(iso_time) {
        Some(t) => relative_time_label(now_millis as i128 - t as i128),
        None => String::from_str(iso_time),
    }
}

/// Event `i` is the latest that records a change to folder `f`: no such
/// event has a larger id, and none with the same id comes before it.
pub open spec fn is_latest_for(events: Seq<SyncthingEvent>, f: Seq<char>, i: int) -> bool {
    0 <= i < events.len() && events[i].touches(f) && forall|j: int|
        0 <= j < events.len() && #[trigger] events[j].touches(f) ==> events[j].id < events[i].id
            || (events[j].id == events[i].id && i <= j)
}

/// `c` describes event `e`, with its time given relative to `now_millis`.
pub open spec fn describes(c: FolderChange, e: SyncthingEvent, now_millis: i64) -> bool {
    &&& file_name_of(e.data) == Some(c.name@)
    &&& c.action@ == (match action_of(e.data) {
        Some(a) => a,
        None => e.event_type@,
    })
    &&& c.when@ == relative_time_spec(e.time@, now_millis)
    &&& opt_string_chars(c.origin) == origin_of(e.data)
}

/// The position of the latest event that records a change to `folder`.
pub fn latest_event_for(events: &Vec<SyncthingEvent>, folder: &str) -> (r: Option<usize>)
    ensures
        match r {
            Some(i) => is_latest_for(events@, folder@, i as int),
            None => forall|j: int| 0 <= j < events@.len() ==> !(#[trigger] events@[j].touches(folder@)),
        },
{
    let f = String::from_str(folder);
    let mut best: Option<usize> = None;
    let mut i: usize = 0;
    while i < events.len()
        invariant
            i <= events@.len(),
            f@ == folder@,
            match best {
                Some(b) => b < i && events@[b as int].touches(folder@) && forall|j: int|
                    0 <= j < i && #[trigger] events@[j].touches(folder@) ==> events@[j].id
                        < events@[b as int].id || (events@[j].id == events@[b as int].id && b <= j),
                None => forall|j: int| 0 <= j < i ==> !(#[trigger] events@[j].touches(folder@)),
            },
        decreases events.len() - i,
    {
        let e = &events[i];
        let touches = match e.folder_id() {
            Some(id) => {
                let id_owned = String::from_str(id);
                is_file_event(e.event_type.as_str()) && id_owned == f && e.file_name().is_some()
            },
            None => false,
        };
        assert(touches == events@[i as int].touches(folder@));
        if touches {
            match best {
                Some(b) => {
                    if e.id > events[b].id {
                        best = Some(i);
                    }
                },
                None => {
                    best = Some(i);
                },
            }
        }
        i = i + 1;
    }
    best
}

/// The latest change recorded for `folder`, if any event records one.
pub fn latest_folder_change(events: &Vec<SyncthingEvent>, folder: &str, now_millis: i64) -> (r:
    Option<FolderChange>)
    ensures
        match r {
            Some(c) => exists|i: int| is_latest_for(events@, folder@, i) && describes(c, events@[i], now_millis),
            None => forall|j: int| 0 <= j < events@.len() ==> !(#[trigger] events@[j].touches(folder@)),
        },
{
    match latest_event_for(events, folder) {
        Some(i) => {
            let e = &events[i];
            let name = match e.file_name() {
                Some(n) => n,
                None => String::new(),
            };
            let action = match e.action() {
                Some(a) => a,
                None => e.event_type.clone(),
            };
            let when = format_relative_time(e.time.as_str(), now_millis);
            let origin = e.origin();
            let c = FolderChange { name, action, when, origin };
            assert(describes(c, events@[i as int], now_millis));
            Some(c)
        },
        None => None,
    }
}

/// The latest change of each folder in `folder_ids`, in the same order.
pub fn latest_folder_changes(events: &Vec<SyncthingEvent>, folder_ids: &Vec<String>, now_millis: i64) -> (r: Vec<Option<FolderChange>>)
    ensures
        r@.len() == folder_ids@.len(),
        forall|k: int| 0 <= k < r@.len() ==> match #[trigger] r@[k] {
            Some(c) => exists|i: int| is_latest_for(events@, folder_ids@[k]@, i) && describes(c, events@[i], now_millis),
            None => forall|j: int| 0 <= j < events@.len() ==> !(#[trigger] events@[j].touches(folder_ids@[k]@)),
        },
{
    let mut r: Vec<Option<FolderChange>> = Vec::new();
    let mut k: usize = 0;
    while k < folder_ids.len()
        invariant
            k <= folder_ids@.len(),
            r@.len() == k,
            forall|m: int| 0 <= m < k ==> match #[trigger] r@[m] {
                Some(c) => exists|i: int| is_latest_for(events@, folder_ids@[m]@, i) && describes(c, events@[i], now_millis),
                None => forall|j: int| 0 <= j < events@.len() ==> !(#[trigger] events@[j].touches(folder_ids@[m]@)),
            },
        decreases folder_ids.len() - k,
    {
        let c = latest_folder_change(events, folder_ids[k].as_str(), now_millis);
        r.push(c);
        k = k + 1;
    }
    r
}

} // verus!
