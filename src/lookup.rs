use vstd::prelude::*;
use crate::model::{Entry, Row};

verus! {

/// The text of a modification time given in seconds since the epoch:
/// abbreviated month, day of month, then hours, minutes and seconds.
pub uninterp spec fn mtime_text(secs: i64) -> Seq<char>;

/// The lower-case form of a text.
pub uninterp spec fn lower_of(s: Seq<char>) -> Seq<char>;

/// Relies on `users::get_user_by_uid` and `User::name`: the account database's
/// name for `uid`, if it has one that is valid UTF-8. What it returns depends on
/// the system it runs on, so nothing is promised of it.
#[verifier::external_body]
pub fn get_user_name(uid: u32) -> (r: Option<String>) {
    match users::get_user_by_uid(uid) {
        Some(u) => match u.name().to_str() {
            Some(s) => Some(s.to_string()),
            None => None,
        },
        None => None,
    }
}

/// Relies on `users::get_group_by_gid` and `Group::name`: the group database's
/// name for `gid`, if it has one that is valid UTF-8. Nothing is promised of it.
#[verifier::external_body]
pub(crate) fn get_group_name(gid: u32) -> (r: Option<String>) {
    match users::get_group_by_gid(gid) {
        Some(g) => match g.name().to_str() {
            Some(s) => Some(s.to_string()),
            None => None,
        },
        None => None,
    }
}

/// Relies on `chrono::DateTime::from_timestamp`, which gives `None` only for a
/// day count outside the years its dates can hold (more than 262000 years either
/// side of the epoch), and on formatting the result with `"%b %e %T"`, which cannot
/// fail: the text depends on the seconds alone.
#[verifier::external_body]
pub(crate) fn format_mtime(secs: i64) -> (r: Option<String>)
    ensures
        r matches Some(t) ==> t@ == mtime_text(secs),
        in_time_range(secs) ==> r is Some,
{
    match chrono::DateTime::from_timestamp(secs, 0) {
        Some(d) => Some(d.format("%b %e %T").to_string()),
        None => None,
    }
}

/// Relies on `str::to_lowercase`: the result depends on the characters alone.
#[verifier::external_body]
pub(crate) fn lowercase(s: &str) -> (r: String)
    ensures
        r@ == lower_of(s@),
{
    s.to_lowercase()
}

/// Seconds since the epoch that a time can always be rendered for: well within
/// the years that dates can hold.
pub open spec fn in_time_range(secs: i64) -> bool {
    -8_000_000_000_000 <= secs <= 8_000_000_000_000
}

/// Why an entry could not be drawn.
#[derive(Clone, Copy, Debug, PartialEq, Eq, Structural)]
pub enum ListError {
    /// The owner id has no name.
    UnknownUser(u32),
    /// The group id has no name.
    UnknownGroup(u32),
}

/// What the time column of an entry with time `mtime` may hold: nothing when the
/// time is unknown; the rendering of the time when it is in range; and when it is
/// rendered at all, that rendering.
pub open spec fn time_text_ok(mtime: Option<i64>, r: Option<String>) -> bool {
    &&& match mtime {
        Some(s) => in_time_range(s) ==> r is Some,
        None => r is None,
    }
    &&& match r {
        Some(t) => mtime is Some && t@ == mtime_text(mtime->0),
        None => true,
    }
}

/// `row` is drawn from `e`: the same name, kind, mode and size text; the time
/// text as `time_text_ok` says; the user name is whatever the account database
/// gave for its uid, and so is the group name when the group column is shown
/// (it is left empty otherwise).
pub open spec fn resolved(e: Entry, row: Row, show_group: bool) -> bool {
    &&& row.name@ == e.name@
    &&& row.kind == e.kind
    &&& row.mode == e.mode
    &&& row.size_text@ == e.size_text@
    &&& time_text_ok(e.mtime, row.time_text)
    &&& !show_group ==> row.group@.len() == 0
}

pub open spec fn resolved_all(es: Seq<Entry>, rows: Seq<Row>, show_group: bool) -> bool {
    &&& rows.len() == es.len()
    &&& forall|i: int| 0 <= i < es.len() ==> resolved(#[trigger] es[i], rows[i], show_group)
}

/// The time column's text for an entry, when its time is known and can be rendered.
pub fn time_text_of(mtime: Option<i64>) -> (r: Option<String>)
    ensures
        time_text_ok(mtime, r),
{
    match mtime {
        Some(secs) => format_mtime(secs),
        None => None,
    }
}

/// Resolves an entry's user name, and its group name when the group column is
/// shown, and renders its time; a name that cannot be resolved stops it with the
/// id that failed.
pub fn resolve(entry: &Entry, show_group: bool) -> (r: Result<Row, ListError>)
    ensures
        match r {
            Ok(row) => resolved(*entry, row, show_group),
            Err(ListError::UnknownUser(u)) => u == entry.uid,
            Err(ListError::UnknownGroup(g)) => show_group && g == entry.gid,
        },
{
    let user = match get_user_name(entry.uid) {
        Some(u) => u,
        None => {
            return Err(ListError::UnknownUser(entry.uid));
        },
    };
    let group = if show_group {
        match get_group_name(entry.gid) {
            Some(g) => g,
            None => {
                return Err(ListError::UnknownGroup(entry.gid));
            },
        }
    } else {
        String::new()
    };
    Ok(
        Row {
            name: entry.name.clone(),
            kind: entry.kind,
            mode: entry.mode,
            size_text: entry.size_text.clone(),
            time_text: time_text_of(entry.mtime),
            user,
            group,
        },
    )
}

/// Resolves every entry, in order, stopping at the first failure.
pub fn resolve_all(entries: &Vec<Entry>, show_group: bool) -> (r: Result<Vec<Row>, ListError>)
    ensures
        match r {
            Ok(rows) => resolved_all(entries@, rows@, show_group),
            Err(ListError::UnknownUser(u)) => exists|i: int|
                0 <= i < entries@.len() && #[trigger] entries@[i].uid == u,
            Err(ListError::UnknownGroup(g)) => show_group && exists|i: int|
                0 <= i < entries@.len() && #[trigger] entries@[i].gid == g,
        },
{
    let mut rows: Vec<Row> = Vec::new();
    let mut i: usize = 0;
    while i < entries.len()
        invariant
            i <= entries@.len(),
            rows@.len() == i,
            forall|k: int| 0 <= k < i ==> resolved(#[trigger] entries@[k], rows@[k], show_group),
        decreases entries.len() - i,
    {
        match resolve(&entries[i], show_group) {
            Ok(row) => rows.push(row),
            Err(e) => {
                return Err(e);
            },
        }
        i = i + 1;
    }
    Ok(rows)
}

} // verus!
