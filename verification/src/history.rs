//! Backups of the export: how they are named, when one is taken, and which
//! are thrown away.
//!
//! A backup of `<stem>.<ext>` is named `<stem>.<YYYYMMDD_HHMMSS>.<ext>` after
//! the time at which it was taken.

use vstd::prelude::*;
use crate::model::{opt_text, texts};
use crate::text::{has_prefix, text_eq};
use crate::time::{Timestamp, pattern_instant, pattern_text};

verus! {

/// The directory of the backups, inside the `.beads` directory.
pub const HISTORY_DIR: &'static str = ".br_history";

/// The pattern of the time in the name of a backup.
pub const STAMP_PATTERN: &'static str = "%Y%m%d_%H%M%S";

/// The length of a time written under [`STAMP_PATTERN`].
pub const STAMP_LEN: usize = 15;

/// Settings of the backups.
#[derive(Clone, Copy, Debug, PartialEq, Eq, Structural)]
pub struct HistoryConfig {
    pub enabled: bool,
    /// How many backups of one file are kept.
    pub max_count: usize,
    /// How many days a backup is kept.
    pub max_age_days: u32,
}

impl Default for HistoryConfig {
    fn default() -> (r: HistoryConfig)
        ensures
            r == (HistoryConfig { enabled: true, max_count: 100, max_age_days: 30 }),
    {
        HistoryConfig { enabled: true, max_count: 100, max_age_days: 30 }
    }
}

/// A backup: the name of its file and the time in that name.
#[derive(Debug, Clone)]
pub struct BackupEntry {
    pub name: String,
    pub taken_at: Timestamp,
}

/// A backup is taken where backups are enabled, there is a file to back up,
/// and the latest backup does not hold the same bytes already.
pub fn should_backup(config: &HistoryConfig, target_exists: bool, same_as_latest: bool) -> (r: bool)
    ensures
        r == (config.enabled && target_exists && !same_as_latest),
{
    config.enabled && target_exists && !same_as_latest
}

/// The name of the backup of `<stem>.<extension>` taken at the time that is
/// written `stamp`.
pub open spec fn backup_name_of(stem: Seq<char>, stamp: Seq<char>, extension: Seq<char>) -> Seq<char> {
    stem + "."@ + stamp + "."@ + extension
}

/// Names the backup of `<stem>.<extension>` taken at `taken_at`; `None` where
/// the time cannot be written.
pub fn backup_name(stem: &str, extension: &str, taken_at: &Timestamp) -> (r: Option<String>)
    ensures
        match pattern_text(taken_at.seconds(), taken_at.subsec_nanos(), STAMP_PATTERN@) {
            Some(stamp) => r matches Some(name) && name@ == backup_name_of(stem@, stamp, extension@),
            None => r is None,
        },
{
    match taken_at.format_as(STAMP_PATTERN) {
        Some(stamp) => {
            let mut name: String = stem.to_owned();
            name.append(".");
            name.append(stamp.as_str());
            name.append(".");
            name.append(extension);
            Some(name)
        },
        None => None,
    }
}

/// The part of the name of a backup that holds the time: the fifteen
/// characters after the stem and a dot, where the name starts with the stem
/// and a dot, goes on for fifteen characters and then has a dot.
pub open spec fn stamp_of(name: Seq<char>, stem: Seq<char>) -> Option<Seq<char>> {
    let start = stem.len() as int + 1;
    if (stem + "."@).is_prefix_of(name) && name.len() > start + 15 && name[start + 15] == '.' {
        Some(name.subrange(start, start + 15))
    } else {
        None
    }
}

/// The time in the name of a backup of the file with the given stem; `None`
/// where the name is not that of such a backup or holds no time.
pub open spec fn time_in_name(name: Seq<char>, stem: Seq<char>) -> Option<(int, int)> {
    match stamp_of(name, stem) {
        Some(stamp) => pattern_instant(stamp, STAMP_PATTERN@),
        None => None,
    }
}

/// Reads the time in the name of a backup.  A name that is not that of a
/// backup of the stem, or whose time cannot be read, gives `None`: such a
/// file is never listed and so never thrown away.
pub fn parse_backup_name(name: &str, stem: &str) -> (r: Option<Timestamp>)
    ensures
        match r {
            Some(t) => time_in_name(name@, stem@) == Some((t.seconds(), t.subsec_nanos())),
            None => time_in_name(name@, stem@) is None,
        },
{
    let mut head: String = stem.to_owned();
    head.append(".");
    if !has_prefix(name, head.as_str()) {
        return None;
    }
    let stem_len: usize = stem.unicode_len();
    let len: usize = name.unicode_len();
    if stem_len >= usize::MAX - 16 {
        return None;
    }
    let start: usize = stem_len + 1;
    if len <= start + STAMP_LEN {
        return None;
    }
    if name.get_char(start + STAMP_LEN) != '.' {
        return None;
    }
    let stamp: &str = name.substring_char(start, start + STAMP_LEN);
    Timestamp::parse_as(stamp, STAMP_PATTERN)
}

/// Whether the backup is older than `max_age_days` days at `now`.
pub open spec fn expired(taken_at: Timestamp, now: Timestamp, max_age_days: u32) -> bool {
    now.seconds() - taken_at.seconds() > max_age_days * 86400
}

/// The times of a list of backups.
pub open spec fn times_of(entries: Seq<BackupEntry>) -> Seq<Timestamp> {
    Seq::new(entries.len(), |i: int| entries[i].taken_at)
}

/// Whether the backup of time `j` is newer than the backup of time `i`.  Of
/// two backups of the same second, the later in the list counts as newer.
pub open spec fn newer(times: Seq<Timestamp>, j: int, i: int) -> bool {
    times[j].seconds() > times[i].seconds() || (times[j].seconds() == times[i].seconds() && j > i)
}

/// The number of backups among the first `n` that are not expired and newer
/// than backup `i`.
pub open spec fn newer_kept(times: Seq<Timestamp>, now: Timestamp, max_age_days: u32, i: int, n: int) -> nat
    decreases n,
{
    if n <= 0 {
        0
    } else {
        newer_kept(times, now, max_age_days, i, n - 1) + if !expired(times[n - 1], now, max_age_days) && newer(
            times,
            n - 1,
            i,
        ) {
            1nat
        } else {
            0nat
        }
    }
}

/// Whether backup `i` is thrown away: it is where it is expired, and where
/// `max_count` or more backups that are not expired are newer.
pub open spec fn thrown_away(times: Seq<Timestamp>, config: HistoryConfig, now: Timestamp, i: int) -> bool {
    expired(times[i], now, config.max_age_days) || newer_kept(
        times,
        now,
        config.max_age_days,
        i,
        times.len() as int,
    ) >= config.max_count
}

fn is_expired(taken_at: &Timestamp, now: &Timestamp, max_age_days: u32) -> (r: bool)
    ensures
        r == expired(*taken_at, *now, max_age_days),
{
    let age: i128 = now.unix_seconds() as i128 - taken_at.unix_seconds() as i128;
    age > max_age_days as i128 * 86400
}

/// Decides for each backup of one file whether it is thrown away: first the
/// backups older than `max_age_days`, then the oldest of the rest until no
/// more than `max_count` are left.  The result has one flag for each backup,
/// in the order of the list.
pub fn prune_backups(entries: &Vec<BackupEntry>, config: &HistoryConfig, now: &Timestamp) -> (r: Vec<bool>)
    ensures
        r@.len() == entries@.len(),
        forall|i: int| 0 <= i < r@.len() ==> r@[i] == thrown_away(times_of(entries@), *config, *now, i),
{
    let ghost times = times_of(entries@);
    let mut out: Vec<bool> = Vec::new();
    let mut i: usize = 0;
    while i < entries.len()
        invariant
            i <= entries.len(),
            times == times_of(entries@),
            out@.len() == i,
            forall|k: int| 0 <= k < i ==> out@[k] == thrown_away(times, *config, *now, k),
        decreases entries.len() - i,
    {
        let mut doomed: bool = is_expired(&entries[i].taken_at, now, config.max_age_days);
        if !doomed {
            let mut count: usize = 0;
            let mut j: usize = 0;
            while j < entries.len()
                invariant
                    i < entries.len(),
                    j <= entries.len(),
                    times == times_of(entries@),
                    count == newer_kept(times, *now, config.max_age_days, i as int, j as int),
                    count <= j,
                decreases entries.len() - j,
            {
                let theirs: i64 = entries[j].taken_at.unix_seconds();
                let ours: i64 = entries[i].taken_at.unix_seconds();
                let is_newer: bool = theirs > ours || (theirs == ours && j > i);
                if is_newer && !is_expired(&entries[j].taken_at, now, config.max_age_days) {
                    count = count + 1;
                }
                j = j + 1;
            }
            doomed = count >= config.max_count;
        }
        out.push(doomed);
        i = i + 1;
    }
    out
}

/// With room for no backup, every backup is thrown away.
pub proof fn no_room_keeps_nothing(times: Seq<Timestamp>, config: HistoryConfig, now: Timestamp, i: int)
    requires
        config.max_count == 0,
        0 <= i < times.len(),
    ensures
        thrown_away(times, config, now, i),
{
}

/// A backup that is not expired stays as long as no more than `max_count`
/// backups are listed at all.
pub proof fn few_backups_are_all_kept(times: Seq<Timestamp>, config: HistoryConfig, now: Timestamp, i: int)
    requires
        0 <= i < times.len(),
        times.len() <= config.max_count,
        !expired(times[i], now, config.max_age_days),
    ensures
        !thrown_away(times, config, now, i),
{
    newer_kept_is_bounded(times, now, config.max_age_days, i, times.len() as int);
}

proof fn newer_kept_is_bounded(times: Seq<Timestamp>, now: Timestamp, max_age_days: u32, i: int, n: int)
    requires
        0 <= i < times.len(),
        0 <= n <= times.len(),
    ensures
        newer_kept(times, now, max_age_days, i, n) <= n,
        i < n ==> newer_kept(times, now, max_age_days, i, n) < n,
    decreases n,
{
    if n > 0 {
        newer_kept_is_bounded(times, now, max_age_days, i, n - 1);
    }
}

/// The place of the last dot of a name; -1 where the name has none.
pub open spec fn last_dot(name: Seq<char>) -> int
    decreases name.len(),
{
    if name.len() == 0 {
        -1
    } else if name.last() == '.' {
        name.len() - 1
    } else {
        last_dot(name.drop_last())
    }
}

/// The part of a name that holds the time of a backup, whatever the stem:
/// the fifteen characters before the last dot, where a dot stands before
/// them and something before that dot.
pub open spec fn stamp_in(name: Seq<char>) -> Option<Seq<char>> {
    let end = last_dot(name);
    if end >= 17 && name[end - 16] == '.' {
        Some(name.subrange(end - 15, end))
    } else {
        None
    }
}

/// The time in the name of a backup, whatever the stem; `None` where the
/// name is not that of a backup.
pub open spec fn backup_time(name: Seq<char>) -> Option<(int, int)> {
    match stamp_in(name) {
        Some(stamp) => pattern_instant(stamp, STAMP_PATTERN@),
        None => None,
    }
}

proof fn last_dot_found(name: Seq<char>, at: int)
    requires
        -1 <= at < name.len(),
        at >= 0 ==> name[at] == '.',
        forall|k: int| at < k < name.len() ==> name[k] != '.',
    ensures
        last_dot(name) == at,
    decreases name.len(),
{
    if name.len() > 0 && at < name.len() - 1 {
        let rest = name.drop_last();
        assert forall|k: int| at < k < rest.len() implies rest[k] != '.' by {
            assert(rest[k] == name[k]);
        }
        last_dot_found(rest, at);
    }
}

/// Reads the time in the name of a backup, whatever the stem.
pub fn read_backup_time(name: &str) -> (r: Option<Timestamp>)
    ensures
        match r {
            Some(t) => backup_time(name@) == Some((t.seconds(), t.subsec_nanos())),
            None => backup_time(name@) is None,
        },
{
    let n: usize = name.unicode_len();
    let mut end: usize = n;
    while end > 0 && name.get_char(end - 1) != '.'
        invariant
            end <= n,
            n == name@.len(),
            forall|k: int| end <= k < n ==> name@[k] != '.',
        decreases end,
    {
        end = end - 1;
    }
    proof {
        last_dot_found(name@, end as int - 1);
    }
    if end < 18 {
        return None;
    }
    let dot: usize = end - 1;
    if name.get_char(dot - 16) != '.' {
        return None;
    }
    let stamp: &str = name.substring_char(dot - STAMP_LEN, dot);
    Timestamp::parse_as(stamp, STAMP_PATTERN)
}

/// Whether a name is listed under a prefix: it is a name of a backup, and
/// it starts with the prefix where one is given.
pub open spec fn listed(name: Seq<char>, prefix: Option<Seq<char>>) -> bool {
    backup_time(name) is Some && match prefix {
        Some(p) => p.is_prefix_of(name),
        None => true,
    }
}

/// The instant in the name of a backup.
pub open spec fn instant_in(name: Seq<char>) -> Timestamp {
    let time = backup_time(name)->0;
    Timestamp::at(time.0, time.1)
}

/// `listing` followed by the backups among the names that are listed under
/// the prefix, each with the time in its name, in the order of the names.
pub open spec fn with_backups(listing: Seq<(Seq<char>, Timestamp)>, names: Seq<Seq<char>>, prefix: Option<Seq<char>>) -> Seq<
    (Seq<char>, Timestamp),
>
    decreases names.len(),
{
    if names.len() == 0 {
        listing
    } else {
        let before = with_backups(listing, names.drop_last(), prefix);
        if listed(names.last(), prefix) {
            before.push((names.last(), instant_in(names.last())))
        } else {
            before
        }
    }
}

/// The time and the characters of the name of each entry.
pub open spec fn entries_view(entries: Seq<BackupEntry>) -> Seq<(Seq<char>, Timestamp)> {
    Seq::new(entries.len(), |i: int| (entries[i].name@, entries[i].taken_at))
}

/// Lists the backups among the names of a directory, in the order of the
/// names: those whose name holds a time, under the prefix where one is
/// given.  A name that holds no time is never listed.
pub fn backups_in(names: &Vec<String>, prefix: Option<&str>) -> (r: Vec<BackupEntry>)
    ensures
        entries_view(r@) == with_backups(
            Seq::empty(),
            texts(names@),
            match prefix {
                Some(p) => Some(p@),
                None => None,
            },
        ),
{
    let ghost wanted: Option<Seq<char>> = match prefix {
        Some(p) => Some(p@),
        None => None,
    };
    let ghost all = texts(names@);
    let mut out: Vec<BackupEntry> = Vec::new();
    let mut i: usize = 0;
    proof {
        assert(all.take(0) =~= Seq::empty());
        assert(entries_view(out@) =~= with_backups(Seq::empty(), all.take(0), wanted));
    }
    while i < names.len()
        invariant
            i <= names.len(),
            all == texts(names@),
            wanted == (match prefix {
                Some(p) => Some(p@),
                None => None,
            }),
            entries_view(out@) == with_backups(Seq::empty(), all.take(i as int), wanted),
        decreases names.len() - i,
    {
        let ghost before = out@;
        proof {
            assert(all.take(i + 1).drop_last() =~= all.take(i as int));
            assert(all.take(i + 1).last() == names@[i as int]@);
        }
        let fits: bool = match prefix {
            Some(p) => has_prefix(names[i].as_str(), p),
            None => true,
        };
        if fits {
            if let Some(taken_at) = read_backup_time(names[i].as_str()) {
                proof {
                    crate::time::timestamp_is_its_parts(taken_at);
                }
                out.push(BackupEntry { name: names[i].clone(), taken_at });
                proof {
                    assert(taken_at == instant_in(names@[i as int]@));
                    assert(entries_view(out@) =~= entries_view(before).push((names@[i as int]@, taken_at)));
                }
            }
        }
        i = i + 1;
    }
    proof {
        assert(all.take(i as int) =~= all);
    }
    out
}

/// Whether the entries stand newest first.
pub open spec fn newest_first(entries: Seq<BackupEntry>) -> bool {
    forall|i: int, j: int|
        0 <= i < j < entries.len() ==> (#[trigger] entries[j]).taken_at.at_or_before((#[trigger] entries[i]).taken_at)
}

/// Whether a list holds an entry of the given name and time.
pub open spec fn holds_entry(entries: Seq<BackupEntry>, name: Seq<char>, taken_at: Timestamp) -> bool {
    exists|k: int| 0 <= k < entries.len() && (#[trigger] entries[k]).name@ == name && entries[k].taken_at == taken_at
}

/// Puts entries in order, newest first; entries of the same time stay in
/// the order in which they came.  The result holds the entries that came,
/// and no others.
pub fn sort_newest_first(entries: &Vec<BackupEntry>) -> (r: Vec<BackupEntry>)
    ensures
        r@.len() == entries@.len(),
        newest_first(r@),
        forall|k: int| 0 <= k < r@.len() ==> holds_entry(entries@, (#[trigger] r@[k]).name@, r@[k].taken_at),
        forall|i: int|
            0 <= i < entries@.len() ==> holds_entry(r@, (#[trigger] entries@[i]).name@, entries@[i].taken_at),
{
    let mut out: Vec<BackupEntry> = Vec::new();
    let mut i: usize = 0;
    while i < entries.len()
        invariant
            i <= entries.len(),
            out@.len() == i,
            newest_first(out@),
            forall|k: int| 0 <= k < out@.len() ==> holds_entry(entries@, (#[trigger] out@[k]).name@, out@[k].taken_at),
            forall|j: int| 0 <= j < i ==> holds_entry(out@, (#[trigger] entries@[j]).name@, entries@[j].taken_at),
        decreases entries.len() - i,
    {
        let taken_at: Timestamp = entries[i].taken_at;
        let mut p: usize = 0;
        while p < out.len() && taken_at.is_at_or_before(&out[p].taken_at)
            invariant
                p <= out@.len(),
                forall|k: int| 0 <= k < p ==> taken_at.at_or_before((#[trigger] out@[k]).taken_at),
            decreases out@.len() - p,
        {
            p = p + 1;
        }
        let ghost before = out@;
        let entry = BackupEntry { name: entries[i].name.clone(), taken_at };
        out.insert(p, entry);
        proof {
            assert forall|a: int, b: int| 0 <= a < b < out@.len() implies (#[trigger] out@[b]).taken_at.at_or_before(
                (#[trigger] out@[a]).taken_at,
            ) by {
                if b < p {
                    assert(out@[a] == before[a] && out@[b] == before[b]);
                } else if b == p {
                    assert(out@[a] == before[a]);
                } else if a < p {
                    assert(out@[a] == before[a] && out@[b] == before[b - 1]);
                } else if a == p {
                    assert(out@[b] == before[b - 1]);
                    assert(before[b - 1].taken_at.at_or_before(before[p as int].taken_at) || b - 1 == p);
                } else {
                    assert(out@[a] == before[a - 1] && out@[b] == before[b - 1]);
                }
            }
            assert forall|k: int| 0 <= k < out@.len() implies holds_entry(
                entries@,
                (#[trigger] out@[k]).name@,
                out@[k].taken_at,
            ) by {
                if k < p {
                    assert(out@[k] == before[k]);
                } else if k == p {
                    assert(entries@[i as int].name@ == out@[k].name@);
                } else {
                    assert(out@[k] == before[k - 1]);
                }
            }
            assert forall|j: int| 0 <= j < i + 1 implies holds_entry(
                out@,
                (#[trigger] entries@[j]).name@,
                entries@[j].taken_at,
            ) by {
                if j < i {
                    let k = choose|k: int|
                        0 <= k < before.len() && (#[trigger] before[k]).name@ == entries@[j].name@ && before[k].taken_at
                            == entries@[j].taken_at;
                    if k < p {
                        assert(out@[k] == before[k]);
                    } else {
                        assert(out@[k + 1] == before[k]);
                    }
                } else {
                    assert(out@[p as int].name@ == entries@[j].name@);
                }
            }
        }
        i = i + 1;
    }
    out
}

/// Lists the backups among the names of a directory, newest first: those
/// whose name holds a time, under the prefix where one is given.  Every
/// entry is the backup of a name that is listed, with the time in its name,
/// and every name that is listed has its entry.
pub fn list_backups(names: &Vec<String>, prefix: Option<&str>) -> (r: Vec<BackupEntry>)
    ensures
        newest_first(r@),
        r@.len() <= names@.len(),
        forall|k: int|
            0 <= k < r@.len() ==> listed(
                (#[trigger] r@[k]).name@,
                match prefix {
                    Some(p) => Some(p@),
                    None => None,
                },
            ) && r@[k].taken_at == instant_in(r@[k].name@),
        forall|i: int|
            0 <= i < names@.len() && listed(
                (#[trigger] names@[i])@,
                match prefix {
                    Some(p) => Some(p@),
                    None => None,
                },
            ) ==> holds_entry(r@, names@[i]@, instant_in(names@[i]@)),
{
    let ghost wanted: Option<Seq<char>> = match prefix {
        Some(p) => Some(p@),
        None => None,
    };
    let found: Vec<BackupEntry> = backups_in(names, prefix);
    let sorted: Vec<BackupEntry> = sort_newest_first(&found);
    proof {
        let all = with_backups(Seq::empty(), texts(names@), wanted);
        backups_are_no_more_than_names(Seq::empty(), texts(names@), wanted);
        assert(entries_view(found@).len() == found@.len());
        assert forall|k: int| 0 <= k < sorted@.len() implies listed((#[trigger] sorted@[k]).name@, wanted)
            && sorted@[k].taken_at == instant_in(sorted@[k].name@) by {
            let j = choose|j: int|
                0 <= j < found@.len() && (#[trigger] found@[j]).name@ == sorted@[k].name@ && found@[j].taken_at
                    == sorted@[k].taken_at;
            assert(entries_view(found@)[j] == all[j]);
            backups_are_of_listed_names(Seq::empty(), texts(names@), wanted, j);
        }
        assert forall|i: int| 0 <= i < names@.len() && listed((#[trigger] names@[i])@, wanted) implies holds_entry(
            sorted@,
            names@[i]@,
            instant_in(names@[i]@),
        ) by {
            assert(texts(names@)[i] == names@[i]@);
            listed_names_have_backups(Seq::empty(), texts(names@), wanted, i);
            let j = choose|j: int| 0 <= j < all.len() && #[trigger] all[j] == (names@[i]@, instant_in(names@[i]@));
            assert(entries_view(found@)[j] == all[j]);
            assert(found@[j].name@ == names@[i]@ && found@[j].taken_at == instant_in(names@[i]@));
        }
    }
    sorted
}

/// Every backup that the listing adds is the backup of a name that is
/// listed, with the time in its name.
proof fn backups_are_of_listed_names(
    listing: Seq<(Seq<char>, Timestamp)>,
    names: Seq<Seq<char>>,
    prefix: Option<Seq<char>>,
    k: int,
)
    requires
        listing.len() <= k < with_backups(listing, names, prefix).len(),
    ensures
        listed(with_backups(listing, names, prefix)[k].0, prefix),
        with_backups(listing, names, prefix)[k].1 == instant_in(with_backups(listing, names, prefix)[k].0),
    decreases names.len(),
{
    if names.len() > 0 {
        let before = with_backups(listing, names.drop_last(), prefix);
        starts_with_what_was_there(listing, names.drop_last(), prefix);
        if k < before.len() {
            backups_are_of_listed_names(listing, names.drop_last(), prefix, k);
        }
    }
}

/// The listing keeps what was there and adds to it.
proof fn starts_with_what_was_there(listing: Seq<(Seq<char>, Timestamp)>, names: Seq<Seq<char>>, prefix: Option<Seq<char>>)
    ensures
        with_backups(listing, names, prefix).len() >= listing.len(),
    decreases names.len(),
{
    if names.len() > 0 {
        starts_with_what_was_there(listing, names.drop_last(), prefix);
    }
}

/// Every name that is listed has its backup in the listing.
proof fn listed_names_have_backups(
    listing: Seq<(Seq<char>, Timestamp)>,
    names: Seq<Seq<char>>,
    prefix: Option<Seq<char>>,
    i: int,
)
    requires
        0 <= i < names.len(),
        listed(names[i], prefix),
    ensures
        exists|j: int|
            0 <= j < with_backups(listing, names, prefix).len() && #[trigger] with_backups(listing, names, prefix)[j] == (
                names[i],
                instant_in(names[i]),
            ),
    decreases names.len(),
{
    let all = with_backups(listing, names, prefix);
    let before = with_backups(listing, names.drop_last(), prefix);
    if i == names.len() - 1 {
        assert(all[all.len() - 1] == (names[i], instant_in(names[i])));
    } else {
        listed_names_have_backups(listing, names.drop_last(), prefix, i);
        let j = choose|j: int| 0 <= j < before.len() && #[trigger] before[j] == (names[i], instant_in(names[i]));
        assert(all[j] == before[j]);
    }
}

/// There are no more backups than names.
proof fn backups_are_no_more_than_names(listing: Seq<(Seq<char>, Timestamp)>, names: Seq<Seq<char>>, prefix: Option<Seq<char>>)
    ensures
        with_backups(listing, names, prefix).len() <= listing.len() + names.len(),
    decreases names.len(),
{
    if names.len() > 0 {
        backups_are_no_more_than_names(listing, names.drop_last(), prefix);
    }
}

/// The place of the newest backup of a list; `None` for an empty list.  Of
/// backups of the same second, the last in the list is the newest.
pub fn latest_backup(entries: &Vec<BackupEntry>) -> (r: Option<usize>)
    ensures
        entries@.len() == 0 ==> r is None,
        entries@.len() > 0 ==> (r matches Some(at) && at < entries@.len() && forall|j: int|
            0 <= j < entries@.len() && j != at ==> newer(times_of(entries@), at as int, j)),
{
    if entries.len() == 0 {
        return None;
    }
    let ghost times = times_of(entries@);
    let mut best: usize = 0;
    let mut j: usize = 1;
    while j < entries.len()
        invariant
            1 <= j <= entries.len(),
            best < j,
            times == times_of(entries@),
            forall|k: int| 0 <= k < j && k != best ==> newer(times, best as int, k),
        decreases entries.len() - j,
    {
        let ghost was = best as int;
        proof {
            assert(times[j as int] == entries@[j as int].taken_at);
            assert(times[was] == entries@[was].taken_at);
        }
        if entries[j].taken_at.unix_seconds() >= entries[best].taken_at.unix_seconds() {
            best = j;
        }
        proof {
            assert forall|k: int| 0 <= k < j + 1 && k != best implies newer(times, best as int, k) by {
                if k != was && k != j {
                    assert(newer(times, was, k));
                }
            }
        }
        j = j + 1;
    }
    Some(best)
}

/// What is to be done about the backups when an export is about to replace
/// its file: the name of the backup to take, if one is to be taken, and the
/// names of the backups to throw away after that.
#[derive(Debug, Clone)]
pub struct BackupPlan {
    pub create: Option<String>,
    pub remove: Vec<String>,
}

/// The times of a listing.
pub open spec fn listed_times(listing: Seq<(Seq<char>, Timestamp)>) -> Seq<Timestamp> {
    Seq::new(listing.len(), |i: int| listing[i].1)
}

/// Whether a listing has an entry of the name.
pub open spec fn names_entry(listing: Seq<(Seq<char>, Timestamp)>, name: Seq<char>) -> bool {
    exists|k: int| 0 <= k < listing.len() && (#[trigger] listing[k]).0 == name
}

/// The listing once a backup of the given name was taken at `now`: the new
/// backup stands last, unless the second has a backup already.
pub open spec fn after_backup(listing: Seq<(Seq<char>, Timestamp)>, name: Seq<char>, now: Timestamp) -> Seq<
    (Seq<char>, Timestamp),
> {
    if names_entry(listing, name) {
        listing
    } else {
        listing.push((name, now))
    }
}

/// `names` followed by the names of those among the first `n` backups of the
/// listing that are thrown away.
pub open spec fn with_doomed(
    names: Seq<Seq<char>>,
    listing: Seq<(Seq<char>, Timestamp)>,
    config: HistoryConfig,
    now: Timestamp,
    n: int,
) -> Seq<Seq<char>>
    decreases n,
{
    if n <= 0 {
        names
    } else {
        let before = with_doomed(names, listing, config, now, n - 1);
        if thrown_away(listed_times(listing), config, now, n - 1) {
            before.push(listing[n - 1].0)
        } else {
            before
        }
    }
}

fn has_entry_named(entries: &Vec<BackupEntry>, name: &str) -> (r: bool)
    ensures
        r == names_entry(entries_view(entries@), name@),
{
    let mut k: usize = 0;
    while k < entries.len()
        invariant
            k <= entries.len(),
            forall|j: int| 0 <= j < k ==> (#[trigger] entries_view(entries@)[j]).0 != name@,
        decreases entries.len() - k,
    {
        if text_eq(entries[k].name.as_str(), name) {
            assert(entries_view(entries@)[k as int].0 == name@);
            return true;
        }
        k = k + 1;
    }
    false
}

/// Plans the backup before an export, given the names of the files in the
/// directory of the backups.
///
/// Where no backup is to be taken, because backups are disabled, there is
/// no file to back up, or the latest backup holds the same bytes already,
/// nothing is to be done.  Otherwise a backup named after `now` is to be
/// created, and of the backups of the stem, the new one among them, those
/// are to be removed that [`thrown_away`] marks.
pub fn plan_backup(
    names: &Vec<String>,
    config: &HistoryConfig,
    stem: &str,
    extension: &str,
    target_exists: bool,
    same_as_latest: bool,
    now: &Timestamp,
) -> (r: BackupPlan)
    ensures
        ({
            let wanted = config.enabled && target_exists && !same_as_latest;
            match pattern_text(now.seconds(), now.subsec_nanos(), STAMP_PATTERN@) {
                Some(stamp) => if wanted {
                    let name = backup_name_of(stem@, stamp, extension@);
                    let listing = after_backup(with_backups(Seq::empty(), texts(names@), Some(stem@ + "."@)), name, *now);
                    opt_text(r.create) == Some(name) && texts(r.remove@) == with_doomed(
                        Seq::empty(),
                        listing,
                        *config,
                        *now,
                        listing.len() as int,
                    )
                } else {
                    r.create is None && r.remove@.len() == 0
                },
                None => r.create is None && r.remove@.len() == 0,
            }
        }),
{
    if !should_backup(config, target_exists, same_as_latest) {
        return BackupPlan { create: None, remove: Vec::new() };
    }
    let name: String = match backup_name(stem, extension, now) {
        Some(name) => name,
        None => {
            return BackupPlan { create: None, remove: Vec::new() };
        },
    };
    let mut prefix: String = stem.to_owned();
    prefix.append(".");
    let mut entries: Vec<BackupEntry> = backups_in(names, Some(prefix.as_str()));
    let ghost found = entries_view(entries@);
    if !has_entry_named(&entries, name.as_str()) {
        entries.push(BackupEntry { name: name.clone(), taken_at: *now });
        proof {
            assert(entries_view(entries@) =~= found.push((name@, *now)));
        }
    }
    let ghost listing = entries_view(entries@);
    proof {
        assert(listing == after_backup(found, name@, *now));
        assert(times_of(entries@) =~= listed_times(listing));
    }
    let flags: Vec<bool> = prune_backups(&entries, config, now);
    let mut remove: Vec<String> = Vec::new();
    let mut i: usize = 0;
    proof {
        assert(texts(remove@) =~= with_doomed(Seq::empty(), listing, *config, *now, 0));
    }
    while i < entries.len()
        invariant
            i <= entries.len(),
            flags@.len() == entries@.len(),
            listing == entries_view(entries@),
            times_of(entries@) == listed_times(listing),
            forall|k: int| 0 <= k < flags@.len() ==> flags@[k] == thrown_away(times_of(entries@), *config, *now, k),
            texts(remove@) == with_doomed(Seq::empty(), listing, *config, *now, i as int),
        decreases entries.len() - i,
    {
        let ghost before = texts(remove@);
        if flags[i] {
            remove.push(entries[i].name.clone());
            proof {
                assert(texts(remove@) =~= before.push(listing[i as int].0));
            }
        }
        i = i + 1;
    }
    BackupPlan { create: Some(name), remove }
}

} // verus!
