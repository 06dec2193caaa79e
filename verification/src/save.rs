//! Save-game records: the snapshot written to disk, its errors, the version
//! check applied after loading, and the ordering of the save list.
use vstd::prelude::*;
use crate::flags::GameFlags;
use crate::state::{GameRng, TribeArray};

verus! {

/// Format version written into save files.
pub const SAVE_VERSION: u32 = 1;
/// File name of the quick save.
pub const QUICKSAVE_FILENAME: &'static str = "quicksave.pop3save";

/// Complete game state snapshot for save/load.
#[derive(Debug, Clone)]
pub struct SaveFile {
    pub version: u32,
    pub level_num: u32,
    pub game_tick: u32,
    pub tick_counter: u32,
    pub game_speed: u32,
    pub player_tribe: u8,
    pub ai_update_mult: i8,
    pub flags: GameFlags,
    pub rng: GameRng,
    pub tribes: TribeArray,
    pub ai_script_variables: Vec<Vec<i32>>,
    pub ai_every_counters: Vec<Vec<(String, u32)>>,
}

#[derive(Debug)]
pub enum SaveError {
    Io(String),
    Serialize(String),
    Deserialize(String),
    VersionMismatch { expected: u32, found: u32 },
}

impl SaveError {
    /// Human-readable description of the error.
    pub fn describe(&self) -> (s: String)
        ensures
            s@ == describe_error(*self),
    {
        match self {
            SaveError::Io(msg) => String::from_str("I/O error: ").concat(msg.as_str()),
            SaveError::Serialize(msg) => String::from_str("Serialization error: ").concat(msg.as_str()),
            SaveError::Deserialize(msg) => String::from_str("Deserialization error: ").concat(
                msg.as_str(),
            ),
            SaveError::VersionMismatch { expected, found } => {
                let mut s = String::from_str("Save version mismatch: expected ");
                crate::text::push_decimal_u64(&mut s, *expected as u64);
                s.append(", found ");
                crate::text::push_decimal_u64(&mut s, *found as u64);
                s
            },
        }
    }
}

/// The description of each error.
pub open spec fn describe_error(e: SaveError) -> Seq<char> {
    match e {
        SaveError::Io(msg) => "I/O error: "@ + msg@,
        SaveError::Serialize(msg) => "Serialization error: "@ + msg@,
        SaveError::Deserialize(msg) => "Deserialization error: "@ + msg@,
        SaveError::VersionMismatch { expected, found } => "Save version mismatch: expected "@
            + crate::text::decimal_digits(expected as nat) + ", found "@ + crate::text::decimal_digits(
            found as nat,
        ),
    }
}

/// Accept a decoded save only if it carries the current format version.
pub fn check_version(decoded: SaveFile) -> (r: Result<SaveFile, SaveError>)
    ensures
        decoded.version == SAVE_VERSION ==> r == Ok::<SaveFile, SaveError>(decoded),
        decoded.version != SAVE_VERSION ==> r == Err::<SaveFile, SaveError>(
            SaveError::VersionMismatch { expected: SAVE_VERSION, found: decoded.version },
        ),
{
    if decoded.version != SAVE_VERSION {
        return Err(SaveError::VersionMismatch { expected: SAVE_VERSION, found: decoded.version });
    }
    Ok(decoded)
}

/// A file found in the save directory, as plain values: the extension and stem
/// of its name (when valid text), its path, and its modification time in
/// nanoseconds relative to the Unix epoch (when known).
#[derive(Debug, Clone)]
pub struct SaveCandidate {
    pub extension: Option<String>,
    pub stem: Option<String>,
    pub path: String,
    pub modified: Option<i128>,
}

/// A save found in the save directory.
#[derive(Debug, Clone)]
pub struct SaveEntry {
    pub filename: String,
    pub path: String,
    pub modified: Option<i128>,
}

/// A save entry as plain values.
pub struct SaveEntryView {
    pub filename: Seq<char>,
    pub path: Seq<char>,
    pub modified: Option<i128>,
}

impl View for SaveEntry {
    type V = SaveEntryView;

    open spec fn view(&self) -> SaveEntryView {
        SaveEntryView { filename: self.filename@, path: self.path@, modified: self.modified }
    }
}

/// The views of a list of entries.
pub open spec fn entry_views(s: Seq<SaveEntry>) -> Seq<SaveEntryView> {
    s.map_values(|e: SaveEntry| e@)
}

/// `a` orders strictly before `b` as a time: unknown times are the oldest.
pub open spec fn time_lt(a: Option<i128>, b: Option<i128>) -> bool {
    match (a, b) {
        (None, Some(_)) => true,
        (Some(x), Some(y)) => x < y,
        _ => false,
    }
}

/// Insert `e` into a newest-first list after every entry at least as new.
pub open spec fn insert_newest_first(s: Seq<SaveEntryView>, e: SaveEntryView) -> Seq<SaveEntryView>
    decreases s.len(),
{
    if s.len() == 0 {
        seq![e]
    } else if time_lt(s[0].modified, e.modified) {
        seq![e] + s
    } else {
        seq![s[0]] + insert_newest_first(s.drop_first(), e)
    }
}

/// Stable sort, newest first: entries with equal times keep their order.
pub open spec fn sort_newest_first(s: Seq<SaveEntryView>) -> Seq<SaveEntryView>
    decreases s.len(),
{
    if s.len() == 0 {
        Seq::empty()
    } else {
        insert_newest_first(sort_newest_first(s.drop_last()), s.last())
    }
}

/// Whether a candidate is a save file (extension `pop3save`).
pub open spec fn is_save_file(c: SaveCandidate) -> bool {
    c.extension matches Some(ext) && ext@ == "pop3save"@
}

/// The save entry of a candidate: its stem, or `unknown` when it has none.
pub open spec fn entry_of(c: SaveCandidate) -> SaveEntryView {
    SaveEntryView {
        filename: match c.stem {
            Some(s) => s@,
            None => "unknown"@,
        },
        path: c.path@,
        modified: c.modified,
    }
}

/// Entries of the save files among `cs`, in directory order.
pub open spec fn save_entries(cs: Seq<SaveCandidate>) -> Seq<SaveEntryView>
    decreases cs.len(),
{
    if cs.len() == 0 {
        Seq::empty()
    } else if is_save_file(cs.last()) {
        save_entries(cs.drop_last()).push(entry_of(cs.last()))
    } else {
        save_entries(cs.drop_last())
    }
}

/// Newest-first ordering: no entry is older than a later one.
pub open spec fn newest_first(s: Seq<SaveEntryView>) -> bool {
    forall|i: int, j: int| 0 <= i < j < s.len() ==> !time_lt(#[trigger] s[i].modified, #[trigger] s[j].modified)
}

/// Position at which `e` goes in a newest-first list: the first older entry.
spec fn is_insert_pos(s: Seq<SaveEntryView>, e: SaveEntryView, p: int) -> bool {
    &&& 0 <= p <= s.len()
    &&& forall|k: int| 0 <= k < p ==> !time_lt(#[trigger] s[k].modified, e.modified)
    &&& p < s.len() ==> time_lt(s[p].modified, e.modified)
}

proof fn lemma_insert_at(s: Seq<SaveEntryView>, e: SaveEntryView, p: int)
    requires
        is_insert_pos(s, e, p),
    ensures
        insert_newest_first(s, e) == s.insert(p, e),
    decreases s.len(),
{
    if s.len() == 0 {
        assert(s.insert(p, e) =~= seq![e]);
    } else if p == 0 {
        assert(s.insert(0, e) =~= seq![e] + s);
    } else {
        assert(!time_lt(s[0].modified, e.modified));
        let t = s.drop_first();
        assert forall|k: int| 0 <= k < p - 1 implies !time_lt(#[trigger] t[k].modified, e.modified) by {
            assert(t[k] == s[k + 1]);
        }
        lemma_insert_at(t, e, p - 1);
        assert(s.insert(p, e) =~= seq![s[0]] + t.insert(p - 1, e));
    }
}

fn entry_time_lt(a: &Option<i128>, b: &Option<i128>) -> (r: bool)
    ensures
        r == time_lt(*a, *b),
{
    match (a, b) {
        (None, Some(_)) => true,
        (Some(x), Some(y)) => *x < *y,
        _ => false,
    }
}

/// Stable sort of save entries, newest first.
pub fn sort_saves_newest_first(entries: Vec<SaveEntry>) -> (r: Vec<SaveEntry>)
    ensures
        entry_views(r@) == sort_newest_first(entry_views(entries@)),
{
    let ghost orig = entries@;
    let ghost views = entry_views(orig);
    let mut rest = entries;
    let mut out: Vec<SaveEntry> = Vec::new();
    let n = rest.len();
    let mut i: usize = 0;
    assert(views.take(0) =~= Seq::<SaveEntryView>::empty());
    assert(entry_views(out@) =~= Seq::<SaveEntryView>::empty());
    while i < n
        invariant
            n == orig.len(),
            views == entry_views(orig),
            0 <= i <= n,
            rest@ == orig.skip(i as int),
            entry_views(out@) == sort_newest_first(views.take(i as int)),
        decreases n - i,
    {
        let e = rest.remove(0);
        assert(e == orig[i as int]);
        assert(rest@ =~= orig.skip(i + 1));
        let mut p: usize = 0;
        while p < out.len() && !entry_time_lt(&out[p].modified, &e.modified)
            invariant
                0 <= p <= out@.len(),
                forall|k: int| 0 <= k < p ==> !time_lt(#[trigger] out@[k].modified, e.modified),
            decreases out@.len() - p,
        {
            p = p + 1;
        }
        let ghost before = out@;
        out.insert(p, e);
        proof {
            let sv = entry_views(before);
            assert forall|k: int| 0 <= k < p implies !time_lt(#[trigger] sv[k].modified, e@.modified) by {
                assert(sv[k] == before[k]@);
            }
            if (p as int) < sv.len() {
                assert(sv[p as int] == before[p as int]@);
            }
            lemma_insert_at(sv, e@, p as int);
            assert(entry_views(out@) =~= sv.insert(p as int, e@));
            assert(views.take(i + 1).drop_last() =~= views.take(i as int));
            assert(views.take(i + 1).last() == e@);
        }
        i = i + 1;
    }
    assert(views.take(n as int) =~= views);
    out
}

/// The entries of the save files among the directory's files, newest first
/// (files of equal time keep directory order).
pub fn select_saves(candidates: Vec<SaveCandidate>) -> (r: Vec<SaveEntry>)
    ensures
        entry_views(r@) == sort_newest_first(save_entries(candidates@)),
{
    let ghost orig = candidates@;
    let mut rest = candidates;
    let mut entries: Vec<SaveEntry> = Vec::new();
    let n = rest.len();
    let mut i: usize = 0;
    let ext = String::from_str("pop3save");
    assert(orig.take(0) =~= Seq::<SaveCandidate>::empty());
    assert(entry_views(entries@) =~= Seq::<SaveEntryView>::empty());
    while i < n
        invariant
            n == orig.len(),
            0 <= i <= n,
            ext@ == "pop3save"@,
            rest@ == orig.skip(i as int),
            entry_views(entries@) == save_entries(orig.take(i as int)),
        decreases n - i,
    {
        let c = rest.remove(0);
        assert(c == orig[i as int]);
        assert(rest@ =~= orig.skip(i + 1));
        assert(orig.take(i + 1).drop_last() =~= orig.take(i as int));
        assert(orig.take(i + 1).last() == c);
        let is_save = match &c.extension {
            Some(e) => *e == ext,
            None => false,
        };
        if is_save {
            let filename = match c.stem {
                Some(s) => s,
                None => String::from_str("unknown"),
            };
            let entry = SaveEntry { filename, path: c.path, modified: c.modified };
            let ghost before = entries@;
            entries.push(entry);
            assert(entry_views(entries@) =~= entry_views(before).push(entry_of(c)));
        }
        i = i + 1;
    }
    assert(orig.take(n as int) =~= orig);
    sort_saves_newest_first(entries)
}

proof fn lemma_insert_multiset(s: Seq<SaveEntryView>, e: SaveEntryView)
    ensures
        insert_newest_first(s, e).to_multiset() == s.to_multiset().insert(e),
    decreases s.len(),
{
    broadcast use vstd::seq_lib::to_multiset_insert;

    if s.len() == 0 {
        assert(seq![e] =~= s.insert(0, e));
    } else if time_lt(s[0].modified, e.modified) {
        assert(seq![e] + s =~= s.insert(0, e));
    } else {
        let t = s.drop_first();
        lemma_insert_multiset(t, e);
        let x = insert_newest_first(t, e);
        assert(seq![s[0]] + x =~= x.insert(0, s[0]));
        assert(t.insert(0, s[0]) =~= s);
        assert(x.insert(0, s[0]).to_multiset() == x.to_multiset().insert(s[0]));
        assert(t.insert(0, s[0]).to_multiset() == t.to_multiset().insert(s[0]));
        assert(t.to_multiset().insert(e).insert(s[0]) =~= t.to_multiset().insert(s[0]).insert(e));
    }
}

/// Every element of an insertion is the inserted one or an old one.
proof fn lemma_insert_bounded(s: Seq<SaveEntryView>, e: SaveEntryView, a: Option<i128>)
    requires
        !time_lt(a, e.modified),
        forall|k: int| 0 <= k < s.len() ==> !time_lt(a, #[trigger] s[k].modified),
    ensures
        forall|k: int| 0 <= k < insert_newest_first(s, e).len() ==> !time_lt(
            a,
            #[trigger] insert_newest_first(s, e)[k].modified,
        ),
        insert_newest_first(s, e).len() == s.len() + 1,
    decreases s.len(),
{
    if s.len() == 0 {
    } else if time_lt(s[0].modified, e.modified) {
        let r = seq![e] + s;
        assert forall|k: int| 0 <= k < r.len() implies !time_lt(a, #[trigger] r[k].modified) by {
            if k > 0 {
                assert(r[k] == s[k - 1]);
            }
        }
    } else {
        let t = s.drop_first();
        assert forall|k: int| 0 <= k < t.len() implies !time_lt(a, #[trigger] t[k].modified) by {
            assert(t[k] == s[k + 1]);
        }
        lemma_insert_bounded(t, e, a);
        let x = insert_newest_first(t, e);
        let r = seq![s[0]] + x;
        assert forall|k: int| 0 <= k < r.len() implies !time_lt(a, #[trigger] r[k].modified) by {
            if k > 0 {
                assert(r[k] == x[k - 1]);
            }
        }
    }
}

proof fn lemma_time_order(a: Option<i128>, b: Option<i128>, c: Option<i128>)
    ensures
        !time_lt(a, b) && !time_lt(b, c) ==> !time_lt(a, c),
        time_lt(a, b) ==> !time_lt(b, a),
        !time_lt(a, b) ==> (time_lt(b, a) || b == a),
{
}

/// Inserting into a newest-first list keeps it newest first.
proof fn lemma_insert_sorted(s: Seq<SaveEntryView>, e: SaveEntryView)
    requires
        newest_first(s),
    ensures
        newest_first(insert_newest_first(s, e)),
    decreases s.len(),
{
    if s.len() == 0 {
    } else if time_lt(s[0].modified, e.modified) {
        let r = seq![e] + s;
        assert forall|i: int, j: int| 0 <= i < j < r.len() implies !time_lt(
            #[trigger] r[i].modified,
            #[trigger] r[j].modified,
        ) by {
            if i == 0 {
                assert(r[j] == s[j - 1]);
                lemma_time_order(s[0].modified, s[j - 1].modified, e.modified);
                lemma_time_order(e.modified, s[0].modified, s[j - 1].modified);
                if j - 1 > 0 {
                    assert(!time_lt(s[0].modified, s[j - 1].modified));
                }
            } else {
                assert(r[i] == s[i - 1] && r[j] == s[j - 1]);
            }
        }
    } else {
        let t = s.drop_first();
        assert(newest_first(t)) by {
            assert forall|i: int, j: int| 0 <= i < j < t.len() implies !time_lt(
                #[trigger] t[i].modified,
                #[trigger] t[j].modified,
            ) by {
                assert(t[i] == s[i + 1] && t[j] == s[j + 1]);
            }
        }
        lemma_insert_sorted(t, e);
        assert forall|k: int| 0 <= k < t.len() implies !time_lt(s[0].modified, #[trigger] t[k].modified) by {
            assert(t[k] == s[k + 1]);
        }
        lemma_insert_bounded(t, e, s[0].modified);
        let x = insert_newest_first(t, e);
        let r = seq![s[0]] + x;
        assert forall|i: int, j: int| 0 <= i < j < r.len() implies !time_lt(
            #[trigger] r[i].modified,
            #[trigger] r[j].modified,
        ) by {
            if i == 0 {
                assert(r[j] == x[j - 1]);
            } else {
                assert(r[i] == x[i - 1] && r[j] == x[j - 1]);
            }
        }
    }
}

/// The save list is ordered newest first and holds exactly the save entries it
/// was given: sorting reorders, it neither drops nor adds an entry.
pub proof fn lemma_sort_newest_first(s: Seq<SaveEntryView>)
    ensures
        newest_first(sort_newest_first(s)),
        sort_newest_first(s).to_multiset() == s.to_multiset(),
    decreases s.len(),
{
    broadcast use vstd::seq_lib::to_multiset_build;

    if s.len() > 0 {
        lemma_sort_newest_first(s.drop_last());
        lemma_insert_sorted(sort_newest_first(s.drop_last()), s.last());
        lemma_insert_multiset(sort_newest_first(s.drop_last()), s.last());
        assert(s.drop_last().push(s.last()) =~= s);
    } else {
        assert(sort_newest_first(s) =~= s);
    }
}

/// Saves are ordered by modification time, a save whose time is unknown
/// counting as older than any save with a known time, and two unknown times
/// as equally old.
pub proof fn lemma_unknown_time_is_oldest(x: i128, y: i128)
    ensures
        time_lt(Some(x), Some(y)) <==> x < y,
        time_lt(None, Some(y)),
        !time_lt(Some(x), None),
        !time_lt(None, None),
{
}

/// Whether a save was modified at time `m`.
pub open spec fn modified_at(m: Option<i128>) -> spec_fn(SaveEntryView) -> bool {
    |e: SaveEntryView| e.modified == m
}

/// A newest-first list whose first save is older than `m` has no save
/// modified at `m`.
proof fn lemma_filter_none_newer(s: Seq<SaveEntryView>, m: Option<i128>)
    requires
        newest_first(s),
        s.len() > 0,
        time_lt(s[0].modified, m),
    ensures
        s.filter(modified_at(m)) == Seq::<SaveEntryView>::empty(),
    decreases s.len(),
{
    reveal(Seq::filter);
    if s.len() > 1 {
        let t = s.drop_last();
        assert(newest_first(t)) by {
            assert forall|i: int, j: int| 0 <= i < j < t.len() implies !time_lt(
                #[trigger] t[i].modified,
                #[trigger] t[j].modified,
            ) by {
                assert(t[i] == s[i] && t[j] == s[j]);
            }
        }
        lemma_filter_none_newer(t, m);
        assert(!time_lt(s[0].modified, s.last().modified));
    } else {
        assert(s.drop_last() =~= Seq::<SaveEntryView>::empty());
        assert(Seq::<SaveEntryView>::empty().filter(modified_at(m)) =~= Seq::<SaveEntryView>::empty());
    }
}

/// Inserting a save into a newest-first list puts it after every save with
/// the same time.
proof fn lemma_insert_newest_filter(s: Seq<SaveEntryView>, e: SaveEntryView, m: Option<i128>)
    requires
        newest_first(s),
    ensures
        insert_newest_first(s, e).filter(modified_at(m)) == (if e.modified == m {
            s.filter(modified_at(m)).push(e)
        } else {
            s.filter(modified_at(m))
        }),
    decreases s.len(),
{
    reveal(Seq::filter);
    broadcast use Seq::filter_distributes_over_add;

    let one = seq![e];
    assert(one.drop_last() =~= Seq::<SaveEntryView>::empty());
    assert(Seq::<SaveEntryView>::empty().filter(modified_at(m)) =~= Seq::<SaveEntryView>::empty());
    if s.len() == 0 {
        assert(s =~= Seq::<SaveEntryView>::empty());
        if e.modified == m {
            assert(one.filter(modified_at(m)) =~= seq![e]);
            assert(s.filter(modified_at(m)).push(e) =~= seq![e]);
        }
    } else if time_lt(s[0].modified, e.modified) {
        if e.modified == m {
            lemma_filter_none_newer(s, m);
            assert((one + s).filter(modified_at(m)) == one.filter(modified_at(m)) + s.filter(modified_at(m)));
            assert(one.filter(modified_at(m)) + s.filter(modified_at(m)) =~= s.filter(modified_at(m)).push(e));
        } else {
            assert((one + s).filter(modified_at(m)) == one.filter(modified_at(m)) + s.filter(modified_at(m)));
            assert(one.filter(modified_at(m)) + s.filter(modified_at(m)) =~= s.filter(modified_at(m)));
        }
    } else {
        let h = seq![s[0]];
        let t = s.drop_first();
        assert(newest_first(t)) by {
            assert forall|i: int, j: int| 0 <= i < j < t.len() implies !time_lt(
                #[trigger] t[i].modified,
                #[trigger] t[j].modified,
            ) by {
                assert(t[i] == s[i + 1] && t[j] == s[j + 1]);
            }
        }
        lemma_insert_newest_filter(t, e, m);
        assert(s =~= h + t);
        assert((h + insert_newest_first(t, e)).filter(modified_at(m)) == h.filter(modified_at(m))
            + insert_newest_first(t, e).filter(modified_at(m)));
        assert((h + t).filter(modified_at(m)) == h.filter(modified_at(m)) + t.filter(modified_at(m)));
        if e.modified == m {
            assert(h.filter(modified_at(m)) + t.filter(modified_at(m)).push(e) =~= (h.filter(modified_at(m))
                + t.filter(modified_at(m))).push(e));
        }
    }
}

/// The newest-first sort is stable: saves with the same modification time
/// (or none) come out in the order they were found.
pub proof fn lemma_sort_newest_first_stable(s: Seq<SaveEntryView>, m: Option<i128>)
    ensures
        sort_newest_first(s).filter(modified_at(m)) == s.filter(modified_at(m)),
    decreases s.len(),
{
    reveal(Seq::filter);
    if s.len() > 0 {
        lemma_sort_newest_first_stable(s.drop_last(), m);
        lemma_sort_newest_first(s.drop_last());
        lemma_insert_newest_filter(sort_newest_first(s.drop_last()), s.last(), m);
    } else {
        assert(sort_newest_first(s) =~= s);
    }
}

} // verus!
