use vstd::prelude::*;
use crate::error::HdrError;
use crate::paths::{file_extension, path_extension};

verus! {

/// Time within which repeated events for one path are suppressed.
pub const DEBOUNCE_WINDOW_MS: u64 = 500;

/// Whether `c` is `lower` or, for an ASCII letter, its upper-case form.
pub open spec fn folds_to(c: char, lower: char) -> bool {
    c == lower || ('a' <= lower <= 'z' && (c as u32) + 32 == (lower as u32))
}

/// Whether an extension names an image kind that the watch reports:
/// `png`, `jpg` or `jpeg`, in any ASCII case.
pub open spec fn is_image_extension(e: Seq<char>) -> bool {
    (e.len() == 3 && folds_to(e[0], 'p') && folds_to(e[1], 'n') && folds_to(e[2], 'g'))
        || (e.len() == 3 && folds_to(e[0], 'j') && folds_to(e[1], 'p') && folds_to(e[2], 'g'))
        || (e.len() == 4 && folds_to(e[0], 'j') && folds_to(e[1], 'p') && folds_to(e[2], 'e')
        && folds_to(e[3], 'g'))
}

/// Whether the path's extension names an image kind that the watch reports.
pub open spec fn is_image_path(path: Seq<char>) -> bool {
    path_extension(path) matches Some(e) && is_image_extension(e)
}

fn char_folds_to(c: char, lower: char, upper: char) -> (r: bool)
    requires
        'a' <= lower <= 'z',
        (upper as u32) + 32 == (lower as u32),
    ensures
        r == folds_to(c, lower),
{
    c == lower || c == upper
}

/// Whether an extension is `png`, `jpg` or `jpeg`, ignoring ASCII case.
pub fn is_image_extension_str(e: &str) -> (r: bool)
    ensures
        r == is_image_extension(e@),
{
    let n = e.unicode_len();
    if n == 3 {
        let c0 = e.get_char(0);
        let c1 = e.get_char(1);
        let c2 = e.get_char(2);
        let png = char_folds_to(c0, 'p', 'P') && char_folds_to(c1, 'n', 'N') && char_folds_to(
            c2,
            'g',
            'G',
        );
        let jpg = char_folds_to(c0, 'j', 'J') && char_folds_to(c1, 'p', 'P') && char_folds_to(
            c2,
            'g',
            'G',
        );
        png || jpg
    } else if n == 4 {
        char_folds_to(e.get_char(0), 'j', 'J') && char_folds_to(e.get_char(1), 'p', 'P')
            && char_folds_to(e.get_char(2), 'e', 'E') && char_folds_to(e.get_char(3), 'g', 'G')
    } else {
        false
    }
}

/// Whether a changed file is an image that the watch reports, judged by
/// its extension.
pub fn should_process_file(path: &str) -> (r: bool)
    ensures
        r == is_image_path(path@),
{
    match file_extension(path) {
        Some(e) => is_image_extension_str(e.as_str()),
        None => false,
    }
}

/// Whether an event for `path` at `now` passes a table of last acceptances.
pub open spec fn debounce_accepts(m: Map<Seq<char>, u64>, path: Seq<char>, now: u64) -> bool {
    !m.contains_key(path) || (now as int) - (m[path] as int) >= DEBOUNCE_WINDOW_MS as int
}

/// The table after an event for `path` at `now` was offered to it.
pub open spec fn debounce_after(m: Map<Seq<char>, u64>, path: Seq<char>, now: u64) -> Map<
    Seq<char>,
    u64,
> {
    if debounce_accepts(m, path, now) {
        m.insert(path, now)
    } else {
        m
    }
}

/// Last accepted time of each path, in milliseconds of a monotonic clock.
/// Entries are overwritten, never removed.
pub struct DebounceTable {
    entries: Vec<(String, u64)>,
    ghost_map: Ghost<Map<Seq<char>, u64>>,
}

impl View for DebounceTable {
    type V = Map<Seq<char>, u64>;

    closed spec fn view(&self) -> Map<Seq<char>, u64> {
        self.ghost_map@
    }
}

impl DebounceTable {
    /// Each entry stands for one key of the map, and each key has one entry.
    pub closed spec fn wf(&self) -> bool {
        &&& forall|i: int|
            0 <= i < self.entries@.len() ==> self.ghost_map@.contains_key(
                (#[trigger] self.entries@[i]).0@,
            ) && self.ghost_map@[self.entries@[i].0@] == self.entries@[i].1
        &&& forall|k: Seq<char>|
            #[trigger] self.ghost_map@.contains_key(k) ==> exists|i: int|
                0 <= i < self.entries@.len() && (#[trigger] self.entries@[i]).0@ == k
        &&& forall|i: int, j: int|
            0 <= i < self.entries@.len() && 0 <= j < self.entries@.len() && (
            #[trigger] self.entries@[i]).0@ == (#[trigger] self.entries@[j]).0@ ==> i == j
    }

    /// An empty table.
    pub fn new() -> (t: DebounceTable)
        ensures
            t.wf(),
            t@ == Map::<Seq<char>, u64>::empty(),
    {
        DebounceTable { entries: Vec::new(), ghost_map: Ghost(Map::empty()) }
    }

    /// Number of distinct paths recorded.
    pub fn len(&self) -> (n: usize)
        requires
            self.wf(),
        ensures
            n == self@.dom().len(),
    {
        proof {
            self.lemma_len();
        }
        self.entries.len()
    }

    proof fn lemma_len(&self)
        requires
            self.wf(),
        ensures
            self@.dom().len() == self.entries@.len(),
            self@.dom().finite(),
    {
        let keys = self.entries@.map_values(|e: (String, u64)| e.0@);
        assert forall|k: Seq<char>| self@.dom().contains(k) <==> keys.to_set().contains(k) by {
            if self@.contains_key(k) {
                let i = choose|i: int|
                    0 <= i < self.entries@.len() && (#[trigger] self.entries@[i]).0@ == k;
                assert(keys[i] == k);
            }
            if keys.to_set().contains(k) {
                let i = choose|i: int| 0 <= i < keys.len() && keys[i] == k;
                assert(self.entries@[i].0@ == k);
            }
        }
        assert(self@.dom() =~= keys.to_set());
        assert forall|i: int, j: int| 0 <= i < keys.len() && 0 <= j < keys.len() && i != j implies keys[i]
            != keys[j] by {
            assert(self.entries@[i].0@ == keys[i] && self.entries@[j].0@ == keys[j]);
        }
        assert(keys.no_duplicates());
        keys.unique_seq_to_set();
    }

    /// Index of the entry for `key`, if there is one.
    fn find(&self, key: &String) -> (r: Option<usize>)
        requires
            self.wf(),
        ensures
            r is None <==> !self@.contains_key(key@),
            r matches Some(i) ==> i < self.entries@.len() && self.entries@[i as int].0@ == key@,
    {
        let mut i: usize = 0;
        while i < self.entries.len()
            invariant
                self.wf(),
                0 <= i <= self.entries@.len(),
                forall|j: int| 0 <= j < i ==> (#[trigger] self.entries@[j]).0@ != key@,
            decreases self.entries@.len() - i,
        {
            if self.entries[i].0 == *key {
                return Some(i);
            }
            i += 1;
        }
        proof {
            if self@.contains_key(key@) {
                let j = choose|j: int|
                    0 <= j < self.entries@.len() && (#[trigger] self.entries@[j]).0@ == key@;
                assert(self.entries@[j].0@ == key@);
            }
        }
        None
    }
}

/// Offers an event for `path` at time `now` (milliseconds) to the table. It
/// passes when the path was never accepted or was last accepted at least
/// the debounce window ago; a passing event records `now` for the path, a
/// suppressed one leaves the table as it was.
pub fn debounce_check(table: &mut DebounceTable, path: &str, now: u64) -> (r: bool)
    requires
        old(table).wf(),
    ensures
        final(table).wf(),
        r == debounce_accepts(old(table)@, path@, now),
        final(table)@ == debounce_after(old(table)@, path@, now),
{
    let key = path.to_owned();
    match table.find(&key) {
        Some(i) => {
            let last = table.entries[i].1;
            if now < last || now - last < DEBOUNCE_WINDOW_MS {
                return false;
            }
            let ghost old_table = *table;
            table.entries.set(i, (key, now));
            proof {
                table.ghost_map@ = old_table.ghost_map@.insert(path@, now);
                assert forall|k: Seq<char>| #[trigger] table.ghost_map@.contains_key(k) implies exists|j: int|
                    0 <= j < table.entries@.len() && (#[trigger] table.entries@[j]).0@ == k by {
                    let j = choose|j: int|
                        0 <= j < old_table.entries@.len() && (#[trigger] old_table.entries@[j]).0@ == k;
                    assert(table.entries@[j].0@ == k);
                }
            }
            true
        },
        None => {
            let ghost old_table = *table;
            table.entries.push((key, now));
            proof {
                table.ghost_map@ = old_table.ghost_map@.insert(path@, now);
                let n = old_table.entries@.len() as int;
                assert(table.entries@[n].0@ == path@);
                assert forall|k: Seq<char>| #[trigger] table.ghost_map@.contains_key(k) implies exists|j: int|
                    0 <= j < table.entries@.len() && (#[trigger] table.entries@[j]).0@ == k by {
                    if k != path@ {
                        let j = choose|j: int|
                            0 <= j < old_table.entries@.len() && (#[trigger] old_table.entries@[j]).0@ == k;
                        assert(table.entries@[j].0@ == k);
                    }
                }
            }
            true
        },
    }
}

/// The kind of a raw file-system notification.
#[derive(Clone, Copy, Debug, PartialEq, Eq, Structural)]
pub enum ChangeKind {
    Create,
    Modify,
    Other,
}

/// What a batch of paths from one event does to the table, and which of
/// its paths are reported, in order.
pub open spec fn filter_paths(m: Map<Seq<char>, u64>, paths: Seq<Seq<char>>, now: u64) -> (Map<
    Seq<char>,
    u64,
>, Seq<Seq<char>>)
    decreases paths.len(),
{
    if paths.len() == 0 {
        (m, Seq::empty())
    } else {
        let (m1, out) = filter_paths(m, paths.drop_last(), now);
        let p = paths.last();
        if is_image_path(p) && debounce_accepts(m1, p, now) {
            (m1.insert(p, now), out.push(p))
        } else {
            (m1, out)
        }
    }
}

/// What one event does: creations and modifications go through the
/// extension filter and the debounce table; other kinds are ignored.
pub open spec fn event_outcome(
    m: Map<Seq<char>, u64>,
    kind: ChangeKind,
    paths: Seq<Seq<char>>,
    now: u64,
) -> (Map<Seq<char>, u64>, Seq<Seq<char>>) {
    match kind {
        ChangeKind::Create | ChangeKind::Modify => filter_paths(m, paths, now),
        ChangeKind::Other => (m, Seq::empty()),
    }
}

/// The text views of a sequence of strings.
pub open spec fn texts(v: Seq<String>) -> Seq<Seq<char>> {
    v.map_values(|s: String| s@)
}

/// Why a watch may not start: `NotConfigured` without a folder, else
/// `AlreadyWatching` while one runs.
pub open spec fn start_refusal(w: WatchController) -> Option<HdrError> {
    if w.folder is None {
        Some(HdrError::NotConfigured)
    } else if w.running {
        Some(HdrError::AlreadyWatching)
    } else {
        None
    }
}

/// The controller once a watch was registered.
pub open spec fn started(w: WatchController) -> WatchController {
    WatchController { running: true, ..w }
}

/// The controller once its watch was ended.
pub open spec fn stopped(w: WatchController) -> WatchController {
    WatchController { running: false, ..w }
}

/// Without a configured folder a watch never starts, running or not.
pub proof fn lemma_start_needs_folder(w: WatchController)
    requires
        w.folder is None,
    ensures
        start_refusal(w) == Some(HdrError::NotConfigured),
{
}

/// A watch that started cannot be started again before it is stopped; once
/// stopped, it can.
pub proof fn lemma_start_twice(w: WatchController)
    requires
        start_refusal(w) is None,
    ensures
        start_refusal(started(w)) == Some(HdrError::AlreadyWatching),
        start_refusal(stopped(started(w))) is None,
{
}

/// Stopping an idle controller changes nothing, and stopping twice is the
/// same as stopping once.
pub proof fn lemma_stop_idempotent(w: WatchController)
    ensures
        !w.running ==> stopped(w) == w,
        stopped(stopped(w)) == stopped(w),
{
}

/// State of the folder watch: the configured folder, whether a watch is
/// registered, and the debounce table shared by every session.
pub struct WatchController {
    pub folder: Option<String>,
    pub running: bool,
    pub table: DebounceTable,
}

impl WatchController {
    pub open spec fn wf(&self) -> bool {
        self.table.wf()
    }

    /// An idle controller with no folder configured.
    pub fn new() -> (w: WatchController)
        ensures
            w.wf(),
            w.folder is None,
            !w.running,
            w.table@ == Map::<Seq<char>, u64>::empty(),
    {
        WatchController { folder: None, running: false, table: DebounceTable::new() }
    }

    /// Sets the folder to watch; `is_dir` tells whether it exists as a
    /// directory. Fails with `InvalidFolder` otherwise, changing nothing.
    /// Whether a watch runs is not changed either way.
    pub fn set_folder(&mut self, folder: String, is_dir: bool) -> (r: Result<(), HdrError>)
        ensures
            r is Err <==> !is_dir,
            r is Err ==> r == Err::<(), HdrError>(HdrError::InvalidFolder) && *final(self) == *old(self),
            r is Ok ==> final(self).folder == Some(folder) && final(self).running == old(self).running
                && final(self).table == old(self).table,
    {
        if !is_dir {
            return Err(HdrError::InvalidFolder);
        }
        self.folder = Some(folder);
        Ok(())
    }

    /// The folder a new watch should register, or why no watch may start.
    pub fn start_target(&self) -> (r: Result<String, HdrError>)
        ensures
            r is Err <==> start_refusal(*self) is Some,
            r matches Err(e) ==> start_refusal(*self) == Some(e),
            r matches Ok(t) ==> self.folder matches Some(f) && t@ == f@,
    {
        match &self.folder {
            None => Err(HdrError::NotConfigured),
            Some(f) => {
                if self.running {
                    Err(HdrError::AlreadyWatching)
                } else {
                    Ok(f.clone())
                }
            },
        }
    }

    /// Records the outcome of registering the watch for `start_target`'s
    /// folder: a watch that was set up is running; a failure is reported as
    /// `WatchSetup` and leaves the controller as it was.
    pub fn finish_start(&mut self, setup: Result<(), String>) -> (r: Result<(), HdrError>)
        ensures
            setup is Ok ==> r is Ok && *final(self) == started(*old(self)),
            setup matches Err(m) ==> r == Err::<(), HdrError>(HdrError::WatchSetup(m))
                && *final(self) == *old(self),
    {
        match setup {
            Ok(()) => {
                self.running = true;
                Ok(())
            },
            Err(m) => Err(HdrError::WatchSetup(m)),
        }
    }

    /// Ends the watch, if any; the folder and the table stay.
    pub fn stop(&mut self)
        ensures
            *final(self) == stopped(*old(self)),
    {
        self.running = false;
    }

    /// Whether a watch is registered.
    pub fn is_running(&self) -> (r: bool)
        ensures
            r == self.running,
    {
        self.running
    }

    /// Handles one raw notification at time `now` (milliseconds) and returns
    /// the paths to report as detected, in the order given.
    pub fn handle_event(&mut self, kind: ChangeKind, paths: &Vec<String>, now: u64) -> (r: Vec<String>)
        requires
            old(self).wf(),
        ensures
            final(self).wf(),
            final(self).folder == old(self).folder,
            final(self).running == old(self).running,
            (final(self).table@, texts(r@)) == event_outcome(old(self).table@, kind, texts(paths@), now),
    {
        let mut out: Vec<String> = Vec::new();
        if kind == ChangeKind::Other {
            assert(texts(out@) =~= Seq::<Seq<char>>::empty());
            return out;
        }
        let ghost m0 = self.table@;
        let mut i: usize = 0;
        while i < paths.len()
            invariant
                self.wf(),
                self.folder == old(self).folder,
                self.running == old(self).running,
                m0 == old(self).table@,
                0 <= i <= paths@.len(),
                (self.table@, texts(out@)) == filter_paths(m0, texts(paths@).take(i as int), now),
            decreases paths@.len() - i,
        {
            let p = &paths[i];
            proof {
                let ps = texts(paths@).take(i as int + 1);
                assert(ps.drop_last() =~= texts(paths@).take(i as int));
                assert(ps.last() == p@);
            }
            if should_process_file(p.as_str()) {
                if debounce_check(&mut self.table, p.as_str(), now) {
                    out.push(p.clone());
                    assert(texts(out@) =~= texts(out@.drop_last()).push(p@));
                }
            }
            i += 1;
        }
        assert(texts(paths@).take(paths@.len() as int) =~= texts(paths@));
        out
    }
}

} // verus!
