//! Backups of the values that tweaks replace: the first value read before a
//! tweak changed a setting is kept until the tweak is reverted.

use vstd::prelude::*;

use crate::text::str_eq;

verus! {

/// An instant, in seconds and nanoseconds since 1970-01-01 00:00:00 UTC.
#[derive(Debug, Clone, Copy, PartialEq, Eq, Structural)]
pub struct Timestamp {
    pub secs: i64,
    pub nanos: u32,
}

/// The value that a tweak found before it was first applied.
pub struct BackupRecord {
    pub tweak_id: String,
    pub original_value: String,
    pub timestamp: Timestamp,
}

/// What a backup record holds.
pub struct BackupRecordView {
    pub tweak_id: Seq<char>,
    pub original_value: Seq<char>,
    pub timestamp: Timestamp,
}

impl View for BackupRecord {
    type V = BackupRecordView;

    open spec fn view(&self) -> BackupRecordView {
        BackupRecordView {
            tweak_id: self.tweak_id@,
            original_value: self.original_value@,
            timestamp: self.timestamp,
        }
    }
}

/// The records, by key, that a list of entries gives when they are
/// inserted in order (a later entry replaces an earlier one of its key).
pub open spec fn entries_map(s: Seq<(String, BackupRecord)>) -> Map<Seq<char>, BackupRecordView>
    decreases s.len(),
{
    if s.len() == 0 {
        Map::empty()
    } else {
        entries_map(s.drop_last()).insert(s.last().0@, s.last().1@)
    }
}

/// Whether no key occurs twice among the entries.
pub open spec fn keys_unique(s: Seq<(String, BackupRecord)>) -> bool {
    forall|i: int, j: int| 0 <= i < j < s.len() ==> (#[trigger] s[i]).0@ != (#[trigger] s[j]).0@
}

proof fn lemma_entries_map_dom(s: Seq<(String, BackupRecord)>, k: Seq<char>)
    ensures
        entries_map(s).contains_key(k) <==> exists|i: int| 0 <= i < s.len() && (#[trigger] s[i]).0@ == k,
    decreases s.len(),
{
    if s.len() > 0 {
        let t = s.drop_last();
        lemma_entries_map_dom(t, k);
        if entries_map(s).contains_key(k) {
            if s.last().0@ == k {
                assert(s[s.len() - 1].0@ == k);
            } else {
                let i = choose|i: int| 0 <= i < t.len() && (#[trigger] t[i]).0@ == k;
                assert(s[i] == t[i]);
            }
        }
        if exists|i: int| 0 <= i < s.len() && (#[trigger] s[i]).0@ == k {
            let i = choose|i: int| 0 <= i < s.len() && (#[trigger] s[i]).0@ == k;
            if i < s.len() - 1 {
                assert(t[i] == s[i]);
            }
        }
    }
}

proof fn lemma_entries_map_value(s: Seq<(String, BackupRecord)>, i: int)
    requires
        keys_unique(s),
        0 <= i < s.len(),
    ensures
        entries_map(s).contains_key(s[i].0@),
        entries_map(s)[s[i].0@] == s[i].1@,
    decreases s.len(),
{
    let t = s.drop_last();
    if i < s.len() - 1 {
        assert(t[i] == s[i]);
        assert(keys_unique(t)) by {
            assert forall|a: int, b: int| 0 <= a < b < t.len() implies (#[trigger] t[a]).0@ != (
            #[trigger] t[b]).0@ by {
                assert(t[a] == s[a] && t[b] == s[b]);
            }
        }
        lemma_entries_map_value(t, i);
        assert(s[i].0@ != s[s.len() - 1].0@);
    }
}

proof fn lemma_keys_unique_remove(s: Seq<(String, BackupRecord)>, i: int)
    requires
        keys_unique(s),
        0 <= i < s.len(),
    ensures
        keys_unique(s.remove(i)),
{
    let r = s.remove(i);
    assert forall|a: int, b: int| 0 <= a < b < r.len() implies (#[trigger] r[a]).0@ != (
    #[trigger] r[b]).0@ by {
        let sa = if a < i { a } else { a + 1 };
        let sb = if b < i { b } else { b + 1 };
        assert(r[a] == s[sa] && r[b] == s[sb]);
    }
}

proof fn lemma_entries_map_remove(s: Seq<(String, BackupRecord)>, i: int)
    requires
        keys_unique(s),
        0 <= i < s.len(),
    ensures
        entries_map(s.remove(i)) == entries_map(s).remove(s[i].0@),
{
    let r = s.remove(i);
    let k = s[i].0@;
    lemma_keys_unique_remove(s, i);
    assert forall|key: Seq<char>| #[trigger] entries_map(r).contains_key(key) <==> entries_map(
        s,
    ).remove(k).contains_key(key) by {
        lemma_entries_map_dom(r, key);
        lemma_entries_map_dom(s, key);
        if entries_map(r).contains_key(key) {
            let j = choose|j: int| 0 <= j < r.len() && (#[trigger] r[j]).0@ == key;
            let sj = if j < i { j } else { j + 1 };
            assert(r[j] == s[sj]);
        }
        if entries_map(s).remove(k).contains_key(key) {
            let j = choose|j: int| 0 <= j < s.len() && (#[trigger] s[j]).0@ == key;
            assert(j != i);
            let rj = if j < i { j } else { j - 1 };
            assert(r[rj] == s[j]);
        }
    }
    assert forall|key: Seq<char>| #[trigger] entries_map(r).contains_key(key) implies entries_map(
        r,
    )[key] == entries_map(s).remove(k)[key] by {
        lemma_entries_map_dom(r, key);
        let j = choose|j: int| 0 <= j < r.len() && (#[trigger] r[j]).0@ == key;
        let sj = if j < i { j } else { j + 1 };
        assert(r[j] == s[sj]);
        lemma_entries_map_value(r, j);
        lemma_entries_map_value(s, sj);
    }
    assert(entries_map(r) =~= entries_map(s).remove(k));
}

/// The backups, by tweak identifier.
pub struct BackupState {
    records: Vec<(String, BackupRecord)>,
}

impl View for BackupState {
    type V = Map<Seq<char>, BackupRecordView>;

    closed spec fn view(&self) -> Map<Seq<char>, BackupRecordView> {
        entries_map(self.records@)
    }
}

impl Default for BackupState {
    /// No backups.
    fn default() -> (r: Self)
        ensures
            r@ == Map::<Seq<char>, BackupRecordView>::empty(),
    {
        BackupState::new()
    }
}

impl BackupState {
    /// The state's invariant: no tweak has two backups.
    #[verifier::type_invariant]
    spec fn keys_are_unique(&self) -> bool {
        keys_unique(self.records@)
    }

    /// No backups.
    pub fn new() -> (r: Self)
        ensures
            r@ == Map::<Seq<char>, BackupRecordView>::empty(),
    {
        BackupState { records: Vec::new() }
    }

    /// The position of the entry with key `key`.
    fn position(&self, key: &str) -> (r: Option<usize>)
        ensures
            match r {
                Some(i) => i < self.records@.len() && self.records@[i as int].0@ == key@,
                None => forall|i: int|
                    0 <= i < self.records@.len() ==> (#[trigger] self.records@[i]).0@ != key@,
            },
    {
        let mut i: usize = 0;
        while i < self.records.len()
            invariant
                i <= self.records@.len(),
                forall|j: int| 0 <= j < i ==> (#[trigger] self.records@[j]).0@ != key@,
            decreases self.records@.len() - i,
        {
            if str_eq(self.records[i].0.as_str(), key) {
                return Some(i);
            }
            i = i + 1;
        }
        None
    }

    /// Whether a backup of `key` is held.
    pub fn contains_key(&self, key: &str) -> (r: bool)
        ensures
            r == self@.contains_key(key@),
    {
        proof {
            lemma_entries_map_dom(self.records@, key@);
        }
        self.position(key).is_some()
    }

    /// The backup of `key`, if one is held.
    pub fn get(&self, key: &str) -> (r: Option<&BackupRecord>)
        ensures
            match r {
                Some(rec) => self@.contains_key(key@) && rec@ == self@[key@],
                None => !self@.contains_key(key@),
            },
    {
        proof {
            use_type_invariant(self);
            lemma_entries_map_dom(self.records@, key@);
        }
        match self.position(key) {
            Some(i) => {
                proof {
                    lemma_entries_map_value(self.records@, i as int);
                }
                Some(&self.records[i].1)
            },
            None => None,
        }
    }

    /// Stores `record` as the backup of `key`, replacing one held before.
    pub fn insert(&mut self, key: String, record: BackupRecord)
        ensures
            final(self)@ == old(self)@.insert(key@, record@),
    {
        proof {
            use_type_invariant(&*self);
        }
        let ghost k = key@;
        let ghost m0 = self@;
        let pos = self.position(key.as_str());
        let mut recs: Vec<(String, BackupRecord)> = Vec::new();
        std::mem::swap(&mut recs, &mut self.records);
        assert(entries_map(recs@) == m0);
        assert(keys_unique(recs@));
        match pos {
            Some(i) => {
                proof {
                    lemma_entries_map_remove(recs@, i as int);
                    lemma_keys_unique_remove(recs@, i as int);
                }
                recs.remove(i);
            },
            None => {},
        }
        proof {
            lemma_entries_map_dom(recs@, k);
            assert(entries_map(recs@) == m0.remove(k));
            assert forall|i: int| 0 <= i < recs@.len() implies (#[trigger] recs@[i]).0@ != k by {
                if recs@[i].0@ == k {
                    assert(entries_map(recs@).contains_key(k));
                }
            }
        }
        let ghost before = recs@;
        recs.push((key, record));
        proof {
            assert(recs@.drop_last() =~= before);
            assert(entries_map(recs@) =~= m0.insert(k, record@));
        }
        self.records = recs;
    }

    /// Drops the backup of `key`, and gives it back if one was held.
    pub fn remove(&mut self, key: &str) -> (r: Option<BackupRecord>)
        ensures
            final(self)@ == old(self)@.remove(key@),
            match r {
                Some(rec) => old(self)@.contains_key(key@) && rec@ == old(self)@[key@],
                None => !old(self)@.contains_key(key@),
            },
    {
        proof {
            use_type_invariant(&*self);
            lemma_entries_map_dom(self.records@, key@);
        }
        match self.position(key) {
            Some(i) => {
                let mut recs: Vec<(String, BackupRecord)> = Vec::new();
                std::mem::swap(&mut recs, &mut self.records);
                proof {
                    lemma_entries_map_remove(recs@, i as int);
                    lemma_keys_unique_remove(recs@, i as int);
                    lemma_entries_map_value(recs@, i as int);
                }
                let (_, rec) = recs.remove(i);
                self.records = recs;
                Some(rec)
            },
            None => {
                assert(self@ =~= self@.remove(key@));
                None
            },
        }
    }

    /// Whether no backup is held.
    pub fn is_empty(&self) -> (r: bool)
        ensures
            r == (self@.dom() == Set::<Seq<char>>::empty()),
    {
        if self.records.len() == 0 {
            assert(self@ =~= Map::<Seq<char>, BackupRecordView>::empty());
            true
        } else {
            proof {
                lemma_entries_map_dom(self.records@, self.records@[0].0@);
                assert(self@.dom().contains(self.records@[0].0@));
            }
            false
        }
    }

    /// The backups as `(key, record)` entries, each key once, in the order
    /// they were stored.
    pub fn entries(&self) -> (r: &Vec<(String, BackupRecord)>)
        ensures
            keys_unique(r@),
            entries_map(r@) == self@,
    {
        proof {
            use_type_invariant(self);
        }
        &self.records
    }

    /// The state that holds `entries`, inserted in order.
    pub fn from_entries(entries: Vec<(String, BackupRecord)>) -> (r: Self)
        ensures
            r@ == entries_map(entries@),
    {
        let ghost es = entries@;
        let mut state = BackupState::new();
        let mut rest = entries;
        let total = rest.len();
        let mut n: usize = 0;
        assert(es.take(0) =~= Seq::<(String, BackupRecord)>::empty());
        assert(es.subrange(0, es.len() as int) =~= es);
        while rest.len() > 0
            invariant
                n + rest@.len() == es.len(),
                es.len() == total,
                rest@ == es.subrange(n as int, es.len() as int),
                state@ == entries_map(es.take(n as int)),
            decreases rest@.len(),
        {
            let e = rest.remove(0);
            assert(e == es[n as int]);
            assert(es.take(n + 1).drop_last() =~= es.take(n as int));
            let (k, rec) = e;
            state.insert(k, rec);
            n = n + 1;
            assert(rest@ =~= es.subrange(n as int, es.len() as int));
        }
        assert(es.take(n as int) =~= es);
        state
    }
}

/// The backups after the value `original_value` of tweak `tweak_id` was
/// recorded at `timestamp`: a tweak that already has a backup keeps it, so
/// that the value from before any change is the one kept.
pub open spec fn recorded(
    m: Map<Seq<char>, BackupRecordView>,
    tweak_id: Seq<char>,
    original_value: Seq<char>,
    timestamp: Timestamp,
) -> Map<Seq<char>, BackupRecordView> {
    if m.contains_key(tweak_id) {
        m
    } else {
        m.insert(
            tweak_id,
            BackupRecordView { tweak_id, original_value, timestamp },
        )
    }
}

/// The current time of the system clock (`std::time::SystemTime::now`),
/// converted by chrono's `From<SystemTime> for DateTime<Utc>` into seconds
/// and nanoseconds since the Unix epoch; a clock set before 1970 gives a
/// negative number of seconds rather than a panic. Nothing is stated of the
/// result: it is the time.
#[verifier::external_body]
fn now_timestamp() -> (r: Timestamp) {
    let now = chrono::DateTime::<chrono::Utc>::from(std::time::SystemTime::now());
    Timestamp { secs: now.timestamp(), nanos: now.timestamp_subsec_nanos() }
}

/// The standard library's owned filesystem path, held and handed back as
/// it is.
#[verifier::external_type_specification]
#[verifier::external_body]
pub struct ExPathBuf(std::path::PathBuf);

/// Keeps the backups of the tweaks, in a file at a given path.
pub struct BackupManager {
    backup_file_path: std::path::PathBuf,
}

impl BackupManager {
    /// The path of the backup file.
    pub closed spec fn path(&self) -> std::path::PathBuf {
        self.backup_file_path
    }

    /// A manager of the backups kept at `path`.
    pub fn new(path: std::path::PathBuf) -> (r: Self)
        ensures
            r.path() == path,
    {
        BackupManager { backup_file_path: path }
    }

    /// The path of the backup file.
    pub fn backup_file_path(&self) -> (r: &std::path::PathBuf)
        ensures
            *r == self.path(),
    {
        &self.backup_file_path
    }

    /// Records in `state`, at `timestamp`, that tweak `tweak_id` found
    /// `original_value`, unless it already has a backup, which is then kept.
    /// The result says whether `state` changed and must be saved.
    pub fn record_backup_at(
        &self,
        state: &mut BackupState,
        tweak_id: &str,
        original_value: &str,
        timestamp: Timestamp,
    ) -> (changed: bool)
        ensures
            final(state)@ == recorded(old(state)@, tweak_id@, original_value@, timestamp),
            changed == !old(state)@.contains_key(tweak_id@),
    {
        if state.contains_key(tweak_id) {
            false
        } else {
            let record = BackupRecord {
                tweak_id: tweak_id.to_owned(),
                original_value: original_value.to_owned(),
                timestamp,
            };
            state.insert(tweak_id.to_owned(), record);
            true
        }
    }

    /// Records in `state`, at the current time, that tweak `tweak_id` found
    /// `original_value`, unless it already has a backup, which is then kept.
    /// The result says whether `state` changed and must be saved.
    pub fn record_backup(&self, state: &mut BackupState, tweak_id: &str, original_value: &str) -> (changed: bool)
        ensures
            exists|t: Timestamp| final(state)@ == recorded(old(state)@, tweak_id@, original_value@, t),
            changed == !old(state)@.contains_key(tweak_id@),
    {
        let now = now_timestamp();
        self.record_backup_at(state, tweak_id, original_value, now)
    }

    /// Drops the backup of tweak `tweak_id` from `state`. The result says
    /// whether there was one, so that `state` changed and must be saved.
    pub fn remove_backup(&self, state: &mut BackupState, tweak_id: &str) -> (changed: bool)
        ensures
            final(state)@ == old(state)@.remove(tweak_id@),
            changed == old(state)@.contains_key(tweak_id@),
    {
        let r = state.remove(tweak_id);
        r.is_some()
    }
}

/// A second record for a tweak that has a backup changes nothing: the
/// first value found is kept.
pub proof fn lemma_record_keeps_first(
    m: Map<Seq<char>, BackupRecordView>,
    tweak_id: Seq<char>,
    first: Seq<char>,
    second: Seq<char>,
    t1: Timestamp,
    t2: Timestamp,
)
    ensures
        recorded(recorded(m, tweak_id, first, t1), tweak_id, second, t2) == recorded(
            m,
            tweak_id,
            first,
            t1,
        ),
        recorded(recorded(m, tweak_id, first, t1), tweak_id, second, t2)[tweak_id].original_value
            == if m.contains_key(tweak_id) {
            m[tweak_id].original_value
        } else {
            first
        },
{
}

/// After a record, the tweak has a backup, and the backups of the other
/// tweaks are unchanged.
pub proof fn lemma_record_then_lookup(
    m: Map<Seq<char>, BackupRecordView>,
    tweak_id: Seq<char>,
    original_value: Seq<char>,
    t: Timestamp,
    other: Seq<char>,
)
    requires
        other != tweak_id,
    ensures
        recorded(m, tweak_id, original_value, t).contains_key(tweak_id),
        !m.contains_key(tweak_id) ==> recorded(m, tweak_id, original_value, t)[tweak_id]
            == (BackupRecordView { tweak_id, original_value, timestamp: t }),
        recorded(m, tweak_id, original_value, t).contains_key(other) == m.contains_key(other),
        m.contains_key(other) ==> recorded(m, tweak_id, original_value, t)[other] == m[other],
{
}

/// Removing the backup that a record added gives back the backups from
/// before the record.
pub proof fn lemma_record_then_remove(
    m: Map<Seq<char>, BackupRecordView>,
    tweak_id: Seq<char>,
    original_value: Seq<char>,
    t: Timestamp,
)
    requires
        !m.contains_key(tweak_id),
    ensures
        recorded(m, tweak_id, original_value, t).remove(tweak_id) == m,
{
    assert(recorded(m, tweak_id, original_value, t).remove(tweak_id) =~= m);
}

} // verus!
