//! The yearly calendar feed: CSV rows filtered down to observance days, keyed
//! by their `YYYYMMDD` date field.

use vstd::prelude::*;
use crate::error::AppError;

verus! {

/// What the CSV reader makes of a text: its records, each a sequence of
/// fields, or nothing where the text is not valid CSV.
pub uninterp spec fn csv_records_of(text: Seq<char>) -> Option<Seq<Seq<Seq<char>>>>;

/// Relies on csv's `ReaderBuilder` (no header row, records of any length) and
/// its `StringRecordsIter`: the records of a text, in order, or the first
/// parse error. The outcome depends on the text alone.
#[verifier::external_body]
fn read_csv_records(text: &str) -> (r: Result<Vec<Vec<String>>, String>)
    ensures
        match r {
            Ok(rows) => csv_records_of(text@) == Some(rows.deep_view()),
            Err(_) => csv_records_of(text@) is None,
        },
{
    csv::ReaderBuilder::new()
        .has_headers(false)
        .flexible(true)
        .from_reader(text.as_bytes())
        .records()
        .map(|rec| rec.map(|fields| fields.iter().map(|f| f.to_string()).collect()))
        .collect::<Result<Vec<Vec<String>>, csv::Error>>()
        .map_err(|e| e.to_string())
}

/// Whether `needle` occurs as a contiguous part of `s`.
pub open spec fn contains_seq(s: Seq<char>, needle: Seq<char>) -> bool {
    exists|i: int|
        0 <= i && i + needle.len() <= s.len() && #[trigger] s.subrange(i, i + needle.len())
            == needle
}

/// Relies on `str::contains` with a `&str` pattern: true exactly when the
/// pattern occurs as a contiguous part of the string.
#[verifier::external_body]
fn str_contains(s: &str, needle: &str) -> (r: bool)
    ensures
        r == contains_seq(s@, needle@),
{
    s.contains(needle)
}

/// The phrase naming a holy day.
pub open spec fn holy_day_marker() -> Seq<char> {
    "วันพระ"@
}

/// The phrase naming the fifteenth night of the lunar month.
pub open spec fn full_moon_marker() -> Seq<char> {
    "15 ค่ำ"@
}

/// Whether a description announces an observance day.
pub open spec fn is_observance(description: Seq<char>) -> bool {
    contains_seq(description, holy_day_marker()) || contains_seq(description, full_moon_marker())
}

/// Whether a record is kept: it has a description and a date, and the
/// description announces an observance day.
pub open spec fn is_kept(record: Seq<Seq<char>>) -> bool {
    record.len() >= 2 && is_observance(record[0])
}

/// The calendar made of records taken in order: each kept record is stored
/// under its date field, a later one replacing an earlier one with that date.
pub open spec fn filter_records(records: Seq<Seq<Seq<char>>>) -> Map<Seq<char>, Seq<Seq<char>>>
    decreases records.len(),
{
    if records.len() == 0 {
        Map::empty()
    } else {
        let prev = filter_records(records.drop_last());
        let last = records.last();
        if is_kept(last) {
            prev.insert(last[1], last)
        } else {
            prev
        }
    }
}

/// Every record stored in a calendar announces an observance day and is
/// stored under its own date field.
pub proof fn lemma_only_observances_kept(records: Seq<Seq<Seq<char>>>)
    ensures
        forall|k: Seq<char>| #[trigger]
            filter_records(records).contains_key(k) ==> is_kept(filter_records(records)[k])
                && filter_records(records)[k][1] == k,
    decreases records.len(),
{
    if records.len() > 0 {
        let prev = records.drop_last();
        lemma_only_observances_kept(prev);
        assert forall|k: Seq<char>| #[trigger]
            filter_records(records).contains_key(k) implies is_kept(filter_records(records)[k])
                && filter_records(records)[k][1] == k by {
            if !(is_kept(records.last()) && k == records.last()[1]) {
                assert(filter_records(prev).contains_key(k));
            }
        }
    }
}

/// A record whose description carries neither marker, or that has no
/// description at all, leaves the calendar unchanged, whatever its number
/// of fields.
pub proof fn lemma_unmarked_record_ignored(records: Seq<Seq<Seq<char>>>, record: Seq<Seq<char>>)
    requires
        record.len() == 0 || !is_observance(record[0]),
    ensures
        filter_records(records.push(record)) == filter_records(records),
{
    assert(records.push(record).drop_last() =~= records);
}

/// Whether a description announces an observance day.
pub fn is_observance_description(description: &str) -> (r: bool)
    ensures
        r == is_observance(description@),
{
    proof {
        reveal_strlit("วันพระ");
        reveal_strlit("15 ค่ำ");
    }
    str_contains(description, "วันพระ") || str_contains(description, "15 ค่ำ")
}

/// One kept record, under its date.
#[derive(Debug, Clone)]
pub struct CalendarEntry {
    pub key: String,
    pub fields: Vec<String>,
}

/// The map that a list of entries stands for: later entries win.
pub open spec fn entries_map(entries: Seq<CalendarEntry>) -> Map<Seq<char>, Seq<Seq<char>>>
    decreases entries.len(),
{
    if entries.len() == 0 {
        Map::empty()
    } else {
        let last = entries.last();
        entries_map(entries.drop_last()).insert(last.key@, last.fields.deep_view())
    }
}

/// The observance days of one year, by date key.
#[derive(Debug, Clone)]
pub struct YearCalendar {
    entries: Vec<CalendarEntry>,
}

impl View for YearCalendar {
    type V = Map<Seq<char>, Seq<Seq<char>>>;

    closed spec fn view(&self) -> Map<Seq<char>, Seq<Seq<char>>> {
        entries_map(self.entries@)
    }
}

proof fn lemma_entries_map_empty(entries: Seq<CalendarEntry>)
    ensures
        (entries_map(entries).dom().len() == 0) == (entries.len() == 0),
        entries_map(entries).dom().finite(),
    decreases entries.len(),
{
    if entries.len() > 0 {
        lemma_entries_map_empty(entries.drop_last());
        let last = entries.last();
        let m = entries_map(entries.drop_last());
        assert(entries_map(entries).dom().contains(last.key@));
        assert(entries_map(entries).dom() == m.dom().insert(last.key@));
        vstd::set_lib::lemma_set_empty_equivalency_len(entries_map(entries).dom());
    }
}

/// Entries past `j` that do not carry `k` leave what `k` maps to unchanged.
proof fn lemma_entries_map_prefix(entries: Seq<CalendarEntry>, j: int, k: Seq<char>)
    requires
        0 <= j <= entries.len(),
        forall|i: int| j <= i < entries.len() ==> (#[trigger] entries[i]).key@ != k,
    ensures
        entries_map(entries).contains_key(k) == entries_map(entries.take(j)).contains_key(k),
        entries_map(entries).contains_key(k) ==> entries_map(entries)[k] == entries_map(
            entries.take(j),
        )[k],
    decreases entries.len() - j,
{
    if j < entries.len() {
        lemma_entries_map_prefix(entries, j + 1, k);
        let t = entries.take(j + 1);
        assert(t.drop_last() =~= entries.take(j));
        assert(t.last() == entries[j]);
    } else {
        assert(entries.take(j) =~= entries);
    }
}

impl YearCalendar {
    pub fn new() -> (r: YearCalendar)
        ensures
            r@ == Map::<Seq<char>, Seq<Seq<char>>>::empty(),
    {
        YearCalendar { entries: Vec::new() }
    }

    /// Stores `fields` under `key`, replacing what was there.
    pub fn insert(&mut self, key: String, fields: Vec<String>)
        ensures
            final(self)@ == old(self)@.insert(key@, fields.deep_view()),
    {
        let ghost before = self.entries@;
        self.entries.push(CalendarEntry { key, fields });
        assert(self.entries@.drop_last() =~= before);
    }

    /// Whether no day is stored.
    pub fn is_empty(&self) -> (r: bool)
        ensures
            r == (self@.dom().len() == 0),
    {
        proof {
            lemma_entries_map_empty(self.entries@);
        }
        self.entries.len() == 0
    }

    /// The fields stored under `key`, if any.
    pub fn get(&self, key: &str) -> (r: Option<&Vec<String>>)
        ensures
            match r {
                Some(f) => self@.contains_key(key@) && self@[key@] == f.deep_view(),
                None => !self@.contains_key(key@),
            },
    {
        let wanted = String::from_str(key);
        let mut i: usize = self.entries.len();
        while i > 0
            invariant
                i <= self.entries@.len(),
                wanted@ == key@,
                forall|j: int| i <= j < self.entries@.len() ==> (#[trigger] self.entries@[j]).key@
                    != key@,
            decreases i,
        {
            let e = &self.entries[i - 1];
            if e.key == wanted {
                proof {
                    lemma_entries_map_prefix(self.entries@, i as int, key@);
                    let t = self.entries@.take(i as int);
                    assert(t.drop_last() =~= self.entries@.take(i - 1));
                    assert(t.last() == self.entries@[i - 1]);
                }
                return Some(&e.fields);
            }
            i = i - 1;
        }
        proof {
            lemma_entries_map_prefix(self.entries@, 0, key@);
            assert(self.entries@.take(0) =~= Seq::<CalendarEntry>::empty());
        }
        None
    }

    /// A field-for-field copy.
    pub fn duplicate(&self) -> (r: YearCalendar)
        ensures
            r@ == self@,
    {
        let mut entries: Vec<CalendarEntry> = Vec::new();
        let mut i: usize = 0;
        while i < self.entries.len()
            invariant
                i <= self.entries@.len(),
                entries@.len() == i,
                forall|j: int| 0 <= j < i ==> (#[trigger] entries@[j]).key@ == self.entries@[j].key@
                    && entries@[j].fields.deep_view() == self.entries@[j].fields.deep_view(),
            decreases self.entries@.len() - i,
        {
            let e = &self.entries[i];
            let fields = copy_fields(&e.fields);
            entries.push(CalendarEntry { key: e.key.clone(), fields });
            i = i + 1;
        }
        proof {
            lemma_entries_map_same(entries@, self.entries@);
        }
        YearCalendar { entries }
    }
}

proof fn lemma_entries_map_same(a: Seq<CalendarEntry>, b: Seq<CalendarEntry>)
    requires
        a.len() == b.len(),
        forall|j: int| 0 <= j < a.len() ==> (#[trigger] a[j]).key@ == b[j].key@
            && a[j].fields.deep_view() == b[j].fields.deep_view(),
    ensures
        entries_map(a) == entries_map(b),
    decreases a.len(),
{
    if a.len() > 0 {
        lemma_entries_map_same(a.drop_last(), b.drop_last());
        assert(a.last() == a[a.len() - 1]);
    }
}

fn copy_fields(v: &Vec<String>) -> (r: Vec<String>)
    ensures
        r.deep_view() == v.deep_view(),
{
    let mut r: Vec<String> = Vec::new();
    let mut i: usize = 0;
    while i < v.len()
        invariant
            i <= v@.len(),
            r@.len() == i,
            forall|j: int| 0 <= j < i ==> (#[trigger] r@[j])@ == v@[j]@,
        decreases v@.len() - i,
    {
        r.push(v[i].clone());
        i = i + 1;
    }
    assert(r.deep_view() =~= v.deep_view());
    r
}

/// Keeps, from records taken in order, those that announce an observance day
/// and carry a date, keyed by that date.
pub fn filter_calendar(records: Vec<Vec<String>>) -> (r: YearCalendar)
    ensures
        r@ == filter_records(records.deep_view()),
{
    let mut cal = YearCalendar::new();
    let mut i: usize = 0;
    let ghost all = records.deep_view();
    while i < records.len()
        invariant
            i <= records@.len(),
            all == records.deep_view(),
            cal@ == filter_records(all.take(i as int)),
        decreases records@.len() - i,
    {
        let rec = &records[i];
        proof {
            assert(all.take(i + 1).drop_last() =~= all.take(i as int));
            assert(all.take(i + 1).last() == rec.deep_view());
        }
        if rec.len() >= 2 && is_observance_description(rec[0].as_str()) {
            let fields = copy_fields(rec);
            cal.insert(rec[1].clone(), fields);
        }
        i = i + 1;
    }
    assert(all.take(records@.len() as int) =~= all);
    cal
}

/// Parses a calendar body: CSV without a header row, kept records keyed by
/// their date field. A body that is not valid CSV is a CSV error.
pub fn parse_calendar(body: &str) -> (r: Result<YearCalendar, AppError>)
    ensures
        match csv_records_of(body@) {
            Some(records) => r is Ok && r->Ok_0@ == filter_records(records),
            None => r is Err && r->Err_0 is CsvError,
        },
{
    match read_csv_records(body) {
        Ok(records) => Ok(filter_calendar(records)),
        Err(msg) => Err(AppError::CsvError(msg)),
    }
}

} // verus!
