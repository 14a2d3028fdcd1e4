//! The calendar service: the per-year cache and the lookup of today and
//! tomorrow in a year's calendar.

use vstd::prelude::*;
use std::collections::HashMap;
use crate::calendar::{YearCalendar, parse_calendar, csv_records_of, filter_records};
use crate::config::Config;
use crate::error::AppError;
use crate::models::{Buddha, BuddhaDate, BuddhaDay, date_key};
use crate::text::{append_decimal, decimal};

verus! {

broadcast use vstd::std_specs::hash::group_hash_axioms;

/// A year's calendar, as a map from date key to the fields of its record.
pub type CalendarMap = Map<Seq<char>, Seq<Seq<char>>>;

/// Whether the cache answers for `year`: it holds a calendar for that year
/// and the calendar is not empty.
pub open spec fn is_cache_hit(cache: Map<i32, CalendarMap>, year: i32) -> bool {
    cache.contains_key(year) && cache[year].dom().len() > 0
}

/// Calendars already fetched, by Buddhist-era year. Entries are only ever
/// added or replaced, never dropped.
pub struct YearCache {
    years: HashMap<i32, YearCalendar>,
}

impl View for YearCache {
    type V = Map<i32, CalendarMap>;

    closed spec fn view(&self) -> Map<i32, CalendarMap> {
        self.years@.map_values(|c: YearCalendar| c@)
    }
}

impl YearCache {
    pub fn new() -> (r: YearCache)
        ensures
            r@ == Map::<i32, CalendarMap>::empty(),
    {
        let r = YearCache { years: HashMap::new() };
        assert(r@ =~= Map::<i32, CalendarMap>::empty());
        r
    }

    /// The calendar cached for `year`, where it is there and not empty.
    pub fn lookup(&self, year: i32) -> (r: Option<&YearCalendar>)
        ensures
            match r {
                Some(c) => is_cache_hit(self@, year) && c@ == self@[year],
                None => !is_cache_hit(self@, year),
            },
    {
        match self.years.get(&year) {
            Some(c) => {
                if c.is_empty() {
                    None
                } else {
                    Some(c)
                }
            },
            None => None,
        }
    }

    /// Stores the calendar of `year`, replacing any earlier one.
    pub fn insert(&mut self, year: i32, calendar: YearCalendar)
        ensures
            final(self)@ == old(self)@.insert(year, calendar@),
    {
        self.years.insert(year, calendar);
        assert(self@ =~= old(self)@.insert(year, calendar@));
    }
}

/// Once a non-empty calendar is stored for a year, the cache answers for
/// that year with it, so the year is not fetched again; the years it
/// already answered for stay answered.
pub proof fn lemma_stored_year_is_hit(cache: Map<i32, CalendarMap>, year: i32, calendar: CalendarMap)
    requires
        calendar.dom().len() > 0,
    ensures
        is_cache_hit(cache.insert(year, calendar), year),
        cache.insert(year, calendar)[year] == calendar,
        forall|y: i32|
            y != year && #[trigger] is_cache_hit(cache, y) ==> is_cache_hit(
                cache.insert(year, calendar),
                y,
            ) && cache.insert(year, calendar)[y] == cache[y],
{
}

/// The address of the calendar of `year` under an endpoint.
pub open spec fn calendar_url_of(endpoint: Seq<char>, year: i32) -> Seq<char> {
    endpoint + "?"@ + decimal(year as int) + ".csv"@
}

/// The label that opens the description of today.
pub open spec fn today_label() -> Seq<char> {
    "วันนี้ "@
}

/// The label that opens the description of tomorrow.
pub open spec fn tomorrow_label() -> Seq<char> {
    "พรุ่งนี้ "@
}

/// Whether `key` is listed in the calendar with at least one field.
pub open spec fn is_listed(calendar: CalendarMap, key: Seq<char>) -> bool {
    calendar.contains_key(key) && calendar[key].len() > 0
}

/// What a lookup of `key` yields: the label followed by the record's first
/// field where the date is listed, else the default result.
pub open spec fn day_matches(d: BuddhaDay, label: Seq<char>, calendar: CalendarMap, key: Seq<char>) -> bool {
    if is_listed(calendar, key) {
        d.found && d.description@ == label + calendar[key][0]
    } else {
        !d.found && d.description@.len() == 0
    }
}

/// The lookup of both dates of `date` in `calendar`.
pub open spec fn resolves(b: Buddha, date: BuddhaDate, calendar: CalendarMap) -> bool {
    day_matches(b.today, today_label(), calendar, date_key(date.today))
        && day_matches(b.tomorrow, tomorrow_label(), calendar, date_key(date.tomorrow))
}

fn lookup_day(calendar: &YearCalendar, label: &str, key: &str) -> (r: BuddhaDay)
    ensures
        day_matches(r, label@, calendar@, key@),
{
    match calendar.get(key) {
        Some(fields) => {
            if fields.len() > 0 {
                let mut description = String::from_str(label);
                description.append(fields[0].as_str());
                BuddhaDay { description, found: true }
            } else {
                BuddhaDay::not_found()
            }
        },
        None => BuddhaDay::not_found(),
    }
}

/// The calendar service: its settings and the calendars fetched so far.
pub struct BuddhaServiceImpl {
    pub config: Config,
    pub cache: YearCache,
}

impl BuddhaServiceImpl {
    pub fn new(config: Config) -> (r: BuddhaServiceImpl)
        ensures
            r.config == config,
            r.cache@ == Map::<i32, CalendarMap>::empty(),
    {
        BuddhaServiceImpl { config, cache: YearCache::new() }
    }

    /// The address of the calendar of `year`: `{endpoint}?{year}.csv`.
    pub fn calendar_url(&self, year: i32) -> (r: String)
        ensures
            r@ == calendar_url_of(self.config.buddha_endpoint@, year),
    {
        proof {
            reveal_strlit("?");
            reveal_strlit(".csv");
        }
        let mut s = self.config.buddha_endpoint.clone();
        s.append("?");
        append_decimal(&mut s, year as i64);
        s.append(".csv");
        s
    }

    /// The calendar of `year` if the cache answers for it; `None` means it
    /// has to be fetched.
    pub fn cached_calendar(&self, year: i32) -> (r: Option<&YearCalendar>)
        ensures
            match r {
                Some(c) => is_cache_hit(self.cache@, year) && c@ == self.cache@[year],
                None => !is_cache_hit(self.cache@, year),
            },
    {
        self.cache.lookup(year)
    }

    /// Parses the fetched calendar body of `year`, caches the result and
    /// returns it. A body that is not valid CSV leaves the cache unchanged.
    pub fn load_calendar(&mut self, year: i32, body: &str) -> (r: Result<YearCalendar, AppError>)
        ensures
            final(self).config == old(self).config,
            match csv_records_of(body@) {
                Some(records) => r is Ok && r->Ok_0@ == filter_records(records)
                    && final(self).cache@ == old(self).cache@.insert(year, r->Ok_0@),
                None => r is Err && r->Err_0 is CsvError && final(self).cache@ == old(self).cache@,
            },
    {
        match parse_calendar(body) {
            Ok(calendar) => {
                self.cache.insert(year, calendar.duplicate());
                Ok(calendar)
            },
            Err(e) => Err(e),
        }
    }

    /// Looks today and tomorrow up in the calendar of the Buddhist-era year.
    pub fn get_buddha(&self, date: &BuddhaDate, calendar: &YearCalendar) -> (r: Buddha)
        ensures
            resolves(r, *date, calendar@),
    {
        proof {
            reveal_strlit("วันนี้ ");
            reveal_strlit("พรุ่งนี้ ");
        }
        let today_key = date.today.format_date();
        let tomorrow_key = date.tomorrow.format_date();
        let today = lookup_day(calendar, "วันนี้ ", today_key.as_str());
        let tomorrow = lookup_day(calendar, "พรุ่งนี้ ", tomorrow_key.as_str());
        Buddha { today, tomorrow }
    }
}

} // verus!
