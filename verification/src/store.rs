//! The in-memory record store: per-kind logs of records tagged with the site
//! they belong to, queried newest first and filtered by site.
use vstd::prelude::*;
use crate::text::str_eq;

verus! {

/// Whether a logged record passes a site filter (`None` lets every record pass).
pub open spec fn passes<T>(entry: (Seq<char>, T), filter: Option<Seq<char>>) -> bool {
    match filter {
        None => true,
        Some(site) => entry.0 == site,
    }
}

/// The records of `log` that pass `filter`, newest first.
pub open spec fn newest_matching<T>(log: Seq<(Seq<char>, T)>, filter: Option<Seq<char>>) -> Seq<T>
    decreases log.len(),
{
    if log.len() == 0 {
        Seq::empty()
    } else {
        let rest = newest_matching(log.drop_last(), filter);
        if passes(log.last(), filter) {
            seq![log.last().1] + rest
        } else {
            rest
        }
    }
}

/// At most the first `limit` elements of `s`.
pub open spec fn capped<T>(s: Seq<T>, limit: nat) -> Seq<T> {
    if s.len() > limit {
        s.take(limit as int)
    } else {
        s
    }
}

/// What a query with `filter` and `limit` answers on `log`.
pub open spec fn query<T>(log: Seq<(Seq<char>, T)>, filter: Option<Seq<char>>, limit: nat) -> Seq<T> {
    capped(newest_matching(log, filter), limit)
}

/// The newest records of a log are those of its newer part, then those of its
/// older part.
pub proof fn lemma_newest_matching_split<T>(
    log: Seq<(Seq<char>, T)>,
    filter: Option<Seq<char>>,
    i: int,
)
    requires
        0 <= i <= log.len(),
    ensures
        newest_matching(log, filter) == newest_matching(log.subrange(i, log.len() as int), filter)
            + newest_matching(log.subrange(0, i), filter),
    decreases log.len(),
{
    if i == log.len() {
        assert(log.subrange(0, i) =~= log);
        assert(newest_matching(log.subrange(i, log.len() as int), filter) =~= Seq::<T>::empty());
        assert(newest_matching(log, filter) =~= Seq::<T>::empty() + newest_matching(log, filter));
    } else {
        let n: int = log.len() as int;
        lemma_newest_matching_split(log.drop_last(), filter, i);
        let newer = log.subrange(i, n);
        assert(newer.drop_last() =~= log.drop_last().subrange(i, n - 1));
        assert(newer.last() == log.last());
        assert(log.drop_last().subrange(0, i) =~= log.subrange(0, i));
        if passes(log.last(), filter) {
            assert(newest_matching(log, filter) =~= newest_matching(newer, filter)
                + newest_matching(log.subrange(0, i), filter));
        } else {
            assert(newest_matching(log, filter) =~= newest_matching(newer, filter)
                + newest_matching(log.subrange(0, i), filter));
        }
    }
}

/// A log of records, oldest first, each tagged with the id of its site.
pub struct SiteLog<T> {
    entries: Vec<(String, T)>,
}

impl<T> View for SiteLog<T> {
    type V = Seq<(Seq<char>, T)>;

    closed spec fn view(&self) -> Seq<(Seq<char>, T)> {
        self.entries@.map_values(|e: (String, T)| (e.0@, e.1))
    }
}

impl<T> SiteLog<T> {
    /// An empty log.
    pub fn new() -> (log: Self)
        ensures
            log@ == Seq::<(Seq<char>, T)>::empty(),
    {
        let log = SiteLog { entries: Vec::new() };
        assert(log@ =~= Seq::<(Seq<char>, T)>::empty());
        log
    }

    /// Number of records held.
    pub fn len(&self) -> (n: usize)
        ensures
            n == self@.len(),
    {
        self.entries.len()
    }

    /// Appends a record of site `site`.
    pub fn insert(&mut self, site: &str, record: T)
        ensures
            final(self)@ == old(self)@.push((site@, record)),
    {
        let s = String::from_str(site);
        self.entries.push((s, record));
        assert(final(self)@ =~= old(self)@.push((site@, record)));
    }

    /// Appends records in the order given.
    pub fn append(&mut self, records: Vec<(String, T)>)
        ensures
            final(self)@ == old(self)@ + records@.map_values(|e: (String, T)| (e.0@, e.1)),
    {
        let ghost given = records@;
        let mut records = records;
        self.entries.append(&mut records);
        assert(self@ =~= old(self)@ + given.map_values(|e: (String, T)| (e.0@, e.1)));
    }

    /// The `limit` newest records that pass `filter`, newest first.
    pub fn recent_filtered(&self, filter: Option<&str>, limit: usize) -> (r: Vec<&T>)
        ensures
            r@.map_values(|x: &T| *x) == query(
                self@,
                match filter {
                    Some(s) => Some(s@),
                    None => None,
                },
                limit as nat,
            ),
            r@.len() <= limit,
    {
        let ghost f: Option<Seq<char>> = match filter {
            Some(s) => Some(s@),
            None => None,
        };
        let ghost log = self@;
        let n: usize = self.entries.len();
        let mut r: Vec<&T> = Vec::new();
        let mut i: usize = n;
        assert(log.subrange(n as int, n as int) =~= Seq::<(Seq<char>, T)>::empty());
        assert(r@.map_values(|x: &T| *x) =~= capped(
            newest_matching(log.subrange(n as int, n as int), f),
            limit as nat,
        ));
        while i > 0
            invariant
                log == self@,
                n == log.len(),
                i <= n,
                r@.len() <= limit,
                r@.map_values(|x: &T| *x) == capped(
                    newest_matching(log.subrange(i as int, n as int), f),
                    limit as nat,
                ),
                f == match filter {
                    Some(s) => Some(s@),
                    None => None::<Seq<char>>,
                },
            decreases i,
        {
            let ghost before = r@.map_values(|x: &T| *x);
            let ghost newer = newest_matching(log.subrange(i as int, n as int), f);
            let entry = &self.entries[i - 1];
            assert(log[i - 1] == (entry.0@, entry.1));
            let keep = match filter {
                Some(s) => str_eq(entry.0.as_str(), s),
                None => true,
            };
            assert(keep == passes(log[i - 1], f));
            proof {
                let sub = log.subrange(i - 1, n as int);
                lemma_newest_matching_split(sub, f, 1);
                assert(sub.subrange(1, sub.len() as int) =~= log.subrange(i as int, n as int));
                let one = sub.subrange(0, 1);
                assert(one =~= seq![log[i - 1]]);
                assert(one.drop_last() =~= Seq::<(Seq<char>, T)>::empty());
                assert(newest_matching(one.drop_last(), f) =~= Seq::<T>::empty());
                assert(one.last() == log[i - 1]);
                if keep {
                    assert(newest_matching(one, f) =~= seq![log[i - 1].1]);
                } else {
                    assert(newest_matching(one, f) =~= Seq::<T>::empty());
                }
            }
            if keep && r.len() < limit {
                r.push(&entry.1);
                assert(r@.map_values(|x: &T| *x) =~= before.push(entry.1));
                assert(newest_matching(log.subrange(i - 1, n as int), f) =~= newer.push(
                    entry.1,
                ));
            } else if keep {
                assert(newest_matching(log.subrange(i - 1, n as int), f) =~= newer.push(
                    entry.1,
                ));
                assert(capped(newer.push(entry.1), limit as nat) =~= capped(
                    newer,
                    limit as nat,
                ));
            } else {
                assert(newest_matching(log.subrange(i - 1, n as int), f) =~= newer);
            }
            i = i - 1;
        }
        assert(log.subrange(0, n as int) =~= log);
        r
    }

    /// The `limit` newest records of site `site`, newest first.
    pub fn recent(&self, site: &str, limit: usize) -> (r: Vec<&T>)
        ensures
            r@.map_values(|x: &T| *x) == query(self@, Some(site@), limit as nat),
            r@.len() <= limit,
    {
        self.recent_filtered(Some(site), limit)
    }

    /// The newest record of site `site`, if there is one.
    pub fn latest(&self, site: &str) -> (r: Option<&T>)
        ensures
            r.is_some() == (newest_matching(self@, Some(site@)).len() > 0),
            r matches Some(x) ==> *x == newest_matching(self@, Some(site@))[0],
    {
        let v = self.recent_filtered(Some(site), 1);
        assert(v@.map_values(|x: &T| *x).len() == v@.len());
        if v.len() > 0 {
            assert(v@.map_values(|x: &T| *x)[0] == *v@[0]);
            Some(v[0])
        } else {
            None
        }
    }
}

/// A query answers only records that pass its filter: every record in the
/// answer was logged under the requested site.
pub proof fn law_query_only_matching<T>(
    log: Seq<(Seq<char>, T)>,
    filter: Option<Seq<char>>,
    limit: nat,
    j: int,
)
    requires
        0 <= j < query(log, filter, limit).len(),
    ensures
        exists|i: int|
            0 <= i < log.len() && passes(#[trigger] log[i], filter) && log[i].1 == query(
                log,
                filter,
                limit,
            )[j],
    decreases log.len(),
{
    let all = newest_matching(log, filter);
    assert(query(log, filter, limit)[j] == all[j]);
    let n: int = log.len() as int;
    let rest = newest_matching(log.drop_last(), filter);
    if passes(log.last(), filter) && j == 0 {
        assert(passes(log[n - 1], filter));
    } else {
        let jj: int = if passes(log.last(), filter) {
            j - 1
        } else {
            j
        };
        assert(all[j] == rest[jj]);
        assert(query(log.drop_last(), filter, rest.len()) == rest);
        law_query_only_matching(log.drop_last(), filter, rest.len(), jj);
        let i: int = choose|i: int|
            0 <= i < log.drop_last().len() && passes(#[trigger] log.drop_last()[i], filter)
                && log.drop_last()[i].1 == query(log.drop_last(), filter, rest.len())[jj];
        assert(log[i] == log.drop_last()[i]);
    }
}

/// Pages of one query are consistent: the answer with a smaller limit is the
/// beginning of the answer with a larger one.
pub proof fn law_query_limit_prefix<T>(
    log: Seq<(Seq<char>, T)>,
    filter: Option<Seq<char>>,
    small: nat,
    large: nat,
)
    requires
        small <= large,
    ensures
        query(log, filter, small) == query(log, filter, large).take(
            query(log, filter, small).len() as int,
        ),
        query(log, filter, small).len() == if newest_matching(log, filter).len() < small {
            newest_matching(log, filter).len()
        } else {
            small
        },
{
    assert(query(log, filter, small) =~= query(log, filter, large).take(
        query(log, filter, small).len() as int,
    ));
}

/// A record read back right after it was logged: it is the first answer to a
/// query on its site, and the queries on other sites answer as before.
pub proof fn law_read_your_write<T>(
    log: Seq<(Seq<char>, T)>,
    site: Seq<char>,
    record: T,
    other: Seq<char>,
    limit: nat,
)
    requires
        limit >= 1,
        other != site,
    ensures
        query(log.push((site, record)), Some(site), limit)[0] == record,
        query(log.push((site, record)), Some(site), limit).len() >= 1,
        newest_matching(log.push((site, record)), Some(site)) == seq![record]
            + newest_matching(log, Some(site)),
        query(log.push((site, record)), Some(other), limit) == query(log, Some(other), limit),
        query(log.push((site, record)), None, limit)[0] == record,
{
    let after = log.push((site, record));
    assert(after.drop_last() =~= log);
    assert(after.last() == (site, record));
}

/// The in-memory store that stands in for the database: one log per kind of
/// record.
pub struct FallbackBuffer<M, P, S, A, F> {
    pub measurements: SiteLog<M>,
    pub paths: SiteLog<P>,
    pub intelligibility: SiteLog<S>,
    pub alerts: SiteLog<A>,
    pub fields: SiteLog<F>,
}

/// How many records of each kind the store holds: measurements, sound paths,
/// intelligibility analyses, alerts and sound-field snapshots.
pub struct StoreStats {
    pub measurements: usize,
    pub paths: usize,
    pub intelligibility: usize,
    pub alerts: usize,
    pub fields: usize,
}

impl<M, P, S, A, F> FallbackBuffer<M, P, S, A, F> {
    /// An empty store.
    pub fn new() -> (b: Self)
        ensures
            b.measurements@.len() == 0,
            b.paths@.len() == 0,
            b.intelligibility@.len() == 0,
            b.alerts@.len() == 0,
            b.fields@.len() == 0,
    {
        FallbackBuffer {
            measurements: SiteLog::new(),
            paths: SiteLog::new(),
            intelligibility: SiteLog::new(),
            alerts: SiteLog::new(),
            fields: SiteLog::new(),
        }
    }

    /// The number of records of each kind.
    pub fn stats(&self) -> (s: StoreStats)
        ensures
            s.measurements == self.measurements@.len(),
            s.paths == self.paths@.len(),
            s.intelligibility == self.intelligibility@.len(),
            s.alerts == self.alerts@.len(),
            s.fields == self.fields@.len(),
    {
        StoreStats {
            measurements: self.measurements.len(),
            paths: self.paths.len(),
            intelligibility: self.intelligibility.len(),
            alerts: self.alerts.len(),
            fields: self.fields.len(),
        }
    }
}

} // verus!
