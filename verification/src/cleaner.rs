use crate::errors::CleanError;
use crate::paths::EntryPath;
use crate::time::{Duration, Timestamp};
use vstd::prelude::*;

verus! {

/// Filter that decides whether a file name is protected from any deletion
/// consideration, independent of the conditions.
pub struct ExclusionFilter {
    patterns: Vec<String>,
}

impl ExclusionFilter {
    /// The configured patterns, one name each, in order.
    pub closed spec fn spec_patterns(&self) -> Seq<Seq<char>> {
        self.patterns.deep_view()
    }

    /// A name is protected exactly when it equals one of the patterns;
    /// matching is case-sensitive and whole, with no wildcards.
    pub open spec fn spec_matches_name(&self, name: Seq<char>) -> bool {
        exists|i: int|
            0 <= i < self.spec_patterns().len() && self.spec_patterns()[i] == name
    }

    /// A path is excluded exactly when its final component is a readable
    /// name equal to one of the patterns. A path without such a component
    /// never matches: the filter fails open.
    pub open spec fn spec_should_exclude(&self, path: EntryPath) -> bool {
        match path.name {
            Some(n) => self.spec_matches_name(n@),
            None => false,
        }
    }

    /// Create a filter with the given exact-match patterns.
    pub fn new(patterns: Vec<String>) -> (r: ExclusionFilter)
        ensures
            r.spec_patterns() == patterns.deep_view(),
    {
        ExclusionFilter { patterns }
    }

    /// Check whether a path is protected from deletion.
    pub fn should_exclude(&self, path: &EntryPath) -> (r: bool)
        ensures
            r == self.spec_should_exclude(*path),
    {
        match &path.name {
            None => false,
            Some(name) => {
                let mut i: usize = 0;
                while i < self.patterns.len()
                    invariant
                        path.name == Some(*name),
                        i <= self.patterns@.len(),
                        forall|j: int| 0 <= j < i ==> self.patterns.deep_view()[j] != name@,
                    decreases self.patterns@.len() - i,
                {
                    proof {
                        assert(self.spec_patterns()[i as int] == self.patterns@[i as int]@);
                    }
                    if self.patterns[i].eq(name) {
                        return true;
                    }
                    i += 1;
                }
                false
            },
        }
    }
}

/// The conventional junk file names that are protected by default.
pub open spec fn spec_default_exclusions() -> Seq<Seq<char>> {
    seq![".DS_Store"@, "Thumbs.db"@, "desktop.ini"@, ".directory"@]
}

/// The default exclusion patterns, in order: macOS, Windows, Windows, KDE
/// junk names. Callers may pass them to the filter or leave them out.
pub fn default_exclusions() -> (r: Vec<String>)
    ensures
        r.deep_view() == spec_default_exclusions(),
{
    let mut v: Vec<String> = Vec::new();
    v.push(".DS_Store".to_owned());
    v.push("Thumbs.db".to_owned());
    v.push("desktop.ini".to_owned());
    v.push(".directory".to_owned());
    proof {
        assert(v.deep_view() =~= spec_default_exclusions());
    }
    v
}

/// A single pluggable deletion predicate over a directory entry. `test` must
/// be pure: a function of the entry's recorded state and the condition's
/// fixed parameters, with no side effects. It decides, it never deletes.
pub trait CleanerCondition: Sized {
    /// The condition's fixed parameters are well formed.
    spec fn wf(&self) -> bool;

    /// The condition can decide an entry with this modified time at all.
    spec fn applies_to(&self, modified: Timestamp) -> bool;

    /// The decision itself: true marks the entry as a deletion candidate.
    spec fn condition_met(&self, modified: Timestamp) -> bool;

    /// The error reported when the condition cannot decide the entry.
    spec fn error_at(&self, path: EntryPath, modified: Timestamp) -> CleanError;

    /// Decide one entry, given its path (kept only for error context) and
    /// its recorded modified time.
    fn test(&self, path: EntryPath, modified: Timestamp) -> (r: Result<bool, CleanError>)
        requires
            self.wf(),
            modified.wf(),
        ensures
            r is Ok <==> self.applies_to(modified),
            (r matches Ok(b) ==> b == self.condition_met(modified)),
            (r matches Err(e) ==> e == self.error_at(path, modified)),
    ;
}

/// The one shipped condition: an entry is a deletion candidate when its age,
/// measured against a reference time captured once at construction, strictly
/// exceeds a fixed threshold. An entry exactly at the threshold is retained.
#[derive(Clone, Copy, Debug)]
pub struct LastModifiedIsOlderThan {
    /// The age threshold.
    pub duration: Duration,
    /// The reference time, captured once and reused for every entry of a
    /// scan, so ages stay consistent however long the scan takes.
    pub now: Timestamp,
}

impl LastModifiedIsOlderThan {
    pub fn new(duration: Duration, now: Timestamp) -> (r: LastModifiedIsOlderThan)
        ensures
            r.duration == duration,
            r.now == now,
    {
        LastModifiedIsOlderThan { duration, now }
    }
}

impl CleanerCondition for LastModifiedIsOlderThan {
    open spec fn wf(&self) -> bool {
        self.duration.wf() && self.now.wf()
    }

    /// Decidable exactly when the entry is not from the future: its age,
    /// `now - modified`, is then defined.
    open spec fn applies_to(&self, modified: Timestamp) -> bool {
        modified.total_nanos() <= self.now.total_nanos()
    }

    /// Strictly older than the threshold; age exactly at the threshold
    /// retains the entry.
    open spec fn condition_met(&self, modified: Timestamp) -> bool {
        self.now.total_nanos() - modified.total_nanos() > self.duration.total_nanos()
    }

    /// An entry from the future is a clock problem the user must see, never
    /// a silent "not old enough".
    open spec fn error_at(&self, path: EntryPath, modified: Timestamp) -> CleanError {
        CleanError::ClockSkew { path, now: self.now, modified }
    }

    fn test(&self, path: EntryPath, modified: Timestamp) -> (r: Result<bool, CleanError>) {
        match self.now.duration_since(&modified) {
            Some(age) => Ok(age.exceeds(&self.duration)),
            None => Err(CleanError::ClockSkew { path, now: self.now, modified }),
        }
    }
}

/// One directory entry as the caller listed it: its path and its recorded
/// last-modified time.
#[derive(Debug)]
pub struct Entry {
    pub path: EntryPath,
    pub modified: Timestamp,
}

impl Entry {
    pub open spec fn wf(&self) -> bool {
        self.modified.wf()
    }
}

/// What the run decides for one entry.
#[derive(Clone, Copy, PartialEq, Eq, Structural, Debug)]
pub enum Decision {
    /// Protected by the exclusion filter; no condition is ever consulted.
    Excluded,
    /// No condition matched; the entry is left untouched.
    Retained,
    /// The first matching condition marked the entry for deletion.
    Delete,
}

/// What the caller is to do with one entry once the run has decided.
#[derive(Clone, Copy, PartialEq, Eq, Structural, Debug)]
pub enum EntryAction {
    /// Leave the entry alone: its name is excluded.
    Skip,
    /// Leave the entry alone: every condition kept it.
    Keep,
    /// Record the entry as a would-be deletion (dry run); touch nothing.
    Report,
    /// Move the entry to the trash.
    Trash,
}

/// Conditions are evaluated in order. The first one that cannot decide
/// aborts with its error; the first one that matches wins and the rest are
/// not consulted; when none matches, the entry is retained.
pub open spec fn spec_eval_conditions<C: CleanerCondition>(
    conds: Seq<C>,
    path: EntryPath,
    modified: Timestamp,
) -> Result<Decision, CleanError>
    decreases conds.len(),
{
    if conds.len() == 0 {
        Ok(Decision::Retained)
    } else if !conds[0].applies_to(modified) {
        Err(conds[0].error_at(path, modified))
    } else if conds[0].condition_met(modified) {
        Ok(Decision::Delete)
    } else {
        spec_eval_conditions(conds.drop_first(), path, modified)
    }
}

/// Orchestrates one run: the exclusion filter is asked first, then the
/// conditions in order, and the first matching condition triggers the
/// deletion action — real or reported only, under the dry-run flag.
pub struct Cleaner<C: CleanerCondition> {
    path: EntryPath,
    dry_run: bool,
    conditions: Vec<C>,
    exclusion_filter: ExclusionFilter,
}

impl<C: CleanerCondition> Cleaner<C> {
    /// The directory this cleaner was configured for. The listing itself is
    /// the caller's: the cleaner only decides.
    pub closed spec fn spec_path(&self) -> EntryPath {
        self.path
    }

    pub closed spec fn spec_dry_run(&self) -> bool {
        self.dry_run
    }

    pub closed spec fn spec_conditions(&self) -> Seq<C> {
        self.conditions@
    }

    pub closed spec fn spec_filter(&self) -> ExclusionFilter {
        self.exclusion_filter
    }

    pub open spec fn wf(&self) -> bool {
        forall|i: int|
            0 <= i < self.spec_conditions().len() ==> (#[trigger] self.spec_conditions()[i]).wf()
    }

    pub fn new(
        path: EntryPath,
        dry_run: bool,
        conditions: Vec<C>,
        exclusion_filter: ExclusionFilter,
    ) -> (r: Cleaner<C>)
        ensures
            r.spec_path() == path,
            r.spec_dry_run() == dry_run,
            r.spec_conditions() == conditions@,
            r.spec_filter() == exclusion_filter,
    {
        Cleaner { path, dry_run, conditions, exclusion_filter }
    }

    /// The decision for one entry: exclusion first, then the conditions in
    /// configured order.
    pub open spec fn spec_decide(&self, e: Entry) -> Result<Decision, CleanError> {
        if self.spec_filter().spec_should_exclude(e.path) {
            Ok(Decision::Excluded)
        } else {
            spec_eval_conditions(self.spec_conditions(), e.path, e.modified)
        }
    }

    /// Decide one entry. An excluded entry is decided without consulting any
    /// condition; otherwise the conditions run in order and the first match
    /// wins.
    pub fn decide_entry(&self, e: &Entry) -> (r: Result<Decision, CleanError>)
        requires
            self.wf(),
            e.wf(),
        ensures
            r == self.spec_decide(*e),
    {
        if self.exclusion_filter.should_exclude(&e.path) {
            return Ok(Decision::Excluded);
        }
        let ghost conds = self.conditions@;
        proof {
            assert(conds.skip(0) =~= conds);
        }
        let mut i: usize = 0;
        while i < self.conditions.len()
            invariant
                self.wf(),
                e.wf(),
                conds == self.conditions@,
                i <= conds.len(),
                !self.spec_filter().spec_should_exclude(e.path),
                spec_eval_conditions(conds, e.path, e.modified) == spec_eval_conditions(
                    conds.skip(i as int),
                    e.path,
                    e.modified,
                ),
            decreases conds.len() - i,
        {
            proof {
                assert(conds.skip(i as int)[0] == conds[i as int]);
            }
            let c = &self.conditions[i];
            match c.test(e.path.clone(), e.modified) {
                Err(err) => {
                    return Err(err);
                },
                Ok(true) => {
                    return Ok(Decision::Delete);
                },
                Ok(false) => {
                    proof {
                        assert(conds.skip(i as int).drop_first() =~= conds.skip(i as int + 1));
                    }
                    i += 1;
                },
            }
        }
        proof {
            assert(conds.skip(conds.len() as int) =~= Seq::<C>::empty());
        }
        Ok(Decision::Retained)
    }

    /// The action a decision leads to, under the dry-run flag. A dry run
    /// only ever reports; it never reaches for the trash.
    pub open spec fn spec_action(dry_run: bool, d: Decision) -> EntryAction {
        match d {
            Decision::Excluded => EntryAction::Skip,
            Decision::Retained => EntryAction::Keep,
            Decision::Delete => if dry_run {
                EntryAction::Report
            } else {
                EntryAction::Trash
            },
        }
    }

    /// The whole run over listed entries, one action per entry, in order.
    /// The first entry that cannot be decided aborts the run with its error:
    /// there is no per-entry isolation.
    pub open spec fn spec_clean_entries(&self, entries: Seq<Entry>) -> Result<
        Seq<EntryAction>,
        CleanError,
    >
        decreases entries.len(),
    {
        if entries.len() == 0 {
            Ok(Seq::empty())
        } else {
            match self.spec_clean_entries(entries.drop_last()) {
                Err(e) => Err(e),
                Ok(acts) => match self.spec_decide(entries.last()) {
                    Err(e) => Err(e),
                    Ok(d) => Ok(acts.push(Self::spec_action(self.spec_dry_run(), d))),
                },
            }
        }
    }

    /// A run with no configured condition is a configuration error, raised
    /// before any entry is looked at.
    pub open spec fn spec_clean(&self, entries: Seq<Entry>) -> Result<
        Seq<EntryAction>,
        CleanError,
    > {
        if self.spec_conditions().len() == 0 {
            Err(CleanError::NoConditions)
        } else {
            self.spec_clean_entries(entries)
        }
    }

    /// When some prefix of the entries is decided cleanly and the next entry
    /// fails, the whole run fails with that entry's error.
    proof fn lemma_clean_entries_err(&self, entries: Seq<Entry>, i: int, err: CleanError)
        requires
            0 <= i < entries.len(),
            self.spec_clean_entries(entries.take(i)) is Ok,
            self.spec_decide(entries[i]) == Err::<Decision, CleanError>(err),
        ensures
            self.spec_clean_entries(entries) == Err::<Seq<EntryAction>, CleanError>(err),
        decreases entries.len(),
    {
        if i == entries.len() - 1 {
            assert(entries.drop_last() =~= entries.take(i));
        } else {
            assert(entries.drop_last().take(i) =~= entries.take(i));
            assert(entries.drop_last()[i] == entries[i]);
            self.lemma_clean_entries_err(entries.drop_last(), i, err);
        }
    }

    /// Run the cleaner over the entries the caller listed from the target
    /// directory. Exclusion is checked before any condition; conditions run
    /// in order with first-match-wins; under the dry-run flag a matching
    /// entry is only reported. With no conditions configured the run fails
    /// at once, before any entry is looked at; otherwise the first entry
    /// that cannot be decided aborts the run with its error.
    pub fn clean(&self, entries: &Vec<Entry>) -> (r: Result<Vec<EntryAction>, CleanError>)
        requires
            self.wf(),
            forall|i: int| 0 <= i < entries@.len() ==> (#[trigger] entries@[i]).wf(),
        ensures
            match r {
                Ok(acts) => self.spec_clean(entries@) == Ok::<Seq<EntryAction>, CleanError>(acts@)
                    && acts@.len() == entries@.len(),
                Err(e) => self.spec_clean(entries@) == Err::<Seq<EntryAction>, CleanError>(e),
            },
            self.spec_conditions().len() == 0 ==> r == Err::<Vec<EntryAction>, CleanError>(
                CleanError::NoConditions,
            ),
            self.spec_dry_run() ==> (r matches Ok(acts) ==> forall|i: int|
                0 <= i < acts@.len() ==> acts@[i] != EntryAction::Trash),
    {
        if self.conditions.len() == 0 {
            return Err(CleanError::NoConditions);
        }
        let mut acts: Vec<EntryAction> = Vec::new();
        let mut i: usize = 0;
        proof {
            assert(entries@.take(0) =~= Seq::<Entry>::empty());
        }
        while i < entries.len()
            invariant
                self.wf(),
                forall|j: int| 0 <= j < entries@.len() ==> (#[trigger] entries@[j]).wf(),
                self.spec_conditions().len() > 0,
                i <= entries@.len(),
                acts@.len() == i,
                self.spec_clean_entries(entries@.take(i as int)) == Ok::<
                    Seq<EntryAction>,
                    CleanError,
                >(acts@),
            decreases entries@.len() - i,
        {
            let e = &entries[i];
            match self.decide_entry(e) {
                Err(err) => {
                    proof {
                        self.lemma_clean_entries_err(entries@, i as int, err);
                    }
                    return Err(err);
                },
                Ok(d) => {
                    let a = match d {
                        Decision::Excluded => EntryAction::Skip,
                        Decision::Retained => EntryAction::Keep,
                        Decision::Delete => if self.dry_run {
                            EntryAction::Report
                        } else {
                            EntryAction::Trash
                        },
                    };
                    acts.push(a);
                    proof {
                        assert(entries@.take(i as int + 1).drop_last() =~= entries@.take(i as int));
                        assert(entries@.take(i as int + 1).last() == entries@[i as int]);
                    }
                    i += 1;
                },
            }
        }
        proof {
            assert(entries@.take(entries@.len() as int) =~= entries@);
            if self.spec_dry_run() {
                self.lemma_clean_entries_never_trash_when_dry(entries@);
            }
        }
        Ok(acts)
    }
}

/// Exclusion is checked before any condition: an entry whose name the
/// filter protects is decided `Excluded` outright — never an error, never a
/// deletion candidate — whatever the conditions would have said of it, and
/// the action it gets is a bare skip, not a deletion record.
pub proof fn lemma_exclusion_precedes_conditions<C: CleanerCondition>(c: Cleaner<C>, e: Entry)
    requires
        c.spec_filter().spec_should_exclude(e.path),
    ensures
        c.spec_decide(e) == Ok::<Decision, CleanError>(Decision::Excluded),
        Cleaner::<C>::spec_action(c.spec_dry_run(), Decision::Excluded) == EntryAction::Skip,
{
}

/// Short-circuit: when every condition can decide the entry and at least
/// one matches, the outcome is one single `Delete` decision — evaluation
/// stops at the first match, so an entry never collects more than one
/// deletion action however many conditions would have matched it.
pub proof fn lemma_first_match_short_circuits<C: CleanerCondition>(
    conds: Seq<C>,
    path: EntryPath,
    modified: Timestamp,
)
    requires
        forall|i: int| 0 <= i < conds.len() ==> (#[trigger] conds[i]).applies_to(modified),
        exists|i: int| 0 <= i < conds.len() && (#[trigger] conds[i]).condition_met(modified),
    ensures
        spec_eval_conditions(conds, path, modified) == Ok::<Decision, CleanError>(Decision::Delete),
    decreases conds.len(),
{
    if !conds[0].condition_met(modified) {
        let i = choose|i: int| 0 <= i < conds.len() && (#[trigger] conds[i]).condition_met(modified);
        assert(conds.drop_first()[i - 1] == conds[i]);
        assert(forall|j: int|
            0 <= j < conds.drop_first().len() ==> (#[trigger] conds.drop_first()[j]).applies_to(
                modified,
            ) && conds.drop_first()[j] == conds[j + 1]);
        lemma_first_match_short_circuits(conds.drop_first(), path, modified);
    }
}

impl<C: CleanerCondition> Cleaner<C> {
    /// Helper for the dry-run law, by induction over the entries.
    proof fn lemma_clean_entries_never_trash_when_dry(&self, entries: Seq<Entry>)
        requires
            self.spec_dry_run(),
        ensures
            self.spec_clean_entries(entries) matches Ok(acts) ==> forall|i: int|
                0 <= i < acts.len() ==> acts[i] != EntryAction::Trash,
        decreases entries.len(),
    {
        if entries.len() > 0 {
            self.lemma_clean_entries_never_trash_when_dry(entries.drop_last());
        }
    }

    /// Dry-run idempotence, first half: a dry run never asks for the trash,
    /// so the filesystem is left exactly as it was.
    pub proof fn lemma_dry_run_never_trashes(&self, entries: Seq<Entry>)
        requires
            self.spec_dry_run(),
        ensures
            self.spec_clean(entries) matches Ok(acts) ==> forall|i: int|
                0 <= i < acts.len() ==> acts[i] != EntryAction::Trash,
    {
        self.lemma_clean_entries_never_trash_when_dry(entries);
    }

    /// Dry-run idempotence, second half: the run's outcome is a function of
    /// the configuration and the listed entries alone, so running it twice
    /// over the same listing yields identical decisions and records.
    pub proof fn lemma_clean_repeatable(
        &self,
        entries: Seq<Entry>,
        r1: Result<Seq<EntryAction>, CleanError>,
        r2: Result<Seq<EntryAction>, CleanError>,
    )
        requires
            r1 == self.spec_clean(entries),
            r2 == self.spec_clean(entries),
        ensures
            r1 == r2,
    {
    }
}

} // verus!
