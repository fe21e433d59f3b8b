use crate::cleaner::{
    default_exclusions, spec_default_exclusions, Cleaner, ExclusionFilter, LastModifiedIsOlderThan,
};
use crate::errors::CleanError;
use crate::parse::{parse_time, spec_parse_duration};
use crate::paths::EntryPath;
use crate::time::Timestamp;
use vstd::prelude::*;

verus! {

/// One run's configuration, as the command line hands it in.
pub struct Args {
    /// The directory to clean.
    pub path: EntryPath,
    /// Don't delete, only report.
    pub dry_run: bool,
    /// Age threshold as the user wrote it, e.g. `7d`; no condition is
    /// configured when absent.
    pub not_modified_within: Option<String>,
    /// File names to protect from deletion, besides the defaults.
    pub exclude: Vec<String>,
    /// Leave the default exclusions out.
    pub no_default_exclusions: bool,
}

/// The exclusion patterns a configuration selects: the defaults, unless
/// disabled, followed by the user's own.
pub open spec fn spec_selected_patterns(args: Args) -> Seq<Seq<char>> {
    if args.no_default_exclusions {
        args.exclude.deep_view()
    } else {
        spec_default_exclusions() + args.exclude.deep_view()
    }
}

/// Build the cleaner a configuration asks for, against a reference time
/// captured once by the caller. Fails with a configuration error when no
/// condition is configured, and with an invalid-duration error when the
/// threshold string cannot be understood; both are raised before any
/// directory access.
pub fn build_cleaner(args: Args, now: Timestamp) -> (r: Result<
    Cleaner<LastModifiedIsOlderThan>,
    CleanError,
>)
    requires
        now.wf(),
    ensures
        args.not_modified_within is None ==> r == Err::<
            Cleaner<LastModifiedIsOlderThan>,
            CleanError,
        >(CleanError::NoConditions),
        args.not_modified_within matches Some(s) ==> spec_parse_duration(s@) is None ==> (
        r matches Err(e) && e matches CleanError::InvalidDuration { input } && input@ == s@),
        args.not_modified_within matches Some(s) ==> spec_parse_duration(s@) matches Some(p) ==> (
        r matches Ok(c) && c.wf() && c.spec_path() == args.path && c.spec_dry_run() == args.dry_run
            && c.spec_conditions().len() == 1 && c.spec_conditions()[0].now == now
            && c.spec_conditions()[0].duration.secs == p.0 && c.spec_conditions()[0].duration.nanos
            == p.1 && c.spec_filter().spec_patterns() == spec_selected_patterns(args)),
{
    let Args { path, dry_run, not_modified_within, exclude, no_default_exclusions } = args;
    let mut conditions: Vec<LastModifiedIsOlderThan> = Vec::new();
    match not_modified_within {
        Some(value) => {
            match parse_time(value.as_str()) {
                Some(duration) => {
                    conditions.push(LastModifiedIsOlderThan::new(duration, now));
                },
                None => {
                    return Err(CleanError::InvalidDuration { input: value });
                },
            }
        },
        None => {
            return Err(CleanError::NoConditions);
        },
    }
    let mut patterns: Vec<String> = if no_default_exclusions {
        Vec::new()
    } else {
        default_exclusions()
    };
    let mut extra = exclude;
    patterns.append(&mut extra);
    proof {
        assert(patterns.deep_view() =~= spec_selected_patterns(args));
    }
    let filter = ExclusionFilter::new(patterns);
    Ok(Cleaner::new(path, dry_run, conditions, filter))
}

} // verus!
