//! The logging backend as this library sees it.
//!
//! Everything in this module is trusted. The declarations make types of
//! `tracing_subscriber` and `log` known, two names stand for what a level
//! filter and a target filter hold, and the contracts say of each call
//! what the backend's source shows. Nothing here is proved.

use vstd::prelude::*;

use log::SetLoggerError;
use tracing_subscriber::filter::LevelFilter;
use tracing_subscriber::filter::Targets;
use tracing_subscriber::layer::SubscriberExt;
use tracing_subscriber::util::SubscriberInitExt;
use tracing_subscriber::util::TryInitError;

verus! {

/// `tracing_subscriber::filter::LevelFilter`, of which only
/// [`filter_rank`] is known.
#[verifier::external_type_specification]
#[verifier::external_body]
pub struct ExLevelFilter(LevelFilter);

/// The position of a level filter on the backend's verbosity scale: 0 for
/// `OFF`, 1 for `ERROR`, 2 for `WARN`, 3 for `INFO`, 4 for `DEBUG`, 5 for
/// `TRACE`. The backend parses these numbers as these filters, and orders
/// its filters as the numbers are ordered.
pub uninterp spec fn filter_rank(filter: LevelFilter) -> nat;

/// `LevelFilter::OFF`, which disables everything.
#[verifier::external_body]
pub(crate) fn filter_off() -> (f: LevelFilter)
    ensures
        filter_rank(f) == 0,
{
    LevelFilter::OFF
}

/// `LevelFilter::ERROR`.
#[verifier::external_body]
pub(crate) fn filter_error() -> (f: LevelFilter)
    ensures
        filter_rank(f) == 1,
{
    LevelFilter::ERROR
}

/// `LevelFilter::WARN`.
#[verifier::external_body]
pub(crate) fn filter_warn() -> (f: LevelFilter)
    ensures
        filter_rank(f) == 2,
{
    LevelFilter::WARN
}

/// `LevelFilter::INFO`.
#[verifier::external_body]
pub(crate) fn filter_info() -> (f: LevelFilter)
    ensures
        filter_rank(f) == 3,
{
    LevelFilter::INFO
}

/// `LevelFilter::DEBUG`.
#[verifier::external_body]
pub(crate) fn filter_debug() -> (f: LevelFilter)
    ensures
        filter_rank(f) == 4,
{
    LevelFilter::DEBUG
}

/// `LevelFilter::TRACE`, which enables everything.
#[verifier::external_body]
pub(crate) fn filter_trace() -> (f: LevelFilter)
    ensures
        filter_rank(f) == 5,
{
    LevelFilter::TRACE
}

/// `tracing_subscriber::filter::Targets`, of which only [`targets_rules`]
/// is known.
#[verifier::external_type_specification]
#[verifier::external_body]
pub struct ExTargets(Targets);

/// What a target filter holds: the target prefix of each directive that
/// names no fields, `None` for the directive without a target, mapped to
/// the rank of the level that the directive enables. Directives are kept in
/// a sorted list in which no two have the same prefix and fields, so each
/// prefix has one level.
pub uninterp spec fn targets_rules(filter: Targets) -> Map<Option<Seq<char>>, nat>;

/// `Targets::new` returns a filter without directives.
pub assume_specification[ Targets::new ]() -> (r: Targets)
    ensures
        targets_rules(r) == (Map::<Option<Seq<char>>, nat>::empty()),
;

/// `Targets::with_default` adds the directive that has no target, in place
/// of an earlier one if there is one, and leaves the others as they are.
#[verifier::external_body]
pub(crate) fn with_default(filter: Targets, level: LevelFilter) -> (r: Targets)
    ensures
        targets_rules(r) == targets_rules(filter).insert(None, filter_rank(level)),
{
    filter.with_default(level)
}

/// `Targets::with_target` adds a directive for `target`, in place of an
/// earlier one for the same target if there is one, and leaves the others
/// as they are.
#[verifier::external_body]
pub(crate) fn with_target(filter: Targets, target: &str, level: LevelFilter) -> (r: Targets)
    ensures
        targets_rules(r) == targets_rules(filter).insert(Some(target@), filter_rank(level)),
{
    filter.with_target(target, level)
}

/// `tracing_subscriber::util::TryInitError`, the error of
/// `SubscriberInitExt::try_init`. Nothing is known of its content.
#[verifier::external_type_specification]
#[verifier::external_body]
pub struct ExTryInitError(TryInitError);

/// `log::SetLoggerError`, the error of `env_logger`'s `Builder::try_init`.
/// Nothing is known of its content.
#[verifier::external_type_specification]
#[verifier::external_body]
pub struct ExSetLoggerError(SetLoggerError);

/// `SubscriberInitExt::try_init` on a registry with a formatting layer and
/// `filter` as its global filter. It fails if the process has a global
/// subscriber already. That depends on what ran before, so nothing is said
/// of the result.
#[verifier::external_body]
pub(crate) fn subscriber_try_init(filter: Targets) -> (r: Result<(), TryInitError>) {
    tracing_subscriber::registry().with(tracing_subscriber::fmt::layer()).with(filter).try_init()
}

/// `Builder::try_init` on `env_logger::builder()` in test mode. It fails if
/// the process has a logger already. That depends on what ran before, so
/// nothing is said of the result.
#[verifier::external_body]
pub(crate) fn logger_try_init() -> (r: Result<(), SetLoggerError>) {
    env_logger::builder().is_test(true).try_init()
}

} // verus!
