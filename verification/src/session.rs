//! The configuration that a caller builds before initialising diagnostics.

use vstd::prelude::*;

use crate::backend::{targets_rules, with_default, with_target};
use crate::level::{Backtrace, LogLevel};
use tracing_subscriber::filter::Targets;

verus! {

/// A session as a mathematical value.
pub struct SessionView {
    /// Threshold for modules that no override names.
    pub level: LogLevel,
    /// Overrides in the order in which they were added.
    pub modules: Seq<(Seq<char>, LogLevel)>,
    /// Backtrace mode.
    pub backtrace: Backtrace,
}

impl SessionView {
    /// Whether some override names `name`.
    pub open spec fn lists(self, name: Seq<char>) -> bool {
        exists|i: int| 0 <= i < self.modules.len() && (#[trigger] self.modules[i]).0 == name
    }

    /// The threshold configured for `name`: that of the last override that
    /// names it, the default level where none does.
    pub open spec fn threshold(self, name: Seq<char>) -> LogLevel
        decreases self.modules.len(),
    {
        if self.modules.len() == 0 {
            self.level
        } else if self.modules.last().0 == name {
            self.modules.last().1
        } else {
            self.without_last().threshold(name)
        }
    }

    /// The session without its most recent override.
    pub open spec fn without_last(self) -> SessionView {
        SessionView { modules: self.modules.drop_last(), ..self }
    }

    /// The session with one more override at the end.
    pub open spec fn with_override(self, name: Seq<char>, level: LogLevel) -> SessionView {
        SessionView { modules: self.modules.push((name, level)), ..self }
    }

    /// The session restricted to its first `n` overrides.
    pub open spec fn first_overrides(self, n: int) -> SessionView {
        SessionView { modules: self.modules.take(n), ..self }
    }

    /// The directives that the session asks of the logging backend: one
    /// without a target for the default level, and one for each name that
    /// an override mentions, each with the rank of its threshold.
    ///
    /// The backend holds an event to the directive whose name is the
    /// longest that the event's target begins with, and to the one without
    /// a target where there is none.
    pub open spec fn directives(self) -> Map<Option<Seq<char>>, nat> {
        Map::new(
            |target: Option<Seq<char>>|
                match target {
                    None => true,
                    Some(name) => self.lists(name),
                },
            |target: Option<Seq<char>>|
                match target {
                    None => self.level.rank(),
                    Some(name) => self.threshold(name).rank(),
                },
        )
    }
}

/// Adding an override adds its directive, in place of the one that an
/// earlier override for the same name had put there.
pub proof fn lemma_override_inserts_directive(s: SessionView, name: Seq<char>, level: LogLevel)
    ensures
        s.with_override(name, level).directives() == s.directives().insert(
            Some(name),
            level.rank(),
        ),
{
    let t = s.with_override(name, level);
    assert(t.without_last() == s) by {
        assert(t.modules.drop_last() =~= s.modules);
    }
    assert forall|n: Seq<char>| t.lists(n) == (s.lists(n) || n == name) by {
        if s.lists(n) {
            let i = choose|i: int| 0 <= i < s.modules.len() && (#[trigger] s.modules[i]).0 == n;
            assert(t.modules[i].0 == n);
        }
        if n == name {
            assert(t.modules[s.modules.len() as int].0 == n);
        }
        if t.lists(n) {
            let i = choose|i: int| 0 <= i < t.modules.len() && (#[trigger] t.modules[i]).0 == n;
            if i < s.modules.len() {
                assert(s.modules[i].0 == n);
            }
        }
    }
    assert(t.directives() =~= s.directives().insert(Some(name), level.rank()));
}

/// Last write wins: an override that no later override repeats decides the
/// threshold of the module it names, and the directive for that module.
pub proof fn lemma_last_override_wins(s: SessionView, i: int)
    requires
        0 <= i < s.modules.len(),
        forall|j: int| i < j < s.modules.len() ==> (#[trigger] s.modules[j]).0 != s.modules[i].0,
    ensures
        s.threshold(s.modules[i].0) == s.modules[i].1,
        s.directives().dom().contains(Some(s.modules[i].0)),
        s.directives()[Some(s.modules[i].0)] == s.modules[i].1.rank(),
    decreases s.modules.len(),
{
    if i < s.modules.len() - 1 {
        let last = s.modules.len() - 1;
        assert(s.modules[last].0 != s.modules[i].0);
        lemma_last_override_wins(s.without_last(), i);
    }
}

/// A module that no override names is held to the default level, and has
/// no directive of its own.
pub proof fn lemma_unlisted_takes_default(s: SessionView, name: Seq<char>)
    requires
        !s.lists(name),
    ensures
        s.threshold(name) == s.level,
        !s.directives().dom().contains(Some(name)),
        s.directives().dom().contains(None),
        s.directives()[None] == s.level.rank(),
    decreases s.modules.len(),
{
    if s.modules.len() > 0 {
        let last = s.modules.len() - 1;
        assert(s.modules[last].0 != name);
        let r = s.without_last();
        assert(!r.lists(name)) by {
            if r.lists(name) {
                let i = choose|i: int|
                    0 <= i < r.modules.len() && (#[trigger] r.modules[i]).0 == name;
                assert(s.modules[i].0 == name);
            }
        }
        lemma_unlisted_takes_default(r, name);
    }
}

/// The configuration of one diagnostic session: a default level, overrides
/// for single modules, and a backtrace mode.
#[derive(Clone, Debug)]
pub struct DebugSession {
    level: LogLevel,
    modules: Vec<(String, LogLevel)>,
    backtrace: Backtrace,
}

impl View for DebugSession {
    type V = SessionView;

    closed spec fn view(&self) -> SessionView {
        SessionView {
            level: self.level,
            modules: self.modules@.map_values(|entry: (String, LogLevel)| (entry.0@, entry.1)),
            backtrace: self.backtrace,
        }
    }
}

impl DebugSession {
    /// A session with default level `Debug`, no overrides and backtrace
    /// mode `Short`.
    pub fn new() -> (s: Self)
        ensures
            s@ == (SessionView {
                level: LogLevel::Debug,
                modules: Seq::empty(),
                backtrace: Backtrace::Short,
            }),
    {
        let s = DebugSession {
            level: LogLevel::Debug,
            modules: Vec::new(),
            backtrace: Backtrace::Short,
        };
        assert(s@.modules =~= Seq::empty());
        s
    }

    /// Replaces the default level.
    pub fn filter(self, level: LogLevel) -> (s: Self)
        ensures
            s@ == (SessionView { level, ..self@ }),
    {
        let mut s = self;
        s.level = level;
        s
    }

    /// Appends an override: events of `module` are held to `level`. Any
    /// name is accepted, and a name may be given more than once.
    pub fn module(self, module: &str, level: LogLevel) -> (s: Self)
        ensures
            s@ == self@.with_override(module@, level),
    {
        let mut s = self;
        s.modules.push((module.to_owned(), level));
        assert(s@.modules =~= self@.modules.push((module@, level)));
        s
    }

    /// Replaces the backtrace mode.
    pub fn backtrace(self, detail: Backtrace) -> (s: Self)
        ensures
            s@ == (SessionView { backtrace: detail, ..self@ }),
    {
        let mut s = self;
        s.backtrace = detail;
        s
    }

    /// The default level.
    pub fn default_level(&self) -> (level: LogLevel)
        ensures
            level == self@.level,
    {
        self.level
    }

    /// The backtrace mode.
    pub fn backtrace_detail(&self) -> (detail: Backtrace)
        ensures
            detail == self@.backtrace,
    {
        self.backtrace
    }

    /// The overrides, oldest first.
    pub fn overrides(&self) -> (entries: &Vec<(String, LogLevel)>)
        ensures
            entries@.len() == self@.modules.len(),
            forall|i: int|
                0 <= i < entries@.len() ==> (#[trigger] entries@[i]).0@ == self@.modules[i].0
                    && entries@[i].1 == self@.modules[i].1,
    {
        &self.modules
    }

    /// The threshold configured for `module`: that of the last override
    /// that names it, the default level where none does.
    pub fn threshold(&self, module: &str) -> (level: LogLevel)
        ensures
            level == self@.threshold(module@),
    {
        let name = module.to_owned();
        let mut i: usize = self.modules.len();
        assert(self@.first_overrides(i as int) == self@) by {
            assert(self@.modules.take(i as int) =~= self@.modules);
        }
        while i > 0
            invariant
                i <= self.modules.len(),
                name@ == module@,
                self@.threshold(module@) == self@.first_overrides(i as int).threshold(module@),
            decreases i,
        {
            let ghost prefix = self@.first_overrides(i as int);
            i -= 1;
            proof {
                assert(prefix.modules.last() == self@.modules[i as int]);
                assert(prefix.without_last() == self@.first_overrides(i as int)) by {
                    assert(prefix.modules.drop_last() =~= self@.modules.take(i as int));
                }
            }
            if self.modules[i].0 == name {
                return self.modules[i].1;
            }
        }
        self.level
    }

    /// Builds the backend's filter for this session: the default level
    /// first, then the overrides in the order in which they were added, so
    /// that a later override for a name replaces an earlier one.
    pub fn build_filter(&self) -> (filter: Targets)
        ensures
            targets_rules(filter) == self@.directives(),
    {
        let mut filter = with_default(Targets::new(), self.level.level_filter());
        proof {
            assert(self@.first_overrides(0).modules =~= Seq::empty());
            assert(targets_rules(filter) =~= self@.first_overrides(0).directives());
        }
        let mut i: usize = 0;
        while i < self.modules.len()
            invariant
                i <= self.modules.len(),
                targets_rules(filter) == self@.first_overrides(i as int).directives(),
            decreases self.modules.len() - i,
        {
            let ghost before = self@.first_overrides(i as int);
            let name = self.modules[i].0.as_str();
            let level = self.modules[i].1;
            filter = with_target(filter, name, level.level_filter());
            proof {
                lemma_override_inserts_directive(before, name@, level);
                assert(before.with_override(name@, level) == self@.first_overrides(i + 1)) by {
                    assert(before.modules.push((name@, level)) =~= self@.modules.take(i + 1));
                }
            }
            i += 1;
        }
        assert(self@.first_overrides(i as int) == self@) by {
            assert(self@.modules.take(i as int) =~= self@.modules);
        }
        filter
    }
}

} // verus!
