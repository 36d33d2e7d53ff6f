//! The tracing module's configuration model: severity levels, per-target
//! filters, runtime overrides, and the module descriptor that carries them
//! through mediation. Installing a subscriber is the caller's business; this
//! module owns the configuration data and its merge rules.

use vstd::prelude::*;
use vstd::string::StrSliceExecFns;

use crate::util::label::str_chars_eq;
use crate::Module;

verus! {

/// A severity level for trace filtering, `Off` disabling a target entirely.
#[derive(Clone, Copy, Debug, PartialEq, Eq, Structural)]
pub enum TracingLevel {
    Trace,
    Debug,
    Info,
    Warn,
    Error,
    Off,
}

/// Where trace output goes: a plain log layer, or an OpenTelemetry exporter.
#[derive(Clone, Copy, Debug, PartialEq, Eq, Structural)]
pub enum TracingLayer {
    Log,
    Otel,
}

/// A filter: a default level, and per-target levels in the order they were
/// added. When a target name occurs more than once, the latest entry wins.
pub struct TraceTargets {
    pub default_level: Option<TracingLevel>,
    pub targets: Vec<(String, TracingLevel)>,
}

/// The level the latest entry for `name` assigns, if any entry names it.
pub open spec fn level_for_spec(
    targets: Seq<(String, TracingLevel)>,
    name: Seq<char>,
) -> Option<TracingLevel>
    decreases targets.len(),
{
    if targets.len() == 0 {
        None
    } else if targets.last().0@ == name {
        Some(targets.last().1)
    } else {
        level_for_spec(targets.drop_last(), name)
    }
}

impl TraceTargets {
    /// A filter with no default and no targets.
    pub fn new() -> (r: TraceTargets)
        ensures
            r.default_level is None,
            r.targets@.len() == 0,
    {
        TraceTargets { default_level: None, targets: Vec::new() }
    }

    /// Replace the default level, keeping the targets.
    pub fn with_default(self, level: TracingLevel) -> (r: TraceTargets)
        ensures
            r.default_level == Some(level),
            r.targets == self.targets,
    {
        TraceTargets { default_level: Some(level), targets: self.targets }
    }

    /// Add one target entry at the end.
    pub fn with_target(self, target: String, level: TracingLevel) -> (r: TraceTargets)
        ensures
            r.default_level == self.default_level,
            r.targets@ == self.targets@.push((target, level)),
    {
        let mut targets = self.targets;
        targets.push((target, level));
        TraceTargets { default_level: self.default_level, targets }
    }

    /// Merge another filter in: its entries come after this filter's, so they
    /// override on a shared name, and its default wins when it has one.
    pub fn with_targets(self, other: TraceTargets) -> (r: TraceTargets)
        ensures
            r.targets@ == self.targets@ + other.targets@,
            other.default_level is Some ==> r.default_level == other.default_level,
            other.default_level is None ==> r.default_level == self.default_level,
    {
        let mut targets = self.targets;
        let mut more = other.targets;
        targets.append(&mut more);
        let default_level = match other.default_level {
            Some(d) => Some(d),
            None => self.default_level,
        };
        TraceTargets { default_level, targets }
    }

    /// The level that applies to `name`: its latest entry, or the default.
    pub fn effective_level(&self, name: &str) -> (r: Option<TracingLevel>)
        ensures
            level_for_spec(self.targets@, name@) matches Some(l) ==> r == Some(l),
            level_for_spec(self.targets@, name@) is None ==> r == self.default_level,
    {
        let n = self.targets.len();
        let mut i: usize = n;
        proof {
            assert(self.targets@.subrange(0, n as int) =~= self.targets@);
        }
        while i > 0
            invariant
                0 <= i <= n,
                n == self.targets@.len(),
                level_for_spec(self.targets@, name@) == level_for_spec(
                    self.targets@.subrange(0, i as int),
                    name@,
                ),
            decreases i,
        {
            proof {
                assert(self.targets@.subrange(0, i as int).last() == self.targets@[i - 1]);
                assert(self.targets@.subrange(0, i as int).drop_last() =~= self.targets@.subrange(
                    0,
                    i - 1,
                ));
            }
            let entry: &(String, TracingLevel) = &self.targets[i - 1];
            if str_chars_eq(entry.0.as_str(), name) {
                return Some(entry.1);
            }
            i = i - 1;
        }
        self.default_level
    }
}

/// A runtime override of the tracing configuration: each part is optional
/// and replaces (or, for targets, extends) the corresponding base part.
pub struct RuntimeTracingConfigOverride {
    pub default: Option<TracingLevel>,
    pub targets: Option<Vec<(String, TracingLevel)>>,
    pub layer: Option<TracingLayer>,
}

/// The tracing configuration: an optional filter and the output layer.
pub struct TracingConfig {
    pub base_targets: Option<TraceTargets>,
    pub layer: TracingLayer,
}

/// How `with_overrides` relates its result to the base configuration and
/// the override: the layer is replaced when overridden; a missing filter
/// stays missing; a present filter gains the override's target entries at
/// the end and, when overridden, the override's default level.
pub open spec fn with_overrides_post(
    cfg: TracingConfig,
    o: RuntimeTracingConfigOverride,
    r: TracingConfig,
) -> bool {
    &&& r.layer == o.layer.unwrap_or(cfg.layer)
    &&& (cfg.base_targets is None ==> r.base_targets is None)
    &&& (cfg.base_targets matches Some(base) ==> (r.base_targets matches Some(b) && {
        &&& b.targets@ == base.targets@ + (match o.targets {
            Some(v) => v@,
            None => Seq::empty(),
        })
        &&& b.default_level == (match o.default {
            Some(d) => Some(d),
            None => base.default_level,
        })
    }))
}

impl Default for TracingConfig {
    /// The out-of-the-box configuration: everything at `Info`, plain log
    /// output.
    fn default() -> (r: TracingConfig)
        ensures
            r.layer == TracingLayer::Log,
            r.base_targets matches Some(t) && t.default_level == Some(TracingLevel::Info)
                && t.targets@.len() == 0,
    {
        TracingConfig {
            base_targets: Some(TraceTargets::new().with_default(TracingLevel::Info)),
            layer: TracingLayer::Log,
        }
    }
}

impl TracingConfig {
    /// Apply a runtime override to this configuration.
    pub fn with_overrides(self, runtime_config: RuntimeTracingConfigOverride) -> (r: TracingConfig)
        ensures
            with_overrides_post(self, runtime_config, r),
    {
        let base_targets = match self.base_targets {
            None => None,
            Some(base) => {
                let merged = match runtime_config.targets {
                    Some(v) => base.with_targets(
                        TraceTargets { default_level: None, targets: v },
                    ),
                    None => {
                        proof {
                            assert(base.targets@ + Seq::<(String, TracingLevel)>::empty()
                                =~= base.targets@);
                        }
                        base
                    },
                };
                let with_default = match runtime_config.default {
                    Some(d) => merged.with_default(d),
                    None => merged,
                };
                Some(with_default)
            },
        };
        let layer = match runtime_config.layer {
            Some(l) => l,
            None => self.layer,
        };
        TracingConfig { base_targets, layer }
    }
}

/// The level a lower-case name denotes, if it denotes one.
pub open spec fn level_of_name(name: Seq<char>) -> Option<TracingLevel> {
    if name == "trace"@ {
        Some(TracingLevel::Trace)
    } else if name == "debug"@ {
        Some(TracingLevel::Debug)
    } else if name == "info"@ {
        Some(TracingLevel::Info)
    } else if name == "warn"@ {
        Some(TracingLevel::Warn)
    } else if name == "error"@ {
        Some(TracingLevel::Error)
    } else if name == "off"@ {
        Some(TracingLevel::Off)
    } else {
        None
    }
}

/// Decode a level name.
pub fn parse_level(name: &str) -> (r: Option<TracingLevel>)
    ensures
        r == level_of_name(name@),
{
    if str_chars_eq(name, "trace") {
        Some(TracingLevel::Trace)
    } else if str_chars_eq(name, "debug") {
        Some(TracingLevel::Debug)
    } else if str_chars_eq(name, "info") {
        Some(TracingLevel::Info)
    } else if str_chars_eq(name, "warn") {
        Some(TracingLevel::Warn)
    } else if str_chars_eq(name, "error") {
        Some(TracingLevel::Error)
    } else if str_chars_eq(name, "off") {
        Some(TracingLevel::Off)
    } else {
        None
    }
}

/// The index of the first occurrence of `c` in `s`, if `c` occurs.
pub open spec fn find_char_spec(s: Seq<char>, c: char) -> Option<int>
    decreases s.len(),
{
    if s.len() == 0 {
        None
    } else if s[0] == c {
        Some(0)
    } else {
        match find_char_spec(s.drop_first(), c) {
            Some(i) => Some(i + 1),
            None => None,
        }
    }
}

/// `find_char_spec` names the first occurrence: the character stands there,
/// nowhere earlier, and `None` means it stands nowhere.
pub proof fn lemma_find_char_spec_first(s: Seq<char>, c: char)
    ensures
        match find_char_spec(s, c) {
            Some(k) => 0 <= k < s.len() && s[k] == c && (forall|j: int|
                0 <= j < k ==> s[j] != c),
            None => forall|j: int| 0 <= j < s.len() ==> s[j] != c,
        },
    decreases s.len(),
{
    if s.len() == 0 {
    } else if s[0] == c {
    } else {
        let rest = s.drop_first();
        lemma_find_char_spec_first(rest, c);
        assert(forall|j: int| 0 <= j < rest.len() ==> rest[j] == s[j + 1]);
        match find_char_spec(rest, c) {
            Some(k) => {
                assert forall|j: int| 0 <= j < k + 1 implies s[j] != c by {
                    if j > 0 {
                        assert(rest[j - 1] == s[j]);
                    }
                }
            },
            None => {
                assert forall|j: int| 0 <= j < s.len() implies s[j] != c by {
                    if j > 0 {
                        assert(rest[j - 1] == s[j]);
                    }
                }
            },
        }
    }
}

/// Scan `s` from position `from` for the first occurrence of `c`.
fn find_char_in(s: &str, from: usize, c: char) -> (r: Option<usize>)
    requires
        from <= s@.len(),
    ensures
        match find_char_spec(s@.subrange(from as int, s@.len() as int), c) {
            Some(k) => r matches Some(j) && j == from + k && j < s@.len(),
            None => r is None,
        },
{
    let n = s.unicode_len();
    let ghost suffix = s@.subrange(from as int, s@.len() as int);
    let mut i: usize = from;
    while i < n
        invariant
            from <= i <= n,
            n == s@.len(),
            suffix == s@.subrange(from as int, s@.len() as int),
            forall|j: int| from <= j < i ==> s@[j] != c,
        decreases n - i,
    {
        let ch = s.get_char(i);
        if ch == c {
            proof {
                lemma_find_char_spec_first(suffix, c);
                assert(forall|j: int| 0 <= j < suffix.len() ==> suffix[j] == s@[from + j]);
                assert(suffix[i - from] == c);
                assert(find_char_spec(suffix, c) == Some(i - from as int));
            }
            return Some(i);
        }
        i = i + 1;
    }
    proof {
        lemma_find_char_spec_first(suffix, c);
        assert(forall|j: int| 0 <= j < suffix.len() ==> suffix[j] == s@[from + j]);
    }
    None
}

/// A parse accumulator: the default level seen so far, and the target
/// entries seen so far, by name.
pub struct DirectiveAcc {
    pub default_level: Option<TracingLevel>,
    pub entries: Seq<(Seq<char>, TracingLevel)>,
}

/// The entries a target list holds, name by view.
pub open spec fn entries_view(pairs: Seq<(String, TracingLevel)>) -> Seq<(Seq<char>, TracingLevel)> {
    Seq::new(pairs.len(), |i: int| (pairs[i].0@, pairs[i].1))
}

/// Fold one directive into the accumulator: `name=level` appends a target
/// entry, a bare `level` replaces the default; an empty name, an unknown
/// level or a missing piece refuses the whole parse.
pub open spec fn apply_piece_spec(acc: DirectiveAcc, piece: Seq<char>) -> Option<DirectiveAcc> {
    match find_char_spec(piece, '=') {
        None => match level_of_name(piece) {
            Some(l) => Some(DirectiveAcc { default_level: Some(l), entries: acc.entries }),
            None => None,
        },
        Some(k) => if 0 < k < piece.len() {
            match level_of_name(piece.subrange(k + 1, piece.len() as int)) {
                Some(l) => Some(
                    DirectiveAcc {
                        default_level: acc.default_level,
                        entries: acc.entries.push((piece.subrange(0, k), l)),
                    },
                ),
                None => None,
            }
        } else {
            None
        },
    }
}

/// Fold a comma-separated directive text into the accumulator.
pub open spec fn parse_directives_rec(acc: DirectiveAcc, s: Seq<char>) -> Option<DirectiveAcc>
    decreases s.len(),
{
    match find_char_spec(s, ',') {
        None => apply_piece_spec(acc, s),
        Some(k) => if 0 <= k < s.len() {
            match apply_piece_spec(acc, s.subrange(0, k)) {
                Some(a) => parse_directives_rec(a, s.subrange(k + 1, s.len() as int)),
                None => None,
            }
        } else {
            None
        },
    }
}

/// What a directive text denotes: a default level and target entries, or
/// nothing when any directive is malformed.
pub open spec fn parse_directives_spec(s: Seq<char>) -> Option<DirectiveAcc> {
    parse_directives_rec(
        DirectiveAcc { default_level: None, entries: Seq::empty() },
        s,
    )
}

/// Fold one directive piece into the running parse state.
fn apply_piece_exec(
    default_level: &mut Option<TracingLevel>,
    pairs: &mut Vec<(String, TracingLevel)>,
    piece: &str,
) -> (ok: bool)
    ensures
        match apply_piece_spec(
            (DirectiveAcc {
                default_level: *old(default_level),
                entries: entries_view(old(pairs)@),
            }),
            piece@,
        ) {
            Some(a) => ok && *final(default_level) == a.default_level && entries_view(
                final(pairs)@,
            ) == a.entries,
            None => !ok,
        },
{
    let n = piece.unicode_len();
    match find_char_in(piece, 0, '=') {
        None => {
            proof {
                assert(piece@.subrange(0, piece@.len() as int) =~= piece@);
            }
            match parse_level(piece) {
                Some(l) => {
                    *default_level = Some(l);
                    true
                },
                None => false,
            }
        },
        Some(k) => {
            proof {
                assert(piece@.subrange(0, piece@.len() as int) =~= piece@);
                lemma_find_char_spec_first(piece@, '=');
            }
            if k == 0 {
                return false;
            }
            let name = piece.substring_char(0, k);
            let level_txt = piece.substring_char(k + 1, n);
            match parse_level(level_txt) {
                Some(l) => {
                    let owned: String = name.to_owned();
                    pairs.push((owned, l));
                    proof {
                        assert(entries_view(pairs@) =~= entries_view(old(pairs)@).push(
                            (piece@.subrange(0, k as int), l),
                        ));
                    }
                    true
                },
                None => false,
            }
        },
    }
}

/// Decode a comma-separated directive text, such as one naming a default
/// level and levels for chosen targets, into the default level and the
/// target entries it denotes. A malformed directive refuses the whole text.
pub fn parse_directives(s: &str) -> (r: Option<(Option<TracingLevel>, Vec<(String, TracingLevel)>)>)
    ensures
        match parse_directives_spec(s@) {
            Some(a) => r matches Some(p) && p.0 == a.default_level && entries_view(p.1@)
                == a.entries,
            None => r is None,
        },
{
    let n = s.unicode_len();
    let mut default_level: Option<TracingLevel> = None;
    let mut pairs: Vec<(String, TracingLevel)> = Vec::new();
    let mut pos: usize = 0;
    proof {
        assert(s@.subrange(0, s@.len() as int) =~= s@);
        assert(entries_view(pairs@) =~= Seq::<(Seq<char>, TracingLevel)>::empty());
    }
    loop
        invariant
            0 <= pos <= n,
            n == s@.len(),
            parse_directives_rec(
                (DirectiveAcc { default_level, entries: entries_view(pairs@) }),
                s@.subrange(pos as int, n as int),
            ) == parse_directives_spec(s@),
        decreases n - pos,
    {
        let ghost suffix = s@.subrange(pos as int, n as int);
        match find_char_in(s, pos, ',') {
            Some(c) => {
                let ghost k = c - pos as int;
                proof {
                    lemma_find_char_spec_first(suffix, ',');
                }
                let piece = s.substring_char(pos, c);
                proof {
                    assert(suffix.subrange(0, k) =~= s@.subrange(pos as int, c as int));
                }
                let ok = apply_piece_exec(&mut default_level, &mut pairs, piece);
                if !ok {
                    return None;
                }
                proof {
                    assert(suffix.subrange(k + 1, suffix.len() as int) =~= s@.subrange(
                        c + 1,
                        n as int,
                    ));
                }
                pos = c + 1;
            },
            None => {
                let piece = s.substring_char(pos, n);
                let ok = apply_piece_exec(&mut default_level, &mut pairs, piece);
                if !ok {
                    return None;
                }
                return Some((default_level, pairs));
            },
        }
    }
}

/// The module descriptor: an initial configuration waiting for its runtime
/// override.
pub struct UninitializedTracingModule {
    pub initial_config: TracingConfig,
}

/// The initialized module: the initial configuration together with the
/// override that mediation extracted for it, resolved on demand by
/// `resolved_config`.
pub struct TracingModule {
    pub config: TracingConfig,
    pub overrides: Option<RuntimeTracingConfigOverride>,
}

impl Module for UninitializedTracingModule {
    type Config = Option<RuntimeTracingConfigOverride>;

    type Out = TracingModule;

    open spec fn initialize_spec(self, config: Option<RuntimeTracingConfigOverride>) -> TracingModule {
        TracingModule { config: self.initial_config, overrides: config }
    }

    fn initialize(self, config: Option<RuntimeTracingConfigOverride>) -> (r: TracingModule) {
        TracingModule { config: self.initial_config, overrides: config }
    }
}

impl TracingModule {
    /// A module descriptor starting from the given configuration, or from
    /// the default one.
    pub fn new(initial_config: Option<TracingConfig>) -> (r: UninitializedTracingModule)
        ensures
            initial_config matches Some(c) ==> r.initial_config == c,
            initial_config is None ==> ({
                &&& r.initial_config.layer == TracingLayer::Log
                &&& r.initial_config.base_targets matches Some(t) && t.default_level == Some(
                    TracingLevel::Info,
                ) && t.targets@.len() == 0
            }),
    {
        let initial = match initial_config {
            Some(c) => c,
            None => TracingConfig::default(),
        };
        UninitializedTracingModule { initial_config: initial }
    }

    /// The configuration the module settles on: the initial configuration
    /// with the extracted override applied, when there was one.
    pub fn resolved_config(self) -> (r: TracingConfig)
        ensures
            self.overrides matches Some(o) ==> with_overrides_post(self.config, o, r),
            self.overrides is None ==> r == self.config,
    {
        match self.overrides {
            Some(o) => self.config.with_overrides(o),
            None => self.config,
        }
    }
}

} // verus!
