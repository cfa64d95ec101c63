//! Declarative window placement rules: matchers combined under an `Any`/`All`
//! strategy, a list of placement actions, and a remaining-match lifetime.
//!
//! Matching consults the regex engine through two trusted wrappers; everything
//! around those calls — matcher combination, lifetime bookkeeping, and the
//! translation of actions into discrete compositor commands — is verified.

use vstd::prelude::*;

use crate::compositor::{Command, Window};
use crate::process::{is_in_process_tree, spec_in_process_tree, ProcessTable};
use crate::rules_common::RuleLifetime;

verus! {

/// Whether the regex engine accepts `pattern`.
pub uninterp spec fn regex_valid(pattern: Seq<char>) -> bool;

/// Whether the regex `pattern` matches anywhere in `text`.
pub uninterp spec fn regex_match(pattern: Seq<char>, text: Seq<char>) -> bool;

/// Relies on `regex::Regex::new`: whether a pattern compiles is a function of
/// the pattern alone, and an error comes back exactly for a pattern the
/// engine rejects.
#[verifier::external_body]
fn regex_compiles(pattern: &str) -> (r: bool)
    ensures
        r == regex_valid(pattern@),
{
    regex::Regex::new(pattern).is_ok()
}

/// Relies on `regex::Regex::new` and `regex::Regex::is_match`: compilation
/// fails exactly on a pattern the engine rejects, and whether a compiled
/// pattern matches anywhere in a text is a function of pattern and text
/// alone. A rejected pattern yields `None`.
#[verifier::external_body]
fn regex_match_checked(pattern: &str, text: &str) -> (r: Option<bool>)
    ensures
        r is Some <==> regex_valid(pattern@),
        r is Some ==> r->0 == regex_match(pattern@, text@),
{
    match regex::Regex::new(pattern) {
        Ok(re) => Some(re.is_match(text)),
        Err(_) => None,
    }
}

/// The boolean combinator applied across a rule's matchers.
#[derive(Debug, Clone, Copy, PartialEq, Eq, Structural)]
pub enum MatchStrategy {
    Any,
    All,
}

impl Default for MatchStrategy {
    /// The configuration default: a rule matches when any matcher passes.
    fn default() -> (strategy: Self)
        ensures
            strategy == MatchStrategy::Any,
    {
        MatchStrategy::Any
    }
}

/// Whether a pattern matcher passes: the pattern and the window property must
/// both be present, the pattern must compile, and the match must succeed. An
/// absent pattern or property contributes a definite false — never "skip".
/// An invalid pattern also contributes false, failing closed; load-time
/// validation (see [`WindowRule::patterns_valid`]) keeps such a pattern from
/// ever reaching a rule set.
pub open spec fn spec_property_match(pattern: Option<String>, property: Option<String>) -> bool {
    match (pattern, property) {
        (Some(p), Some(t)) => regex_valid(p@) && regex_match(p@, t@),
        _ => false,
    }
}

/// The command sequence that places the focused column at 1-based position
/// `column`: one move to the first position, then `column - 1` single-step
/// moves right.
pub open spec fn spec_move_to_column(column: u64) -> Seq<Command> {
    seq![Command::MoveColumnToFirst] + Seq::new(
        if column == 0 {
            0nat
        } else {
            (column - 1) as nat
        },
        |i: int| Command::MoveColumnRight,
    )
}

/// A declarative placement rule: optional matchers, the strategy that
/// combines them, an action set, and a remaining-match lifetime.
#[derive(Debug, Clone)]
pub struct WindowRule {
    /// Regex pattern matched against the window's application id.
    pub app_id: Option<String>,
    /// Regex pattern matched against the window's title.
    pub title: Option<String>,
    /// Ancestor process id; the matcher passes when the window's owning
    /// process descends from it.
    pub pid: Option<u32>,
    /// How the matchers above combine.
    pub match_strategy: MatchStrategy,
    /// Action: move the focused column to this 1-based position.
    pub column: Option<u64>,
    /// Action: consume or expel the window to the left, into the current
    /// column.
    pub in_current_column: Option<bool>,
    /// Action: move the focused column to this position, then consume the
    /// window to the right.
    pub in_column: Option<u64>,
    /// Action: close the matched window.
    pub close: Option<bool>,
    /// Action: set the column width to this absolute pixel value.
    pub fixed_width: Option<i32>,
    /// Remaining-match budget; `None` is unlimited.
    pub rule_lifetime: Option<RuleLifetime>,
}

impl Default for WindowRule {
    /// A rule with nothing configured: no matchers, no actions, unlimited
    /// lifetime, and the `Any` strategy.
    fn default() -> (rule: Self)
        ensures
            rule.app_id is None,
            rule.title is None,
            rule.pid is None,
            rule.match_strategy == MatchStrategy::Any,
            rule.column is None,
            rule.in_current_column is None,
            rule.in_column is None,
            rule.close is None,
            rule.fixed_width is None,
            rule.rule_lifetime is None,
    {
        WindowRule {
            app_id: None,
            title: None,
            pid: None,
            match_strategy: MatchStrategy::Any,
            column: None,
            in_current_column: None,
            in_column: None,
            close: None,
            fixed_width: None,
            rule_lifetime: None,
        }
    }
}

impl WindowRule {
    /// Whether the app-id matcher passes against `window`.
    pub open spec fn spec_app_id_match(self, window: Window) -> bool {
        spec_property_match(self.app_id, window.app_id)
    }

    /// Whether the title matcher passes against `window`.
    pub open spec fn spec_title_match(self, window: Window) -> bool {
        spec_property_match(self.title, window.title)
    }

    /// Whether the ancestry matcher passes: both pids must be present and the
    /// window's process must descend from the rule's.
    pub open spec fn spec_pid_match(self, window: Window, procs: Seq<(u32, u32)>) -> bool {
        match (self.pid, window.pid) {
            (Some(ancestor), Some(pid)) => spec_in_process_tree(procs, pid, ancestor),
            _ => false,
        }
    }

    /// Whether the rule matches `window`: every matcher — configured or not —
    /// contributes a boolean, and the strategy combines the three. Under
    /// `All`, an unconfigured matcher's false makes the rule unmatchable;
    /// that strictness is deliberate.
    pub open spec fn spec_matches(self, window: Window, procs: Seq<(u32, u32)>) -> bool {
        let app_id_match = self.spec_app_id_match(window);
        let title_match = self.spec_title_match(window);
        let pid_match = self.spec_pid_match(window, procs);
        match self.match_strategy {
            MatchStrategy::All => app_id_match && title_match && pid_match,
            MatchStrategy::Any => app_id_match || title_match || pid_match,
        }
    }

    /// Whether the rule's remaining-match budget is spent.
    pub open spec fn spec_exhausted(self) -> bool {
        self.rule_lifetime == Some(RuleLifetime::Matches(0u64))
    }

    /// The lifetime after one successful match: a counted lifetime loses one
    /// remaining match, saturating at zero; an unlimited lifetime stays
    /// unlimited.
    pub open spec fn spec_decremented_lifetime(self) -> Option<RuleLifetime> {
        match self.rule_lifetime {
            Some(RuleLifetime::Matches(remaining)) => Some(
                RuleLifetime::Matches(
                    if remaining == 0 {
                        0u64
                    } else {
                        (remaining - 1) as u64
                    },
                ),
            ),
            None => None,
        }
    }

    /// The same rule with its lifetime replaced.
    pub open spec fn spec_with_lifetime(self, lifetime: Option<RuleLifetime>) -> WindowRule {
        WindowRule { rule_lifetime: lifetime, ..self }
    }

    /// The commands a successful match issues, in the fixed action order:
    /// column placement first, then consume/expel, then close, then resize.
    pub open spec fn spec_commands(self, window: Window) -> Seq<Command> {
        (match self.column {
            Some(column) => spec_move_to_column(column),
            None => Seq::<Command>::empty(),
        }) + (match self.in_column {
            Some(column) => spec_move_to_column(column).push(
                Command::ConsumeOrExpelWindowRight { id: window.id },
            ),
            None => Seq::<Command>::empty(),
        }) + (if self.in_current_column == Some(true) {
            seq![Command::ConsumeOrExpelWindowLeft { id: window.id }]
        } else {
            Seq::<Command>::empty()
        }) + (if self.close == Some(true) {
            seq![Command::CloseWindow { id: window.id }]
        } else {
            Seq::<Command>::empty()
        }) + (match self.fixed_width {
            Some(pixels) => seq![Command::SetColumnWidth { pixels }],
            None => Seq::<Command>::empty(),
        })
    }

    /// Whether every configured regex pattern on this rule compiles.
    pub open spec fn spec_patterns_valid(self) -> bool {
        &&& (self.app_id matches Some(p) ==> regex_valid(p@))
        &&& (self.title matches Some(p) ==> regex_valid(p@))
    }

    /// Checks that every configured regex pattern compiles. Rules are
    /// validated when loaded; an invalid pattern is a configuration error
    /// surfaced here, never at match time.
    pub fn patterns_valid(&self) -> (r: bool)
        ensures
            r == self.spec_patterns_valid(),
    {
        let app_id_ok = match &self.app_id {
            Some(pattern) => regex_compiles(pattern.as_str()),
            None => true,
        };
        let title_ok = match &self.title {
            Some(pattern) => regex_compiles(pattern.as_str()),
            None => true,
        };
        app_id_ok && title_ok
    }

    /// Tests one pattern matcher. Both sides must be present and the match
    /// must succeed; an invalid pattern fails closed to "no match".
    fn match_property(pattern: &Option<String>, property: &Option<String>) -> (r: bool)
        ensures
            r == spec_property_match(*pattern, *property),
    {
        match (pattern, property) {
            (Some(pattern), Some(property)) => {
                match regex_match_checked(pattern.as_str(), property.as_str()) {
                    Some(matched) => matched,
                    None => false,
                }
            },
            _ => false,
        }
    }

    /// Whether the rule matches `window`, with ancestry answered from the
    /// `procs` snapshot.
    pub fn match_window(&self, window: &Window, procs: &ProcessTable) -> (r: bool)
        ensures
            r == self.spec_matches(*window, procs@),
    {
        let app_id_match = Self::match_property(&self.app_id, &window.app_id);
        let title_match = Self::match_property(&self.title, &window.title);
        let pid_match = match (self.pid, window.pid) {
            (Some(ancestor), Some(pid)) => is_in_process_tree(pid, ancestor, procs),
            _ => false,
        };
        match self.match_strategy {
            MatchStrategy::All => app_id_match && title_match && pid_match,
            MatchStrategy::Any => app_id_match || title_match || pid_match,
        }
    }

    /// Whether the rule's remaining-match budget is spent. An exhausted rule
    /// is never evaluated again and is pruned from its rule set.
    pub fn exhausted(&self) -> (r: bool)
        ensures
            r == self.spec_exhausted(),
    {
        match self.rule_lifetime {
            Some(RuleLifetime::Matches(remaining)) => remaining == 0,
            None => false,
        }
    }

    /// Spends one match of the lifetime, saturating at zero.
    fn update_rule_lifetime(&mut self)
        ensures
            *final(self) == old(self).spec_with_lifetime(old(self).spec_decremented_lifetime()),
    {
        if let Some(RuleLifetime::Matches(remaining)) = self.rule_lifetime {
            let decremented: u64 = if remaining == 0 {
                0
            } else {
                remaining - 1
            };
            self.rule_lifetime = Some(RuleLifetime::Matches(decremented));
        }
    }

    /// The command sequence that places the focused column at 1-based
    /// position `column`: one "move to first", then `column - 1` single-step
    /// "move right" commands, in that order.
    pub fn move_focused_to_column(column: u64) -> (commands: Vec<Command>)
        ensures
            commands@ == spec_move_to_column(column),
    {
        let mut commands: Vec<Command> = Vec::new();
        commands.push(Command::MoveColumnToFirst);
        let mut step: u64 = 1;
        while step < column
            invariant
                1 <= step,
                column >= 1 ==> step <= column,
                column == 0 ==> step == 1,
                commands@ == seq![Command::MoveColumnToFirst] + Seq::new(
                    (step - 1) as nat,
                    |i: int| Command::MoveColumnRight,
                ),
            decreases column - step,
        {
            commands.push(Command::MoveColumnRight);
            step = step + 1;
        }
        assert(commands@ =~= spec_move_to_column(column));
        commands
    }

    /// The commands for this rule's configured actions against `window`, in
    /// the fixed order: column placement, consume/expel, close, resize.
    pub fn perform(&self, window: &Window) -> (commands: Vec<Command>)
        ensures
            commands@ == self.spec_commands(*window),
    {
        let id = window.id;
        let mut commands: Vec<Command> = Vec::new();
        if let Some(column) = self.column {
            let mut placement = Self::move_focused_to_column(column);
            commands.append(&mut placement);
        }
        if let Some(column) = self.in_column {
            let mut placement = Self::move_focused_to_column(column);
            commands.append(&mut placement);
            commands.push(Command::ConsumeOrExpelWindowRight { id });
        }
        if let Some(true) = self.in_current_column {
            commands.push(Command::ConsumeOrExpelWindowLeft { id });
        }
        if let Some(true) = self.close {
            commands.push(Command::CloseWindow { id });
        }
        if let Some(pixels) = self.fixed_width {
            commands.push(Command::SetColumnWidth { pixels });
        }
        assert(commands@ =~= self.spec_commands(*window));
        commands
    }

    /// Evaluates the rule against one window appearance: when the rule
    /// matches and still has budget, one match is spent and the action
    /// commands are returned; otherwise nothing changes and no command is
    /// issued. In particular an exhausted rule never fires, whatever its
    /// matchers hold.
    pub fn evaluate(&mut self, window: &Window, procs: &ProcessTable) -> (commands: Vec<Command>)
        ensures
            old(self).spec_matches(*window, procs@) && !old(self).spec_exhausted() ==> {
                &&& *final(self) == old(self).spec_with_lifetime(
                    old(self).spec_decremented_lifetime(),
                )
                &&& commands@ == old(self).spec_commands(*window)
            },
            !(old(self).spec_matches(*window, procs@) && !old(self).spec_exhausted()) ==> {
                &&& *final(self) == *old(self)
                &&& commands@ == Seq::<Command>::empty()
            },
            old(self).spec_exhausted() ==> *final(self) == *old(self) && commands@
                == Seq::<Command>::empty(),
    {
        if self.match_window(window, procs) {
            if !self.exhausted() {
                self.update_rule_lifetime();
                return self.perform(window);
            }
        }
        Vec::new()
    }
}

/// Law: under the `All` strategy, a rule with at least one unconfigured
/// matcher never matches any window — an absent matcher contributes a
/// definite false to the conjunction. This strictness is deliberate.
pub proof fn lemma_all_with_unconfigured_matcher_never_matches(
    rule: WindowRule,
    window: Window,
    procs: Seq<(u32, u32)>,
)
    requires
        rule.match_strategy == MatchStrategy::All,
        rule.app_id is None || rule.title is None || rule.pid is None,
    ensures
        !rule.spec_matches(window, procs),
{
}

/// Law: under the `Any` strategy, a rule matches a window exactly when at
/// least one of its configured matchers individually passes.
pub proof fn lemma_any_matches_iff_configured_matcher_passes(
    rule: WindowRule,
    window: Window,
    procs: Seq<(u32, u32)>,
)
    requires
        rule.match_strategy == MatchStrategy::Any,
    ensures
        rule.spec_matches(window, procs) <==> {
            ||| rule.app_id is Some && rule.spec_app_id_match(window)
            ||| rule.title is Some && rule.spec_title_match(window)
            ||| rule.pid is Some && rule.spec_pid_match(window, procs)
        },
{
}

/// Law: one successful match spends exactly one remaining match, the budget
/// never goes below zero, and a rule with a single remaining match is
/// exhausted immediately after it fires.
pub proof fn lemma_lifetime_spent_once(rule: WindowRule)
    ensures
        rule.rule_lifetime matches Some(RuleLifetime::Matches(remaining)) ==> (remaining > 0
            ==> rule.spec_decremented_lifetime() == Some(
            RuleLifetime::Matches((remaining - 1) as u64),
        )),
        rule.rule_lifetime is None ==> rule.spec_decremented_lifetime() is None,
        rule.rule_lifetime == Some(RuleLifetime::Matches(1u64)) ==> rule.spec_with_lifetime(
            rule.spec_decremented_lifetime(),
        ).spec_exhausted(),
        rule.spec_decremented_lifetime() matches Some(RuleLifetime::Matches(remaining))
            ==> remaining >= 0,
{
}

} // verus!
