//! The rule set: an ordered collection of window rules, evaluated first to
//! last against each newly seen window, with exhausted rules pruned eagerly
//! in the same pass.

use vstd::prelude::*;

use crate::compositor::{Command, Window};
use crate::process::ProcessTable;
use crate::window_rules::WindowRule;

verus! {

/// One rule's share of an evaluation pass: the rule afterwards, and the
/// commands it issued.
pub open spec fn spec_evaluate_rule(
    rule: WindowRule,
    window: Window,
    procs: Seq<(u32, u32)>,
) -> (WindowRule, Seq<Command>) {
    if rule.spec_matches(window, procs) && !rule.spec_exhausted() {
        (rule.spec_with_lifetime(rule.spec_decremented_lifetime()), rule.spec_commands(window))
    } else {
        (rule, Seq::<Command>::empty())
    }
}

/// A whole evaluation pass over `rules`, in order: each rule is evaluated
/// against `window`, the commands are concatenated, and a rule that is
/// exhausted afterwards is dropped; surviving rules keep their order.
pub open spec fn spec_evaluate_rules(
    rules: Seq<WindowRule>,
    window: Window,
    procs: Seq<(u32, u32)>,
) -> (Seq<WindowRule>, Seq<Command>)
    decreases rules.len(),
{
    if rules.len() == 0 {
        (Seq::<WindowRule>::empty(), Seq::<Command>::empty())
    } else {
        let head = spec_evaluate_rule(rules[0], window, procs);
        let rest = spec_evaluate_rules(rules.drop_first(), window, procs);
        let kept = if head.0.spec_exhausted() {
            rest.0
        } else {
            seq![head.0] + rest.0
        };
        (kept, head.1 + rest.1)
    }
}

/// Law: an evaluation pass prunes eagerly — no exhausted rule survives it.
pub proof fn lemma_evaluate_rules_prunes_exhausted(
    rules: Seq<WindowRule>,
    window: Window,
    procs: Seq<(u32, u32)>,
)
    ensures
        forall|i: int|
            0 <= i < spec_evaluate_rules(rules, window, procs).0.len() ==> !(
            #[trigger] spec_evaluate_rules(rules, window, procs).0[i]).spec_exhausted(),
    decreases rules.len(),
{
    if rules.len() > 0 {
        let head = spec_evaluate_rule(rules[0], window, procs);
        let rest = spec_evaluate_rules(rules.drop_first(), window, procs);
        lemma_evaluate_rules_prunes_exhausted(rules.drop_first(), window, procs);
        let result = spec_evaluate_rules(rules, window, procs).0;
        assert forall|i: int| 0 <= i < result.len() implies !(
        #[trigger] result[i]).spec_exhausted() by {
            if head.0.spec_exhausted() {
                assert(result[i] == rest.0[i]);
            } else if i > 0 {
                assert(result[i] == rest.0[i - 1]);
            }
        }
    }
}

/// The set of placement rules the daemon evaluates, in registration order:
/// first-registered rules evaluate first, so their actions run before those
/// of later rules.
pub struct Config {
    window_rules: Vec<WindowRule>,
}

impl View for Config {
    type V = Seq<WindowRule>;

    closed spec fn view(&self) -> Seq<WindowRule> {
        self.window_rules@
    }
}

impl Config {
    /// A rule set with no rules.
    pub fn new() -> (config: Config)
        ensures
            config@ == Seq::<WindowRule>::empty(),
    {
        Config { window_rules: Vec::new() }
    }

    /// The rules, in evaluation order.
    pub fn window_rules(&self) -> (rules: &Vec<WindowRule>)
        ensures
            rules@ == self@,
    {
        &self.window_rules
    }

    /// Evaluates every rule in order against `window`, returning the
    /// concatenated commands; rules exhausted by this pass are pruned before
    /// the pass returns, so no caller ever observes an exhausted rule.
    pub fn evaluate_window(&mut self, window: &Window, procs: &ProcessTable) -> (commands: Vec<
        Command,
    >)
        ensures
            final(self)@ == spec_evaluate_rules(old(self)@, *window, procs@).0,
            commands@ == spec_evaluate_rules(old(self)@, *window, procs@).1,
            forall|i: int|
                0 <= i < final(self)@.len() ==> !(#[trigger] final(self)@[i]).spec_exhausted(),
    {
        let ghost orig: Seq<WindowRule> = self.window_rules@;
        let mut kept: Vec<WindowRule> = Vec::new();
        let mut commands: Vec<Command> = Vec::new();
        while self.window_rules.len() > 0
            invariant
                spec_evaluate_rules(orig, *window, procs@).0 == kept@ + spec_evaluate_rules(
                    self.window_rules@,
                    *window,
                    procs@,
                ).0,
                spec_evaluate_rules(orig, *window, procs@).1 == commands@ + spec_evaluate_rules(
                    self.window_rules@,
                    *window,
                    procs@,
                ).1,
            decreases self.window_rules@.len(),
        {
            let ghost before: Seq<WindowRule> = self.window_rules@;
            let ghost kept_before: Seq<WindowRule> = kept@;
            let ghost commands_before: Seq<Command> = commands@;
            let mut rule = self.window_rules.remove(0);
            assert(before.remove(0) =~= before.drop_first());
            let mut issued = rule.evaluate(window, procs);
            commands.append(&mut issued);
            if !rule.exhausted() {
                kept.push(rule);
            }
            proof {
                let head = spec_evaluate_rule(before[0], *window, procs@);
                let rest = spec_evaluate_rules(before.drop_first(), *window, procs@);
                if !head.0.spec_exhausted() {
                    assert(kept@ + rest.0 =~= kept_before + (seq![head.0] + rest.0));
                }
                assert(commands@ + rest.1 =~= commands_before + (head.1 + rest.1));
            }
        }
        self.window_rules = kept;
        proof {
            assert(spec_evaluate_rules(Seq::<WindowRule>::empty(), *window, procs@).0
                =~= Seq::<WindowRule>::empty());
            assert(kept@ + Seq::<WindowRule>::empty() =~= kept@);
            assert(commands@ + Seq::<Command>::empty() =~= commands@);
            lemma_evaluate_rules_prunes_exhausted(orig, *window, procs@);
        }
        commands
    }

    /// Appends a rule at the end: the lowest evaluation priority among the
    /// rules already present, which all stay in place.
    pub fn add_window_rule(&mut self, window_rule: WindowRule)
        ensures
            final(self)@ == old(self)@.push(window_rule),
    {
        self.window_rules.push(window_rule);
    }
}

/// Law: registering two rules, in whichever order the rule set serializes
/// the registrations, loses neither — every rule already present stays in
/// place, the first registered rule stands before the second, and nothing
/// else changes.
pub proof fn lemma_registrations_not_lost(
    rules: Seq<WindowRule>,
    first: WindowRule,
    second: WindowRule,
)
    ensures
        rules.push(first).push(second).len() == rules.len() + 2,
        rules.push(first).push(second)[rules.len() as int] == first,
        rules.push(first).push(second)[rules.len() as int + 1] == second,
        forall|i: int|
            0 <= i < rules.len() ==> rules.push(first).push(second)[i] == #[trigger] rules[i],
{
}

} // verus!
