//! Rewriting of requested input paths by an ordered table of rules.

use crate::hand::{hand_path, strings_of, Hand};
use crate::text::{
    chars_of, contains_chars, lemma_replace_without_occurrence, occurs, replace_all,
    replace_chars, string_of,
};
use vstd::prelude::*;

verus! {

/// One rewrite rule: where `from` occurs in a path it is replaced by `to`;
/// `stop` ends the scan of the table once the rule has applied.
#[derive(Clone, Copy, Debug, PartialEq, Eq)]
pub struct PathTranslation {
    pub from: &'static str,
    pub to: &'static str,
    pub stop: bool,
}

/// A rewrite rule as the contracts see it.
pub struct RewriteRule {
    pub from: Seq<char>,
    pub to: Seq<char>,
    pub stop: bool,
}

impl View for PathTranslation {
    type V = RewriteRule;

    open spec fn view(&self) -> RewriteRule {
        RewriteRule { from: self.from@, to: self.to@, stop: self.stop }
    }
}

/// The rules of a table, in declaration order.
pub open spec fn rules_of(table: Seq<PathTranslation>) -> Seq<RewriteRule> {
    table.map_values(|t: PathTranslation| t@)
}

/// What one rule makes of `path`: the path itself where `from` does not occur.
pub open spec fn apply_rule(path: Seq<char>, rule: RewriteRule) -> Seq<char> {
    if occurs(path, rule.from) {
        replace_all(path, rule.from, rule.to)
    } else {
        path
    }
}

/// A single forward pass over `rules`: each rule sees what the rules before
/// it produced, and the pass ends after the first stopping rule that applies.
pub open spec fn rewrite(path: Seq<char>, rules: Seq<RewriteRule>) -> Seq<char>
    decreases rules.len(),
{
    if rules.len() == 0 {
        path
    } else if occurs(path, rules[0].from) && rules[0].stop {
        replace_all(path, rules[0].from, rules[0].to)
    } else {
        rewrite(apply_rule(path, rules[0]), rules.skip(1))
    }
}

/// What a rule makes of a path is the path with every occurrence of `from`
/// replaced, whether there is one or not.
pub proof fn lemma_apply_rule_replaces(path: Seq<char>, rule: RewriteRule)
    ensures
        apply_rule(path, rule) == replace_all(path, rule.from, rule.to),
{
    if !occurs(path, rule.from) {
        lemma_replace_without_occurrence(path, rule.from, rule.to);
    }
}

/// A path in which no rule's `from` occurs comes out as it went in.
pub proof fn lemma_rewrite_without_match(path: Seq<char>, rules: Seq<RewriteRule>)
    requires
        forall|i: int| 0 <= i < rules.len() ==> !occurs(path, (#[trigger] rules[i]).from),
    ensures
        rewrite(path, rules) == path,
    decreases rules.len(),
{
    if rules.len() > 0 {
        lemma_rewrite_without_match(path, rules.skip(1));
    }
}

/// A stopping rule that applies ends the pass: the rules behind it have no
/// say, whatever they are.
pub proof fn lemma_stopping_rule_halts(path: Seq<char>, rule: RewriteRule, later: Seq<RewriteRule>)
    requires
        occurs(path, rule.from),
        rule.stop,
    ensures
        rewrite(path, seq![rule] + later) == replace_all(path, rule.from, rule.to),
{
}

/// A rule that does not stop hands what it made of the path to the rules
/// behind it; so does a stopping rule that does not apply.
pub proof fn lemma_passing_rule_continues(
    path: Seq<char>,
    rule: RewriteRule,
    later: Seq<RewriteRule>,
)
    requires
        !rule.stop || !occurs(path, rule.from),
    ensures
        rewrite(path, seq![rule] + later) == rewrite(apply_rule(path, rule), later),
{
    assert((seq![rule] + later).skip(1) =~= later);
}

/// Rewrites `path` by `table` in one forward pass.
pub fn translate(path: &str, table: &Vec<PathTranslation>) -> (r: String)
    ensures
        r@ == rewrite(path@, rules_of(table@)),
{
    let ghost rules = rules_of(table@);
    let mut current = chars_of(path);
    let mut i: usize = 0;
    assert(rules.skip(0) =~= rules);
    while i < table.len()
        invariant_except_break
            i <= table.len(),
            rewrite(current@, rules.skip(i as int)) == rewrite(path@, rules),
        invariant
            rules == rules_of(table@),
            rules.len() == table.len(),
        ensures
            current@ == rewrite(path@, rules),
        decreases table.len() - i,
    {
        let rule = &table[i];
        let ghost rest = rules.skip(i as int);
        assert(rest.skip(1) =~= rules.skip(i + 1));
        let from = chars_of(rule.from);
        if contains_chars(&current, &from) {
            let to = chars_of(rule.to);
            current = replace_chars(&current, &from, &to);
            if rule.stop {
                break;
            }
        }
        i += 1;
    }
    string_of(&current)
}

/// A requested path whose rewritten form the profile does not know.
#[derive(Clone, Debug, PartialEq, Eq)]
pub struct InvalidActionPath {
    /// The path as it was requested.
    pub path: String,
    /// What the rewrite rules made of it, on the requested hand.
    pub translated: String,
}

/// The full path that `path` stands for on `hand` once `rules` have rewritten it.
pub open spec fn translated_path(rules: Seq<RewriteRule>, hand: Hand, path: Seq<char>) -> Seq<
    char,
> {
    hand_path(hand, rewrite(path, rules))
}

/// What translating `path` for `hand` gives: the translated path where it
/// is one of the `legal` paths, nothing where it is not.
pub open spec fn validated(
    rules: Seq<RewriteRule>,
    legal: Seq<Seq<char>>,
    hand: Hand,
    path: Seq<char>,
) -> Option<Seq<char>> {
    let full = translated_path(rules, hand, path);
    if legal.contains(full) {
        Some(full)
    } else {
        None
    }
}

/// No translation leaves the legal paths: whatever path a translation
/// gives is one of them.
pub proof fn lemma_translation_stays_legal(
    rules: Seq<RewriteRule>,
    legal: Seq<Seq<char>>,
    hand: Hand,
    path: Seq<char>,
)
    ensures
        validated(rules, legal, hand, path) matches Some(full) ==> legal.contains(full),
{
}

/// Whether `path` is one of `list`.
pub fn is_listed(list: &Vec<String>, path: &String) -> (r: bool)
    ensures
        r == strings_of(list@).contains(path@),
{
    let mut i: usize = 0;
    while i < list.len()
        invariant
            i <= list.len(),
            forall|k: int| 0 <= k < i ==> strings_of(list@)[k] != path@,
        decreases list.len() - i,
    {
        if list[i] == *path {
            assert(strings_of(list@)[i as int] == path@);
            return true;
        }
        i += 1;
    }
    false
}

/// Rewrites `path` by `table`, places it on `hand`, and accepts the result
/// only if it is one of the `legal` paths.
pub fn translate_and_validate(
    table: &Vec<PathTranslation>,
    legal: &Vec<String>,
    hand: Hand,
    path: &str,
) -> (r: Result<String, InvalidActionPath>)
    ensures
        match r {
            Ok(full) => validated(rules_of(table@), strings_of(legal@), hand, path@) == Some(
                full@,
            ),
            Err(e) => {
                &&& validated(rules_of(table@), strings_of(legal@), hand, path@) is None
                &&& e.path@ == path@
                &&& e.translated@ == translated_path(rules_of(table@), hand, path@)
            },
        },
{
    let rewritten = translate(path, table);
    let full = hand.path(rewritten.as_str());
    if is_listed(legal, &full) {
        Ok(full)
    } else {
        Err(InvalidActionPath { path: path.to_owned(), translated: full })
    }
}

} // verus!
