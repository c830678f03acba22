//! The rule compiler: from the texts of filter lists to a compiled rule
//! set. Blank lines, comments and section headers are skipped; every other
//! line is offered to the rule parser on its own, and a line that the
//! parser refuses is dropped and counted.

use crate::backend::{
    compiles_to, engine_from_filter_set, filter_set_add, filter_set_new, filter_set_rules,
    rule_parses,
};
use crate::ruleset::CompiledRuleSet;
use crate::text::{first_char, lines_of, split_lines};
use vstd::prelude::*;

verus! {

/// What a line of a filter list is.
#[derive(Debug, Clone, Copy, PartialEq, Eq, Structural)]
pub enum LineKind {
    /// An empty line.
    Blank,
    /// A comment (`!`) or a section header (`[`).
    Comment,
    /// Anything else: a line to parse as a rule.
    Rule,
}

/// The kind of a line, by its first character.
pub open spec fn kind_of(line: Seq<char>) -> LineKind {
    if line.len() == 0 {
        LineKind::Blank
    } else if line[0] == '!' || line[0] == '[' {
        LineKind::Comment
    } else {
        LineKind::Rule
    }
}

/// A line that is offered to the rule parser.
pub open spec fn is_rule_line(line: Seq<char>) -> bool {
    kind_of(line) == LineKind::Rule
}

/// The rule lines of one text, in order.
pub open spec fn rule_lines_of(text: Seq<char>) -> Seq<Seq<char>> {
    lines_of(text).filter(|line: Seq<char>| is_rule_line(line))
}

/// The rule lines of several texts: those of the first, then those of the
/// second, and so on.
pub open spec fn rule_lines(texts: Seq<Seq<char>>) -> Seq<Seq<char>>
    decreases texts.len(),
{
    if texts.len() == 0 {
        Seq::empty()
    } else {
        rule_lines(texts.drop_last()) + rule_lines_of(texts.last())
    }
}

/// The lines among `lines` that the rule parser accepts.
pub open spec fn accepted_lines(lines: Seq<Seq<char>>) -> Seq<Seq<char>> {
    lines.filter(|line: Seq<char>| rule_parses(line))
}

/// What a compilation did with the lines it was offered.
#[derive(Debug, Clone, Copy, PartialEq, Eq, Structural)]
pub struct CompileStats {
    /// Lines that became rules.
    pub accepted: usize,
    /// Lines that the parser refused.
    pub dropped: usize,
}

/// Filtering a sequence with one more element keeps the element where the
/// predicate holds of it.
pub proof fn filter_push<A>(s: Seq<A>, pred: spec_fn(A) -> bool, x: A)
    ensures
        s.push(x).filter(pred) == (if pred(x) {
            s.filter(pred).push(x)
        } else {
            s.filter(pred)
        }),
{
    reveal(Seq::filter);
    assert(s.push(x).drop_last() =~= s);
}

/// The kind of a line.
pub fn classify_line(line: &str) -> (kind: LineKind)
    ensures
        kind == kind_of(line@),
{
    match first_char(line) {
        None => LineKind::Blank,
        Some(c) => if c == '!' || c == '[' {
            LineKind::Comment
        } else {
            LineKind::Rule
        },
    }
}

/// Appends the rule lines of `text` to `out`.
pub fn push_rule_lines(text: &str, out: &mut Vec<String>)
    ensures
        final(out).deep_view() == old(out).deep_view() + rule_lines_of(text@),
{
    let ghost keep = |line: Seq<char>| is_rule_line(line);
    let ghost before = out.deep_view();
    let lines = split_lines(text);
    let ghost all = lines.deep_view();
    proof {
        assert(all.take(0).filter(keep) =~= Seq::<Seq<char>>::empty()) by {
            reveal(Seq::filter);
        }
        assert(before + Seq::<Seq<char>>::empty() =~= before);
    }
    for line in it: lines.into_iter()
        invariant
            it.seq().len() == all.len(),
            forall|k: int| 0 <= k < all.len() ==> (#[trigger] it.seq()[k])@ == all[k],
            keep == |line: Seq<char>| is_rule_line(line),
            out.deep_view() == before + all.take(it.index() as int).filter(keep),
    {
        let ghost at = it.index() as int;
        let ghost held = out.deep_view();
        proof {
            assert(all.take(at + 1) =~= all.take(at).push(line@));
            filter_push(all.take(at), keep, line@);
        }
        if classify_line(line.as_str()) == LineKind::Rule {
            out.push(line);
            assert(out.deep_view() =~= held.push(line@));
            assert(before + all.take(at).filter(keep).push(line@) =~= (before + all.take(
                at,
            ).filter(keep)).push(line@));
        }
    }
    assert(all.take(all.len() as int) =~= all);
}

/// The rule lines of all `texts`, in order.
pub fn collect_rule_lines(texts: &Vec<String>) -> (lines: Vec<String>)
    ensures
        lines.deep_view() == rule_lines(texts.deep_view()),
{
    let mut lines: Vec<String> = Vec::new();
    let ghost all = texts.deep_view();
    assert(lines.deep_view() =~= rule_lines(all.take(0)));
    let mut i: usize = 0;
    while i < texts.len()
        invariant
            i <= texts.len(),
            all == texts.deep_view(),
            lines.deep_view() == rule_lines(all.take(i as int)),
        decreases texts.len() - i,
    {
        push_rule_lines(texts[i].as_str(), &mut lines);
        proof {
            assert(all.take(i + 1).drop_last() =~= all.take(i as int));
            assert(all.take(i + 1).last() == texts[i as int]@);
        }
        i += 1;
    }
    assert(all.take(texts.len() as int) =~= all);
    lines
}

/// Compiles the given lines, each offered to the rule parser on its own.
/// A refused line never stops the compilation: the rule set is compiled
/// from the lines that the parser accepts, in their order.
pub fn compile_lines(lines: &Vec<String>) -> (compiled: (CompiledRuleSet, CompileStats))
    ensures
        compiles_to(accepted_lines(lines.deep_view()), compiled.0@),
        compiled.1.accepted == accepted_lines(lines.deep_view()).len(),
        compiled.1.accepted + compiled.1.dropped == lines.len(),
{
    let ghost parses = |line: Seq<char>| rule_parses(line);
    let ghost all = lines.deep_view();
    let mut set = filter_set_new();
    let mut accepted: usize = 0;
    let mut dropped: usize = 0;
    let mut i: usize = 0;
    assert(all.take(0).filter(parses) =~= Seq::<Seq<char>>::empty()) by {
        reveal(Seq::filter);
    }
    while i < lines.len()
        invariant
            i <= lines.len(),
            all == lines.deep_view(),
            parses == |line: Seq<char>| rule_parses(line),
            accepted + dropped == i,
            accepted == all.take(i as int).filter(parses).len(),
            filter_set_rules(set) == all.take(i as int).filter(parses),
        decreases lines.len() - i,
    {
        proof {
            assert(all.take(i + 1) =~= all.take(i as int).push(lines[i as int]@));
            filter_push(all.take(i as int), parses, lines[i as int]@);
        }
        if filter_set_add(&mut set, lines[i].as_str()) {
            accepted += 1;
        } else {
            dropped += 1;
        }
        i += 1;
    }
    assert(all.take(lines.len() as int) =~= all);
    let engine = engine_from_filter_set(set);
    (CompiledRuleSet::from_engine(engine), CompileStats { accepted, dropped })
}

/// Compiles the texts of the acquired filter lists into one rule set. The
/// rule lines of all texts are offered to the parser, in order, and the
/// rule set is compiled from those that it accepts.
pub fn compile(texts: &Vec<String>) -> (compiled: (CompiledRuleSet, CompileStats))
    ensures
        compiles_to(accepted_lines(rule_lines(texts.deep_view())), compiled.0@),
        compiled.1.accepted == accepted_lines(rule_lines(texts.deep_view())).len(),
        compiled.1.accepted + compiled.1.dropped == rule_lines(texts.deep_view()).len(),
{
    let lines = collect_rule_lines(texts);
    compile_lines(&lines)
}

} // verus!
