//! The rule matcher: turns a line-oriented configuration text into an
//! ordered list of (pattern, destination) rules, and finds the first rule
//! whose pattern matches a path.
//!
//! Each line splits into exactly two fields at its first `'|'`; further
//! `'|'` characters belong to the destination. Lines without a separator,
//! and lines whose pattern field does not compile, are dropped silently.
//! Patterns match case-insensitively, which the stored pattern carries as
//! an explicit prefix.

use vstd::prelude::*;
use vstd::string::StrSliceExecFns;
use vstd::string::StringExecFns;

use crate::pattern::{pattern_compiles, pattern_matches, regex_accepts, regex_compiles};
use crate::text::{trim_spec, trim_ws};

verus! {

/// Position of the first occurrence of `c` in `s`, when there is one.
pub open spec fn find_char(s: Seq<char>, c: char) -> Option<int>
    decreases s.len(),
{
    if s.len() == 0 {
        None
    } else if s[0] == c {
        Some(0int)
    } else {
        match find_char(s.drop_first(), c) {
            Some(i) => Some(i + 1),
            None => None,
        }
    }
}

/// `find_char` yields the first position of `c`, or nothing when `c` does
/// not occur.
pub proof fn lemma_find_char(s: Seq<char>, c: char)
    ensures
        match find_char(s, c) {
            Some(i) => 0 <= i < s.len() && s[i] == c && (forall|j: int| 0 <= j < i ==> s[j] != c),
            None => forall|j: int| 0 <= j < s.len() ==> s[j] != c,
        },
    decreases s.len(),
{
    if s.len() > 0 && s[0] != c {
        let t = s.drop_first();
        lemma_find_char(t, c);
        assert(forall|j: int| 1 <= j < s.len() ==> s[j] == t[j - 1]);
    }
}

/// The case-insensitivity marker put before every configured pattern.
pub open spec fn ci_prefix() -> Seq<char> {
    seq!['(', '?', 'i', ')']
}

/// A configured pattern as it is handed to the regex engine: the
/// case-insensitivity marker followed by the pattern field.
pub open spec fn ci_pattern(p: Seq<char>) -> Seq<char> {
    ci_prefix() + p
}

/// The rule one configuration line yields, when it yields one.
pub open spec fn line_rule(line: Seq<char>) -> Option<(Seq<char>, Seq<char>)> {
    match find_char(line, '|') {
        Some(k) => {
            let pat = ci_pattern(line.take(k));
            let dest = trim_spec(line.skip(k + 1));
            if regex_compiles(pat) {
                Some((pat, dest))
            } else {
                None
            }
        },
        None => None,
    }
}

/// One trailing carriage return removed, as happens to a line that ended
/// in `"\r\n"`.
pub open spec fn chomp_cr(s: Seq<char>) -> Seq<char> {
    if s.len() > 0 && s.last() == '\r' {
        s.drop_last()
    } else {
        s
    }
}

/// The lines of a text as `str::lines` yields them: split at `'\n'`, a
/// carriage return before the split stripped, and no empty line after a
/// final `'\n'`.
pub open spec fn lines_of(text: Seq<char>) -> Seq<Seq<char>>
    decreases text.len(),
    via lines_of_decreases
{
    if text.len() == 0 {
        Seq::empty()
    } else {
        match find_char(text, '\n') {
            Some(k) => seq![chomp_cr(text.take(k))] + lines_of(text.skip(k + 1)),
            None => seq![text],
        }
    }
}

#[via_fn]
proof fn lines_of_decreases(text: Seq<char>) {
    lemma_find_char(text, '\n');
}

/// The rules of a sequence of lines, in order, lines without a rule
/// skipped.
pub open spec fn rules_of_lines(ls: Seq<Seq<char>>) -> Seq<(Seq<char>, Seq<char>)>
    decreases ls.len(),
{
    if ls.len() == 0 {
        Seq::empty()
    } else {
        match line_rule(ls[0]) {
            Some(r) => seq![r] + rules_of_lines(ls.drop_first()),
            None => rules_of_lines(ls.drop_first()),
        }
    }
}

/// Every rule a configuration text yields, in file order.
pub open spec fn config_rules(text: Seq<char>) -> Seq<(Seq<char>, Seq<char>)> {
    rules_of_lines(lines_of(text))
}

/// A line that yields no rule can stand anywhere among the others
/// without effect: the rules of the lines around it are exactly the
/// rules without it.
pub proof fn lemma_malformed_line_inert(
    prefix: Seq<Seq<char>>,
    bad: Seq<char>,
    suffix: Seq<Seq<char>>,
)
    requires
        line_rule(bad) is None,
    ensures
        rules_of_lines(prefix + seq![bad] + suffix) == rules_of_lines(prefix + suffix),
    decreases prefix.len(),
{
    if prefix.len() == 0 {
        let ls = prefix + seq![bad] + suffix;
        assert(ls[0] == bad);
        assert(ls.drop_first() =~= suffix);
        assert(prefix + suffix =~= suffix);
    } else {
        let lhs = prefix + seq![bad] + suffix;
        let rhs = prefix + suffix;
        assert(lhs[0] == prefix[0]);
        assert(rhs[0] == prefix[0]);
        assert(lhs.drop_first() =~= prefix.drop_first() + seq![bad] + suffix);
        assert(rhs.drop_first() =~= prefix.drop_first() + suffix);
        lemma_malformed_line_inert(prefix.drop_first(), bad, suffix);
    }
}

/// The views of a sequence of rules.
pub open spec fn views_of(rs: Seq<Rule>) -> Seq<(Seq<char>, Seq<char>)> {
    rs.map_values(|r: Rule| r@)
}

/// One ordered (pattern, destination) pair. The stored pattern carries
/// the case-insensitivity marker and is known to compile; the stored
/// destination is trimmed of surrounding whitespace.
pub struct Rule {
    pattern: String,
    destination: String,
}

impl View for Rule {
    type V = (Seq<char>, Seq<char>);

    closed spec fn view(&self) -> (Seq<char>, Seq<char>) {
        (self.pattern@, self.destination@)
    }
}

impl Rule {
    #[verifier::type_invariant]
    spec fn wf(self) -> bool {
        regex_compiles(self.pattern@)
    }

    /// Builds the rule for an already-split line: the pattern field gets
    /// the case-insensitivity marker, the destination field is trimmed;
    /// a pattern that does not compile yields nothing.
    pub fn new(pattern: &str, destination: &str) -> (r: Option<Rule>)
        ensures
            r is Some <==> regex_compiles(ci_pattern(pattern@)),
            r matches Some(rule) ==> rule@ == (ci_pattern(pattern@), trim_spec(destination@)),
    {
        let mut pat = String::from_str("(?i)");
        proof {
            reveal_strlit("(?i)");
            assert(pat@ =~= ci_prefix());
        }
        pat.append(pattern);
        if pattern_compiles(pat.as_str()) {
            let dest = String::from_str(trim_ws(destination));
            Some(Rule { pattern: pat, destination: dest })
        } else {
            None
        }
    }

    /// The stored pattern, marker included.
    pub fn pattern(&self) -> (r: &String)
        ensures
            r@ == self@.0,
    {
        &self.pattern
    }

    /// The stored destination.
    pub fn destination(&self) -> (r: &String)
        ensures
            r@ == self@.1,
    {
        &self.destination
    }
}

/// Parses one configuration line into its rule, or nothing for a line
/// without a separator or with a pattern that does not compile.
pub fn parse_line(line: &str) -> (r: Option<Rule>)
    ensures
        r is Some <==> line_rule(line@) is Some,
        r matches Some(rule) ==> Some(rule@) == line_rule(line@),
{
    let n = line.unicode_len();
    let mut k: usize = 0;
    while k < n && line.get_char(k) != '|'
        invariant
            k <= n,
            n == line@.len(),
            forall|j: int| 0 <= j < k ==> line@[j] != '|',
        decreases n - k,
    {
        k = k + 1;
    }
    proof {
        lemma_find_char(line@, '|');
    }
    if k == n {
        None
    } else {
        let pat_part = line.substring_char(0, k);
        let dest_part = line.substring_char(k + 1, n);
        proof {
            assert(find_char(line@, '|') == Some(k as int));
            assert(pat_part@ =~= line@.take(k as int));
            assert(dest_part@ =~= line@.skip(k as int + 1));
        }
        Rule::new(pat_part, dest_part)
    }
}

/// Parses a whole configuration text, yielding the rules of its
/// well-formed lines in file order; malformed lines are skipped and do
/// not disturb their neighbours.
pub fn parse_config(text: &str) -> (rules: Vec<Rule>)
    ensures
        views_of(rules@) == config_rules(text@),
        rules@.len() == config_rules(text@).len(),
        forall|i: int| 0 <= i < rules@.len() ==> rules@[i]@ == config_rules(text@)[i],
{
    let n = text.unicode_len();
    let mut rules: Vec<Rule> = Vec::new();
    let mut i: usize = 0;
    proof {
        assert(text@.skip(0) =~= text@);
        assert(views_of(rules@) =~= Seq::<(Seq<char>, Seq<char>)>::empty());
        assert(views_of(rules@) + config_rules(text@) =~= config_rules(text@));
    }
    while i < n
        invariant
            i <= n,
            n == text@.len(),
            config_rules(text@) == views_of(rules@) + config_rules(text@.skip(i as int)),
        decreases n - i,
    {
        let ghost prev_rules = rules@;
        let ghost s = text@.skip(i as int);
        let mut j: usize = i;
        while j < n && text.get_char(j) != '\n'
            invariant
                i <= j <= n,
                n == text@.len(),
                forall|t: int| i <= t < j ==> text@[t] != '\n',
            decreases n - j,
        {
            j = j + 1;
        }
        let line_end: usize = if j < n && j > i && text.get_char(j - 1) == '\r' {
            j - 1
        } else {
            j
        };
        let line = text.substring_char(i, line_end);
        let parsed = parse_line(line);
        let ghost next_i: int = if j < n { j + 1 } else { n as int };
        proof {
            lemma_find_char(s, '\n');
            assert(s.len() == n - i);
            assert(forall|t: int| 0 <= t < j - i ==> s[t] != '\n');
            if j < n {
                assert(s[j - i] == '\n');
                assert(find_char(s, '\n') == Some(j - i));
                assert(s.take(j - i) =~= text@.subrange(i as int, j as int));
                assert(chomp_cr(s.take(j - i)) =~= line@);
                assert(s.skip(j - i + 1) =~= text@.skip(j + 1));
                assert(lines_of(s) == seq![line@] + lines_of(text@.skip(j + 1)));
            } else {
                assert(find_char(s, '\n') is None);
                assert(line@ =~= s);
                assert(lines_of(s) == seq![line@]);
                assert(text@.skip(n as int) =~= Seq::<char>::empty());
                assert(lines_of(text@.skip(n as int)) =~= Seq::<Seq<char>>::empty());
            }
            let ls = seq![line@] + lines_of(text@.skip(next_i));
            assert(ls[0] == line@);
            assert(ls.drop_first() =~= lines_of(text@.skip(next_i)));
            assert(lines_of(s) == ls);
        }
        match parsed {
            Some(rule) => {
                rules.push(rule);
                proof {
                    assert(views_of(rules@) =~= views_of(prev_rules).push(rule@));
                    assert(rules_of_lines(lines_of(s)) == seq![rule@] + config_rules(
                        text@.skip(next_i),
                    ));
                    assert(views_of(prev_rules) + rules_of_lines(lines_of(s)) =~= views_of(rules@)
                        + config_rules(text@.skip(next_i)));
                }
            },
            None => {
                proof {
                    assert(rules_of_lines(lines_of(s)) == config_rules(text@.skip(next_i)));
                }
            },
        }
        if j < n {
            i = j + 1;
        } else {
            i = n;
        }
    }
    proof {
        assert(text@.skip(n as int) =~= Seq::<char>::empty());
        assert(lines_of(text@.skip(n as int)) =~= Seq::<Seq<char>>::empty());
        assert(views_of(rules@) + config_rules(text@.skip(n as int)) =~= views_of(rules@));
        assert(forall|idx: int|
            0 <= idx < rules@.len() ==> views_of(rules@)[idx] == #[trigger] rules@[idx]@);
    }
    rules
}

/// The destination of the first rule whose pattern matches `path`, or
/// nothing when no rule matches. Later rules are never consulted once an
/// earlier one has matched.
pub fn find_destination(rules: &Vec<Rule>, path: &str) -> (r: Option<String>)
    ensures
        match r {
            Some(d) => exists|i: int|
                0 <= i < rules@.len() && regex_accepts(rules@[i]@.0, path@) && d@ == rules@[i]@.1
                    && (forall|j: int| 0 <= j < i ==> !regex_accepts(rules@[j]@.0, path@)),
            None => forall|i: int| 0 <= i < rules@.len() ==> !regex_accepts(rules@[i]@.0, path@),
        },
{
    let mut idx: usize = 0;
    while idx < rules.len()
        invariant
            idx <= rules@.len(),
            forall|j: int| 0 <= j < idx ==> !regex_accepts(rules@[j]@.0, path@),
        decreases rules@.len() - idx,
    {
        let rule = &rules[idx];
        proof {
            use_type_invariant(rule);
        }
        if pattern_matches(rule.pattern.as_str(), path) {
            let d = rule.destination.clone();
            proof {
                assert(regex_accepts(rules@[idx as int]@.0, path@));
            }
            return Some(d);
        }
        idx = idx + 1;
    }
    None
}

} // verus!
