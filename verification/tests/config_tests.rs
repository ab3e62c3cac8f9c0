use printroute::config::{find_destination, parse_config, parse_line, Rule};

#[test]
fn rules_come_in_file_order() {
    let rules = parse_config("alpha|P1\nbeta|P2\ngamma|P3");
    assert_eq!(rules.len(), 3);
    assert_eq!(rules[0].pattern().as_str(), "(?i)alpha");
    assert_eq!(rules[0].destination().as_str(), "P1");
    assert_eq!(rules[1].pattern().as_str(), "(?i)beta");
    assert_eq!(rules[1].destination().as_str(), "P2");
    assert_eq!(rules[2].pattern().as_str(), "(?i)gamma");
    assert_eq!(rules[2].destination().as_str(), "P3");
}

#[test]
fn malformed_lines_are_skipped_without_disturbing_siblings() {
    let text = "good|P1\nline without separator\n([bad|P2\ngood2|P3";
    let rules = parse_config(text);
    assert_eq!(rules.len(), 2);
    assert_eq!(rules[0].destination().as_str(), "P1");
    assert_eq!(rules[1].destination().as_str(), "P3");
}

#[test]
fn only_first_separator_splits() {
    let rules = parse_config("pat|dest|with|bars");
    assert_eq!(rules.len(), 1);
    assert_eq!(rules[0].pattern().as_str(), "(?i)pat");
    assert_eq!(rules[0].destination().as_str(), "dest|with|bars");
}

#[test]
fn destination_is_trimmed() {
    let rules = parse_config("a|  HP LaserJet  ");
    assert_eq!(rules.len(), 1);
    assert_eq!(rules[0].destination().as_str(), "HP LaserJet");
}

#[test]
fn empty_destination_is_kept() {
    let rules = parse_config("a|");
    assert_eq!(rules.len(), 1);
    assert_eq!(rules[0].destination().as_str(), "");
}

#[test]
fn crlf_line_endings_are_handled() {
    let rules = parse_config("a|P1\r\nb|P2\r\n");
    assert_eq!(rules.len(), 2);
    assert_eq!(rules[0].destination().as_str(), "P1");
    assert_eq!(rules[1].destination().as_str(), "P2");
}

#[test]
fn empty_text_yields_no_rules() {
    assert_eq!(parse_config("").len(), 0);
    assert_eq!(parse_config("\n\n").len(), 0);
}

#[test]
fn parse_line_requires_separator() {
    assert!(parse_line("no separator here").is_none());
    assert!(parse_line("").is_none());
    assert!(parse_line("a|b").is_some());
}

#[test]
fn parse_line_drops_bad_pattern() {
    assert!(parse_line("([|dest").is_none());
}

#[test]
fn rule_new_rejects_bad_pattern() {
    assert!(Rule::new("([", "dest").is_none());
    let rule = Rule::new("ab+c", " dest ").unwrap();
    assert_eq!(rule.pattern().as_str(), "(?i)ab+c");
    assert_eq!(rule.destination().as_str(), "dest");
}

#[test]
fn first_match_wins() {
    let rules = parse_config("a|P1\n.*|P2");
    let dest = find_destination(&rules, "abc.txt");
    assert_eq!(dest.unwrap().as_str(), "P1");
}

#[test]
fn later_rule_matches_when_earlier_does_not() {
    let rules = parse_config("zzz|P1\n.*|P2");
    let dest = find_destination(&rules, "abc.txt");
    assert_eq!(dest.unwrap().as_str(), "P2");
}

#[test]
fn matching_is_case_insensitive() {
    let rules = parse_config("report|Laser");
    assert_eq!(find_destination(&rules, "REPORT.txt").unwrap().as_str(), "Laser");
    assert_eq!(find_destination(&rules, "Report-2.pdf").unwrap().as_str(), "Laser");
}

#[test]
fn matching_is_anywhere_not_anchored() {
    let rules = parse_config("inner|P1");
    assert_eq!(find_destination(&rules, "path/to/inner/file.txt").unwrap().as_str(), "P1");
}

#[test]
fn no_rule_matches_yields_none() {
    let rules = parse_config("abc|P1");
    assert!(find_destination(&rules, "xyz.txt").is_none());
    let empty: Vec<Rule> = parse_config("");
    assert!(find_destination(&empty, "anything").is_none());
}
