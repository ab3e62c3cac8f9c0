use printroute::config::parse_config;
use printroute::delegate::{conversion_result, converter_precheck, normalize_destination};
use printroute::errors::PrintError;
use printroute::route::{plan_invocation, route, InvocationPlan};
use printroute::selector::Delivery;

#[test]
fn fewer_than_two_arguments_asks_for_usage() {
    let none: Vec<String> = vec![];
    assert!(matches!(plan_invocation(&none), InvocationPlan::Usage));
    let one = vec![String::from("printroute")];
    assert!(matches!(plan_invocation(&one), InvocationPlan::Usage));
}

#[test]
fn second_argument_names_the_file() {
    let args = vec![String::from("printroute"), String::from("doc.pdf")];
    match plan_invocation(&args) {
        InvocationPlan::Print { file_path } => assert_eq!(file_path.as_str(), "doc.pdf"),
        InvocationPlan::Usage => panic!("expected a print plan"),
    }
}

#[test]
fn route_pairs_destination_with_delivery() {
    let rules = parse_config("\\.pdf$|HP\n.*|Dot");
    let (dest, delivery) = route(&rules, "invoice.pdf").unwrap();
    assert_eq!(dest.as_str(), "HP");
    assert_eq!(delivery, Delivery::ExternalConverter);

    let (dest, delivery) = route(&rules, "listing.txt").unwrap();
    assert_eq!(dest.as_str(), "Dot");
    assert_eq!(delivery, Delivery::RawSpool);
}

#[test]
fn route_without_match_is_no_rule_matched() {
    let rules = parse_config("abc|P1");
    assert!(matches!(
        route(&rules, "xyz.txt"),
        Err(PrintError::NoRuleMatched)
    ));
}

#[test]
fn destination_backslashes_are_stripped() {
    assert_eq!(normalize_destination("\\\\server\\printer\\"), "server\\printer");
    assert_eq!(normalize_destination("\\\\HP"), "HP");
    assert_eq!(normalize_destination("HP"), "HP");
    assert_eq!(normalize_destination("\\\\\\"), "");
}

#[test]
fn missing_tool_fails_fast() {
    assert!(matches!(
        converter_precheck(false),
        Err(PrintError::ToolNotFound)
    ));
    assert!(converter_precheck(true).is_ok());
}

#[test]
fn conversion_exit_status_is_judged() {
    assert!(conversion_result(Some(0)).is_ok());
    assert!(matches!(
        conversion_result(Some(3)),
        Err(PrintError::ConversionFailed { exit_code: Some(3) })
    ));
    assert!(matches!(
        conversion_result(None),
        Err(PrintError::ConversionFailed { exit_code: None })
    ));
}

#[test]
fn errors_describe_themselves() {
    assert_eq!(
        PrintError::ToolNotFound.describe().as_str(),
        "converter tool not found"
    );
    assert_eq!(
        PrintError::NoRuleMatched.describe().as_str(),
        "no printer rule matched"
    );
    assert_eq!(
        PrintError::SpoolProtocolError { code: 3 }.describe().as_str(),
        "print spool step failed"
    );
    assert_eq!(
        PrintError::ConfigUnreadable.describe().as_str(),
        "configuration file unreadable"
    );
    assert_eq!(
        PrintError::PrinterOpenError { code: 5 }.describe().as_str(),
        "failed to open printer"
    );
    assert_eq!(
        PrintError::ConversionFailed { exit_code: None }.describe().as_str(),
        "converter tool failed"
    );
    assert_eq!(
        PrintError::LockIoError.describe().as_str(),
        "lock file operation failed"
    );
}
