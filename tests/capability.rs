use mcaptcha_redis::capability::{check_capabilities, CapabilityCheck, Probe};
use mcaptcha_redis::catalog::{
    command_name, required_commands, ADD_CAPTCHA, ADD_VISITOR, CAPTCHA_EXISTS, COMMAND_COUNT, DEL,
    GET, MODULE_NAME,
};
use mcaptcha_redis::error::CaptchaError;
use mcaptcha_redis::reply::{check_module_listing, command_missing, module_listed, Reply};

fn listing(records: &[&[&str]]) -> Vec<Vec<String>> {
    records
        .iter()
        .map(|r| r.iter().map(|s| s.to_string()).collect())
        .collect()
}

fn present() -> Reply {
    Reply::Bulk(vec![Reply::Bulk(vec![
        Reply::Data(b"mcaptcha_cache.get".to_vec()),
        Reply::Int(2),
    ])])
}

fn absent() -> Reply {
    Reply::Bulk(vec![Reply::Nil])
}

/// Runs a whole check: the listing, then the replies in catalog order;
/// returns the commands that were introspected and the outcome.
fn run(modules: &Vec<Vec<String>>, replies: &[Reply]) -> (Vec<String>, Result<(), CaptchaError>) {
    let mut check = CapabilityCheck::new();
    let mut asked = Vec::new();
    let mut next = 0;
    loop {
        match check.probe() {
            Probe::ListModules => check.on_module_listing(modules),
            Probe::CommandInfo(name) => {
                asked.push(name.to_string());
                check.on_command_info(&replies[next]);
                next += 1;
            }
            Probe::Finished => break,
        }
    }
    assert!(check.is_finished());
    (asked, check.outcome().unwrap())
}

#[test]
fn catalog_lists_the_five_commands_in_order() {
    assert_eq!(
        required_commands(),
        vec![ADD_VISITOR, ADD_CAPTCHA, DEL, CAPTCHA_EXISTS, GET]
    );
    assert_eq!(COMMAND_COUNT, 5);
    assert_eq!(command_name(0), "MCAPTCHA_CACHE.ADD_VISITOR");
    assert_eq!(command_name(1), "MCAPTCHA_CACHE.ADD_CAPTCHA");
    assert_eq!(command_name(2), "MCAPTCHA_CACHE.DELETE_CAPTCHA");
    assert_eq!(command_name(3), "MCAPTCHA_CACHE.CAPTCHA_EXISTS");
    assert_eq!(command_name(4), "MCAPTCHA_CACHE.GET");
    assert_eq!(MODULE_NAME, "mcaptcha_cahce");
}

#[test]
fn command_missing_only_on_trailing_nil() {
    assert!(command_missing(&absent()));
    assert!(command_missing(&Reply::Bulk(vec![Reply::Int(1), Reply::Nil])));
    assert!(!command_missing(&present()));
    assert!(!command_missing(&Reply::Bulk(vec![])));
    assert!(!command_missing(&Reply::Bulk(vec![Reply::Nil, Reply::Int(0)])));
    assert!(!command_missing(&Reply::Nil));
    assert!(!command_missing(&Reply::Okay));
    assert!(!command_missing(&Reply::Status("OK".to_string())));
}

#[test]
fn module_listing_needs_the_name_in_every_record() {
    assert!(module_listed(&vec!["name".to_string(), MODULE_NAME.to_string()]));
    assert!(!module_listed(&vec!["name".to_string(), "other".to_string()]));
    assert!(!module_listed(&vec![]));
    assert!(check_module_listing(&listing(&[&["name", "mcaptcha_cahce", "ver", "1"]])).is_ok());
    assert!(matches!(
        check_module_listing(&listing(&[])),
        Err(CaptchaError::ExtensionNotLoaded)
    ));
    assert!(matches!(
        check_module_listing(&listing(&[&["name", "mcaptcha_cahce"], &["name", "search"]])),
        Err(CaptchaError::ExtensionNotLoaded)
    ));
    assert!(matches!(
        check_module_listing(&listing(&[&["name", "MCAPTCHA_CAHCE"]])),
        Err(CaptchaError::ExtensionNotLoaded)
    ));
}

#[test]
fn check_passes_with_module_and_all_commands() {
    let replies: Vec<Reply> = (0..5).map(|_| present()).collect();
    let (asked, outcome) = run(&listing(&[&["name", "mcaptcha_cahce"]]), &replies);
    assert!(outcome.is_ok());
    let expected: Vec<String> = required_commands().iter().map(|s| s.to_string()).collect();
    assert_eq!(asked, expected);
}

#[test]
fn check_fails_when_module_not_loaded() {
    let replies: Vec<Reply> = (0..5).map(|_| present()).collect();
    let (asked, outcome) = run(&listing(&[&["name", "search"]]), &replies);
    assert!(asked.is_empty());
    assert!(matches!(outcome, Err(CaptchaError::ExtensionNotLoaded)));
}

#[test]
fn check_fails_on_first_missing_command() {
    let replies = vec![present(), present(), absent(), absent(), present()];
    let (asked, outcome) = run(&listing(&[&["name", "mcaptcha_cahce"]]), &replies);
    assert_eq!(asked.len(), 3);
    match outcome {
        Err(CaptchaError::ExtensionCommandMissing(name)) => {
            assert_eq!(name, "MCAPTCHA_CACHE.DELETE_CAPTCHA")
        }
        other => panic!("unexpected outcome {:?}", other),
    }
}

#[test]
fn check_not_finished_has_no_outcome() {
    let mut check = CapabilityCheck::new();
    assert!(!check.is_finished());
    assert!(check.outcome().is_none());
    check.on_module_listing(&listing(&[&["mcaptcha_cahce"]]));
    assert!(!check.is_finished());
    assert!(check.outcome().is_none());
    match check.probe() {
        Probe::CommandInfo(name) => assert_eq!(name, ADD_VISITOR),
        other => panic!("unexpected probe {:?}", other),
    }
}

#[test]
fn check_fails_on_empty_module_listing() {
    let replies: Vec<Reply> = (0..5).map(|_| present()).collect();
    let (asked, outcome) = run(&listing(&[]), &replies);
    assert!(asked.is_empty());
    assert!(matches!(outcome, Err(CaptchaError::ExtensionNotLoaded)));
    assert!(matches!(
        check_capabilities(&listing(&[]), &replies),
        Err(CaptchaError::ExtensionNotLoaded)
    ));
}

#[test]
fn whole_check_follows_the_replies() {
    let good = listing(&[&["name", "mcaptcha_cahce"], &["mcaptcha_cahce", "ver"]]);
    let replies: Vec<Reply> = (0..5).map(|_| present()).collect();
    assert!(check_capabilities(&good, &replies).is_ok());
    assert!(matches!(
        check_capabilities(&listing(&[&["name", "search"]]), &replies),
        Err(CaptchaError::ExtensionNotLoaded)
    ));
    let replies = vec![present(), present(), present(), present(), absent()];
    match check_capabilities(&good, &replies) {
        Err(CaptchaError::ExtensionCommandMissing(name)) => assert_eq!(name, "MCAPTCHA_CACHE.GET"),
        other => panic!("unexpected outcome {:?}", other),
    }
    let replies = vec![absent(), absent(), present(), present(), present(), absent()];
    match check_capabilities(&good, &replies) {
        Err(CaptchaError::ExtensionCommandMissing(name)) => {
            assert_eq!(name, "MCAPTCHA_CACHE.ADD_VISITOR")
        }
        other => panic!("unexpected outcome {:?}", other),
    }
}
