use smartctl_exporter::BlockDevice;
use smartctl_exporter::Options;

fn device(name: &str, kind: &str) -> BlockDevice {
    BlockDevice {
        name: name.into(),
        maj_min: "".into(),
        rm: false,
        size: "".into(),
        ro: false,
        block_device_type: kind.into(),
        model: Some("Model".into()),
        serial: Some("Serial".into()),
        wwn: None,
        children: None,
    }
}

fn options(patterns: &[&str]) -> Options {
    let patterns: Vec<String> = patterns.iter().map(|p| p.to_string()).collect();
    Options::from_claps(false, false, &patterns).expect("patterns are valid")
}

#[test]
fn options_keep_the_flags_and_compile_the_patterns() {
    let patterns = vec!["^sd[a-c]$".to_string(), "nvme".to_string()];
    let built = Options::from_claps(true, false, &patterns).expect("patterns are valid");
    assert!(built.verbose);
    assert!(!built.prepend_sudo);
    assert_eq!(built.exclude_regexes.len(), 2);
    assert_eq!(built.exclude_regexes[0].as_str(), "^sd[a-c]$");
    assert_eq!(built.exclude_regexes[1].as_str(), "nvme");
    let built = Options::from_claps(false, true, &patterns).expect("patterns are valid");
    assert!(!built.verbose);
    assert!(built.prepend_sudo);
}

#[test]
fn options_without_patterns_exclude_nothing() {
    let built = Options::from_claps(false, false, &Vec::new()).expect("no pattern can fail");
    assert!(built.exclude_regexes.is_empty());
    assert!(!built.excludes("sda"));
    assert!(!built.excludes(""));
    assert!(built.is_eligible(&device("sda", "disk")));
}

#[test]
fn first_invalid_pattern_is_reported() {
    let patterns = vec!["sda".to_string(), "sd(".to_string(), "ok".to_string(), "[".to_string()];
    let error = Options::from_claps(true, true, &patterns).expect_err("the second pattern is invalid");
    assert_eq!(error.position, 1);
    assert_eq!(error.pattern, "sd(");
    assert!(matches!(error.cause, regex::Error::Syntax(_)));
}

#[test]
fn taking_in_a_compiled_pattern_extends_the_list() {
    let mut built = options(&["sda"]);
    let outcome = built.take_in(1, "sdb", regex::Regex::new("sdb"));
    assert!(outcome.is_ok());
    assert_eq!(built.exclude_regexes.len(), 2);
    assert_eq!(built.exclude_regexes[0].as_str(), "sda");
    assert_eq!(built.exclude_regexes[1].as_str(), "sdb");
    let refused = built.take_in(2, "(", regex::Regex::new("(")).expect_err("not a pattern");
    assert_eq!(refused.position, 2);
    assert_eq!(refused.pattern, "(");
    assert_eq!(built.exclude_regexes.len(), 2);
}

#[test]
fn rom_is_never_eligible() {
    assert!(!options(&[]).is_eligible(&device("sr0", "rom")));
    assert!(!options(&["sda"]).is_eligible(&device("sr0", "rom")));
    assert!(!options(&[]).is_eligible(&device("sda1", "part")));
    assert!(!options(&[]).is_eligible(&device("loop0", "loop")));
}

#[test]
fn excluded_name_is_not_eligible() {
    let built = options(&["^sdb$", "nvme[0-9]"]);
    assert!(built.is_eligible(&device("sda", "disk")));
    assert!(!built.is_eligible(&device("sdb", "disk")));
    assert!(built.is_eligible(&device("sdbb", "disk")));
    assert!(!built.is_eligible(&device("nvme0n1", "disk")));
    assert!(built.excludes("sdb"));
    assert!(!built.excludes("sda"));
}

#[test]
fn patterns_match_anywhere_in_the_name() {
    let built = options(&["db"]);
    assert!(!built.is_eligible(&device("sdb", "disk")));
    assert!(!built.is_eligible(&device("sdba", "disk")));
    assert!(built.is_eligible(&device("sda", "disk")));
}

#[test]
fn patterns_see_the_name_and_not_the_signature() {
    let built = options(&["Model"]);
    let disk = device("sda", "disk");
    assert_eq!(disk.signature(), "Model_Serial");
    assert!(built.is_eligible(&disk));
    assert!(!options(&["sda"]).is_eligible(&disk));
}

#[test]
fn eligible_devices_keep_their_order() {
    let devices = vec![
        device("sda", "disk"),
        device("sr0", "rom"),
        device("sdb", "disk"),
        device("sdc", "disk"),
        device("loop0", "loop"),
        device("sdd", "disk"),
    ];
    let kept = options(&["^sdc$"]).eligible_devices(&devices);
    let names: Vec<&str> = kept.iter().map(|d| d.name.as_str()).collect();
    assert_eq!(names, vec!["sda", "sdb", "sdd"]);
    assert!(options(&["."]).eligible_devices(&devices).is_empty());
    assert!(options(&[]).eligible_devices(&Vec::new()).is_empty());
}

#[test]
fn options_are_built_exactly_when_every_pattern_compiles() {
    let valid = vec!["^sda$".to_string(), "".to_string(), "nvme[0-9]+n1".to_string(), "a|b".to_string()];
    let built = Options::from_claps(false, false, &valid).expect("every pattern compiles");
    assert_eq!(built.exclude_regexes.len(), 4);
    for (regex, pattern) in built.exclude_regexes.iter().zip(valid.iter()) {
        assert_eq!(regex.as_str(), pattern);
    }
    for invalid in ["(", "[", "a{2", "*", "\\", "(?P<n>"] {
        for position in 0..=valid.len() {
            let mut patterns = valid.clone();
            patterns.insert(position, invalid.to_string());
            let error = Options::from_claps(false, false, &patterns).expect_err("one pattern is invalid");
            assert_eq!(error.position, position, "{}", invalid);
            assert_eq!(error.pattern, invalid);
        }
    }
}

#[test]
fn last_invalid_pattern_is_not_the_one_reported() {
    let patterns = vec!["(".to_string(), "sda".to_string(), "[".to_string()];
    let error = Options::from_claps(false, false, &patterns).expect_err("two patterns are invalid");
    assert_eq!(error.position, 0);
    assert_eq!(error.pattern, "(");
}

#[test]
fn pattern_that_compiles_too_big_is_refused() {
    let patterns = vec!["sda".to_string(), r"\w{1000}".to_string()];
    let error = Options::from_claps(false, false, &patterns).expect_err("the expression is too big");
    assert_eq!(error.position, 1);
    assert!(matches!(error.cause, regex::Error::CompiledTooBig(_)));
}
