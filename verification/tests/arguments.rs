use network_launcher::arguments::{
    leniency, ArgumentCompatibilityOutcome, ArgumentResolver, Leniency, ResolutionError,
};
use network_launcher::config::LaunchConfiguration;
use network_launcher::version::{InterfaceVersion, Standing};

fn tokens(list: &[&str]) -> Vec<String> {
    list.iter().map(|t| t.to_string()).collect()
}

fn plain_configuration() -> LaunchConfiguration {
    LaunchConfiguration {
        gateway_port: None,
        config_port: None,
        bind: None,
        state_dir: None,
        artificial_delay_ms: None,
        subnets: Vec::new(),
        bitcoind_addrs: Vec::new(),
        dogecoind_addrs: Vec::new(),
        ii: false,
        nns: false,
        server_path: None,
        stdout_file: None,
        stderr_file: None,
        status_dir: None,
        verbose: false,
    }
}

/// A parser that knows `--verbose`, and `--gateway-port` with one value. It puts
/// aside the first token it does not know, and all behind it.
fn put_aside(arguments: &[String]) -> Vec<String> {
    let mut i = 0;
    while i < arguments.len() {
        if arguments[i] == "--verbose" {
            i += 1;
        } else if arguments[i] == "--gateway-port" && i + 1 < arguments.len() {
            i += 2;
        } else {
            return arguments[i..].to_vec();
        }
    }
    Vec::new()
}

fn resolve(declared: Option<InterfaceVersion>, command_line: &[&str]) -> Result<Vec<String>, ResolutionError> {
    let mut resolver = ArgumentResolver::begin(declared, put_aside(&tokens(command_line)))?;
    let mut by_hand = resolver.clone();
    resolver.run(|remainder: &Vec<String>| put_aside(remainder));
    assert!(resolver.is_done());
    let mut rounds = 0;
    while let Some(remainder) = by_hand.strip() {
        assert!(by_hand.reparsed(put_aside(&remainder)));
        rounds += 1;
        assert!(rounds <= command_line.len());
    }
    assert_eq!(by_hand, resolver);
    Ok(resolver.tolerated().clone())
}

#[test]
fn decision_table() {
    assert_eq!(leniency(Standing::Undeclared), Some(Leniency::Strict));
    assert_eq!(leniency(Standing::Identical), Some(Leniency::Strict));
    assert_eq!(leniency(Standing::Compatible), Some(Leniency::Tolerant));
    assert_eq!(leniency(Standing::Unsupported), None);
}

#[test]
fn unknown_flag_without_version_is_rejected() {
    assert_eq!(
        resolve(None, &["--bogus"]),
        Err(ResolutionError::UnknownArgument("--bogus".to_string()))
    );
    assert_eq!(
        resolve(None, &["--verbose", "--bogus", "--other"]),
        Err(ResolutionError::UnknownArgument("--bogus".to_string()))
    );
}

#[test]
fn known_flags_without_version_resolve() {
    assert_eq!(resolve(None, &[]), Ok(Vec::new()));
    assert_eq!(resolve(None, &["--verbose", "--gateway-port", "8080"]), Ok(Vec::new()));
}

#[test]
fn unknown_flag_with_own_version_is_rejected() {
    assert_eq!(
        resolve(Some(InterfaceVersion::own()), &["--verbose", "--future-flag=x"]),
        Err(ResolutionError::UnknownArgument("--future-flag=x".to_string()))
    );
    assert_eq!(resolve(Some(InterfaceVersion::own()), &["--verbose"]), Ok(Vec::new()));
}

#[test]
fn unsupported_version_is_rejected_before_anything_else() {
    let declared = InterfaceVersion::release(2, 0, 0);
    assert_eq!(
        resolve(Some(declared.clone()), &[]),
        Err(ResolutionError::UnsupportedVersion(declared.clone()))
    );
    assert_eq!(
        resolve(Some(declared.clone()), &["--bogus"]),
        Err(ResolutionError::UnsupportedVersion(declared))
    );
    let early = InterfaceVersion::release(0, 9, 0);
    assert_eq!(
        resolve(Some(early.clone()), &["--verbose"]),
        Err(ResolutionError::UnsupportedVersion(early))
    );
}

#[test]
fn future_flag_with_compatible_version_is_tolerated() {
    assert_eq!(
        resolve(Some(InterfaceVersion::release(1, 2, 0)), &["--future-flag=x"]),
        Ok(tokens(&["--future-flag=x"]))
    );
}

#[test]
fn unknown_tokens_among_known_ones_are_reported_in_order() {
    let declared = InterfaceVersion::release(1, 2, 0);
    assert_eq!(
        resolve(
            Some(declared.clone()),
            &["--verbose", "--one", "--gateway-port", "8080", "--two=2", "--three", "--verbose"],
        ),
        Ok(tokens(&["--one", "--two=2", "--three"]))
    );
    assert_eq!(
        resolve(Some(declared.clone()), &["--a", "--a", "--b", "--a"]),
        Ok(tokens(&["--a", "--a", "--b", "--a"]))
    );
    assert_eq!(resolve(Some(declared), &["--verbose"]), Ok(Vec::new()));
}

#[test]
fn rounds_step_by_step() {
    let declared = InterfaceVersion::release(1, 0, 1);
    let mut resolver =
        ArgumentResolver::begin(Some(declared), tokens(&["--x", "--verbose", "--y"])).unwrap();
    assert!(resolver.version_declared());
    assert!(!resolver.is_done());
    assert_eq!(resolver.pending(), &tokens(&["--x", "--verbose", "--y"]));
    assert_eq!(resolver.tolerated(), &Vec::<String>::new());

    assert_eq!(resolver.strip(), Some(tokens(&["--verbose", "--y"])));
    assert_eq!(resolver.tolerated(), &tokens(&["--x"]));
    assert_eq!(resolver.pending(), &tokens(&["--verbose", "--y"]));

    assert!(resolver.reparsed(tokens(&["--y"])));
    assert_eq!(resolver.pending(), &tokens(&["--y"]));

    assert_eq!(resolver.strip(), Some(Vec::new()));
    assert_eq!(resolver.tolerated(), &tokens(&["--x", "--y"]));
    assert!(resolver.reparsed(Vec::new()));
    assert!(resolver.is_done());
    assert_eq!(resolver.strip(), None);
    assert_eq!(resolver.tolerated(), &tokens(&["--x", "--y"]));
}

#[test]
fn what_is_no_tail_is_not_taken_over() {
    let declared = InterfaceVersion::release(1, 1, 0);
    let mut resolver =
        ArgumentResolver::begin(Some(declared), tokens(&["--x", "--verbose", "--y"])).unwrap();
    assert_eq!(resolver.strip(), Some(tokens(&["--verbose", "--y"])));
    assert!(!resolver.reparsed(tokens(&["--verbose"])));
    assert!(!resolver.reparsed(tokens(&["--z"])));
    assert!(!resolver.reparsed(tokens(&["--x", "--verbose", "--y"])));
    assert_eq!(resolver.pending(), &tokens(&["--verbose", "--y"]));
    assert_eq!(resolver.tolerated(), &tokens(&["--x"]));
    assert!(resolver.reparsed(tokens(&["--verbose", "--y"])));
}

#[test]
fn rounds_end_with_a_parser_that_misbehaves() {
    let declared = InterfaceVersion::release(1, 2, 0);
    let mut resolver =
        ArgumentResolver::begin(Some(declared.clone()), tokens(&["--a", "--b", "--c"])).unwrap();
    resolver.run(|_: &Vec<String>| tokens(&["--never", "--ends", "--a", "--b", "--c", "--d"]));
    assert!(resolver.is_done());
    assert_eq!(resolver.tolerated(), &tokens(&["--a", "--b", "--c"]));

    let mut resolver =
        ArgumentResolver::begin(Some(declared), tokens(&["--a", "--b", "--c"])).unwrap();
    resolver.run(|_: &Vec<String>| Vec::new());
    assert_eq!(resolver.tolerated(), &tokens(&["--a"]));
}

#[test]
fn outcome_carries_configuration_and_tokens() {
    let declared = InterfaceVersion::release(1, 2, 0);
    let mut resolver = ArgumentResolver::begin(Some(declared), tokens(&["--future"])).unwrap();
    assert_eq!(resolver.clone().finish(plain_configuration()), None);
    assert_eq!(resolver.strip(), Some(Vec::new()));
    let mut configuration = plain_configuration();
    configuration.verbose = true;
    configuration.gateway_port = Some(8080);
    let outcome = resolver.finish(configuration).unwrap();
    let mut expected = plain_configuration();
    expected.verbose = true;
    expected.gateway_port = Some(8080);
    assert_eq!(
        outcome,
        ArgumentCompatibilityOutcome {
            configuration: expected,
            tolerated: tokens(&["--future"]),
            version_declared: true,
        }
    );
}

#[test]
fn outcome_without_version() {
    let resolver = ArgumentResolver::begin(None, Vec::new()).unwrap();
    assert!(!resolver.version_declared());
    let outcome = resolver.finish(plain_configuration()).unwrap();
    assert!(!outcome.version_declared);
    assert!(outcome.tolerated.is_empty());
}
