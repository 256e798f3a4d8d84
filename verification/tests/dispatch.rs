use botcore::CommandEntry;
use botcore::CommandGroup;
use botcore::CommandMatch;
use botcore::CommandTable;
use botcore::DispatchOutcome;
use botcore::before_hook;
use botcore::dispatch;
use botcore::find_command;
use botcore::match_message;
use botcore::render_help;
use botcore::render_mention;
use botcore::u64_to_digits;

fn sample_table() -> CommandTable {
    let mut general = CommandGroup::new(b"general".to_vec());
    general.add_command(CommandEntry::new(b"ping".to_vec(), b"answers with pong".to_vec()));
    let mut about = CommandEntry::new(b"about".to_vec(), b"describes the bot".to_vec());
    about.add_alias(b"info".to_vec());
    general.add_command(about);
    let mut table = CommandTable::new();
    table.add_group(general);
    table
}

#[test]
fn digits_render_decimal() {
    assert_eq!(u64_to_digits(0), b"0".to_vec());
    assert_eq!(u64_to_digits(7), b"7".to_vec());
    assert_eq!(u64_to_digits(1234567890), b"1234567890".to_vec());
    assert_eq!(u64_to_digits(u64::MAX), b"18446744073709551615".to_vec());
}

#[test]
fn mention_forms() {
    assert_eq!(render_mention(42, false), b"<@42>".to_vec());
    assert_eq!(render_mention(42, true), b"<@!42>".to_vec());
}

#[test]
fn prefixed_message_matches_command() {
    let t = sample_table();
    let m = match_message(&t, &b"!".to_vec(), 42, &b"!ping".to_vec());
    match m {
        CommandMatch::Command { group, index, args } => {
            assert_eq!(group, 0);
            assert_eq!(index, 0);
            assert!(args.is_empty());
        }
        other => panic!("expected a command match, got {:?}", kind_of(&other)),
    }
}

#[test]
fn unprefixed_message_is_ignored() {
    let t = sample_table();
    let m = match_message(&t, &b"!".to_vec(), 42, &b"hello".to_vec());
    assert!(matches!(m, CommandMatch::NotACommand));
}

#[test]
fn mention_then_help_matches_help() {
    let t = sample_table();
    let m = match_message(&t, &b"!".to_vec(), 42, &b"<@42> help".to_vec());
    match m {
        CommandMatch::Help { args } => assert!(args.is_empty()),
        other => panic!("expected the help command, got {:?}", kind_of(&other)),
    }
}

#[test]
fn nick_mention_matches_too() {
    let t = sample_table();
    let m = match_message(&t, &b"!".to_vec(), 42, &b"<@!42> ping pong".to_vec());
    match m {
        CommandMatch::Command { group, index, args } => {
            assert_eq!((group, index), (0, 0));
            assert_eq!(args, b"pong".to_vec());
        }
        other => panic!("expected a command match, got {:?}", kind_of(&other)),
    }
}

#[test]
fn alias_matches_entry() {
    let t = sample_table();
    let m = match_message(&t, &b"!".to_vec(), 42, &b"!info".to_vec());
    match m {
        CommandMatch::Command { group, index, .. } => assert_eq!((group, index), (0, 1)),
        other => panic!("expected a command match, got {:?}", kind_of(&other)),
    }
}

#[test]
fn unknown_command_is_reported_as_unknown() {
    let t = sample_table();
    let m = match_message(&t, &b"!".to_vec(), 42, &b"!frobnicate now".to_vec());
    match m {
        CommandMatch::Unknown { name } => assert_eq!(name, b"frobnicate".to_vec()),
        other => panic!("expected an unknown command, got {:?}", kind_of(&other)),
    }
}

#[test]
fn empty_invocation_is_ignored() {
    let t = sample_table();
    let m = match_message(&t, &b"!".to_vec(), 42, &b"!   ".to_vec());
    assert!(matches!(m, CommandMatch::NotACommand));
}

#[test]
fn find_command_reports_first_match() {
    let mut g1 = CommandGroup::new(b"one".to_vec());
    g1.add_command(CommandEntry::new(b"dup".to_vec(), b"first".to_vec()));
    let mut g2 = CommandGroup::new(b"two".to_vec());
    g2.add_command(CommandEntry::new(b"other".to_vec(), b"x".to_vec()));
    g2.add_command(CommandEntry::new(b"dup".to_vec(), b"second".to_vec()));
    let mut t = CommandTable::new();
    t.add_group(g1);
    t.add_group(g2);
    assert_eq!(find_command(&t, &b"dup".to_vec()), Some((0, 0)));
    assert_eq!(find_command(&t, &b"other".to_vec()), Some((1, 0)));
    assert_eq!(find_command(&t, &b"missing".to_vec()), None);
}

#[test]
fn before_hook_consents_and_logs() {
    let (ok, line) = before_hook(&b"ping".to_vec(), &b"alice".to_vec(), 1234);
    assert!(ok);
    assert_eq!(line, b"Handling 'ping' command for alice#1234".to_vec());
}

#[test]
fn veto_prevents_invocation() {
    let t = sample_table();
    let m = match_message(&t, &b"!".to_vec(), 42, &b"!ping".to_vec());
    let out = dispatch(m, false);
    assert!(matches!(out, DispatchOutcome::Vetoed));

    let h = match_message(&t, &b"!".to_vec(), 42, &b"!help".to_vec());
    let out2 = dispatch(h, false);
    assert!(matches!(out2, DispatchOutcome::Vetoed));
}

#[test]
fn consent_lets_handler_run() {
    let t = sample_table();
    let m = match_message(&t, &b"!".to_vec(), 42, &b"!ping now".to_vec());
    match dispatch(m, true) {
        DispatchOutcome::Invoke { group, index, args } => {
            assert_eq!((group, index), (0, 0));
            assert_eq!(args, b"now".to_vec());
        }
        _ => panic!("expected the handler to run"),
    }
}

#[test]
fn ignored_text_invokes_nothing_whatever_the_hook_says() {
    let t = sample_table();
    let m = match_message(&t, &b"!".to_vec(), 42, &b"hello".to_vec());
    assert!(matches!(dispatch(m, true), DispatchOutcome::Ignored));
    let m2 = match_message(&t, &b"!".to_vec(), 42, &b"hello".to_vec());
    assert!(matches!(dispatch(m2, false), DispatchOutcome::Ignored));
}

#[test]
fn help_renders_full_listing() {
    let t = sample_table();
    let out = render_help(&t, &Vec::new());
    let expected = b"== general ==\n- ping: answers with pong\n- about: describes the bot\n"
        .to_vec();
    assert_eq!(out, expected);
}

#[test]
fn help_filter_renders_one_entry() {
    let t = sample_table();
    let out = render_help(&t, &b"ping".to_vec());
    assert_eq!(out, b"- ping: answers with pong\n".to_vec());
    let by_alias = render_help(&t, &b"info".to_vec());
    assert_eq!(by_alias, b"- about: describes the bot\n".to_vec());
}

#[test]
fn help_filter_without_match_says_so() {
    let t = sample_table();
    let out = render_help(&t, &b"nothing".to_vec());
    assert_eq!(out, b"No such command\n".to_vec());
}

#[test]
fn help_twice_is_byte_identical() {
    let t = sample_table();
    let a1 = render_help(&t, &Vec::new());
    let a2 = render_help(&t, &Vec::new());
    assert_eq!(a1, a2);
    let b1 = render_help(&t, &b"ping".to_vec());
    let b2 = render_help(&t, &b"ping".to_vec());
    assert_eq!(b1, b2);
}

#[test]
fn shell_runs_matched_handler_on_consent() {
    let t = sample_table();
    match botcore::handle_message(&t, &b"!".to_vec(), 42, &b"!ping there".to_vec(), true) {
        DispatchOutcome::Invoke { group, index, args } => {
            assert_eq!((group, index), (0, 0));
            assert_eq!(args, b"there".to_vec());
        }
        _ => panic!("expected the handler to run"),
    }
}

#[test]
fn shell_vetoes_on_refusal_and_ignores_plain_text() {
    let t = sample_table();
    let r = botcore::handle_message(&t, &b"!".to_vec(), 42, &b"!ping".to_vec(), false);
    assert!(matches!(r, DispatchOutcome::Vetoed));
    let r = botcore::handle_message(&t, &b"!".to_vec(), 42, &b"hello".to_vec(), true);
    assert!(matches!(r, DispatchOutcome::Ignored));
}

fn kind_of(m: &CommandMatch) -> &'static str {
    match m {
        CommandMatch::NotACommand => "not a command",
        CommandMatch::Unknown { .. } => "unknown",
        CommandMatch::Help { .. } => "help",
        CommandMatch::Command { .. } => "command",
    }
}
