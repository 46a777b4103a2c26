use goki::utils::{
    escape_single_quotes, exec_command, exec_command_with_output, fmt_command, print_command,
    print_header, rem_first_and_last, show_argument, ExitStatus,
};
use goki::workflow::Error;

#[test]
fn first_and_last_character_are_removed() {
    assert_eq!(rem_first_and_last("\"solana\""), "solana");
    assert_eq!(rem_first_and_last("ab"), "");
    assert_eq!(rem_first_and_last("a"), "");
    assert_eq!(rem_first_and_last(""), "");
    assert_eq!(rem_first_and_last("\u{e9}x\u{1F980}"), "x");
}

#[test]
fn single_quotes_are_escaped() {
    assert_eq!(escape_single_quotes("it's"), "it\\'s");
    assert_eq!(escape_single_quotes("''"), "\\'\\'");
    assert_eq!(escape_single_quotes("plain"), "plain");
    assert_eq!(escape_single_quotes(""), "");
}

#[test]
fn argument_with_question_or_exclamation_mark_is_quoted() {
    assert_eq!(show_argument("http://x/?a=b"), "'http://x/?a=b'");
    assert_eq!(show_argument("it's!"), "'it\\'s!'");
    assert_eq!(show_argument("it's"), "it's");
    assert_eq!(show_argument("--url"), "--url");
    assert_eq!(show_argument("?"), "'?'");
}

#[test]
fn command_is_shown_without_the_quotes_of_its_debug_form() {
    assert_eq!(
        fmt_command(
            "\"solana\" \"--url\" \"https://api.devnet.solana.com\" \"--keypair\" \".goki/deployers/devnet.json\" \"airdrop\" \"1\""
        ),
        "solana --url https://api.devnet.solana.com --keypair .goki/deployers/devnet.json airdrop 1"
    );
    assert_eq!(fmt_command("\"solana\""), "solana");
    assert_eq!(fmt_command(""), "");
    assert_eq!(
        fmt_command("\"curl\" \"http://x/?a=b\" \"it's!\" \"a b\""),
        "curl 'http://x/?a=b' 'it\\'s!' a b"
    );
}

#[test]
fn command_is_echoed_before_it_runs() {
    assert_eq!(
        print_command("\"solana\" \"account\" \"x\""),
        "=> Running command: solana account x"
    );
}

#[test]
fn heading_stands_between_two_rules() {
    assert_eq!(
        print_header("Writing buffer"),
        vec![
            "",
            "===================================",
            "",
            "    Writing buffer",
            "",
            "===================================",
            "",
        ]
    );
}

#[test]
fn failure_of_the_tool_carries_its_exit_code() {
    assert_eq!(exec_command(ExitStatus { success: true, code: Some(0) }), Ok(()));
    assert_eq!(
        exec_command(ExitStatus { success: false, code: Some(3) }),
        Err(Error::ExternalToolFailure(3))
    );
    assert_eq!(
        exec_command(ExitStatus { success: false, code: Some(-1) }),
        Err(Error::ExternalToolFailure(-1))
    );
    assert_eq!(
        exec_command(ExitStatus { success: false, code: None }),
        Err(Error::ExternalToolFailure(1))
    );
}

#[test]
fn captured_output_has_to_be_utf8() {
    let ok = ExitStatus { success: true, code: Some(0) };
    assert_eq!(
        exec_command_with_output(ok, b"{\"authority\":\"abc\"}\n".to_vec()),
        Ok("{\"authority\":\"abc\"}\n".to_string())
    );
    assert_eq!(
        exec_command_with_output(ok, "\u{e9}\u{1F980}".as_bytes().to_vec()),
        Ok("\u{e9}\u{1F980}".to_string())
    );
    assert_eq!(exec_command_with_output(ok, vec![]), Ok(String::new()));
    assert_eq!(
        exec_command_with_output(ok, vec![0xff, 0xfe]),
        Err(Error::MalformedOutput)
    );
    assert_eq!(
        exec_command_with_output(ok, vec![0xc3]),
        Err(Error::MalformedOutput)
    );
    assert_eq!(
        exec_command_with_output(ok, vec![0xed, 0xa0, 0x80]),
        Err(Error::MalformedOutput)
    );
}

#[test]
fn failure_of_the_tool_comes_before_its_output() {
    let failed = ExitStatus { success: false, code: Some(2) };
    assert_eq!(
        exec_command_with_output(failed, vec![0xff]),
        Err(Error::ExternalToolFailure(2))
    );
    assert_eq!(
        exec_command_with_output(failed, b"fine".to_vec()),
        Err(Error::ExternalToolFailure(2))
    );
}

#[test]
fn character_is_looked_for_in_the_whole_string() {
    assert!(goki::utils::contains_char("what?", '?'));
    assert!(goki::utils::contains_char("?", '?'));
    assert!(!goki::utils::contains_char("what", '?'));
    assert!(!goki::utils::contains_char("", '?'));
}
