use colored::Color;
use ffsend_util::answer::{
    classify_answer, derive_bool, prompt_yes_reply, prompt_yes_start, yes_options, YesStart,
};
use ffsend_util::bytes::format_bytes;
use ffsend_util::hints::{ErrorHints, ErrorHintsBuilder, Hint};
use ffsend_util::matcher::MainMatcher;
use ffsend_util::prompt::{
    check_empty_password, ensure_owner_token, ensure_password, owner_token_failure,
    owner_token_notice, password_prompt_gate, prompt_failure, prompt_gate, prompt_reply,
    question_failure, PasswordStep, TokenStep,
};
use ffsend_util::report::{error_lines, Lead};
use ffsend_util::style::highlight;

fn interactive() -> MainMatcher {
    MainMatcher::new(false, false, false)
}

fn quiet() -> MainMatcher {
    MainMatcher::new(true, false, false)
}

#[test]
fn format_bytes_examples() {
    assert_eq!(format_bytes(1536), "1.50 KiB");
    assert_eq!(format_bytes(0), "0 B");
}

#[test]
fn format_bytes_unit_edges() {
    assert_eq!(format_bytes(1), "1 B");
    assert_eq!(format_bytes(1023), "1023 B");
    assert_eq!(format_bytes(1024), "1.00 KiB");
    assert_eq!(format_bytes(1048575), "1024.00 KiB");
    assert_eq!(format_bytes(1048576), "1.00 MiB");
    assert_eq!(format_bytes(3 * 1073741824), "3.00 GiB");
    assert_eq!(format_bytes(1099511627776), "1.00 TiB");
    assert_eq!(format_bytes(5 * 1099511627776 / 2), "2.50 TiB");
}

#[test]
fn format_bytes_largest_count() {
    assert_eq!(format_bytes(u64::MAX), "16777216.00 TiB");
}

#[test]
fn format_bytes_rounding() {
    assert_eq!(format_bytes(1535), "1.50 KiB");
    assert_eq!(format_bytes(1152), "1.12 KiB");
    assert_eq!(format_bytes(1034), "1.01 KiB");
    assert_eq!(format_bytes(10 * 1048576 + 1048576 / 3), "10.33 MiB");
}

#[test]
fn derive_bool_yes_forms() {
    for input in ["y", "ye", "yes", "yesss", "t", "1", "true", "truely", "Y", "YES", " Yes \n", "TRUE"] {
        assert_eq!(derive_bool(input), Some(true), "input {:?}", input);
    }
}

#[test]
fn derive_bool_no_forms() {
    for input in ["n", "f", "no", "nope", "0", "false", "falsehood", "N", "No", "  FALSE  ", "F"] {
        assert_eq!(derive_bool(input), Some(false), "input {:?}", input);
    }
}

#[test]
fn derive_bool_undecided() {
    for input in ["", "   ", "maybe", "tr", "fa", "2", "yeah", "x yes", "10"] {
        assert_eq!(derive_bool(input), None, "input {:?}", input);
    }
}

#[test]
fn classify_answer_takes_lower_case_only() {
    assert_eq!(classify_answer("yes"), Some(true));
    assert_eq!(classify_answer("YES"), None);
    assert_eq!(classify_answer(" y"), None);
    assert_eq!(classify_answer("no"), Some(false));
}

#[test]
fn yes_options_mark_the_default() {
    assert_eq!(yes_options(Some(true)), "[Y/n]");
    assert_eq!(yes_options(Some(false)), "[y/N]");
    assert_eq!(yes_options(None), "[y/n]");
}

#[test]
fn prompt_yes_empty_reply_takes_default() {
    assert_eq!(prompt_yes_reply("", Some(true)), Some(true));
    assert_eq!(prompt_yes_reply("", Some(false)), Some(false));
    assert_eq!(prompt_yes_reply("", None), None);
}

#[test]
fn prompt_yes_reply_reads_answer() {
    assert_eq!(prompt_yes_reply("n", Some(true)), Some(false));
    assert_eq!(prompt_yes_reply("YES", Some(false)), Some(true));
    assert_eq!(prompt_yes_reply("maybe", Some(true)), None);
}

#[test]
fn prompt_yes_start_cases() {
    let yes = MainMatcher::new(true, true, false);
    assert_eq!(prompt_yes_start(None, &yes), YesStart::Answer(true));
    assert_eq!(prompt_yes_start(Some(false), &quiet()), YesStart::Answer(false));
    assert_eq!(prompt_yes_start(Some(true), &quiet()), YesStart::Answer(true));
    assert_eq!(prompt_yes_start(None, &quiet()), YesStart::Refuse);
    assert_eq!(prompt_yes_start(Some(true), &interactive()), YesStart::Ask);
    assert_eq!(prompt_yes_start(None, &interactive()), YesStart::Ask);
}

#[test]
fn no_interact_fails_every_prompt() {
    let m = quiet();
    let err = prompt_gate("Owner token", &m).unwrap_err();
    assert_eq!(
        err.message,
        "Could not prompt for 'Owner token' in no-interact mode, maybe specify it"
    );
    assert_eq!(err.hints, ErrorHints::default());
    let err = password_prompt_gate(&m).unwrap_err();
    assert_eq!(err.message, "Missing password, must be specified in no-interact mode");
    assert!(err.hints.password && !err.hints.verbose && err.hints.help);
    let mut token: Option<String> = None;
    assert_eq!(ensure_owner_token(&mut token, &m), TokenStep::Refuse);
    assert!(!owner_token_notice(&token, &m));
    assert!(prompt_gate("x", &interactive()).is_ok());
    assert!(password_prompt_gate(&interactive()).is_ok());
}

#[test]
fn failure_messages() {
    assert_eq!(
        question_failure("Continue?").message,
        "Could not prompt question 'Continue?' in no-interact mode, maybe specify it"
    );
    assert_eq!(prompt_failure("Name").hints, ErrorHints::default());
    let f = owner_token_failure();
    assert_eq!(f.message, "Missing owner token, must be specified in no-interact mode");
    assert!(f.hints.owner && !f.hints.verbose && f.hints.help && !f.hints.password);
}

#[test]
fn prompt_reply_is_trimmed() {
    assert_eq!(prompt_reply("  token \n"), "token");
    assert_eq!(prompt_reply("\t\n"), "");
}

#[test]
fn empty_password_refused_unless_forced() {
    let err = check_empty_password("", &interactive()).unwrap_err();
    assert_eq!(err.message, "An empty password is not supported by the web interface");
    assert!(err.hints.force && !err.hints.verbose);
    assert!(check_empty_password("", &MainMatcher::new(false, false, true)).is_ok());
    assert!(check_empty_password("secret", &interactive()).is_ok());
}

#[test]
fn ensure_password_steps() {
    let mut p: Option<String> = None;
    assert_eq!(ensure_password(&mut p, true), PasswordStep::Prompt);
    assert_eq!(p, None);
    let mut p = Some("pw".to_string());
    assert_eq!(ensure_password(&mut p, false), PasswordStep::Clear);
    assert_eq!(p, None);
    let mut p = Some("pw".to_string());
    assert_eq!(ensure_password(&mut p, true), PasswordStep::Keep);
    assert_eq!(p.as_deref(), Some("pw"));
    let mut p: Option<String> = None;
    assert_eq!(ensure_password(&mut p, false), PasswordStep::Keep);
}

#[test]
fn empty_owner_token_is_asked_again() {
    let m = interactive();
    let mut token: Option<String> = None;
    assert!(owner_token_notice(&token, &m));
    let mut typed = vec!["", "", "abc"].into_iter();
    let mut prompts = 0;
    let mut rejects = 0;
    loop {
        match ensure_owner_token(&mut token, &m) {
            TokenStep::Done => break,
            TokenStep::Prompt => {
                prompts += 1;
                token = Some(typed.next().unwrap().to_string());
            }
            TokenStep::Reject => {
                rejects += 1;
                assert_eq!(token, None);
            }
            TokenStep::Refuse => panic!("refused in interactive mode"),
        }
    }
    assert_eq!(prompts, 3);
    assert_eq!(rejects, 2);
    assert_eq!(token.as_deref(), Some("abc"));
}

#[test]
fn empty_owner_token_refused_without_interaction() {
    let m = quiet();
    let mut token = Some(String::new());
    assert_eq!(ensure_owner_token(&mut token, &m), TokenStep::Reject);
    assert_eq!(ensure_owner_token(&mut token, &m), TokenStep::Refuse);
    let mut token = Some("t".to_string());
    assert_eq!(ensure_owner_token(&mut token, &m), TokenStep::Done);
}

#[test]
fn error_hints_default_and_any() {
    let d = ErrorHints::default();
    assert!(d.verbose && d.help && !d.password && !d.owner && !d.history && !d.force);
    assert!(d.any());
    assert_eq!(d.hints(), vec![Hint::Verbose, Hint::Help]);
    let none = ErrorHintsBuilder::default().verbose(false).help(false).build().unwrap();
    assert!(!none.any());
    assert!(none.hints().is_empty());
}

#[test]
fn error_hints_builder_and_order() {
    let h = ErrorHintsBuilder::default()
        .force(true)
        .owner(true)
        .history(true)
        .password(true)
        .verbose(false)
        .build()
        .unwrap();
    assert_eq!(
        h.hints(),
        vec![Hint::Password, Hint::Owner, Hint::History, Hint::Force, Hint::Help]
    );
}

#[test]
fn hint_lines() {
    assert_eq!(Hint::Password.parts(), ("Use '", "--password <PASSWORD>", "' to specify a password"));
    assert_eq!(Hint::Force.parts(), ("Use '", "--force", "' to force"));
    assert_eq!(Hint::Help.parts(), ("For more information try '", "--help", "'"));
    assert_eq!(Hint::Verbose.parts().1, "--verbose");
}

#[test]
fn error_lines_skip_empty_causes() {
    let causes = vec!["top".to_string(), String::new(), "inner".to_string(), "root".to_string()];
    let lines = error_lines(&causes);
    assert_eq!(
        lines,
        vec![
            (Lead::Error, "top".to_string()),
            (Lead::CausedBy, "inner".to_string()),
            (Lead::CausedBy, "root".to_string()),
        ]
    );
    let lines = error_lines(&vec![String::new(), "only".to_string()]);
    assert_eq!(lines, vec![(Lead::Error, "only".to_string())]);
    assert_eq!(Lead::Error.text(), "error:");
    assert_eq!(Lead::CausedBy.text(), "caused by:");
}

#[test]
fn error_lines_fall_back_when_empty() {
    let expected = vec![(Lead::Error, "An undefined error occurred".to_string())];
    assert_eq!(error_lines(&Vec::new()), expected);
    assert_eq!(error_lines(&vec![String::new(), String::new()]), expected);
}

#[test]
fn highlight_keeps_text_in_yellow() {
    let h = highlight("--force");
    assert_eq!(h.input, "--force");
    assert_eq!(h.fgcolor, Some(Color::Yellow));
    assert_eq!(h.bgcolor, None);
}

#[test]
fn matcher_queries() {
    let m = MainMatcher::new(true, false, true);
    assert!(m.no_interact() && !m.assume_yes() && m.force());
}
