use gryphon_verification::community::Community;
use gryphon_verification::discord::Member;
use gryphon_verification::roster::merge_verifications;
use gryphon_verification::text::{
    ends_with, is_blank, is_whitespace, parse_u64, replace_all,
};
use gryphon_verification::verification_db::{Verification, VerificationSession};
use gryphon_verification::verification_discord::{MissingCriteria, Notice};
use gryphon_verification::verification_email::{
    check_mailbox, decimal_text, email_body, generate_code, validate_address, CODE_MAX,
    CODE_MIN,
};
use gryphon_verification::verification_event::{
    handle_verification_code, handle_verification_code_at, handle_verification_message,
    handle_verification_message_at, new_verification, new_verification_at, Conversation, Event,
    IncomingMessage, Next, Outcome, Query, Stage,
};

const ROLE: u64 = 900;

fn dm(author_id: u64, content: &str) -> IncomingMessage {
    IncomingMessage { author_id, author_is_bot: false, in_guild: false, content: content.to_string() }
}

fn jane(discord_id: Option<u64>) -> Verification {
    Verification {
        email: "a@uoguelph.ca".to_string(),
        name: Some("Jane Doe".to_string()),
        in_gryphlife: Some(true),
        has_paid: Some(true),
        discord_id,
    }
}

fn member(user_id: u64, roles: Vec<u64>) -> Member {
    Member { user_id, bot: false, roles }
}

fn community_with_jane() -> Community {
    let mut community = Community::new(vec![member(42, vec![]), member(43, vec![ROLE])], ROLE);
    merge_verifications(&mut community.records, &vec![jane(None)]);
    community
}

// --- text ---

#[test]
fn parse_u64_reads_plain_numbers() {
    assert_eq!(parse_u64("1234567"), Some(1234567));
    assert_eq!(parse_u64("0"), Some(0));
    assert_eq!(parse_u64("007"), Some(7));
    assert_eq!(parse_u64("+15"), Some(15));
    assert_eq!(parse_u64("18446744073709551615"), Some(u64::MAX));
}

#[test]
fn parse_u64_turns_away_what_is_no_number() {
    assert_eq!(parse_u64(""), None);
    assert_eq!(parse_u64("+"), None);
    assert_eq!(parse_u64("-1"), None);
    assert_eq!(parse_u64("12a"), None);
    assert_eq!(parse_u64(" 12"), None);
    assert_eq!(parse_u64("12 "), None);
    assert_eq!(parse_u64("++1"), None);
    assert_eq!(parse_u64("1.5"), None);
    assert_eq!(parse_u64("quit"), None);
    assert_eq!(parse_u64("18446744073709551616"), None);
    assert_eq!(parse_u64("99999999999999999999999"), None);
    assert_eq!(parse_u64("١٢٣"), None);
}

#[test]
fn parse_u64_agrees_with_the_standard_parser() {
    let samples = [
        "1", "+1", "-1", "", "+", "0000", "12345678901234567890", "18446744073709551615",
        "18446744073709551616", "1_000", "0x10", "９", "1e3", "+0",
    ];
    for s in samples {
        assert_eq!(parse_u64(s), s.parse::<u64>().ok(), "{}", s);
    }
}

#[test]
fn ends_with_compares_the_tail() {
    assert!(ends_with("a@uoguelph.ca", "@uoguelph.ca"));
    assert!(ends_with("@uoguelph.ca", "@uoguelph.ca"));
    assert!(!ends_with("uoguelph.ca", "@uoguelph.ca"));
    assert!(!ends_with("a@uoguelph.ca>", "@uoguelph.ca"));
    assert!(!ends_with("a@uoguelph.com", "@uoguelph.ca"));
    assert!(ends_with("anything", ""));
    assert!(ends_with("", ""));
    assert!(!ends_with("", "x"));
    assert!(ends_with("héllo wörld", "wörld"));
}

#[test]
fn white_space_is_that_of_unicode() {
    for n in 0u32..=0x11000 {
        if let Some(c) = char::from_u32(n) {
            assert_eq!(is_whitespace(c), c.is_whitespace(), "{:x}", n);
        }
    }
    assert!(!is_whitespace('\u{10ffff}'));
}

#[test]
fn blank_texts() {
    assert!(is_blank(""));
    assert!(is_blank(" "));
    assert!(is_blank(" \t\r\n\u{a0}\u{2009}\u{3000}"));
    assert!(!is_blank("a"));
    assert!(!is_blank("  a  "));
    assert!(!is_blank("\u{200b}"));
    for s in ["", " ", "x", " x", "\u{85}", "\u{feff}", "\u{1680}\u{2028}"] {
        assert_eq!(is_blank(s), s.trim().is_empty(), "{:?}", s);
    }
}

#[test]
fn replace_all_replaces_every_match_from_the_left() {
    assert_eq!(replace_all("a{{code}}b", "{{code}}", "12"), "a12b");
    assert_eq!(replace_all("{{code}}{{code}}", "{{code}}", ""), "");
    assert_eq!(replace_all("aaa", "aa", "b"), "ba");
    assert_eq!(replace_all("aaaa", "aa", "b"), "bb");
    assert_eq!(replace_all("abc", "abcd", "x"), "abc");
    assert_eq!(replace_all("", "a", "x"), "");
    assert_eq!(replace_all("héllo wörld", "ö", "oe"), "héllo woerld");
    assert_eq!(replace_all("abc", "", "-"), "abc");
    let cases = [
        ("aXbXc", "X", "YY"),
        ("abab", "ab", "ab"),
        ("ababa", "aba", "c"),
        ("{{code}", "{{code}}", "1"),
        ("{{{code}}}", "{{code}}", "1"),
        ("xxxxx", "xx", "x"),
        ("日本語日本", "日本", "に"),
    ];
    for (text, pattern, with) in cases {
        assert_eq!(replace_all(text, pattern, with), text.replace(pattern, with), "{}", text);
    }
}

#[test]
fn decimal_text_writes_the_digits() {
    for n in [0u64, 1, 9, 10, 11, 99, 100, 1234567, 9_999_999, u64::MAX] {
        assert_eq!(decimal_text(n), n.to_string());
    }
}

// --- email ---

#[test]
fn generated_codes_have_seven_digits() {
    assert_eq!(CODE_MIN, 1_000_000);
    assert_eq!(CODE_MAX, 9_999_999);
    let mut seen_different = false;
    let first = generate_code();
    for _ in 0..200 {
        let code = generate_code();
        assert!((1_000_000..=9_999_999).contains(&code));
        if code != first {
            seen_different = true;
        }
    }
    assert!(seen_different);
}

#[test]
fn valid_address_is_accepted_and_lowercased() {
    assert_eq!(validate_address("a@uoguelph.ca").unwrap(), "a@uoguelph.ca");
    assert_eq!(validate_address("Jane.Doe@UoGuelph.CA").unwrap(), "jane.doe@uoguelph.ca");
    assert_eq!(validate_address("  a@uoguelph.ca  ").unwrap(), "a@uoguelph.ca");
}

#[test]
fn text_that_is_no_mailbox_is_an_invalid_email() {
    assert_eq!(validate_address("hello there"), Err(Notice::InvalidEmail));
    assert_eq!(validate_address(""), Err(Notice::InvalidEmail));
    assert_eq!(validate_address("1234567"), Err(Notice::InvalidEmail));
    assert_eq!(validate_address("a@"), Err(Notice::InvalidEmail));
    assert_eq!(validate_address("a@uoguelph.ca, b@uoguelph.ca"), Err(Notice::InvalidEmail));
}

#[test]
fn address_under_another_domain_is_turned_away() {
    assert_eq!(
        validate_address("a@gmail.com"),
        Err(Notice::WrongDomain { address: "a@gmail.com".to_string() })
    );
    assert_eq!(
        validate_address("A@Mail.UoGuelph.ca"),
        Err(Notice::WrongDomain { address: "a@mail.uoguelph.ca".to_string() })
    );
    assert_eq!(
        validate_address("a@uoguelph.ca.evil.org"),
        Err(Notice::WrongDomain { address: "a@uoguelph.ca.evil.org".to_string() })
    );
}

#[test]
fn mailbox_with_a_display_name_is_turned_away() {
    assert_eq!(
        validate_address("Jane <a@uoguelph.ca>"),
        Err(Notice::WrongDomain { address: "a@uoguelph.ca".to_string() })
    );
}

#[test]
fn mailbox_with_a_blank_display_name_is_accepted() {
    assert_eq!(validate_address("\"\" <a@uoguelph.ca>").unwrap(), "a@uoguelph.ca");
    assert_eq!(
        check_mailbox(Some((Some("".to_string()), "a@uoguelph.ca".to_string()))),
        Ok("a@uoguelph.ca".to_string())
    );
    assert_eq!(
        check_mailbox(Some((Some(" \t ".to_string()), "a@uoguelph.ca".to_string()))),
        Ok("a@uoguelph.ca".to_string())
    );
    assert_eq!(
        check_mailbox(Some((Some("".to_string()), "a@gmail.com".to_string()))),
        Err(Notice::WrongDomain { address: "a@gmail.com".to_string() })
    );
    assert_eq!(
        check_mailbox(Some((Some(" j ".to_string()), "a@uoguelph.ca".to_string()))),
        Err(Notice::WrongDomain { address: "a@uoguelph.ca".to_string() })
    );
}

#[test]
fn check_mailbox_judges_parsed_parts() {
    assert_eq!(check_mailbox(None), Err(Notice::InvalidEmail));
    assert_eq!(
        check_mailbox(Some((None, "a@uoguelph.ca".to_string()))),
        Ok("a@uoguelph.ca".to_string())
    );
    assert_eq!(
        check_mailbox(Some((Some("Jane".to_string()), "a@uoguelph.ca".to_string()))),
        Err(Notice::WrongDomain { address: "a@uoguelph.ca".to_string() })
    );
    assert_eq!(
        check_mailbox(Some((None, "a@example.org".to_string()))),
        Err(Notice::WrongDomain { address: "a@example.org".to_string() })
    );
}

#[test]
fn email_body_shows_the_code() {
    assert_eq!(email_body("<p>{{code}}</p>", 1234567), "<p>1234567</p>");
    assert_eq!(email_body("{{code}} and {{code}}", 42), "42 and 42");
    assert_eq!(email_body("no placeholder", 42), "no placeholder");
    assert_eq!(email_body("{{code}}", 0), "0");
    assert_eq!(email_body("{{code}}", u64::MAX), "18446744073709551615");
}

#[test]
fn code_in_an_email_reads_back_as_the_code() {
    for code in [1_000_000u64, 1_234_567, 9_999_999, 0, u64::MAX] {
        assert_eq!(parse_u64(&email_body("{{code}}", code)), Some(code));
    }
}

// --- steps ---

#[test]
fn message_of_a_bot_is_ignored() {
    let message = IncomingMessage {
        author_id: 42,
        author_is_bot: true,
        in_guild: false,
        content: "a@uoguelph.ca".to_string(),
    };
    let (conv, next) = handle_verification_message_at(Conversation::new(message), Event::Start, 0, 0);
    assert_eq!(next, Next::Done(Outcome::Ignored));
    assert_eq!(conv.stage, Stage::Closed);
}

#[test]
fn message_in_a_guild_channel_is_ignored() {
    let message = IncomingMessage {
        author_id: 42,
        author_is_bot: false,
        in_guild: true,
        content: "a@uoguelph.ca".to_string(),
    };
    let (_, next) = handle_verification_message_at(Conversation::new(message), Event::Start, 0, 0);
    assert_eq!(next, Next::Done(Outcome::Ignored));
}

#[test]
fn private_message_asks_for_membership_then_session() {
    let (conv, next) = handle_verification_message_at(
        Conversation::new(dm(42, "a@uoguelph.ca")),
        Event::Start,
        0,
        0,
    );
    assert_eq!(next, Next::Ask(Query::IsMember { user_id: 42 }));
    assert_eq!(conv.stage, Stage::AwaitMembership);
    let (conv, next) = handle_verification_message_at(conv, Event::IsMember(true), 0, 0);
    assert_eq!(next, Next::Ask(Query::SessionOf { user_id: 42 }));
    assert_eq!(conv.stage, Stage::AwaitSession);
}

#[test]
fn message_of_a_stranger_is_ignored() {
    let (conv, _) = handle_verification_message_at(
        Conversation::new(dm(42, "a@uoguelph.ca")),
        Event::Start,
        0,
        0,
    );
    let (_, next) = handle_verification_message_at(conv, Event::IsMember(false), 0, 0);
    assert_eq!(next, Next::Done(Outcome::Ignored));
}

#[test]
fn issue_walks_through_record_and_link_checks() {
    let conv = Conversation::issuing(dm(42, "A@uoguelph.ca"));
    let (conv, next) = new_verification_at(conv, Event::Start, 1000, 1234567);
    assert_eq!(next, Next::Ask(Query::RecordOf { email: "a@uoguelph.ca".to_string() }));
    assert_eq!(conv.stage, Stage::IssueAwaitRecord { email: "a@uoguelph.ca".to_string() });
    let (conv, next) = new_verification_at(conv, Event::Record(Some(jane(Some(7)))), 1000, 1234567);
    assert_eq!(next, Next::Ask(Query::IsMember { user_id: 7 }));
    let (conv, next) = new_verification_at(conv, Event::IsMember(false), 1000, 1234567);
    assert_eq!(conv.stage, Stage::Closed);
    assert_eq!(
        next,
        Next::Done(Outcome::Issue {
            session: VerificationSession::new_at("a@uoguelph.ca".to_string(), 42, 1234567, 1000)
        })
    );
}

#[test]
fn issue_is_refused_while_the_linked_account_is_a_member() {
    let conv = Conversation::issuing(dm(42, "a@uoguelph.ca"));
    let (conv, _) = new_verification_at(conv, Event::Start, 1000, 1234567);
    let (conv, _) = new_verification_at(conv, Event::Record(Some(jane(Some(7)))), 1000, 1234567);
    let (_, next) = new_verification_at(conv, Event::IsMember(true), 1000, 1234567);
    assert_eq!(next, Next::Done(Outcome::Rejected(Notice::AlreadyRegistered)));
}

#[test]
fn issue_to_the_account_that_is_linked_needs_no_membership_check() {
    for linked in [None, Some(0), Some(42)] {
        let conv = Conversation::issuing(dm(42, "a@uoguelph.ca"));
        let (conv, _) = new_verification_at(conv, Event::Start, 1000, 1234567);
        let (_, next) = new_verification_at(conv, Event::Record(Some(jane(linked))), 1000, 1234567);
        assert!(matches!(next, Next::Done(Outcome::Issue { .. })), "{:?}", linked);
    }
}

#[test]
fn issue_for_an_unknown_email_is_rejected() {
    let conv = Conversation::issuing(dm(42, "a@uoguelph.ca"));
    let (conv, _) = new_verification_at(conv, Event::Start, 1000, 1234567);
    let (_, next) = new_verification_at(conv, Event::Record(None), 1000, 1234567);
    assert_eq!(next, Next::Done(Outcome::Rejected(Notice::NotRegistered)));
}

#[test]
fn issue_rejects_invalid_input_before_asking_anything() {
    let (_, next) = new_verification_at(Conversation::issuing(dm(42, "hello")), Event::Start, 0, 0);
    assert_eq!(next, Next::Done(Outcome::Rejected(Notice::InvalidEmail)));
    let (_, next) =
        new_verification_at(Conversation::issuing(dm(42, "a@gmail.com")), Event::Start, 0, 0);
    assert_eq!(
        next,
        Next::Done(Outcome::Rejected(Notice::WrongDomain { address: "a@gmail.com".to_string() }))
    );
}

#[test]
fn step_with_an_event_that_does_not_fit_is_aborted() {
    let (_, next) =
        new_verification_at(Conversation::issuing(dm(42, "a@uoguelph.ca")), Event::IsMember(true), 0, 0);
    assert_eq!(next, Next::Done(Outcome::Aborted));
    let (_, next) = handle_verification_code_at(
        Conversation::confirming(dm(42, "1234567")),
        Event::Record(None),
        0,
    );
    assert_eq!(next, Next::Done(Outcome::Aborted));
    let (_, next) = handle_verification_message_at(
        Conversation::new(dm(42, "1234567")),
        Event::Session(None),
        0,
        0,
    );
    assert_eq!(next, Next::Done(Outcome::Aborted));
    let closed = Conversation { message: dm(42, "x"), stage: Stage::Closed };
    let (_, next) = handle_verification_message_at(closed, Event::Start, 0, 0);
    assert_eq!(next, Next::Done(Outcome::Aborted));
}

fn confirm_until_session(content: &str, session: Option<VerificationSession>, now: u64) -> (Conversation, Next) {
    let conv = Conversation::confirming(dm(42, content));
    let (conv, next) = handle_verification_code_at(conv, Event::Start, now);
    assert_eq!(next, Next::Ask(Query::SessionOf { user_id: 42 }));
    handle_verification_code_at(conv, Event::Session(session), now)
}

fn session_at(timestamp: u64) -> VerificationSession {
    VerificationSession::new_at("a@uoguelph.ca".to_string(), 42, 1234567, timestamp)
}

#[test]
fn confirm_without_a_session_reports_no_active_session() {
    let (_, next) = confirm_until_session("1234567", None, 1000);
    assert_eq!(next, Next::Done(Outcome::Rejected(Notice::NoActiveSession)));
    let (_, next) = confirm_until_session("not a number", None, 1000);
    assert_eq!(next, Next::Done(Outcome::Rejected(Notice::NoActiveSession)));
}

#[test]
fn confirm_of_an_expired_session_expires_whatever_the_code() {
    for content in ["1234567", "7654321", "not a number", ""] {
        let (_, next) = confirm_until_session(content, Some(session_at(1000)), 1301);
        assert_eq!(
            next,
            Next::Done(Outcome::Expired { email: "a@uoguelph.ca".to_string() }),
            "{}",
            content
        );
    }
}

#[test]
fn confirm_at_the_last_second_is_not_expired() {
    let (_, next) = confirm_until_session("1234567", Some(session_at(1000)), 1300);
    assert_eq!(next, Next::Ask(Query::RecordOf { email: "a@uoguelph.ca".to_string() }));
}

#[test]
fn confirm_with_a_malformed_or_wrong_code_leaves_the_session() {
    let (_, next) = confirm_until_session("abc", Some(session_at(1000)), 1100);
    assert_eq!(next, Next::Done(Outcome::Rejected(Notice::InvalidCode)));
    let (_, next) = confirm_until_session("7654321", Some(session_at(1000)), 1100);
    assert_eq!(next, Next::Done(Outcome::Rejected(Notice::IncorrectCode)));
}

#[test]
fn confirm_of_another_accounts_session_is_aborted() {
    let other = VerificationSession::new_at("a@uoguelph.ca".to_string(), 43, 1234567, 1000);
    let (_, next) = confirm_until_session("1234567", Some(other), 1100);
    assert_eq!(next, Next::Done(Outcome::Aborted));
}

#[test]
fn confirm_reports_unmet_criteria_and_leaves_the_session() {
    let (conv, _) = confirm_until_session("1234567", Some(session_at(1000)), 1100);
    let mut record = jane(None);
    record.has_paid = Some(false);
    record.name = None;
    let (_, next) = handle_verification_code_at(conv, Event::Record(Some(record)), 1100);
    assert_eq!(
        next,
        Next::Done(Outcome::Rejected(Notice::CriteriaUnmet(MissingCriteria {
            unpaid: true,
            not_in_roster: false,
            no_name: true,
        })))
    );
}

#[test]
fn confirm_with_a_vanished_record_reports_not_registered() {
    let (conv, _) = confirm_until_session("1234567", Some(session_at(1000)), 1100);
    let (_, next) = handle_verification_code_at(conv, Event::Record(None), 1100);
    assert_eq!(next, Next::Done(Outcome::Rejected(Notice::NotRegistered)));
}

#[test]
fn confirm_ends_verified_and_grants_the_role_only_if_missing() {
    for has_role in [false, true] {
        let (conv, _) = confirm_until_session("1234567", Some(session_at(1000)), 1100);
        let (conv, next) = handle_verification_code_at(conv, Event::Record(Some(jane(None))), 1100);
        assert_eq!(next, Next::Ask(Query::MemberRole { user_id: 42 }));
        let (_, next) = handle_verification_code_at(conv, Event::MemberRole(Some(has_role)), 1100);
        assert_eq!(
            next,
            Next::Done(Outcome::Verified {
                email: "a@uoguelph.ca".to_string(),
                user_id: 42,
                grant_role: !has_role,
            })
        );
    }
}

#[test]
fn confirm_of_an_account_that_left_reports_not_in_server() {
    let (conv, _) = confirm_until_session("1234567", Some(session_at(1000)), 1100);
    let (conv, _) = handle_verification_code_at(conv, Event::Record(Some(jane(None))), 1100);
    let (_, next) = handle_verification_code_at(conv, Event::MemberRole(None), 1100);
    assert_eq!(next, Next::Done(Outcome::Rejected(Notice::NotInServer)));
}

#[test]
fn quit_cancels_a_session() {
    let conv = Conversation { message: dm(42, "quit"), stage: Stage::AwaitSession };
    let (_, next) =
        handle_verification_message_at(conv, Event::Session(Some(session_at(1000))), 1100, 0);
    assert_eq!(next, Next::Done(Outcome::Cancelled { user_id: 42 }));
    let conv = Conversation { message: dm(42, "Quit"), stage: Stage::AwaitSession };
    let (_, next) =
        handle_verification_message_at(conv, Event::Session(Some(session_at(1000))), 1100, 0);
    assert_eq!(next, Next::Ask(Query::SessionOf { user_id: 42 }));
}

#[test]
fn outcomes_tell_their_notices() {
    assert_eq!(Outcome::Ignored.notice(), None);
    assert_eq!(Outcome::Aborted.notice(), None);
    assert_eq!(Outcome::Rejected(Notice::InvalidCode).notice(), Some(Notice::InvalidCode));
    assert_eq!(
        Outcome::Issue { session: session_at(1) }.notice(),
        Some(Notice::CodeSent { email: "a@uoguelph.ca".to_string() })
    );
    assert_eq!(Outcome::Cancelled { user_id: 1 }.notice(), Some(Notice::Stopped));
    assert_eq!(
        Outcome::Expired { email: "a@uoguelph.ca".to_string() }.notice(),
        Some(Notice::SessionExpired)
    );
    assert_eq!(
        Outcome::Verified { email: "a@uoguelph.ca".to_string(), user_id: 1, grant_role: true }
            .notice(),
        Some(Notice::Verified)
    );
}

#[test]
fn steps_by_the_clock_issue_a_fresh_session() {
    let conv = Conversation::issuing(dm(42, "a@uoguelph.ca"));
    let (conv, _) = new_verification(conv, Event::Start);
    let (_, next) = new_verification(conv, Event::Record(Some(jane(None))));
    match next {
        Next::Done(Outcome::Issue { session }) => {
            assert_eq!(session.email, "a@uoguelph.ca");
            assert_eq!(session.discord_id, 42);
            assert!((1_000_000..=9_999_999).contains(&session.code));
            assert!(session.get_timestamp() > 1_577_836_800);
            assert!(!session.is_expired());
        }
        other => panic!("{:?}", other),
    }
}

#[test]
fn steps_by_the_clock_expire_an_old_session() {
    let conv = Conversation::confirming(dm(42, "1234567"));
    let (conv, _) = handle_verification_code(conv, Event::Start);
    let (_, next) = handle_verification_code(conv, Event::Session(Some(session_at(1000))));
    assert_eq!(next, Next::Done(Outcome::Expired { email: "a@uoguelph.ca".to_string() }));
    let conv = Conversation { message: dm(42, "1234567"), stage: Stage::AwaitSession };
    let (conv, next) = handle_verification_message(conv, Event::Session(Some(session_at(1000))));
    assert_eq!(next, Next::Ask(Query::SessionOf { user_id: 42 }));
    let (_, next) = handle_verification_message(conv, Event::Session(Some(session_at(1000))));
    assert_eq!(next, Next::Done(Outcome::Expired { email: "a@uoguelph.ca".to_string() }));
}

// --- whole conversations on a community ---

#[test]
fn scenario_import_register_confirm() {
    let mut community = community_with_jane();
    let outcome = community.deliver_at(dm(42, "a@uoguelph.ca"), 1000, 1234567);
    assert_eq!(
        outcome,
        Outcome::Issue {
            session: VerificationSession::new_at("a@uoguelph.ca".to_string(), 42, 1234567, 1000)
        }
    );
    assert_eq!(outcome.notice(), Some(Notice::CodeSent { email: "a@uoguelph.ca".to_string() }));
    assert_eq!(community.sessions.get_by_account(42).unwrap().code, 1234567);
    assert_eq!(community.records.get("a@uoguelph.ca").unwrap().discord_id, None);

    let outcome = community.deliver_at(dm(42, "1234567"), 1000 + 299, 7777777);
    assert_eq!(
        outcome,
        Outcome::Verified { email: "a@uoguelph.ca".to_string(), user_id: 42, grant_role: true }
    );
    assert_eq!(outcome.notice(), Some(Notice::Verified));
    assert!(community.sessions.is_empty());
    assert!(community.sessions.get_by_account(42).is_none());
    assert_eq!(community.records.get("a@uoguelph.ca").unwrap().discord_id, Some(42));
    assert!(community.members[0].has_role(ROLE));
    assert_eq!(community.members[0].roles, vec![ROLE]);
    assert_eq!(community.members[1].roles, vec![ROLE]);
}

#[test]
fn scenario_by_the_real_clock() {
    let mut community = community_with_jane();
    let outcome = community.deliver(dm(42, "a@uoguelph.ca"));
    let code = match outcome {
        Outcome::Issue { session } => session.code,
        other => panic!("{:?}", other),
    };
    let outcome = community.deliver(dm(42, &email_body("{{code}}", code)));
    assert!(matches!(outcome, Outcome::Verified { user_id: 42, grant_role: true, .. }));
    assert!(community.sessions.is_empty());
    assert_eq!(community.records.get("a@uoguelph.ca").unwrap().discord_id, Some(42));
}

#[test]
fn issuing_for_an_unknown_email_creates_no_session() {
    let mut community = Community::new(vec![member(42, vec![])], ROLE);
    let outcome = community.deliver_at(dm(42, "a@uoguelph.ca"), 1000, 1234567);
    assert_eq!(outcome, Outcome::Rejected(Notice::NotRegistered));
    assert_eq!(
        outcome.notice().unwrap().failure_kind(),
        Some(gryphon_verification::error::FailureKind::ValidationFailure)
    );
    assert!(community.sessions.is_empty());
    assert_eq!(community.records.len(), 0);
    let outcome = community.issue_at(dm(42, "b@uoguelph.ca"), 1000, 1234567);
    assert_eq!(outcome, Outcome::Rejected(Notice::NotRegistered));
    assert!(community.sessions.is_empty());
}

#[test]
fn confirming_twice_reports_no_active_session_the_second_time() {
    let mut community = community_with_jane();
    community.deliver_at(dm(42, "a@uoguelph.ca"), 1000, 1234567);
    let first = community.confirm_at(dm(42, "1234567"), 1100);
    assert_eq!(
        first,
        Outcome::Verified { email: "a@uoguelph.ca".to_string(), user_id: 42, grant_role: true }
    );
    assert!(community.sessions.is_empty());
    assert_eq!(community.records.get("a@uoguelph.ca").unwrap().discord_id, Some(42));
    let second = community.confirm_at(dm(42, "1234567"), 1100);
    assert_eq!(second, Outcome::Rejected(Notice::NoActiveSession));
    assert_eq!(community.records.get("a@uoguelph.ca").unwrap().discord_id, Some(42));
    assert_eq!(community.members[0].roles, vec![ROLE]);
}

#[test]
fn expired_session_is_deleted_on_access_whatever_the_code() {
    for content in ["1234567", "7654321", "hello", "b@uoguelph.ca"] {
        let mut community = community_with_jane();
        community.deliver_at(dm(42, "a@uoguelph.ca"), 1000, 1234567);
        let outcome = community.deliver_at(dm(42, content), 1301, 7777777);
        assert_eq!(outcome, Outcome::Expired { email: "a@uoguelph.ca".to_string() }, "{}", content);
        assert_eq!(outcome.notice(), Some(Notice::SessionExpired));
        assert!(community.sessions.is_empty());
        assert_eq!(community.records.get("a@uoguelph.ca").unwrap().discord_id, None);
        assert!(community.members[0].roles.is_empty());
    }
}

#[test]
fn expired_session_can_be_followed_by_a_new_one() {
    let mut community = community_with_jane();
    community.deliver_at(dm(42, "a@uoguelph.ca"), 1000, 1234567);
    community.deliver_at(dm(42, "1234567"), 2000, 0);
    let outcome = community.deliver_at(dm(42, "a@uoguelph.ca"), 2001, 7654321);
    assert!(matches!(outcome, Outcome::Issue { .. }));
    let outcome = community.deliver_at(dm(42, "7654321"), 2002, 0);
    assert!(matches!(outcome, Outcome::Verified { .. }));
}

#[test]
fn wrong_code_leaves_the_session_pending() {
    let mut community = community_with_jane();
    community.deliver_at(dm(42, "a@uoguelph.ca"), 1000, 1234567);
    assert_eq!(
        community.deliver_at(dm(42, "7654321"), 1100, 0),
        Outcome::Rejected(Notice::IncorrectCode)
    );
    assert_eq!(
        community.deliver_at(dm(42, "what?"), 1100, 0),
        Outcome::Rejected(Notice::InvalidCode)
    );
    assert_eq!(community.sessions.get_by_account(42).unwrap().code, 1234567);
    assert!(matches!(community.deliver_at(dm(42, "1234567"), 1100, 0), Outcome::Verified { .. }));
}

#[test]
fn quit_deletes_the_session() {
    let mut community = community_with_jane();
    community.deliver_at(dm(42, "a@uoguelph.ca"), 1000, 1234567);
    let outcome = community.deliver_at(dm(42, "quit"), 1100, 0);
    assert_eq!(outcome, Outcome::Cancelled { user_id: 42 });
    assert!(community.sessions.is_empty());
    assert_eq!(community.records.get("a@uoguelph.ca").unwrap().discord_id, None);
    let mut community = community_with_jane();
    community.deliver_at(dm(42, "a@uoguelph.ca"), 1000, 1234567);
    let outcome = community.deliver_at(dm(42, "quit"), 99999, 0);
    assert_eq!(outcome, Outcome::Cancelled { user_id: 42 });
    assert!(community.sessions.is_empty());
}

#[test]
fn unmet_criteria_keep_the_session_until_the_roster_is_corrected() {
    let mut community = Community::new(vec![member(42, vec![])], ROLE);
    let mut unpaid = jane(None);
    unpaid.has_paid = Some(false);
    merge_verifications(&mut community.records, &vec![unpaid]);
    community.deliver_at(dm(42, "a@uoguelph.ca"), 1000, 1234567);
    let outcome = community.deliver_at(dm(42, "1234567"), 1010, 0);
    assert_eq!(
        outcome,
        Outcome::Rejected(Notice::CriteriaUnmet(MissingCriteria {
            unpaid: true,
            not_in_roster: false,
            no_name: false,
        }))
    );
    assert!(!community.sessions.is_empty());
    merge_verifications(&mut community.records, &vec![jane(None)]);
    let outcome = community.deliver_at(dm(42, "1234567"), 1020, 0);
    assert!(matches!(outcome, Outcome::Verified { .. }));
}

#[test]
fn email_linked_to_a_member_cannot_be_registered_by_another() {
    let mut community = community_with_jane();
    community.records.set_account_link("a@uoguelph.ca", Some(43));
    let outcome = community.deliver_at(dm(42, "a@uoguelph.ca"), 1000, 1234567);
    assert_eq!(outcome, Outcome::Rejected(Notice::AlreadyRegistered));
    assert!(community.sessions.is_empty());
    community.records.set_account_link("a@uoguelph.ca", Some(77));
    let outcome = community.deliver_at(dm(42, "a@uoguelph.ca"), 1000, 1234567);
    assert!(matches!(outcome, Outcome::Issue { .. }));
}

#[test]
fn new_session_for_an_email_replaces_a_stale_one() {
    let mut community = community_with_jane();
    community.deliver_at(dm(43, "a@uoguelph.ca"), 1000, 1111111);
    community.deliver_at(dm(42, "a@uoguelph.ca"), 1001, 2222222);
    assert!(community.sessions.get_by_account(43).is_none());
    let session = community.sessions.get("a@uoguelph.ca").unwrap();
    assert_eq!(session.discord_id, 42);
    assert_eq!(session.code, 2222222);
}

#[test]
fn member_who_holds_the_role_is_not_granted_it_again() {
    let mut community = community_with_jane();
    community.deliver_at(dm(43, "a@uoguelph.ca"), 1000, 1234567);
    let outcome = community.deliver_at(dm(43, "1234567"), 1001, 0);
    assert_eq!(
        outcome,
        Outcome::Verified { email: "a@uoguelph.ca".to_string(), user_id: 43, grant_role: false }
    );
    assert_eq!(community.members[1].roles, vec![ROLE]);
}

#[test]
fn strangers_and_bots_change_nothing() {
    let mut community = community_with_jane();
    assert_eq!(community.deliver_at(dm(99, "a@uoguelph.ca"), 1000, 1234567), Outcome::Ignored);
    let bot = IncomingMessage {
        author_id: 42,
        author_is_bot: true,
        in_guild: false,
        content: "a@uoguelph.ca".to_string(),
    };
    assert_eq!(community.deliver_at(bot, 1000, 1234567), Outcome::Ignored);
    assert!(community.sessions.is_empty());
}
