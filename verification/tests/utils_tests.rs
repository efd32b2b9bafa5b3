use rdaggy::decimal::{i64_to_string, u64_to_string};
use rdaggy::timeparser::{humanise_time, min_sec_parse, parse_serenity};
use rdaggy::headline::headline_result;
use rdaggy::encoders::{bottom, converted_reply, shown_decoding, BottomReply};
use rdaggy::uptimer::Uptimer;
use rdaggy::welcome::{ascii_nickname, nickname_from, reaction_role};

#[test]
fn naturals_are_written_in_decimal() {
    assert_eq!(u64_to_string(0), "0");
    assert_eq!(u64_to_string(9), "9");
    assert_eq!(u64_to_string(10), "10");
    assert_eq!(u64_to_string(1234567890), "1234567890");
    assert_eq!(u64_to_string(u64::MAX), "18446744073709551615");
}

#[test]
fn integers_are_written_in_decimal() {
    assert_eq!(i64_to_string(0), "0");
    assert_eq!(i64_to_string(-1), "-1");
    assert_eq!(i64_to_string(-120), "-120");
    assert_eq!(i64_to_string(i64::MAX), "9223372036854775807");
    assert_eq!(i64_to_string(i64::MIN), "-9223372036854775808");
}

#[test]
fn spans_are_humanised_in_their_largest_unit() {
    assert_eq!(humanise_time(0), "Started 0 seconds ago");
    assert_eq!(humanise_time(59), "Started 59 seconds ago");
    assert_eq!(humanise_time(60), "Started 1 minutes and 0 seconds ago");
    assert_eq!(humanise_time(3599), "Started 59 minutes and 59 seconds ago");
    assert_eq!(humanise_time(3600), "Started 1 hours ago");
    assert_eq!(humanise_time(86399), "Started 23 hours ago");
    assert_eq!(humanise_time(86400), "Started 1 days ago");
    assert_eq!(humanise_time(10 * 86400 + 5), "Started 10 days ago");
    assert_eq!(humanise_time(-90000), "Started -90000 seconds ago");
}

#[test]
fn spans_are_written_as_minutes_and_seconds() {
    assert_eq!(min_sec_parse(0), "0:0");
    assert_eq!(min_sec_parse(59), "0:59");
    assert_eq!(min_sec_parse(61), "1:1");
    assert_eq!(min_sec_parse(3725), "62:5");
    assert_eq!(min_sec_parse(-30), "0:-30");
    assert_eq!(min_sec_parse(-61), "-1:-1");
    assert_eq!(min_sec_parse(i64::MIN), "-153722867280912930:-8");
}

#[test]
fn milliseconds_are_cut_to_ten_digits() {
    assert_eq!(parse_serenity(0), 0);
    assert_eq!(parse_serenity(1616161616), 1616161616);
    assert_eq!(parse_serenity(9999999999), 9999999999);
    assert_eq!(parse_serenity(10000000000), 1000000000);
    assert_eq!(parse_serenity(1616161616123), 1616161616);
    assert_eq!(parse_serenity(u64::MAX), 1844674407);
}

#[test]
fn uptime_is_split_into_days_hours_minutes_seconds() {
    let uptimer = Uptimer::new(1000);
    assert_eq!(uptimer.uptime_string(1000), "0d 0h 0m 0s");
    assert_eq!(uptimer.uptime_string(1000 + 93784), "1d 2h 3m 4s");
    assert_eq!(uptimer.uptime_string(1000 + 59), "0d 0h 0m 59s");
    assert_eq!(uptimer.uptime_string(1000 + 86400 * 400), "400d 0h 0m 0s");
    assert_eq!(uptimer.uptime_string(1000 - 93784), "-1d -2h -3m -4s");
}

#[test]
fn bottom_encodes() {
    assert_eq!(
        bottom("encode", "Test"),
        BottomReply::Converted {
            title: "Bottom encode".to_string(),
            description: "**Text**\nTest\n**Bottom**\n💖✨✨✨,,,,👉👈💖💖,👉👈💖💖✨🥺👉👈💖💖✨🥺,👉👈"
                .to_string(),
        }
    );
}

#[test]
fn bottom_decodes() {
    assert_eq!(
        bottom("decode", "💖✨✨✨,,,,👉👈💖💖,👉👈💖💖✨🥺👉👈💖💖✨🥺,👉👈"),
        BottomReply::Converted {
            title: "Bottom decode".to_string(),
            description: "**Bottom**\n💖✨✨✨,,,,👉👈💖💖,👉👈💖💖✨🥺👉👈💖💖✨🥺,👉👈\n**Text**\nTest"
                .to_string(),
        }
    );
}

#[test]
fn bottom_shows_a_failed_decoding() {
    assert_eq!(
        bottom("decode", "x"),
        BottomReply::Converted {
            title: "Bottom decode".to_string(),
            description:
                "**Bottom**\nx\n**Text**\nError Decoding: TranslationError { why: \"Cannot decode character x\" }"
                    .to_string(),
        }
    );
    assert_eq!(shown_decoding(Err("why".to_string())), "Error Decoding: why");
    assert_eq!(shown_decoding(Ok("fine".to_string())), "fine");
}

#[test]
fn bottom_refuses_other_subcommands() {
    assert_eq!(
        bottom("transcode", "Test"),
        BottomReply::UnknownSubcommand {
            message: "`transcode` is not a valid subcommand. Chose either encode or decode"
                .to_string(),
        }
    );
    assert_eq!(
        bottom("Encode", "Test"),
        BottomReply::UnknownSubcommand {
            message: "`Encode` is not a valid subcommand. Chose either encode or decode"
                .to_string(),
        }
    );
}

#[test]
fn bottom_refuses_what_does_not_fit() {
    let long = "a".repeat(500);
    assert_eq!(
        bottom("encode", &long),
        BottomReply::TooLong {
            message:
                "Your text was too big to encode/decode and send. Please send a shorter string."
                    .to_string(),
        }
    );
    let at_limit = "é".repeat(2000);
    match converted_reply("encode", true, "t", &at_limit) {
        BottomReply::Converted { description, .. } => {
            assert_eq!(description, format!("**Text**\nt\n**Bottom**\n{}", at_limit))
        }
        other => panic!("unexpected reply {:?}", other),
    }
    let over = "é".repeat(2001);
    assert!(matches!(converted_reply("encode", true, "t", &over), BottomReply::TooLong { .. }));
}

#[test]
fn new_member_gets_an_ascii_nickname() {
    assert_eq!(ascii_nickname("Æneid"), Some("AEneid".to_string()));
    assert_eq!(ascii_nickname("Daggy"), None);
    assert_eq!(ascii_nickname(""), None);
    assert_eq!(nickname_from("a", "b".to_string()), Some("b".to_string()));
    assert_eq!(nickname_from("a", "a".to_string()), None);
}

#[test]
fn reactions_ask_for_roles_on_their_messages() {
    assert_eq!(reaction_role("\u{1f9ea}", 824569176198086726), Some("Beta-Test"));
    assert_eq!(reaction_role("\u{2705}", 824569150168104970), Some("Pingable"));
    assert_eq!(reaction_role("\u{1f44c}", 824569314169978900), Some("Dagpi Notifs"));
    assert_eq!(reaction_role("\u{1f4f7}", 824569274823081994), Some("Polaroid Updates"));
    assert_eq!(reaction_role("\u{1f916}", 824569350609436672), Some("R.Daggy"));
    assert_eq!(reaction_role("\u{1f3a8}", 824569681343807519), Some("DagCord"));
    assert_eq!(reaction_role("\u{1f9ea}", 824569150168104970), None);
    assert_eq!(reaction_role("\u{1f600}", 824569176198086726), None);
    assert_eq!(reaction_role("", 217462890364403712), None);
}

#[test]
fn headline_guess_is_judged() {
    let right = headline_result(1, true, "Moon sold");
    assert_eq!(right.title, "Your were correct");
    assert_eq!(
        right.description,
        "Headline: `Moon sold`\n\nFake: `true`\n\nYour Guess: `is fake`"
    );
    let right = headline_result(0, false, "Rain is wet");
    assert_eq!(right.title, "Your were correct");
    assert_eq!(
        right.description,
        "Headline: `Rain is wet`\n\nFake: `false`\n\nYour Guess: `is real`"
    );
    assert_eq!(headline_result(0, true, "x").title, "Your were incorrect");
    assert_eq!(headline_result(1, false, "x").title, "Your were incorrect");
    assert_eq!(headline_result(2, true, "x").title, "Your were incorrect");
    assert_eq!(
        headline_result(2, false, "x").description,
        "Headline: `x`\n\nFake: `false`\n\nYour Guess: `is fake`"
    );
}
