use danielek::protocol::{
    GatewayActivityType, GatewayData, GatewayIntents, GatewayOpcode, GatewayStatus,
};
use danielek::request::DApiError;
use danielek::scanner::{
    classify_gift_lookup, classify_redeem, completion_candidates, find_gift_code, parse_command,
    report_has_success, scanner_intents, truncate_chars, Command, GiftRedeemAttempt,
    GuildRegistry, PrecheckDecision, RedeemDecision, UsedCodes,
};
use danielek::types::DiscordApiError;

#[test]
fn gift_codes_are_found_in_messages() {
    assert_eq!(
        find_gift_code("free nitro discord.gift/aB3xYz9q enjoy").as_deref(),
        Some("aB3xYz9q")
    );
    // in any letter case
    assert_eq!(
        find_gift_code("DISCORD.GIFT/abcdef").as_deref(),
        Some("abcdef")
    );
    // at the end of a line
    assert_eq!(
        find_gift_code("look discord.gift/code_1\nmore text").as_deref(),
        Some("code_1")
    );
    // at the end of the message
    assert_eq!(find_gift_code("discord.gift/z").as_deref(), Some("z"));
}

#[test]
fn non_codes_are_not_found() {
    assert_eq!(find_gift_code("no links here"), None);
    assert_eq!(find_gift_code("discord.gift/ nothing"), None);
    // the run must end at a space or line end
    assert_eq!(find_gift_code("discord.gift/abc-def"), None);
    // twenty word characters are too many
    assert_eq!(find_gift_code("discord.gift/abcdefghij0123456789 x"), None);
    // nineteen are fine
    assert_eq!(
        find_gift_code("discord.gift/abcdefghij012345678 x").as_deref(),
        Some("abcdefghij012345678")
    );
}

#[test]
fn the_first_code_wins() {
    assert_eq!(
        find_gift_code("discord.gift/first and discord.gift/second").as_deref(),
        Some("first")
    );
}

#[test]
fn completion_fills_codes_to_sixteen_characters() {
    // the code has eight characters: tokens of eight complete it
    let c = completion_candidates("abcd1234", "xyz 12345678 nope abcdefgh");
    assert_eq!(c, vec!["abcd123412345678".to_string(), "abcd1234abcdefgh".to_string()]);
}

#[test]
fn completion_drops_one_leading_alnum_or_space() {
    // the leading character is removed before tokenizing, shortening the
    // first token out of the sixteen-character window
    let c = completion_candidates("abcd1234", "a123456789 b2345678");
    assert_eq!(c, vec!["abcd1234b2345678".to_string()]);
    // a leading symbol is kept
    let c = completion_candidates("abcd1234", "!12345678");
    assert_eq!(c, Vec::<String>::new());
}

#[test]
fn completion_is_capped_at_twenty() {
    let mut content = String::new();
    for _ in 0..30 {
        content.push_str("12345678 ");
    }
    let c = completion_candidates("abcd1234", &content);
    assert_eq!(c.len(), 20);
    assert!(c.iter().all(|s| s == "abcd123412345678"));
}

#[test]
fn used_codes_are_claimed_once() {
    let mut used = UsedCodes::new();
    assert!(used.claim("code-one".to_string()));
    assert!(!used.claim("code-one".to_string()));
    assert!(used.claim("code-two".to_string()));
    assert!(!used.claim("code-two".to_string()));
    assert!(!used.claim("code-one".to_string()));
}

#[test]
fn guilds_are_watched_by_at_most_one_scanner() {
    let mut reg = GuildRegistry::new();
    reg.insert(1, "guild-a".to_string());
    reg.insert(1, "guild-a".to_string());
    reg.insert(1, "guild-b".to_string());
    assert_eq!(reg.count(1), 2);
    assert!(!reg.watched_by_other(1, &"guild-a".to_string()));
    assert!(reg.watched_by_other(2, &"guild-a".to_string()));
    reg.insert(2, "guild-c".to_string());
    assert_eq!(reg.count(2), 1);
    // scanner 1 leaves guild-a
    reg.remove(1, &"guild-a".to_string());
    assert_eq!(reg.count(1), 1);
    assert!(!reg.watched_by_other(2, &"guild-a".to_string()));
    // scanner 1 goes away entirely
    reg.remove_scanner(1);
    assert_eq!(reg.count(1), 0);
    assert_eq!(reg.count(2), 1);
}

#[test]
fn duplicate_guilds_are_reported_at_startup() {
    let mut reg = GuildRegistry::new();
    let command_guild = "home".to_string();
    reg.insert(1, "home".to_string());
    reg.insert(2, "home".to_string());
    // the command guild is excluded from the duplicate check
    assert_eq!(reg.first_duplicate(1, &command_guild), None);
    reg.insert(1, "shared".to_string());
    reg.insert(2, "shared".to_string());
    assert_eq!(reg.first_duplicate(1, &command_guild).as_deref(), Some("shared"));
}

#[test]
fn gift_lookups_are_classified() {
    let unknown = DApiError::ApiError(DiscordApiError {
        code: 10038,
        message: "Unknown Gift Code".to_string(),
        errors: None,
    });
    assert!(matches!(
        classify_gift_lookup(Err(&unknown)),
        PrecheckDecision::Invalid { .. }
    ));
    let other = DApiError::ApiError(DiscordApiError {
        code: 50001,
        message: "Missing Access".to_string(),
        errors: None,
    });
    assert!(matches!(classify_gift_lookup(Err(&other)), PrecheckDecision::Fail { .. }));
    let network = DApiError::Requesting("timeout".to_string());
    assert!(matches!(classify_gift_lookup(Err(&network)), PrecheckDecision::Fail { .. }));
    // the basic tier and a nameless product are ignored
    let basic = "Nitro Basic".to_string();
    assert!(matches!(classify_gift_lookup(Ok(Some(&basic))), PrecheckDecision::Ignored));
    assert!(matches!(classify_gift_lookup(Ok(None)), PrecheckDecision::Ignored));
    // anything else is redeemed
    let nitro = "Nitro".to_string();
    assert!(matches!(classify_gift_lookup(Ok(Some(&nitro))), PrecheckDecision::Proceed));
}

#[test]
fn redeem_responses_are_classified() {
    let body = "{}".to_string();
    assert!(matches!(classify_redeem(Ok(&body)), RedeemDecision::Success { .. }));
    let claimed = DApiError::ApiError(DiscordApiError {
        code: 50050,
        message: "This gift has been redeemed already.".to_string(),
        errors: None,
    });
    assert!(matches!(
        classify_redeem(Err(&claimed)),
        RedeemDecision::NeedGifterLookup { .. }
    ));
    let unknown = DApiError::ApiError(DiscordApiError {
        code: 10038,
        message: "Unknown Gift Code".to_string(),
        errors: None,
    });
    assert!(matches!(classify_redeem(Err(&unknown)), RedeemDecision::Invalid { .. }));
    let other = DApiError::ApiError(DiscordApiError {
        code: 0,
        message: "?".to_string(),
        errors: None,
    });
    assert!(matches!(classify_redeem(Err(&other)), RedeemDecision::Fail { .. }));
    let network = DApiError::Requesting("reset".to_string());
    assert!(matches!(classify_redeem(Err(&network)), RedeemDecision::Fail { .. }));
}

#[test]
fn control_channel_commands() {
    assert_eq!(parse_command("...ping"), Command::Ping);
    assert_eq!(parse_command("...ping now"), Command::Ping);
    assert_eq!(parse_command("...stats"), Command::Stats);
    assert_eq!(parse_command("...ignore"), Command::ToggleIgnore);
    assert_eq!(parse_command("...pin"), Command::NotACommand);
    assert_eq!(parse_command("ping"), Command::NotACommand);
    assert_eq!(parse_command(""), Command::NotACommand);
}

#[test]
fn reports_know_whether_anything_succeeded() {
    let attempts = vec![
        ("a".to_string(), GiftRedeemAttempt::Ignored),
        ("b".to_string(), GiftRedeemAttempt::Invalid { info: "no".to_string() }),
    ];
    assert!(!report_has_success(&attempts));
    let attempts = vec![
        ("a".to_string(), GiftRedeemAttempt::Ignored),
        ("b".to_string(), GiftRedeemAttempt::Success { info: "yes".to_string() }),
    ];
    assert!(report_has_success(&attempts));
    assert!(!report_has_success(&Vec::new()));
}

#[test]
fn content_is_truncated_for_embeds() {
    assert_eq!(truncate_chars("short", 2040), "short");
    let long: String = std::iter::repeat('x').take(3000).collect();
    let cut = truncate_chars(&long, 2040);
    assert_eq!(cut.chars().count(), 2040);
    assert_eq!(truncate_chars("abcdef", 3), "abc");
    assert_eq!(truncate_chars("", 10), "");
}

#[test]
fn scanner_intent_mask() {
    let intents = scanner_intents();
    assert_eq!(
        intents.bits(),
        GatewayIntents::GUILDS
            | GatewayIntents::MESSAGE_CONTENT
            | GatewayIntents::GUILD_MESSAGES
            | GatewayIntents::DIRECT_MESSAGES
    );
    assert_eq!(intents.bits(), 1 | (1 << 15) | (1 << 9) | (1 << 12));
}

#[test]
fn the_ready_status_watches() {
    let ev = danielek::scanner::status_event(1_234);
    assert!(matches!(ev.op, GatewayOpcode::PRESENCE_UPDATE));
    match ev.d {
        Some(GatewayData::SendUpdatePresence(p)) => {
            assert!(matches!(p.status, GatewayStatus::online));
            assert!(!p.afk);
            assert_eq!(p.activities.len(), 1);
            assert_eq!(p.activities[0].name, "y'all");
            assert!(matches!(p.activities[0].activity_type, GatewayActivityType::WATCHING));
            assert_eq!(p.activities[0].created_at, 1_234);
        }
        other => panic!("expected a presence payload, got {:?}", other),
    }
}
