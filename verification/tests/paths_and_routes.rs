use danielek::paths::path_into_resource;
use danielek::request::HttpMethod;
use danielek::routes::{
    channel_messages, channel_messages_get, entitlements_giftcode, entitlements_giftcode_redeem,
    users_guilds_leave, webhook_execute, DApi, DApiMethod, DApiVersion, Route, v10, v6,
};
use danielek::text::decimal_string;
use danielek::types::GetChannelMessagesAnchorParam;

#[test]
fn resource_ids_are_extracted_from_paths() {
    assert_eq!(path_into_resource("/channels/123456/messages"), Some(123456));
    assert_eq!(path_into_resource("/guilds/98765432109876543210"), Some(98765432109876543210));
    assert_eq!(path_into_resource("/webhooks/4444/some-token"), Some(4444));
}

#[test]
fn the_first_occurrence_wins() {
    assert_eq!(path_into_resource("/guilds/1111/channels/2222"), Some(1111));
}

#[test]
fn short_runs_and_plain_paths_are_not_resources() {
    assert_eq!(path_into_resource("/channels/123/messages"), None);
    assert_eq!(path_into_resource("/entitlements/gift-codes/abc123/redeem"), None);
    assert_eq!(path_into_resource("/users/@me/guilds"), None);
    assert_eq!(path_into_resource(""), None);
    assert_eq!(path_into_resource("/channels/abcd"), None);
}

#[test]
fn repeated_slashes_are_allowed_before_the_id() {
    assert_eq!(path_into_resource("/channels///5555/messages"), Some(5555));
}

#[test]
fn the_segment_name_needs_a_slash_and_digits() {
    assert_eq!(path_into_resource("/channelsabc/1234"), None);
    assert_eq!(path_into_resource("/channels1234"), None);
}

#[test]
fn the_id_is_capped_at_twenty_one_digits() {
    // twenty-five digits: the first twenty-one are taken
    assert_eq!(
        path_into_resource("/channels/1234567890123456789012345"),
        Some(123456789012345678901)
    );
}

#[test]
fn an_embedded_segment_name_still_matches() {
    // the match needs no segment boundary on its left
    assert_eq!(path_into_resource("/xchannels/7777"), Some(7777));
}

#[test]
fn decimal_strings() {
    assert_eq!(decimal_string(0), "0");
    assert_eq!(decimal_string(7), "7");
    assert_eq!(decimal_string(10), "10");
    assert_eq!(decimal_string(429), "429");
    assert_eq!(decimal_string(u64::MAX), "18446744073709551615");
}

#[test]
fn version_segments() {
    assert_eq!(<v10 as DApiVersion>::ver(), "v10");
    assert_eq!(<v6 as DApiVersion>::ver(), "v6");
}

#[test]
fn message_routes() {
    let r = channel_messages("123");
    assert_eq!(r.method, HttpMethod::POST);
    assert_eq!(r.path, "/channels/123/messages");

    let r = channel_messages_get("123", 50, None);
    assert_eq!(r.method, HttpMethod::GET);
    assert_eq!(r.path, "/channels/123/messages?limit=50");

    let anchor = GetChannelMessagesAnchorParam::Before("999".to_string());
    let r = channel_messages_get("123", 25, Some(&anchor));
    assert_eq!(r.path, "/channels/123/messages?limit=25&before=999");

    let anchor = GetChannelMessagesAnchorParam::Around("5".to_string());
    let r = channel_messages_get("1", 1, Some(&anchor));
    assert_eq!(r.path, "/channels/1/messages?limit=1&around=5");

    let anchor = GetChannelMessagesAnchorParam::After("6".to_string());
    let r = channel_messages_get("1", 2, Some(&anchor));
    assert_eq!(r.path, "/channels/1/messages?limit=2&after=6");
}

#[test]
fn guild_and_webhook_routes() {
    let r = users_guilds_leave("4242");
    assert_eq!(r.method, HttpMethod::DELETE);
    assert_eq!(r.path, "/users/@me/guilds/4242");

    let r = webhook_execute("111", "SECRET-REDACTED", true, None);
    assert_eq!(r.method, HttpMethod::POST);
    assert_eq!(r.path, "/webhooks/111/SECRET-REDACTED?wait=true");

    let r = webhook_execute("111", "tok", false, Some("222"));
    assert_eq!(r.path, "/webhooks/111/tok?wait=false&thread_id=222");
}

#[test]
fn entitlement_routes() {
    let r = entitlements_giftcode("aaaabbbbccccdddd");
    assert_eq!(r.method, HttpMethod::GET);
    assert_eq!(r.path, "/entitlements/gift-codes/aaaabbbbccccdddd");

    let r = entitlements_giftcode_redeem("aaaabbbbccccdddd");
    assert_eq!(r.method, HttpMethod::POST);
    assert_eq!(r.path, "/entitlements/gift-codes/aaaabbbbccccdddd/redeem");
}

#[test]
fn routes_answer_the_method_trait() {
    let r: Route = users_guilds_leave("1");
    let p: &str = <Route as DApiMethod<v10>>::path(&r);
    assert_eq!(p, "/users/@me/guilds/1");
}

#[test]
fn the_client_builds_urls_under_its_version() {
    let api: DApi<v10> = DApi::new();
    assert_eq!(api.url_for("/gateway"), "https://discord.com/api/v10/gateway");
    let api: DApi<v6> = DApi::new();
    assert_eq!(
        api.url_for("/entitlements/gift-codes/x"),
        "https://discord.com/api/v6/entitlements/gift-codes/x"
    );
}

#[test]
fn the_client_keeps_its_token_and_user_agent() {
    let mut api: DApi<v10> = DApi::new();
    assert!(api.token().is_none());
    assert!(!api.user_agent().is_empty());
    api.set_token("Bot abc".to_string());
    assert_eq!(api.token().as_deref(), Some("Bot abc"));
    api.set_user_agent("tester/1.0".to_string());
    assert_eq!(api.user_agent(), "tester/1.0");
}

#[test]
fn the_client_gates_requests() {
    let mut api: DApi<v10> = DApi::new();
    assert_eq!(api.poll_global(0), None);
    assert_eq!(api.poll_resource(55, 0), None);
    let step = api.on_response(429, Some("channel"), Some("1"), Some(55), 0);
    assert!(matches!(step, danielek::request::RequestStep::Retry));
    assert_eq!(api.poll_resource(55, 500), Some(1_000));
    assert_eq!(api.poll_resource(55, 1_000), None);
}
