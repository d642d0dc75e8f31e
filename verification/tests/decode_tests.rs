use omglol::client::interpret_response;
use omglol::structures::{
    AccountResponse, Address, DispatchError, ForwardingAddresses, NowGardenResponse, NowResponse,
    PasteResponse, ProfileThemes, PurlsResponse, StatuslogAllStatuses, StatuslogUpdateResponse,
    Token, Web, WeblogConfigurationResponse, WeblogEntryResponse,
};

fn wrap(payload: &str) -> String {
    format!(
        "{{\"request\":{{\"status_code\":200,\"success\":true}},\"response\":{}}}",
        payload
    )
}

#[test]
fn statuses_decode_with_optional_url() {
    let payload = "{\"message\":\"m\",\"statuses\":[\
        {\"emoji\":\"e\",\"content\":\"c\",\"external_url\":\"https://x\",\"id\":\"1\",\"address\":\"a\",\"created\":\"t\",\"relative_time\":\"now\"},\
        {\"emoji\":\"e2\",\"content\":\"c2\",\"external_url\":null,\"id\":\"2\",\"address\":\"a\",\"created\":\"t\",\"relative_time\":\"then\"},\
        {\"emoji\":\"e3\",\"content\":\"c3\",\"id\":\"3\",\"address\":\"a\",\"created\":\"t\",\"relative_time\":\"later\"}]}";
    let env = interpret_response::<StatuslogAllStatuses>(200, &wrap(payload)).unwrap();
    let statuses = env.response.statuses;
    assert_eq!(statuses.len(), 3);
    assert_eq!(statuses[0].external_url.as_deref(), Some("https://x"));
    assert_eq!(statuses[1].external_url, None);
    assert_eq!(statuses[2].external_url, None);
    assert_eq!(statuses[2].content, "c3");
}

#[test]
fn status_missing_required_id_fails() {
    let payload = "{\"message\":\"m\",\"statuses\":[\
        {\"emoji\":\"e\",\"content\":\"c\",\"address\":\"a\",\"created\":\"t\",\"relative_time\":\"now\"}]}";
    let r = interpret_response::<StatuslogAllStatuses>(200, &wrap(payload));
    assert_eq!(r, Err(DispatchError::DecodeFailure));
}

#[test]
fn forwarding_addresses_decode() {
    let payload = "{\"message\":\"m\",\"destination_string\":\"a@x, b@x\",\"destination_array\":[\"a@x\",\"b@x\"],\"address\":\"me\",\"email_address\":\"me@omg.lol\"}";
    let env = interpret_response::<ForwardingAddresses>(200, &wrap(payload)).unwrap();
    assert_eq!(env.response.destination_array, vec!["a@x".to_string(), "b@x".to_string()]);
    assert_eq!(env.response.destination_string, "a@x, b@x");
}

#[test]
fn token_decode() {
    let payload = "{\"access_token\":\"abc123\",\"token_type\":\"bearer\",\"scope\":\"everything\"}";
    let env = interpret_response::<Token>(200, &wrap(payload)).unwrap();
    assert_eq!(env.response.token_type, "bearer");
    assert_eq!(env.response.scope, "everything");
}

#[test]
fn address_decode_nested() {
    let payload = "{\"address\":\"example\",\"message\":\"m\",\
        \"registration\":{\"unix_epoch_time\":\"1\",\"iso_8601_time\":\"i\",\"rfc_2822_time\":\"r\",\"relative_time\":\"rel\"},\
        \"expiration\":{\"message\":\"em\",\"expired\":false,\"will_expire\":true,\"unix_epoch_time\":\"2\",\"iso_8601_time\":null,\"rfc_2822_time\":null,\"relative_time\":null},\
        \"verification\":{\"message\":\"vm\",\"verified\":true},\
        \"owner\":\"me@example.net\"}";
    let env = interpret_response::<Address>(200, &wrap(payload)).unwrap();
    let a = env.response;
    assert_eq!(a.address, "example");
    assert_eq!(a.registration.unix_epoch_time, "1");
    assert_eq!(a.registration.message, None);
    assert!(!a.expiration.expired);
    assert_eq!(a.expiration.will_expire, Some(true));
    assert_eq!(a.expiration.iso_8601_time, None);
    assert!(a.verification.verified);
    assert_eq!(a.owner.as_deref(), Some("me@example.net"));
}

#[test]
fn purls_decode_with_counter_range() {
    let payload =
        "{\"message\":\"m\",\"purls\":[{\"name\":\"n\",\"url\":\"https://x\",\"counter\":12}]}";
    let env = interpret_response::<PurlsResponse>(200, &wrap(payload)).unwrap();
    assert_eq!(env.response.purls[0].counter, Some(12));
    // a counter beyond the range of i32 fails the decode
    let payload_big =
        "{\"message\":\"m\",\"purls\":[{\"name\":\"n\",\"url\":\"https://x\",\"counter\":3000000000}]}";
    let r = interpret_response::<PurlsResponse>(200, &wrap(payload_big));
    assert_eq!(r, Err(DispatchError::DecodeFailure));
}

#[test]
fn paste_decode_keeps_modified_on() {
    let payload = "{\"message\":\"m\",\"pastebin\":{\"title\":\"t\",\"content\":\"c\",\"modified_on\":\"123\"}}";
    let env = interpret_response::<PasteResponse>(200, &wrap(payload)).unwrap();
    assert_eq!(env.response.pastebin.modified_on.as_deref(), Some("123"));
}

#[test]
fn profile_themes_decode() {
    let theme = "{\"id\":\"dark\",\"name\":\"Dark\",\"created\":\"c\",\"updated\":\"u\",\"author\":\"a\",\"author_url\":\"au\",\"version\":\"1\",\"license\":\"MIT\",\"description\":\"d\",\"preview_css\":\"p\",\"sample_profile\":\"s\"}";
    let payload = format!("{{\"message\":\"m\",\"themes\":{{\"dark\":{}}}}}", theme);
    let env = interpret_response::<ProfileThemes>(200, &wrap(&payload)).unwrap();
    let themes = env.response.themes;
    assert_eq!(themes.len(), 1);
    assert_eq!(themes[0].0, "dark");
    assert_eq!(themes[0].1.name, "Dark");
    assert_eq!(themes[0].1.license, "MIT");
}

#[test]
fn profile_themes_bad_theme_fails() {
    // one theme lacks its name: the whole decode fails, nothing partial
    let payload = "{\"message\":\"m\",\"themes\":{\"dark\":{\"id\":\"dark\"}}}";
    let r = interpret_response::<ProfileThemes>(200, &wrap(payload));
    assert_eq!(r, Err(DispatchError::DecodeFailure));
}

#[test]
fn weblog_entry_under_entry_key() {
    let entry = "{\"location\":\"l\",\"title\":\"t\",\"date\":1700000000,\"status\":\"live\",\"body\":\"b\",\"source\":\"s\",\"metadata\":{\"date\":\"d\",\"slug\":\"sl\"},\"output\":\"o\",\"entry\":\"e\",\"type\":\"post\"}";
    let payload = format!("{{\"message\":\"m\",\"entry\":{}}}", entry);
    let env = interpret_response::<WeblogEntryResponse>(200, &wrap(&payload)).unwrap();
    assert_eq!(env.response.entry.title, "t");
    assert_eq!(env.response.entry.date, 1700000000);
    assert_eq!(env.response.entry.metadata.slug, "sl");
}

#[test]
fn web_page_decode_uses_type_key() {
    let payload = "{\"content\":\"c\",\"message\":\"m\",\"css\":\"\",\"head\":\"\",\"verified\":1,\"pfp\":null,\"metadata\":\"\",\"branding\":\"\",\"type\":\"profile\"}";
    let env = interpret_response::<Web>(200, &wrap(payload)).unwrap();
    assert_eq!(env.response.page_type, "profile");
    assert_eq!(env.response.verified, Some(1));
    assert_eq!(env.response.pfp, None);
}

#[test]
fn weblog_configuration_decode_nested() {
    let conf = "{\"weblog_title\":\"wt\",\"weblog_description\":\"wd\",\"author\":\"au\",\"separator\":\"-\",\"tag_path\":\"tp\",\"timezone\":\"UTC\",\"date_format\":\"df\",\"default_post\":\"dp\",\"feed_post_count\":\"10\",\"recents_posts_format\":\"rf\",\"post_list_format\":\"pf\",\"search_satus\":\"on\",\"search_status_success_message\":\"ok\",\"search_results_failure_message\":\"no\",\"search_results_format\":\"sf\"}";
    let payload = format!(
        "{{\"message\":\"m\",\"configuration\":{{\"object\":{},\"json\":\"j\",\"raw\":\"r\"}}}}",
        conf
    );
    let env = interpret_response::<WeblogConfigurationResponse>(200, &wrap(&payload)).unwrap();
    let formats = env.response.configuration;
    assert_eq!(formats.object.weblog_title, "wt");
    assert_eq!(formats.object.timezone, "UTC");
    assert_eq!(formats.raw, "r");
}

#[test]
fn statuslog_update_response_decode() {
    let payload = "{\"message\":\"m\",\"id\":\"abc\",\"url\":\"https://x\"}";
    let env = interpret_response::<StatuslogUpdateResponse>(200, &wrap(payload)).unwrap();
    assert_eq!(env.response.id, "abc");
    assert_eq!(env.response.url, "https://x");
}

#[test]
fn account_response_decode() {
    let payload = "{\"message\":\"m\",\"email\":\"me@x\",\"name\":\"Me\",\"api_key\":\"kk\",\
        \"created\":{\"unix_epoch_time\":\"1\",\"iso_8601_time\":\"i\",\"rfc_2822_time\":\"r\",\"relative_time\":\"rel\"},\
        \"settings\":{\"owner\":\"me@x\",\"communication\":\"email_ok\",\"date_format\":null,\"web_editor\":\"plain\"}}";
    let env = interpret_response::<AccountResponse>(200, &wrap(payload)).unwrap();
    let a = env.response;
    assert_eq!(a.email, "me@x");
    assert_eq!(a.settings.communication.as_deref(), Some("email_ok"));
    assert_eq!(a.settings.date_format, None);
    assert_eq!(a.settings.web_editor, "plain");
}

#[test]
fn now_garden_decode() {
    let payload = "{\"message\":\"m\",\"garden\":[{\"address\":\"a\",\"url\":\"u\",\
        \"updated\":{\"unix_epoch_time\":\"1\",\"iso_8601_time\":\"i\",\"rfc_2822_time\":\"r\",\"relative_time\":\"rel\"}}]}";
    let env = interpret_response::<NowGardenResponse>(200, &wrap(payload)).unwrap();
    assert_eq!(env.response.garden.len(), 1);
    assert_eq!(env.response.garden[0].updated.relative_time, "rel");
}

#[test]
fn now_page_rejects_fractional_number() {
    // "updated" is declared an integer; a fractional number fails the decode
    let payload = "{\"message\":\"m\",\"now\":[{\"content\":\"c\",\"updated\":1.5,\"listed\":1,\"nudge\":0,\"metadata\":\"\"}]}";
    let r = interpret_response::<NowResponse>(200, &wrap(payload));
    assert_eq!(r, Err(DispatchError::DecodeFailure));
}

#[test]
fn weblog_entry_under_post_key() {
    let entry = "{\"location\":\"l\",\"title\":\"latest\",\"date\":5,\"status\":\"live\",\"body\":\"b\",\"source\":\"s\",\"metadata\":{\"date\":\"d\",\"slug\":\"sl\"},\"output\":\"o\",\"entry\":\"e\",\"type\":\"post\"}";
    let payload = format!("{{\"message\":\"m\",\"post\":{}}}", entry);
    let env = interpret_response::<WeblogEntryResponse>(200, &wrap(&payload)).unwrap();
    assert_eq!(env.response.entry.title, "latest");
}
