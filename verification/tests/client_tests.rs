use omglol::client::{HttpVerb, OmglolClient};
use omglol::structures::{Paste, Status, Web};

#[test]
fn new_handle_has_no_credential() {
    let client = OmglolClient::new();
    assert!(!client.has_key());
}

#[test]
fn upgrade_leaves_original_usable() {
    let client = OmglolClient::new();
    let upgraded = client.auth("T1".to_string());
    assert!(upgraded.has_key());
    // the original handle is unaffected and still prepares public calls
    assert!(!client.has_key());
    let public_req = client.get_profile_themes();
    assert_eq!(public_req.url, "https://api.omg.lol/theme/list");
    assert_eq!(public_req.bearer, None);
    // the new handle attaches its bearer token
    let auth_req = upgraded.get_web_page("example");
    assert_eq!(auth_req.bearer, Some("T1".to_string()));
}

#[test]
fn public_calls_carry_no_bearer() {
    let client = OmglolClient::new();
    let req = client.get_all_statuses("somebody");
    assert_eq!(req.method, HttpVerb::Get);
    assert_eq!(req.url, "https://api.omg.lol/address/somebody/statuses");
    assert_eq!(req.bearer, None);
    assert_eq!(req.body, None);
}

#[test]
fn service_status_url() {
    let client = OmglolClient::new();
    let req = client.service_status();
    assert_eq!(req.url, "https://api.omg.lol/service/info");
}

#[test]
fn paste_urls() {
    let client = OmglolClient::new();
    let listed = client.get_listed_pastes("example");
    assert_eq!(listed.url, "https://api.omg.lol/address/example/pastebin");
    let one = client.get_paste("example", "notes");
    assert_eq!(one.url, "https://api.omg.lol/address/example/pastebin/notes");
    let up = client.upload_paste("example", Paste::new("t".to_string(), "c".to_string()));
    assert_eq!(up.method, HttpVerb::Post);
    assert_eq!(up.url, "https://api.omg.lol/address/example/pastebin");
    assert_eq!(up.body, Some("{\"title\":\"t\",\"content\":\"c\"}".to_string()));
}

#[test]
fn delete_endpoints_use_delete_verb() {
    let client = OmglolClient::new().auth("k".to_string());
    let del_rec = client.delete_dns_record("example", "77");
    assert_eq!(del_rec.method, HttpVerb::Delete);
    assert_eq!(del_rec.url, "https://api.omg.lol/address/example/dns/77");
    let del_purl = client.delete_purl("example", "short");
    assert_eq!(del_purl.method, HttpVerb::Delete);
    assert_eq!(del_purl.url, "https://api.omg.lol/address/example/purl/short");
}

#[test]
fn delete_paste_sends_no_credential() {
    let client = OmglolClient::new().auth("k".to_string());
    let req = client.delete_paste("example", "old-notes");
    assert_eq!(req.method, HttpVerb::Delete);
    assert_eq!(req.url, "https://api.omg.lol/address/example/pastebin/old-notes");
    assert_eq!(req.bearer, None);
}

#[test]
fn post_status_targets_status_address() {
    let client = OmglolClient::new().auth("k".to_string());
    let mut status = Status::new("✨".to_string(), "hi".to_string(), None);
    status.address = "mine".to_string();
    let req = client.post_status(&status);
    assert_eq!(req.method, HttpVerb::Post);
    assert_eq!(req.url, "https://api.omg.lol/address/mine/statuses");
    assert_eq!(
        req.body,
        Some("{\"emoji\":\"✨\",\"content\":\"hi\",\"external_url\":null}".to_string())
    );
}

#[test]
fn update_web_page_sends_content_body() {
    let client = OmglolClient::new().auth("k".to_string());
    let web = Web::new("hello".to_string());
    let req = client.update_web_page(&web, "example");
    assert_eq!(req.method, HttpVerb::Post);
    assert_eq!(req.url, "https://api.omg.lol/address/example/web");
    assert_eq!(req.body, Some("{\"content\":\"hello\"}".to_string()));
}

#[test]
fn set_forwarding_addresses_quirks() {
    // this endpoint goes out as a GET with a body, as the service expects
    let client = OmglolClient::new().auth("k".to_string());
    let addrs = vec!["a@example.net".to_string(), "b@example.net".to_string()];
    let req = client.set_forwarding_addresses("example", &addrs);
    assert_eq!(req.method, HttpVerb::Get);
    assert_eq!(req.url, "https://api.omg.lol/address/example/email");
    assert_eq!(
        req.body,
        Some("{\"destination\": \"a@example.net, b@example.net\"}".to_string())
    );
}

#[test]
fn weblog_urls() {
    let client = OmglolClient::new().auth("k".to_string());
    let entry = client.get_weblog_entry("abc", "example");
    assert_eq!(entry.url, "https://api.omg.lol/address/example/weblog/entry/abc");
    let conf = client.get_weblog_configuration("example");
    assert_eq!(conf.url, "https://api.omg.lol/address/example/weblog/configuration");
    let tmpl = client.update_weblog_template("<html>", "example");
    assert_eq!(tmpl.url, "https://api.omg.lol/address/example/weblog/template");
    assert_eq!(tmpl.body, Some("<html>".to_string()));
    let noauth = OmglolClient::new();
    let latest = noauth.get_latest_weblog_post("example");
    assert_eq!(latest.url, "https://api.omg.lol/address/example/weblog/post/latest");
    assert_eq!(latest.bearer, None);
}

#[test]
fn account_urls() {
    let client = OmglolClient::new().auth("k".to_string());
    let info = client.get_account_info("me@example.net");
    assert_eq!(info.url, "https://api.omg.lol/account/me@example.net/info");
    let exp = client.get_address_expiration("example");
    assert_eq!(exp.url, "https://api.omg.lol/account/example/expiration");
    let pub_info = OmglolClient::new().get_public_address_info("example");
    assert_eq!(pub_info.url, "https://api.omg.lol/account/example/info");
}

#[test]
fn statuslog_urls() {
    let client = OmglolClient::new().auth("k".to_string());
    let one = client.get_status("example", "id9");
    assert_eq!(one.url, "https://api.omg.lol/address/example/statuses/id9");
    let bio = OmglolClient::new().get_statuslog_bio("example");
    assert_eq!(bio.url, "https://api.omg.lol/address/example/statuses/bio");
    let upd = client.update_statuslog_bio("text".to_string(), "example");
    assert_eq!(upd.url, "https://api.omg.lol/address/example/statuses/bio");
    assert_eq!(upd.body, Some("{\"content\": \"text\"}".to_string()));
}
