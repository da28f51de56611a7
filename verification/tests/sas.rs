use azure_service_bus::connection::{connection_value, replace_sb_scheme, replace_scheme};
use azure_service_bus::encoding::{utf8_percent_encode, EncodeSet};
use azure_service_bus::sas::{
    assemble_token, generate_sas, generate_sas_at, secs_of_reading, signing_message,
    CredentialCache,
    SAS_BUFFER_TIME, TOKEN_LIFETIME_SECS,
};
use azure_service_bus::text::{append_decimal, chars_of, is_space_char, string_of_range};

fn now_secs() -> u64 {
    std::time::SystemTime::now()
        .duration_since(std::time::UNIX_EPOCH)
        .unwrap()
        .as_secs()
}

fn expiry_field(token: &str) -> u64 {
    let field = token.split("&se=").nth(1).unwrap();
    field.split('&').next().unwrap().parse().unwrap()
}

const CONN: &str = "Endpoint=sb://ns.servicebus.windows.net/;SharedAccessKeyName=RootManageSharedAccessKey;SharedAccessKey=c2VjcmV0LWtleQ==";

const TOKEN_1360: &str = "SharedAccessSignature sig=m6nyUsbbIa3mqKMw%2FXHgVaw7%2FqRrdqlXJ84rKdd8S4A%3D&se=1360&skn=RootManageSharedAccessKey&sr=sb%3A%2F%2Fns.servicebus.windows.net%2F";

const TOKEN_2361: &str = "SharedAccessSignature sig=jaao8SYVH1zj4sX1JzvNb192FaKOfyv79p9rZE3DSNg%3D&se=2361&skn=RootManageSharedAccessKey&sr=sb%3A%2F%2Fns.servicebus.windows.net%2F";

#[test]
fn userinfo_set_escapes_reserved_characters() {
    let encoded = utf8_percent_encode("sb://ns.servicebus.windows.net/", EncodeSet::UserInfo);
    assert_eq!(encoded, "sb%3A%2F%2Fns.servicebus.windows.net%2F");
    for c in " \"#<>`?{}/:;=@\\[]^|".chars() {
        assert!(!encoded.contains(c));
    }
}

#[test]
fn userinfo_set_escapes_every_member() {
    let encoded = utf8_percent_encode(" \"#<>`?{}/:;=@\\[]^|\u{1}\u{7f}", EncodeSet::UserInfo);
    assert_eq!(
        encoded,
        "%20%22%23%3C%3E%60%3F%7B%7D%2F%3A%3B%3D%40%5C%5B%5D%5E%7C%01%7F"
    );
}

#[test]
fn userinfo_set_keeps_other_characters() {
    assert_eq!(
        utf8_percent_encode("abcXYZ019-._~!$&'()*+,%", EncodeSet::UserInfo),
        "abcXYZ019-._~!$&'()*+,%"
    );
}

#[test]
fn signature_set_escapes_base64_punctuation() {
    assert_eq!(utf8_percent_encode("a+b/c=", EncodeSet::Signature), "a%2Bb%2Fc%3D");
    assert_eq!(utf8_percent_encode("a:b;c d", EncodeSet::Signature), "a:b;c d");
}

#[test]
fn bytes_outside_ascii_are_escaped() {
    assert_eq!(utf8_percent_encode("\u{e9}", EncodeSet::UserInfo), "%C3%A9");
    assert_eq!(utf8_percent_encode("\u{20ac}", EncodeSet::Signature), "%E2%82%AC");
}

#[test]
fn set_membership() {
    assert!(EncodeSet::UserInfo.contains(b':'));
    assert!(!EncodeSet::UserInfo.contains(b'+'));
    assert!(EncodeSet::Signature.contains(b'+'));
    assert!(!EncodeSet::Signature.contains(b':'));
    assert!(EncodeSet::Signature.contains(0x1f));
    assert!(!EncodeSet::UserInfo.contains(b'%'));
}

#[test]
fn decimal_numerals() {
    let mut text = String::from("n=");
    append_decimal(&mut text, 0);
    assert_eq!(text, "n=0");
    let mut text = String::new();
    append_decimal(&mut text, 42);
    assert_eq!(text, "42");
    let mut text = String::new();
    append_decimal(&mut text, u64::MAX);
    assert_eq!(text, "18446744073709551615");
}

#[test]
fn characters_and_ranges() {
    let chars = chars_of("a\u{e9}c");
    assert_eq!(chars, vec!['a', '\u{e9}', 'c']);
    assert_eq!(string_of_range(&chars, 1, 3), "\u{e9}c");
    assert!(is_space_char(' '));
    assert!(is_space_char('\u{a0}'));
    assert!(is_space_char('\t'));
    assert!(!is_space_char('a'));
    assert!(!is_space_char('\u{200b}'));
}

#[test]
fn connection_fields_are_found() {
    assert_eq!(
        connection_value(CONN, "Endpoint").as_deref(),
        Some("sb://ns.servicebus.windows.net/")
    );
    assert_eq!(
        connection_value(CONN, "SharedAccessKeyName").as_deref(),
        Some("RootManageSharedAccessKey")
    );
    assert_eq!(
        connection_value(CONN, "SharedAccessKey").as_deref(),
        Some("c2VjcmV0LWtleQ==")
    );
    assert_eq!(connection_value(CONN, "EntityPath"), None);
}

#[test]
fn connection_keys_are_trimmed_and_the_last_one_counts() {
    assert_eq!(
        connection_value(" Endpoint =a;Endpoint=b  ", "Endpoint").as_deref(),
        Some("b")
    );
    assert_eq!(
        connection_value("Endpoint= a ;Other=1", "Endpoint").as_deref(),
        Some(" a")
    );
    assert_eq!(connection_value("", "Endpoint"), None);
    assert_eq!(connection_value("=x", "").as_deref(), Some("x"));
}

#[test]
fn segment_without_equals_is_a_key_with_an_empty_value() {
    assert_eq!(
        connection_value("Endpoint=a; Endpoint ", "Endpoint").as_deref(),
        Some("")
    );
    assert_eq!(connection_value("Endpoint", "Endpoint").as_deref(), Some(""));
}

#[test]
fn scheme_of_the_service_is_rewritten() {
    assert_eq!(
        replace_sb_scheme("sb://ns.servicebus.windows.net/"),
        "https://ns.servicebus.windows.net/"
    );
    assert_eq!(replace_sb_scheme("sb://a/sb://b"), "https://a/https://b");
    assert_eq!(replace_sb_scheme("ssb:/sb:"), "ssb:/sb:");
    assert_eq!(replace_sb_scheme(""), "");
    assert_eq!(
        replace_scheme("sb://ns.servicebus.windows.net/"),
        "https://ns.servicebus.windows.net/"
    );
    assert_eq!(replace_scheme("host"), "httpshost");
    assert_eq!(replace_scheme(""), "https");
}

#[test]
fn token_follows_the_grammar() {
    let (token, expiry) = generate_sas_at(CONN, 1000, 360);
    assert_eq!(expiry, 1360);
    assert_eq!(token, TOKEN_1360);
}

#[test]
fn token_of_an_empty_connection_string() {
    let (token, expiry) = generate_sas_at("", 0, 360);
    assert_eq!(expiry, 360);
    assert_eq!(
        token,
        "SharedAccessSignature sig=wdRVfN9NkDief7aRCzfmT80W2BtCfL1FZAuF8bmmRKo%3D&se=360&skn=&sr="
    );
}

#[test]
fn expiry_is_clamped() {
    let (token, expiry) = generate_sas_at(CONN, u64::MAX - 10, 360);
    assert_eq!(expiry, u64::MAX);
    assert!(token.contains("&se=18446744073709551615&"));
    let (_, expiry) = generate_sas_at(CONN, 5, u64::MAX);
    assert_eq!(expiry, u64::MAX);
}

#[test]
fn token_for_the_present_time() {
    let before = now_secs();
    let (token, expiry) = generate_sas(CONN, 360);
    let after = now_secs();
    assert!(before + 360 <= expiry && expiry <= after + 360);
    assert_eq!(token, generate_sas_at(CONN, expiry - 360, 360).0);
}

#[test]
fn token_parts() {
    assert_eq!(signing_message("sb%3A%2F%2Fx", 17), "sb%3A%2F%2Fx\n17");
    assert_eq!(
        assemble_token("SIG", 17, "name", "res"),
        "SharedAccessSignature sig=SIG&se=17&skn=name&sr=res"
    );
}

#[test]
fn cache_is_filled_with_a_buffered_expiry() {
    let cache = CredentialCache::new_at(CONN, 1000);
    assert_eq!(TOKEN_LIFETIME_SECS, 360);
    assert_eq!(SAS_BUFFER_TIME, 15);
    assert_eq!(cache.expires_at, 1345);
    assert_eq!(cache.token, TOKEN_1360);
    assert_eq!(cache.connection_string, CONN);
}

#[test]
fn cache_keeps_a_valid_token() {
    let mut cache = CredentialCache::new_at(CONN, 1000);
    let first = cache.get_valid_at(1001);
    let second = cache.get_valid_at(1345);
    assert_eq!(first, second);
    assert_eq!(first, TOKEN_1360);
    assert_eq!(cache.expires_at, 1345);
}

#[test]
fn cache_replaces_a_stale_token() {
    let mut cache = CredentialCache::new_at(CONN, 1000);
    let token = cache.get_valid_at(2001);
    assert_eq!(token, TOKEN_2361);
    assert_eq!(cache.token, TOKEN_2361);
    assert_eq!(cache.expires_at, 2346);
    assert!(expiry_field(&token) > expiry_field(TOKEN_1360));
    assert_eq!(expiry_field(&token), 2361);
}

#[test]
fn cache_refreshes_one_second_after_the_expiry() {
    let mut cache = CredentialCache::new_at(CONN, 1000);
    assert_eq!(cache.get_valid_at(1345), TOKEN_1360);
    let token = cache.get_valid_at(1346);
    assert_ne!(token, TOKEN_1360);
    assert_eq!(cache.expires_at, 1346 + 360 - 15);
}

#[test]
fn cache_for_the_present_time() {
    let mut cache = CredentialCache::new(CONN);
    let first = cache.get_valid();
    let second = cache.get_valid();
    assert_eq!(first, second);
    assert_eq!(first, generate_sas_at(CONN, cache.expires_at + 15 - 360, 360).0);
}

#[test]
fn clock_before_the_epoch_reads_as_zero() {
    assert_eq!(secs_of_reading(None), 0);
    assert_eq!(secs_of_reading(Some(0)), 0);
    assert_eq!(secs_of_reading(Some(1_700_000_000)), 1_700_000_000);
    assert_eq!(secs_of_reading(Some(u64::MAX)), u64::MAX);
}
