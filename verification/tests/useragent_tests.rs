use kick_rust::fetch::useragent::{
    extract_platform, extract_sec_ch_ua, extract_version, generate_browser_fingerprint,
    get_latest_chrome_user_agent, get_random_user_agent, get_rotating_user_agent, get_user_agent,
    get_user_agent_count, is_user_agent_current,
};

#[test]
fn test_rotating_user_agent() {
    let ua1 = get_rotating_user_agent(0);
    let ua2 = get_rotating_user_agent(1);

    assert!(!ua1.is_empty());
    assert!(!ua2.is_empty());
    assert!(is_user_agent_current(ua1));
    assert!(is_user_agent_current(ua2));
}

#[test]
fn test_random_user_agent() {
    let ua = get_random_user_agent();
    assert!(!ua.is_empty());
    assert!(is_user_agent_current(&ua));
}

#[test]
fn random_user_agent_is_listed() {
    let ua = get_random_user_agent();
    let count = get_user_agent_count();
    assert!((0..count).any(|i| get_user_agent(i) == Some(ua)));
}

#[test]
fn test_browser_fingerprint() {
    let fingerprint = generate_browser_fingerprint(0);
    assert!(!fingerprint.user_agent.is_empty());
    assert!(!fingerprint.sec_ch_ua.is_empty());
    assert!(!fingerprint.sec_ch_ua_platform.is_empty());

    let headers = fingerprint.get_curl_headers();
    assert!(!headers.is_empty());
    assert!(headers.iter().any(|h| h.starts_with("User-Agent:")));
}

#[test]
fn test_user_agent_count() {
    let count = get_user_agent_count();
    assert!(count > 10);
}

#[test]
fn rotation_walks_the_list_and_starts_over() {
    let count = get_user_agent_count();
    assert_eq!(count, 16);
    for i in 0..count {
        assert_eq!(Some(get_rotating_user_agent(i)), get_user_agent(i));
        assert_eq!(get_rotating_user_agent(i + count), get_rotating_user_agent(i));
    }
    assert_eq!(get_user_agent(count), None);
    assert_eq!(get_latest_chrome_user_agent(), get_rotating_user_agent(0));
}

#[test]
fn listed_user_agents_are_current() {
    for i in 0..get_user_agent_count() {
        let ua = get_user_agent(i).unwrap();
        assert!(is_user_agent_current(ua), "agent {}", i);
    }
}

#[test]
fn is_user_agent_current_examples() {
    assert!(is_user_agent_current("Mozilla/5.0 Chrome/130.0"));
    assert!(is_user_agent_current("x Edg/131.0"));
    assert!(!is_user_agent_current("Mozilla/5.0 Chrome/120.0.0.0 Safari/537.36"));
    assert!(!is_user_agent_current(""));
}

#[test]
fn version_extraction() {
    let chrome = get_rotating_user_agent(1);
    assert_eq!(extract_version(chrome, "Chrome/"), Some("130"));
    assert_eq!(extract_version("Firefox/131.0; x", "Firefox/"), Some("131"));
    assert_eq!(extract_version("Chrome/129.0.0.0 Safari", "Chrome/"), Some("129"));
    assert_eq!(extract_version("Chrome/999.1 x", "Chrome/"), Some("131"));
    assert_eq!(extract_version("Edg/130.0.0.0", "Edg/"), Some("130"));
    assert_eq!(extract_version(get_rotating_user_agent(9), "Edg/"), Some("130"));
    assert_eq!(extract_version("nothing here", "Chrome/"), Some("131"));
}

#[test]
fn client_hints() {
    let chrome = get_rotating_user_agent(1);
    assert_eq!(
        extract_sec_ch_ua(chrome),
        "\"Google Chrome\";v=\"130\", \"Chromium\";v=\"130\", \"Not_A Brand\";v=\"99\""
    );
    let edge = get_rotating_user_agent(9);
    assert_eq!(
        extract_sec_ch_ua(edge),
        "\"Microsoft Edge\";v=\"130\", \"Chromium\";v=\"130\", \"Not_A Brand\";v=\"99\""
    );
    assert_eq!(extract_sec_ch_ua(get_rotating_user_agent(4)), "\"Firefox\";v=\"132\"");
    assert_eq!(extract_sec_ch_ua(get_rotating_user_agent(10)), "\"Safari\";v=\"18\"");
    assert_eq!(extract_sec_ch_ua("curl/8"), "\"Not_A Brand\";v=\"99\"");
    assert_eq!(extract_platform(chrome), "\"Windows\"");
    assert_eq!(extract_platform(get_rotating_user_agent(2)), "\"macOS\"");
    assert_eq!(extract_platform(get_rotating_user_agent(12)), "\"Linux\"");
    assert_eq!(extract_platform("curl/8"), "\"Unknown\"");
}

#[test]
fn fingerprint_and_curl_headers() {
    let f = generate_browser_fingerprint(3);
    assert_eq!(f.user_agent, get_rotating_user_agent(3));
    assert_eq!(f.sec_ch_ua_mobile, "false");
    assert_eq!(f.sec_ch_ua_platform, "\"macOS\"");
    assert_eq!(f.accept_language, "en-US,en;q=0.9");
    assert_eq!(f.accept_encoding, "gzip, deflate, br");
    let headers = f.get_curl_headers();
    assert_eq!(headers.len(), 13);
    assert_eq!(headers[0], "Accept: application/json, text/plain, */*");
    assert_eq!(headers[4], format!("Sec-Ch-Ua: {}", f.sec_ch_ua));
    assert_eq!(headers[12], format!("User-Agent: {}", f.user_agent));
}

#[test]
fn rotations_across_the_counter_wrap_visit_every_agent() {
    let count = get_user_agent_count();
    let mut seen = Vec::new();
    let mut counter = usize::MAX - 5;
    for _ in 0..count {
        seen.push(get_rotating_user_agent(counter));
        counter = counter.wrapping_add(1);
    }
    for i in 0..count {
        assert_eq!(seen.iter().filter(|ua| **ua == get_user_agent(i).unwrap()).count(), 1);
    }
}
