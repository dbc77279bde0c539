use geocache::validate::{
    address_query_code, agent_lines_worth_caching, filter_addresses, get_random_ua_string,
    is_valid_date_string, is_valid_uk_postcode, is_valid_zone_name, pick_user_agent,
    DEFAULT_USER_AGENT,
};

#[test]
fn date_strings() {
    assert!(is_valid_date_string("2024-03-31"));
    assert!(is_valid_date_string("2024-03-31T12:00:00"));
    assert!(!is_valid_date_string("31-03-2024"));
    assert!(!is_valid_date_string("2024-23-31"));
}

#[test]
fn zone_names() {
    assert!(is_valid_zone_name("Europe/London"));
    assert!(is_valid_zone_name("America/Argentina/Salta"));
    assert!(!is_valid_zone_name("London"));
    assert!(!is_valid_zone_name("/London"));
}

#[test]
fn uk_postcodes() {
    assert!(is_valid_uk_postcode("E1 6AN"));
    assert!(is_valid_uk_postcode("EC1 2AB"));
    assert!(!is_valid_uk_postcode("e1 6an"));
    assert!(!is_valid_uk_postcode("SW1A 1AA"));
}

#[test]
fn postcode_is_trimmed_and_upper_cased() {
    assert_eq!(address_query_code("  e1 6an \n"), Some(String::from("E1 6AN")));
    assert_eq!(address_query_code("75001"), None);
}

#[test]
fn addresses_mentioning_the_code() {
    let all = vec![
        String::from("1 Main Street, London E1 6AN"),
        String::from("2 Other Road, London N1 1AA"),
        String::from("3 Lane, london e1 6an"),
    ];
    let kept = filter_addresses(&all, "E1 6AN");
    assert_eq!(kept, vec![String::from("1 Main Street, London E1 6AN"), String::from("3 Lane, london e1 6an")]);
    assert!(filter_addresses(&vec![], "E1 6AN").is_empty());
    assert_eq!(filter_addresses(&all, "(").len(), 3);
}

#[test]
fn user_agent_choice() {
    let lines = vec![String::from("a"), String::from("b"), String::from("c")];
    assert_eq!(pick_user_agent(&lines, 4), "b");
    assert_eq!(pick_user_agent(&lines, 0), "a");
    assert_eq!(pick_user_agent(&vec![String::from("a")], 9), DEFAULT_USER_AGENT);
    assert_eq!(pick_user_agent(&vec![], 9), DEFAULT_USER_AGENT);
    let r = get_random_ua_string(&lines);
    assert!(lines.contains(&r));
    assert_eq!(get_random_ua_string(&vec![]), DEFAULT_USER_AGENT);
    assert!(!agent_lines_worth_caching(&lines));
    let six: Vec<String> = (0..6).map(|i| format!("ua{}", i)).collect();
    assert!(agent_lines_worth_caching(&six));
}
