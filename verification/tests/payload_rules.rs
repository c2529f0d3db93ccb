use hytale_presence::builder::{build, build_with_party_id, buttons, join_url, server_state};
use hytale_presence::config::{ActivityConfig, ActivityKind};
use hytale_presence::payload::{ActivityPayload, Assets, Button, Party};
use hytale_presence::token::{fresh_party_id, party_id_from_token};

fn config(activity_type: &str) -> ActivityConfig {
    ActivityConfig {
        activity_type: activity_type.to_string(),
        custom_activity: None,
        server_name: None,
        show_elapsed: false,
        on_server: false,
        party_size: 0,
        party_max: 0,
        join_server_url: None,
        show_orbis_button: false,
    }
}

fn details_of(activity_type: &str, custom: Option<&str>) -> String {
    let mut request = config(activity_type);
    request.custom_activity = custom.map(|text| text.to_string());
    build_with_party_id(&request, None, "p".to_string()).details
}

fn url(raw: &str) -> Option<String> {
    join_url(&Some(raw.to_string()))
}

#[test]
fn details_follow_the_table() {
    assert_eq!(details_of("exploring", None), "Exploring the Alterverse");
    assert_eq!(details_of("building", None), "Building in Creative Mode");
    assert_eq!(details_of("pvp", None), "Fighting in PvP Arena");
    assert_eq!(details_of("dungeon", None), "Raiding a Dungeon");
    assert_eq!(details_of("taming", None), "Taming Creatures");
    assert_eq!(details_of("crafting", None), "Crafting Items");
    assert_eq!(details_of("adventure", None), "Adventuring with Friends");
}

#[test]
fn details_of_unknown_tags_are_the_default() {
    for tag in ["", "fishing", "Exploring", "PVP", "pvp ", " pvp", "explorin", "customs", "niño"] {
        assert_eq!(details_of(tag, None), "Playing Hytale", "{:?}", tag);
        assert_eq!(details_of(tag, Some("Fishing")), "Playing Hytale", "{:?}", tag);
    }
}

#[test]
fn table_rows_ignore_the_custom_activity() {
    assert_eq!(details_of("exploring", Some("Fishing")), "Exploring the Alterverse");
    assert_eq!(details_of("pvp", Some("")), "Fighting in PvP Arena");
    assert_eq!(details_of("adventure", Some("Fishing")), "Adventuring with Friends");
}

#[test]
fn custom_activity_empty_falls_back() {
    assert_eq!(details_of("custom", Some("")), "Playing Hytale");
}

#[test]
fn custom_activity_is_shown() {
    assert_eq!(details_of("custom", Some("Fishing")), "Fishing");
    assert_eq!(details_of("custom", Some(" ")), " ");
    assert_eq!(details_of("custom", Some("Pêche à la ligne")), "Pêche à la ligne");
}

#[test]
fn custom_activity_absent_falls_back() {
    assert_eq!(details_of("custom", None), "Playing Hytale");
}

#[test]
fn kinds_come_from_tags() {
    assert_eq!(ActivityKind::from_tag("exploring"), ActivityKind::Exploring);
    assert_eq!(ActivityKind::from_tag("building"), ActivityKind::Building);
    assert_eq!(ActivityKind::from_tag("pvp"), ActivityKind::Pvp);
    assert_eq!(ActivityKind::from_tag("dungeon"), ActivityKind::Dungeon);
    assert_eq!(ActivityKind::from_tag("taming"), ActivityKind::Taming);
    assert_eq!(ActivityKind::from_tag("crafting"), ActivityKind::Crafting);
    assert_eq!(ActivityKind::from_tag("adventure"), ActivityKind::Adventure);
    assert_eq!(ActivityKind::from_tag("custom"), ActivityKind::Custom);
    assert_eq!(ActivityKind::from_tag("Custom"), ActivityKind::Other);
    assert_eq!(ActivityKind::from_tag(""), ActivityKind::Other);
}

#[test]
fn kind_headlines() {
    let custom = Some("Fishing".to_string());
    assert_eq!(ActivityKind::Dungeon.details(&custom), "Raiding a Dungeon");
    assert_eq!(ActivityKind::Custom.details(&custom), "Fishing");
    assert_eq!(ActivityKind::Custom.details(&None), "Playing Hytale");
    assert_eq!(ActivityKind::Other.details(&custom), "Playing Hytale");
}

#[test]
fn off_server_hides_state_and_party() {
    let mut request = config("pvp");
    request.on_server = false;
    request.server_name = Some("Orbis Prime".to_string());
    request.party_size = 3;
    request.party_max = 8;
    let payload = build(&request, Some(1_700_000_000));
    assert_eq!(payload.state, None);
    assert_eq!(payload.party, None);
}

#[test]
fn on_server_shows_state_and_party() {
    let mut request = config("pvp");
    request.on_server = true;
    request.server_name = Some("Orbis Prime".to_string());
    request.party_size = 3;
    request.party_max = 8;
    let payload = build_with_party_id(&request, None, "hytale-party-x".to_string());
    assert_eq!(payload.state, Some("Playing on Orbis Prime".to_string()));
    assert_eq!(
        payload.party,
        Some(Party { id: "hytale-party-x".to_string(), size: 3, max: 8 })
    );
}

#[test]
fn empty_server_name_keeps_the_party() {
    let mut request = config("pvp");
    request.on_server = true;
    request.server_name = Some(String::new());
    request.party_size = 1;
    request.party_max = 4;
    let payload = build(&request, None);
    assert_eq!(payload.state, None);
    let party = payload.party.expect("party is attached on a server");
    assert_eq!((party.size, party.max), (1, 4));
    assert!(party.id.starts_with("hytale-party-"));
}

#[test]
fn absent_server_name_keeps_the_party() {
    let mut request = config("pvp");
    request.on_server = true;
    request.server_name = None;
    let payload = build_with_party_id(&request, None, "id".to_string());
    assert_eq!(payload.state, None);
    assert_eq!(payload.party, Some(Party { id: "id".to_string(), size: 0, max: 0 }));
}

#[test]
fn server_state_rule() {
    assert_eq!(server_state(true, &Some("A".to_string())), Some("Playing on A".to_string()));
    assert_eq!(server_state(true, &Some(" ".to_string())), Some("Playing on  ".to_string()));
    assert_eq!(server_state(true, &Some(String::new())), None);
    assert_eq!(server_state(true, &None), None);
    assert_eq!(server_state(false, &Some("A".to_string())), None);
    assert_eq!(server_state(false, &None), None);
}

#[test]
fn party_sizes_pass_through_unchanged() {
    let mut request = config("pvp");
    request.on_server = true;
    request.party_size = i32::MIN;
    request.party_max = i32::MAX;
    let payload = build_with_party_id(&request, None, "id".to_string());
    assert_eq!(payload.party, Some(Party { id: "id".to_string(), size: i32::MIN, max: i32::MAX }));
    request.party_size = 9;
    request.party_max = 2;
    let payload = build_with_party_id(&request, None, "id".to_string());
    assert_eq!(payload.party, Some(Party { id: "id".to_string(), size: 9, max: 2 }));
}

#[test]
fn hidden_elapsed_time_has_no_timestamp() {
    let mut request = config("pvp");
    request.show_elapsed = false;
    assert_eq!(build(&request, Some(1_700_000_000)).timestamp, None);
    assert_eq!(build(&request, None).timestamp, None);
}

#[test]
fn shown_elapsed_time_starts_at_the_session_start() {
    let mut request = config("pvp");
    request.show_elapsed = true;
    assert_eq!(build(&request, Some(1_700_000_000)).timestamp, Some(1_700_000_000));
    assert_eq!(build(&request, Some(0)).timestamp, Some(0));
    assert_eq!(build(&request, Some(-5)).timestamp, Some(-5));
    assert_eq!(build(&request, Some(i64::MAX)).timestamp, Some(i64::MAX));
    assert_eq!(build(&request, None).timestamp, None);
}

#[test]
fn join_url_gets_a_scheme() {
    assert_eq!(url("example.com"), Some("https://example.com".to_string()));
}

#[test]
fn join_url_of_blank_is_absent() {
    assert_eq!(url("  "), None);
    assert_eq!(url(""), None);
    assert_eq!(url("\t\n"), None);
    assert_eq!(join_url(&None), None);
}

#[test]
fn join_url_with_scheme_is_unchanged() {
    assert_eq!(url("http://x.com"), Some("http://x.com".to_string()));
    assert_eq!(url("https://x.com"), Some("https://x.com".to_string()));
}

#[test]
fn join_url_is_trimmed_first() {
    assert_eq!(url("  example.com  "), Some("https://example.com".to_string()));
    assert_eq!(url(" http://x.com\n"), Some("http://x.com".to_string()));
    assert_eq!(url("\u{3000}https://x.com"), Some("https://x.com".to_string()));
    assert_eq!(url("ex ample.com"), Some("https://ex ample.com".to_string()));
}

#[test]
fn join_url_scheme_test_is_exact() {
    assert_eq!(url("HTTP://x.com"), Some("https://HTTP://x.com".to_string()));
    assert_eq!(url("http:/x.com"), Some("https://http:/x.com".to_string()));
    assert_eq!(url("ftp://x.com"), Some("https://ftp://x.com".to_string()));
    assert_eq!(url("http://"), Some("http://".to_string()));
    assert_eq!(url("https://"), Some("https://".to_string()));
    assert_eq!(url("play.hytale.com:25565"), Some("https://play.hytale.com:25565".to_string()));
}

#[test]
fn buttons_are_absent_by_default() {
    assert_eq!(buttons(&None, false), vec![]);
    assert_eq!(buttons(&Some("   ".to_string()), false), vec![]);
}

#[test]
fn join_button_alone() {
    assert_eq!(
        buttons(&Some("example.com".to_string()), false),
        vec![Button { label: "Join Server".to_string(), url: "https://example.com".to_string() }]
    );
}

#[test]
fn orbis_button_alone() {
    let expected = vec![Button {
        label: "Discover more on Orbis".to_string(),
        url: "https://orbis.place".to_string(),
    }];
    assert_eq!(buttons(&None, true), expected);
    assert_eq!(buttons(&Some(" ".to_string()), true), expected);
}

#[test]
fn join_button_comes_first() {
    assert_eq!(
        buttons(&Some("http://x.com".to_string()), true),
        vec![
            Button { label: "Join Server".to_string(), url: "http://x.com".to_string() },
            Button {
                label: "Discover more on Orbis".to_string(),
                url: "https://orbis.place".to_string(),
            },
        ]
    );
}

#[test]
fn assets_are_the_logo_and_the_activity() {
    let mut request = config("custom");
    request.custom_activity = Some("Fishing".to_string());
    let payload = build(&request, None);
    assert_eq!(
        payload.assets,
        Assets {
            large_image: "hytale_logo".to_string(),
            large_text: "Hytale".to_string(),
            small_image: "custom".to_string(),
            small_text: "Fishing".to_string(),
        }
    );
    let payload = build(&config("Not A Tag"), None);
    assert_eq!(payload.assets.small_image, "Not A Tag");
    assert_eq!(payload.assets.small_text, "Playing Hytale");
}

#[test]
fn whole_payload_on_a_server() {
    let request = ActivityConfig {
        activity_type: "dungeon".to_string(),
        custom_activity: Some("ignored".to_string()),
        server_name: Some("Kweebec Corner".to_string()),
        show_elapsed: true,
        on_server: true,
        party_size: 2,
        party_max: 5,
        join_server_url: Some(" kweebec.example ".to_string()),
        show_orbis_button: true,
    };
    let payload = build_with_party_id(&request, Some(1_735_689_600), "hytale-party-abc".to_string());
    let expected = ActivityPayload {
        details: "Raiding a Dungeon".to_string(),
        state: Some("Playing on Kweebec Corner".to_string()),
        assets: Assets {
            large_image: "hytale_logo".to_string(),
            large_text: "Hytale".to_string(),
            small_image: "dungeon".to_string(),
            small_text: "Raiding a Dungeon".to_string(),
        },
        timestamp: Some(1_735_689_600),
        party: Some(Party { id: "hytale-party-abc".to_string(), size: 2, max: 5 }),
        buttons: vec![
            Button { label: "Join Server".to_string(), url: "https://kweebec.example".to_string() },
            Button {
                label: "Discover more on Orbis".to_string(),
                url: "https://orbis.place".to_string(),
            },
        ],
    };
    assert_eq!(payload, expected);
}

#[test]
fn whole_payload_with_nothing_switched_on() {
    let payload = build(&config("whatever"), Some(42));
    let expected = ActivityPayload {
        details: "Playing Hytale".to_string(),
        state: None,
        assets: Assets {
            large_image: "hytale_logo".to_string(),
            large_text: "Hytale".to_string(),
            small_image: "whatever".to_string(),
            small_text: "Playing Hytale".to_string(),
        },
        timestamp: None,
        party: None,
        buttons: vec![],
    };
    assert_eq!(payload, expected);
}

#[test]
fn party_id_has_the_prefix_and_a_random_uuid() {
    let id = fresh_party_id();
    let token = id.strip_prefix("hytale-party-").expect("prefix");
    assert_eq!(token.len(), 36);
    let parsed = uuid::Uuid::parse_str(token).expect("a UUID");
    assert_eq!(parsed.get_version_num(), 4);
    assert_eq!(parsed.get_variant(), uuid::Variant::RFC4122);
    assert_eq!(parsed.hyphenated().to_string(), token);
    for (index, c) in token.chars().enumerate() {
        if index == 8 || index == 13 || index == 18 || index == 23 {
            assert_eq!(c, '-');
        } else {
            assert!(matches!(c, '0'..='9' | 'a'..='f'), "{:?}", token);
        }
    }
    assert_eq!(token.chars().nth(14), Some('4'));
    assert!(matches!(token.chars().nth(19), Some('8' | '9' | 'a' | 'b')));
}

#[test]
fn party_ids_are_fresh_per_build() {
    let mut request = config("pvp");
    request.on_server = true;
    let first = build(&request, None).party.expect("party").id;
    let second = build(&request, None).party.expect("party").id;
    assert_ne!(first, second);
    assert_ne!(fresh_party_id(), fresh_party_id());
}

#[test]
fn party_id_from_a_given_token() {
    assert_eq!(
        party_id_from_token("936da01f-9abd-4d9d-80c7-02af85c822a8"),
        "hytale-party-936da01f-9abd-4d9d-80c7-02af85c822a8"
    );
    assert_eq!(party_id_from_token(""), "hytale-party-");
}
