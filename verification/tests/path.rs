use lichess_mock::client::{LichessApi, Mock};
use regex::Regex;

fn extract_game_id(path: &str) -> Option<String> {
    LichessApi::<Mock>::extract_game_id(path)
}

fn pattern() -> Regex {
    Regex::new(r"^/game/export/(?P<game_id>[^/]+)$").unwrap()
}

fn by_pattern(pattern: &Regex, path: &str) -> Option<String> {
    pattern.captures(path).map(|captures| captures["game_id"].to_string())
}

#[test]
fn export_path_yields_its_id() {
    assert_eq!(extract_game_id("/game/export/abc"), Some("abc".to_string()));
    assert_eq!(extract_game_id("/game/export/0J36WF0D"), Some("0J36WF0D".to_string()));
    assert_eq!(extract_game_id("/game/export/qAPyiPom"), Some("qAPyiPom".to_string()));
    assert_eq!(extract_game_id("/game/export/non-existent"), Some("non-existent".to_string()));
    assert_eq!(extract_game_id("/game/export/x"), Some("x".to_string()));
}

#[test]
fn id_may_hold_any_character_but_a_slash() {
    for id in [
        " ",
        "a b",
        "a\\b",
        "?moves=1",
        "#",
        "%2F",
        ".",
        "..",
        "a\nb",
        "\n",
        "a\n",
        "\t",
        "\0",
        "é",
        "日本語",
        "🙂",
        "a\u{301}",
        "\u{2215}",
        "\u{ff0f}",
        "game",
        "export",
        "^$",
    ] {
        let path = format!("/game/export/{}", id);
        assert_eq!(extract_game_id(&path), Some(id.to_string()), "path {:?}", path);
    }
}

#[test]
fn id_keeps_its_case() {
    assert_eq!(extract_game_id("/game/export/AbCdEf"), Some("AbCdEf".to_string()));
    assert_eq!(extract_game_id("/game/export/ÀÉî"), Some("ÀÉî".to_string()));
}

#[test]
fn long_id_is_kept_whole() {
    let id = "x".repeat(10_000);
    let path = format!("/game/export/{}", id);
    assert_eq!(extract_game_id(&path), Some(id));
}

#[test]
fn empty_id_is_no_match() {
    assert_eq!(extract_game_id("/game/export/"), None);
}

#[test]
fn trailing_slash_is_no_match() {
    assert_eq!(extract_game_id("/game/export/abc/"), None);
    assert_eq!(extract_game_id("/game/export//"), None);
    assert_eq!(extract_game_id("/game/export/é/"), None);
}

#[test]
fn extra_segment_is_no_match() {
    assert_eq!(extract_game_id("/game/export/abc/def"), None);
    assert_eq!(extract_game_id("/game/export/abc/def/ghi"), None);
    assert_eq!(extract_game_id("/game/export//abc"), None);
}

#[test]
fn missing_segment_is_no_match() {
    assert_eq!(extract_game_id(""), None);
    assert_eq!(extract_game_id("/"), None);
    assert_eq!(extract_game_id("/game"), None);
    assert_eq!(extract_game_id("/game/"), None);
    assert_eq!(extract_game_id("/game/export"), None);
    assert_eq!(extract_game_id("/game/abc"), None);
    assert_eq!(extract_game_id("/export/abc"), None);
    assert_eq!(extract_game_id("abc"), None);
}

#[test]
fn leading_content_is_no_match() {
    assert_eq!(extract_game_id(" /game/export/abc"), None);
    assert_eq!(extract_game_id("x/game/export/abc"), None);
    assert_eq!(extract_game_id("/api/game/export/abc"), None);
    assert_eq!(extract_game_id("//game/export/abc"), None);
    assert_eq!(extract_game_id("\n/game/export/abc"), None);
    assert_eq!(extract_game_id("https://host/game/export/abc"), None);
    assert_eq!(extract_game_id("/game/export//game/export/abc"), None);
}

#[test]
fn other_prefix_is_no_match() {
    assert_eq!(extract_game_id("/other/resource"), None);
    assert_eq!(extract_game_id("/Game/Export/abc"), None);
    assert_eq!(extract_game_id("/GAME/EXPORT/abc"), None);
    assert_eq!(extract_game_id("/game/export_abc"), None);
    assert_eq!(extract_game_id("/game/exports/abc"), None);
    assert_eq!(extract_game_id("/game/expor/tabc"), None);
    assert_eq!(extract_game_id("game/export/abc"), None);
    assert_eq!(extract_game_id("/game\\export\\abc"), None);
    assert_eq!(extract_game_id("/gаme/export/abc"), None);
}

#[test]
fn matcher_agrees_with_the_pattern_on_chosen_paths() {
    let pattern = pattern();
    for path in [
        "",
        "/",
        "/game/export",
        "/game/export/",
        "/game/export/a",
        "/game/export/abc",
        "/game/export/abc/",
        "/game/export/abc/def",
        "/game/export//",
        "/game/export/ ",
        "/game/export/\n",
        "/game/export/abc\n",
        "/game/export/abc\r\n",
        "/game/export/a\nb",
        "\n/game/export/abc",
        "/game/export/abc\n/game/export/def",
        "/game/export/\0",
        "/game/export/é",
        "/game/export/日本語",
        "/game/export/🙂/",
        "/game/export/\u{2215}",
        " /game/export/abc",
        "/game/export/abc ",
        "/GAME/EXPORT/abc",
        "/game/exportabc",
        "/game/export/0J36WF0D",
        "/game/export/qAPyiPom",
        "/game/export/non-existent",
        "/other/resource",
        "/game/export/game/export/abc",
        "/game/export/(?P<game_id>[^/]+)",
    ] {
        assert_eq!(extract_game_id(path), by_pattern(&pattern, path), "path {:?}", path);
    }
}

#[test]
fn matcher_agrees_with_the_pattern_on_short_paths() {
    let pattern = pattern();
    let parts = ["", "/", "/game", "/export", "/game/export", "/game/export/", "a", "B", "é", "\n", " "];
    for first in parts {
        for second in parts {
            for third in parts {
                let path = format!("{}{}{}", first, second, third);
                assert_eq!(extract_game_id(&path), by_pattern(&pattern, &path), "path {:?}", path);
            }
        }
    }
}
