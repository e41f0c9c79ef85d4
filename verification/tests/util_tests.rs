use promptplay::chat::{build_system_prompt, chat_outcome, collect_text, missing_key_response, ContentPart};
use promptplay::files::{game_json_path, listing_le_exec, sort_listing, FileInfo};
use promptplay::input::{Action, InputState};
use promptplay::strutil::{str_contains, str_ends_with, str_eq, str_le};
use promptplay::watch::{watch_event_emits, WatchEventKind};

#[test]
fn string_equality_is_by_characters() {
    assert!(str_eq("hello", "hello"));
    assert!(!str_eq("hello", "hellO"));
    assert!(!str_eq("hello", "hello "));
    assert!(str_eq("", ""));
    assert!(str_eq("naïve", "naïve"));
}

#[test]
fn lexicographic_order_on_scalars() {
    assert!(str_le("apple", "banana"));
    assert!(!str_le("banana", "apple"));
    assert!(str_le("app", "apple"));
    assert!(!str_le("apple", "app"));
    assert!(str_le("same", "same"));
    assert!(str_le("", "a"));
}

#[test]
fn substring_and_suffix_search() {
    assert!(str_contains("/home/user/.config/x", "/."));
    assert!(!str_contains("/home/user/config/x", "/."));
    assert!(str_contains("abc", ""));
    assert!(str_ends_with("backup~", "~"));
    assert!(str_ends_with("data.tmp", ".tmp"));
    assert!(!str_ends_with("data.tmpx", ".tmp"));
    assert!(!str_ends_with("a", "abc"));
}

#[test]
fn key_mapping_and_snapshot_state() {
    let mut s = InputState::new();
    assert!(!s.is_down(Action::MoveLeft));
    s.key_down("ArrowLeft");
    assert!(s.is_down(Action::MoveLeft));
    s.key_down("KeyD");
    assert!(s.is_down(Action::MoveRight));
    s.key_down("Space");
    assert!(s.is_down(Action::Jump));
    // Unrecognized keys are ignored, never an error.
    s.key_down("KeyQ");
    s.key_up("F13");
    assert!(s.is_down(Action::MoveLeft) && s.is_down(Action::MoveRight) && s.is_down(Action::Jump));
    s.key_up("KeyA");
    assert!(!s.is_down(Action::MoveLeft));
    s.key_up("ArrowRight");
    assert!(!s.is_down(Action::MoveRight));
    s.key_up("KeyW");
    assert!(!s.is_down(Action::Jump));
}

fn file(name: &str, is_directory: bool) -> FileInfo {
    FileInfo { name: name.to_string(), path: format!("/p/{}", name), is_directory }
}

#[test]
fn listing_sorts_directories_first_then_case_insensitive() {
    let mut files = vec![
        file("b.txt", false),
        file("Zeta", true),
        file("Apple.txt", false),
        file("alpha", true),
    ];
    sort_listing(&mut files);
    let names: Vec<&str> = files.iter().map(|f| f.name.as_str()).collect();
    assert_eq!(names, vec!["alpha", "Zeta", "Apple.txt", "b.txt"]);
}

#[test]
fn listing_comparator_folds_case() {
    // Case-sensitive byte order would put "Zeta" before "alpha".
    let a = file("alpha", true);
    let z = file("Zeta", true);
    assert!(listing_le_exec(&a, &z));
    assert!(!listing_le_exec(&z, &a));
}

#[test]
fn game_json_path_is_under_project_root() {
    assert_eq!(game_json_path("/home/me/proj"), "/home/me/proj/game.json");
    assert_eq!(game_json_path(""), "/game.json");
}

#[test]
fn watch_filter_forwards_only_real_content_changes() {
    assert!(watch_event_emits(WatchEventKind::Modify, "/p/game.json", false));
    assert!(watch_event_emits(WatchEventKind::Create, "/p/new.rs", false));
    assert!(!watch_event_emits(WatchEventKind::Remove, "/p/game.json", false));
    assert!(!watch_event_emits(WatchEventKind::Access, "/p/game.json", false));
    assert!(!watch_event_emits(WatchEventKind::Modify, "/p/.git/index", false));
    assert!(!watch_event_emits(WatchEventKind::Modify, "/p/save~", false));
    assert!(!watch_event_emits(WatchEventKind::Modify, "/p/x.tmp", false));
    assert!(!watch_event_emits(WatchEventKind::Modify, "/p/dir", true));
}

fn part(kind: &str, text: Option<&str>) -> ContentPart {
    ContentPart { kind: kind.to_string(), text: text.map(|t| t.to_string()) }
}

#[test]
fn reply_text_joins_text_blocks_in_order() {
    let parts = vec![
        part("text", Some("Hello")),
        part("tool_use", Some("ignored")),
        part("text", None),
        part("text", Some(" world")),
    ];
    assert_eq!(collect_text(&parts), "Hello world");
    assert_eq!(collect_text(&Vec::new()), "");
}

#[test]
fn chat_outcome_shapes_success_and_failure() {
    let ok = chat_outcome(Ok("done".to_string()));
    assert_eq!(ok.content, "done");
    assert!(ok.success);
    assert!(ok.error.is_none());

    let err = chat_outcome(Err("boom".to_string()));
    assert_eq!(err.content, "");
    assert!(!err.success);
    assert_eq!(err.error.as_deref(), Some("boom"));
}

#[test]
fn missing_key_response_is_fixed() {
    let r = missing_key_response();
    assert_eq!(r.content, "");
    assert!(!r.success);
    assert_eq!(
        r.error.as_deref(),
        Some(
            "API key not configured. Set ANTHROPIC_API_KEY environment variable or configure in settings."
        )
    );
}

#[test]
fn system_prompt_embeds_the_game_context() {
    let p = build_system_prompt("{\"entities\":[]}");
    assert!(p.starts_with("You are an AI game development assistant for PromptPlay"));
    assert!(p.contains("Current Game Context:\n{\"entities\":[]}\n\nWhen the user asks"));
    assert!(p.ends_with("suggest alternatives."));
}
