use zeptobot::automation::{AutomationAction, AutomationService};
use zeptobot::commands::get_status;
use zeptobot::keys::{flag_name, parse_flag, parse_key_code, KeyFlag, KeyName};
use zeptobot::text::{decimal_text, matches_lowercase, same_text};
use zeptobot::tools::{
    all_automation_tools, ClickTool, KeyPressTool, KeyTarget, MouseButton, MoveMouseTool,
    ScreenInfoTool, TypeTextTool,
};

fn strings(v: &[&str]) -> Vec<String> {
    v.iter().map(|s| s.to_string()).collect()
}

#[test]
fn key_codes_ignore_ascii_case() {
    assert_eq!(parse_key_code("Enter"), Some(KeyName::Return));
    assert_eq!(parse_key_code("return"), Some(KeyName::Return));
    assert_eq!(parse_key_code("ESC"), Some(KeyName::Escape));
    assert_eq!(parse_key_code("PageUp"), Some(KeyName::PageUp));
    assert_eq!(parse_key_code("uparrow"), Some(KeyName::UpArrow));
    assert_eq!(parse_key_code("f5"), Some(KeyName::F5));
    assert_eq!(parse_key_code("F24"), Some(KeyName::F24));
    assert_eq!(parse_key_code("f25"), None);
    assert_eq!(parse_key_code("a"), None);
    assert_eq!(parse_key_code(""), None);
}

#[test]
fn flags_ignore_ascii_case() {
    assert_eq!(parse_flag("CMD"), Some(KeyFlag::Meta));
    assert_eq!(parse_flag("super"), Some(KeyFlag::Meta));
    assert_eq!(parse_flag("Ctrl"), Some(KeyFlag::Control));
    assert_eq!(parse_flag("option"), Some(KeyFlag::Alt));
    assert_eq!(parse_flag("shift"), Some(KeyFlag::Shift));
    assert_eq!(parse_flag("hyper"), None);
    assert_eq!(flag_name(KeyFlag::Meta), "Cmd");
    assert_eq!(flag_name(KeyFlag::Control), "Ctrl");
    assert_eq!(flag_name(KeyFlag::Help), "Help");
}

#[test]
fn key_press_with_modifiers() {
    let p = KeyPressTool.plan(Some("a"), &strings(&["cmd", "bogus", "SHIFT"])).unwrap();
    assert_eq!(p.target, KeyTarget::Char('a'));
    assert_eq!(p.flags, vec![KeyFlag::Meta, KeyFlag::Shift]);
    assert!(p.report.success);
    assert_eq!(p.report.for_llm, "Pressed Cmd + Shift + a");
}

#[test]
fn key_press_named_key_without_modifiers() {
    let p = KeyPressTool.plan(Some("Return"), &vec![]).unwrap();
    assert_eq!(p.target, KeyTarget::Named(KeyName::Return));
    assert!(p.flags.is_empty());
    assert_eq!(p.report.for_llm, "Pressed Return");
}

#[test]
fn key_press_errors() {
    let e = KeyPressTool.plan(None, &vec![]).err().unwrap();
    assert!(!e.success);
    assert_eq!(e.for_llm, "Missing or invalid 'key' parameter");
    let e = KeyPressTool.plan(Some("abc"), &vec![]).err().unwrap();
    assert!(e.for_llm.starts_with("Unknown key 'abc'. Use a single character"));
    // one character, but not a one-byte one
    let e = KeyPressTool.plan(Some("é"), &vec![]).err().unwrap();
    assert!(e.for_llm.starts_with("Unknown key 'é'"));
}

#[test]
fn click_defaults_to_one_left_click() {
    let p = ClickTool.plan(None, None).unwrap();
    assert_eq!(p.button, MouseButton::Left);
    assert_eq!(p.count, 1);
    assert_eq!(p.report.for_llm, "Performed left click");
}

#[test]
fn click_with_count() {
    let p = ClickTool.plan(Some("right"), Some(2)).unwrap();
    assert_eq!(p.button, MouseButton::Right);
    assert_eq!(p.count, 2);
    assert_eq!(p.report.for_llm, "Performed 2x right click");
    let p = ClickTool.plan(Some("middle"), Some(0)).unwrap();
    assert_eq!(p.count, 1);
    assert_eq!(p.report.for_llm, "Performed middle click");
}

#[test]
fn click_unknown_button() {
    let e = ClickTool.plan(Some("Left"), None).err().unwrap();
    assert!(!e.success);
    assert_eq!(e.for_llm, "Unknown button 'Left'. Use left, right, or middle.");
}

#[test]
fn type_text_short() {
    let r = TypeTextTool.plan(Some("hello")).unwrap();
    assert!(r.success);
    assert_eq!(r.for_llm, "Typed 5 characters: \"hello\"");
    let r = TypeTextTool.plan(Some("")).unwrap();
    assert_eq!(r.for_llm, "Typed 0 characters: \"\"");
}

#[test]
fn type_text_long_is_cut() {
    let exactly_sixty = "b".repeat(60);
    let r = TypeTextTool.plan(Some(&exactly_sixty)).unwrap();
    assert_eq!(r.for_llm, format!("Typed 60 characters: \"{}\"", exactly_sixty));
    let long = "a".repeat(70);
    let r = TypeTextTool.plan(Some(&long)).unwrap();
    assert_eq!(r.for_llm, format!("Typed 70 characters: \"{}...\"", "a".repeat(57)));
}

#[test]
fn type_text_cut_keeps_whole_characters() {
    // 35 two-byte characters: byte 57 falls inside one
    let text = "é".repeat(35);
    let r = TypeTextTool.plan(Some(&text)).unwrap();
    assert_eq!(r.for_llm, format!("Typed 70 characters: \"{}...\"", "é".repeat(28)));
}

#[test]
fn type_text_missing() {
    let e = TypeTextTool.plan(None).err().unwrap();
    assert!(!e.success);
    assert_eq!(e.for_llm, "Missing or invalid 'text' parameter");
}

#[test]
fn tool_catalogue_order() {
    let names: Vec<String> = all_automation_tools().into_iter().map(|d| d.name).collect();
    assert_eq!(names, vec!["move_mouse", "click", "type_text", "screen_info", "key_press"]);
    assert_eq!(MoveMouseTool.name(), "move_mouse");
    assert_eq!(ScreenInfoTool.name(), "screen_info");
    assert!(MoveMouseTool.parameters().contains("\"required\":[\"x\",\"y\"]"));
    assert_eq!(KeyPressTool.definition().description, KeyPressTool.description());
    assert_eq!(ClickTool.definition().parameters, ClickTool.parameters());
    assert_eq!(TypeTextTool.name(), "type_text");
}

#[test]
fn decimal_numerals() {
    assert_eq!(decimal_text(0), "0");
    assert_eq!(decimal_text(7), "7");
    assert_eq!(decimal_text(10), "10");
    assert_eq!(decimal_text(12345), "12345");
    assert_eq!(decimal_text(u64::MAX), u64::MAX.to_string());
}

#[test]
fn text_comparisons() {
    assert!(matches_lowercase("PageDown", "pagedown"));
    assert!(!matches_lowercase("pagedown", "PageDown"));
    assert!(!matches_lowercase("page", "pagedown"));
    assert!(same_text("abc", "abc"));
    assert!(!same_text("abc", "abd"));
}

#[test]
fn automation_actions() {
    let s = AutomationService::new();
    assert_eq!(s.parse_action("move_mouse"), Ok(AutomationAction::MoveMouse));
    assert_eq!(s.parse_action("type"), Ok(AutomationAction::Type));
    assert_eq!(s.parse_action("mouse_position"), Ok(AutomationAction::MousePosition));
    assert_eq!(s.parse_action("scroll"), Err("Unknown automation action: scroll".to_string()));
}

#[test]
fn status_report() {
    let s = get_status().unwrap();
    assert!(!s.listening);
    assert!(s.agent_ready);
    assert!(s.automation_available);
}
