use std::cell::RefCell;
use std::collections::VecDeque;
use std::rc::Rc;

use hyprspaces::hyprctl::{Hyprctl, HyprctlRunner, WorkspaceInfo};
use hyprspaces::waybar::{
    normalize_hex, occupied_workspaces, parse_foreground, render_display, render_json,
    render_state, should_update, state_from_hyprctl, ThemeColors,
};

fn workspace(id: u32, windows: u32) -> WorkspaceInfo {
    WorkspaceInfo {
        id,
        windows,
        name: None,
        monitor: None,
    }
}

#[test]
fn parses_foreground_color() {
    let css = "@define-color foreground #AABBCC;";

    assert_eq!(parse_foreground(css), Some("#aabbcc".to_string()));
}

#[test]
fn parse_foreground_needs_a_definition() {
    assert_eq!(parse_foreground("body { color: #aabbcc; }"), None);
    assert_eq!(parse_foreground(""), None);
}

#[test]
fn parse_foreground_picks_the_defining_line() {
    let css = "/* theme */\n  @define-color foreground #A1B2C3;\n@define-color background #000000;\n";

    assert_eq!(parse_foreground(css), Some("#a1b2c3".to_string()));
}

#[test]
fn normalize_hex_validates_shape() {
    assert_eq!(normalize_hex(" #AABBCC "), Some("#aabbcc".to_string()));
    assert_eq!(normalize_hex("#abc"), None);
    assert_eq!(normalize_hex("aabbcc7"), None);
    assert_eq!(normalize_hex("#aabbcg"), None);
}

#[test]
fn computes_occupied_workspaces() {
    let workspaces = vec![workspace(1, 2), workspace(12, 1), workspace(3, 0)];

    assert_eq!(occupied_workspaces(&workspaces, 10), vec![1, 2]);
}

#[test]
fn occupied_workspaces_are_sorted_and_unique() {
    let workspaces = vec![
        workspace(12, 1),
        workspace(2, 3),
        workspace(1, 1),
        workspace(11, 2),
    ];

    assert_eq!(occupied_workspaces(&workspaces, 10), vec![1, 2]);
}

#[test]
fn renders_display_with_active_and_occupied() {
    let colors = ThemeColors::from_foreground("#ffffff").expect("colors");
    let output = render_display(2, &[1, 3], &colors);

    assert!(output.contains("\u{f14fb}"));
    assert!(output.contains("1"));
    assert!(output.contains("3"));
}

#[test]
fn renders_exact_display_line() {
    let colors = ThemeColors::from_foreground("#ffffff").expect("colors");

    assert_eq!(colors.bright, "#ffffff");
    assert_eq!(colors.mid, "#a5a5a5");
    assert_eq!(colors.dim, "#666666");

    let output = render_display(1, &[2], &colors);

    assert_eq!(
        output,
        "<span foreground='#ffffff'>\u{f14fb}</span> \
         <span foreground='#a5a5a5'>2</span> \
         <span foreground='#666666'>3</span> \
         <span foreground='#666666'>4</span> \
         <span foreground='#666666'>5</span>"
    );
}

#[test]
fn renders_state_json() {
    let colors = ThemeColors::from_foreground("#ffffff").expect("colors");
    let workspaces = vec![workspace(1, 1)];

    let json = render_state(1, &workspaces, 10, &colors);

    assert!(json.contains("\"markup\":true"));
    assert!(json.contains("\"class\":\"workspaces\""));
}

#[test]
fn render_json_quotes_and_escapes_text() {
    assert_eq!(
        render_json("plain"),
        "{\"class\":\"workspaces\",\"markup\":true,\"text\":\"plain\"}"
    );
    assert_eq!(
        render_json("a\"b"),
        "{\"class\":\"workspaces\",\"markup\":true,\"text\":\"a\\\"b\"}"
    );
}

#[test]
fn updates_on_waybar_events() {
    assert!(should_update("workspace>>2"));
    assert!(should_update("focusedmon>>DP-1,1"));
    assert!(should_update("createworkspace>>2"));
    assert!(should_update("openwindow>>0x123,2,App,Title"));
    assert!(!should_update("activelayout>>kbd,us"));
}

#[derive(Clone)]
struct SequenceRunner {
    responses: Rc<RefCell<VecDeque<String>>>,
    calls: Rc<RefCell<Vec<Vec<String>>>>,
}

impl SequenceRunner {
    fn new(responses: Vec<String>) -> Self {
        Self {
            responses: Rc::new(RefCell::new(responses.into())),
            calls: Rc::new(RefCell::new(Vec::new())),
        }
    }
}

impl HyprctlRunner for SequenceRunner {
    fn run(&self, args: &[String]) -> Result<String, hyprspaces::hyprctl::HyprctlError> {
        self.calls.borrow_mut().push(args.to_vec());
        let response = self.responses.borrow_mut().pop_front().unwrap_or_default();
        Ok(response)
    }
}

#[test]
fn renders_state_from_hyprctl() {
    let colors = ThemeColors::from_foreground("#ffffff").expect("colors");
    let runner = SequenceRunner::new(vec![
        r#"{"id":12}"#.to_string(),
        r#"[{"id":1,"windows":1},{"id":12,"windows":2}]"#.to_string(),
    ]);
    let hyprctl = Hyprctl::new(runner.clone());

    let json = state_from_hyprctl(&hyprctl, 10, &colors).expect("state");

    assert!(json.contains("\"class\":\"workspaces\""));
    let calls = runner.calls.borrow();
    assert_eq!(
        calls[0],
        vec!["-j".to_string(), "activeworkspace".to_string()]
    );
    assert_eq!(calls[1], vec!["-j".to_string(), "workspaces".to_string()]);
}
