use finance_client::ui::{hit_target, Focus, Layout, MenuMode, Rect, Screen, Target, UiAction, UiEvent};

fn click(s: &mut Screen, l: &Layout, x: i32, y: i32) -> UiAction {
    s.handle_event(l, &UiEvent::MouseDown { x, y })
}

fn typed(s: &mut Screen, l: &Layout, t: &str) -> UiAction {
    s.handle_event(l, &UiEvent::TextInput(t.to_string()))
}

#[test]
fn rect_edges() {
    let r = Rect::new(20, 20, 120, 28);
    assert!(r.contains_point(20, 20));
    assert!(r.contains_point(139, 47));
    assert!(!r.contains_point(140, 20));
    assert!(!r.contains_point(20, 48));
    assert!(!r.contains_point(19, 30));
}

#[test]
fn targets_depend_on_mode() {
    let l = Layout::standard();
    assert_eq!(hit_target(&l, MenuMode::Home, 30, 30), Target::MenuLogin);
    assert_eq!(hit_target(&l, MenuMode::Search, 200, 30), Target::MenuSearch);
    assert_eq!(hit_target(&l, MenuMode::Search, 30, 90), Target::SearchBox);
    assert_eq!(hit_target(&l, MenuMode::Login, 30, 90), Target::Nothing);
    assert_eq!(hit_target(&l, MenuMode::Login, 30, 130), Target::UsernameBox);
    assert_eq!(hit_target(&l, MenuMode::Login, 30, 190), Target::PasswordBox);
    assert_eq!(hit_target(&l, MenuMode::Login, 50, 250), Target::LoginButton);
    assert_eq!(hit_target(&l, MenuMode::Login, 200, 250), Target::RegisterButton);
    assert_eq!(hit_target(&l, MenuMode::Search, 500, 90), Target::SearchButton);
    assert_eq!(hit_target(&l, MenuMode::Home, 500, 90), Target::Nothing);
}

#[test]
fn login_flow() {
    let l = Layout::standard();
    let mut s = Screen::new();
    assert!(matches!(click(&mut s, &l, 30, 30), UiAction::Continue));
    assert_eq!(s.mode, MenuMode::Login);
    click(&mut s, &l, 30, 130);
    assert_eq!(s.focus, Focus::Username);
    typed(&mut s, &l, "bob");
    typed(&mut s, &l, "x");
    s.handle_event(&l, &UiEvent::Backspace);
    assert_eq!(s.username, "bob");
    match s.handle_event(&l, &UiEvent::Return) {
        UiAction::SetStatus(t) => assert_eq!(t, "Username set: bob"),
        _ => panic!("expected a status"),
    }
    assert_eq!(s.focus, Focus::Unfocused);
    click(&mut s, &l, 30, 190);
    typed(&mut s, &l, "pw");
    match s.handle_event(&l, &UiEvent::Return) {
        UiAction::SetStatus(t) => assert_eq!(t, "Password set"),
        _ => panic!("expected a status"),
    }
    match click(&mut s, &l, 50, 250) {
        UiAction::Login { username, password } => {
            assert_eq!(username, "bob");
            assert_eq!(password, "pw");
        }
        _ => panic!("expected a login"),
    }
    match click(&mut s, &l, 200, 250) {
        UiAction::Register { username, password } => {
            assert_eq!(username, "bob");
            assert_eq!(password, "pw");
        }
        _ => panic!("expected a registration"),
    }
}

#[test]
fn search_flow() {
    let l = Layout::standard();
    let mut s = Screen::new();
    click(&mut s, &l, 200, 30);
    assert_eq!(s.mode, MenuMode::Search);
    click(&mut s, &l, 30, 90);
    assert_eq!(s.focus, Focus::Search);
    typed(&mut s, &l, "MSFT");
    s.handle_event(&l, &UiEvent::Backspace);
    assert_eq!(s.search_input, "MSF");
    typed(&mut s, &l, "T");
    match s.handle_event(&l, &UiEvent::Return) {
        UiAction::SetStatus(t) => assert_eq!(t, "Search set: MSFT"),
        _ => panic!("expected a status"),
    }
    match click(&mut s, &l, 500, 90) {
        UiAction::Search { query } => assert_eq!(query, "MSFT"),
        _ => panic!("expected a search"),
    }
}

#[test]
fn click_outside_clears_focus() {
    let l = Layout::standard();
    let mut s = Screen::new();
    click(&mut s, &l, 30, 30);
    click(&mut s, &l, 30, 130);
    click(&mut s, &l, 900, 400);
    assert_eq!(s.focus, Focus::Unfocused);
    assert_eq!(s.mode, MenuMode::Login);
    typed(&mut s, &l, "lost");
    assert_eq!(s.username, "");
}

#[test]
fn unfocused_keys_do_nothing() {
    let l = Layout::standard();
    let mut s = Screen::new();
    assert!(matches!(s.handle_event(&l, &UiEvent::Return), UiAction::Continue));
    assert!(matches!(s.handle_event(&l, &UiEvent::Backspace), UiAction::Continue));
    assert!(matches!(s.handle_event(&l, &UiEvent::Other), UiAction::Continue));
    assert_eq!(s.focus, Focus::Unfocused);
    assert_eq!(s.mode, MenuMode::Home);
}

#[test]
fn backspace_on_empty_and_in_search() {
    let l = Layout::standard();
    let mut s = Screen::new();
    click(&mut s, &l, 30, 30);
    click(&mut s, &l, 30, 130);
    s.handle_event(&l, &UiEvent::Backspace);
    assert_eq!(s.username, "");
    typed(&mut s, &l, "né");
    s.handle_event(&l, &UiEvent::Backspace);
    assert_eq!(s.username, "n");
    click(&mut s, &l, 200, 30);
    click(&mut s, &l, 30, 90);
    s.handle_event(&l, &UiEvent::Backspace);
    assert_eq!(s.search_input, "");
    typed(&mut s, &l, "IBM");
    s.handle_event(&l, &UiEvent::Backspace);
    s.handle_event(&l, &UiEvent::Backspace);
    assert_eq!(s.search_input, "I");
    assert_eq!(s.username, "n");
}

#[test]
fn quit_and_escape_exit() {
    let l = Layout::standard();
    let mut s = Screen::new();
    assert!(matches!(s.handle_event(&l, &UiEvent::Quit), UiAction::Exit));
    assert!(matches!(s.handle_event(&l, &UiEvent::Escape), UiAction::Exit));
}
