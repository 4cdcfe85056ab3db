use ratatui_reactive::app::{FrameAction, ReactiveApp};
use ratatui_reactive::backend::on_key_press;
use ratatui_reactive::event::{Event, KeyCode, KeyEvent};

/// Builds an application the way the framework does: the request effects
/// run before the receivers listen, then the render effect runs without a
/// frame and asks for a draw.
fn started_app() -> ReactiveApp {
    let mut app = ReactiveApp::new();
    app.request_draw();
    app.quit();
    app.activate();
    if app.run_render_effect() == FrameAction::RequestDraw {
        app.request_draw();
    }
    app
}

#[test]
fn first_draw() {
    let mut app = started_app();
    assert_eq!(app.draw_requested(), Some(true));
    app.draw();
    assert_eq!(app.run_render_effect(), FrameAction::Render);
    assert_eq!(app.draw_requested(), None);
    assert!(!app.is_disposed());
}

#[test]
fn quit() {
    let mut app = started_app();
    assert_eq!(app.draw_requested(), Some(true));
    app.draw();
    assert_eq!(app.run_render_effect(), FrameAction::Render);
    assert_eq!(app.draw_requested(), None);
    let event = Event::Key(KeyEvent::new(KeyCode::Char('q'), 0));
    if let Some(key) = on_key_press(&event) {
        if let KeyCode::Char('q') = key.code {
            app.quit();
        }
    }
    assert_eq!(app.draw_requested(), Some(false));
    assert!(app.is_disposed());
}

#[test]
fn requests_before_listening_are_lost() {
    let mut app = ReactiveApp::new();
    app.request_draw();
    app.quit();
    app.activate();
    assert_eq!(app.draw_requested(), None);
}

#[test]
fn draw_requests_merge() {
    let mut app = ReactiveApp::new();
    app.activate();
    app.request_draw();
    app.request_draw();
    app.request_draw();
    assert_eq!(app.draw_requested(), Some(true));
    assert_eq!(app.draw_requested(), None);
}

#[test]
fn quit_wins_over_pending_draw() {
    let mut app = ReactiveApp::new();
    app.activate();
    app.request_draw();
    app.quit();
    assert_eq!(app.draw_requested(), Some(false));
    assert!(app.is_disposed());
}

#[test]
fn changed_dependency_requests_redraw() {
    let mut app = started_app();
    assert_eq!(app.draw_requested(), Some(true));
    app.draw();
    assert_eq!(app.run_render_effect(), FrameAction::Render);
    // something the view read changed: the render effect re-runs without a frame
    assert_eq!(app.run_render_effect(), FrameAction::RequestDraw);
    app.request_draw();
    assert_eq!(app.draw_requested(), Some(true));
}

#[test]
fn dispose_marks_disposed() {
    let mut app = ReactiveApp::new();
    assert!(!app.is_disposed());
    app.dispose();
    assert!(app.is_disposed());
}
