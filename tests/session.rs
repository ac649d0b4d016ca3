use sysmon::{banner_colors, colors_for, palette_color, Action, BannerColor, InputEvent, Key, Monitor, Phase};

fn quit_on(ev: InputEvent) {
    let mut m = Monitor::new();
    assert_eq!(m.handle_event(Some(ev)), Action::RestoreTerminal);
    assert_eq!(m.phase, Phase::Terminating);
    // the terminal is restored once only
    assert_eq!(m.handle_event(Some(ev)), Action::Done);
    assert_eq!(m.handle_event(None), Action::Done);
    assert_eq!(m.phase, Phase::Terminating);
}

#[test]
fn quit_keys_end_the_loop() {
    quit_on(InputEvent::Key(Key::Char('q')));
    quit_on(InputEvent::Key(Key::Char('Q')));
    quit_on(InputEvent::Key(Key::Esc));
}

#[test]
fn other_events_keep_running() {
    let mut m = Monitor::new();
    m.on_tick();
    let events = [
        None,
        Some(InputEvent::Key(Key::Char('x'))),
        Some(InputEvent::Key(Key::Other)),
        Some(InputEvent::Resize),
        Some(InputEvent::Mouse),
        Some(InputEvent::Other),
    ];
    for ev in events {
        assert_eq!(m.handle_event(ev), Action::Continue);
        assert_eq!(m.phase, Phase::Running);
        assert_eq!(m.tick_count, 1);
    }
}

#[test]
fn ticks_are_counted() {
    let mut m = Monitor::new();
    assert_eq!(m.tick_count, 0);
    for _ in 0..3 {
        m.on_tick();
    }
    assert_eq!(m.tick_count, 3);
    let mut full = Monitor { phase: Phase::Running, tick_count: u64::MAX };
    full.on_tick();
    assert_eq!(full.tick_count, u64::MAX);
}

#[test]
fn palette_in_order() {
    assert_eq!(palette_color(0), BannerColor::Red);
    assert_eq!(palette_color(3), BannerColor::Yellow);
    assert_eq!(palette_color(6), BannerColor::White);
    assert_eq!(
        colors_for(&vec![5, 1, 4, 2]),
        vec![BannerColor::Cyan, BannerColor::Green, BannerColor::Magenta, BannerColor::Blue]
    );
}

#[test]
fn banner_colors_are_drawn() {
    let colors = banner_colors(200);
    assert_eq!(colors.len(), 200);
    assert!(colors.iter().any(|c| *c != colors[0]));
    assert!(banner_colors(0).is_empty());
}
