use next_ui::components::selector_row::{hit_target, Event, Key, Options, Response, State, Target};

fn options(count: usize, selected: Option<usize>) -> Options {
    Options { count, selected, selectable: true }
}

fn key(key: Key) -> Event {
    Event::Key { key, repeat: false }
}

#[test]
fn clicking_the_header_opens_and_closes_the_list() {
    let options = options(3, Some(1));
    let mut state = State::new();
    state.diff(options);
    assert_eq!(state.highlighted, Some(1));

    let pressed = state.update(options, Event::Press, Some(Target::Header));
    assert!(pressed.captured);
    assert!(state.focused);
    let released = state.update(options, Event::Release, Some(Target::Header));
    assert!(state.open);
    assert_eq!(state.highlighted, Some(1));
    assert_eq!(released, Response { chosen: None, captured: true, relayout: true, redraw: true });

    state.update(options, Event::Press, Some(Target::Header));
    state.update(options, Event::Release, Some(Target::Header));
    assert!(!state.open);
}

#[test]
fn choosing_an_option_reports_it_and_closes() {
    let options = options(3, None);
    let mut state = State::new();
    state.diff(options);
    state.update(options, Event::Press, Some(Target::Header));
    state.update(options, Event::Release, Some(Target::Header));
    assert!(state.open);

    state.update(options, Event::Press, Some(Target::Choice(2)));
    let response = state.update(options, Event::Release, Some(Target::Choice(2)));
    assert_eq!(response.chosen, Some(2));
    assert!(!state.open);
    assert_eq!(state.highlighted, Some(2));
    assert_eq!(state.hovered, None);
}

#[test]
fn a_release_elsewhere_chooses_nothing() {
    let options = options(3, None);
    let mut state = State::new();
    state.diff(options);
    state.update(options, Event::Press, Some(Target::Header));
    state.update(options, Event::Release, Some(Target::Header));
    state.update(options, Event::Press, Some(Target::Choice(0)));
    let response = state.update(options, Event::Release, Some(Target::Choice(1)));
    assert_eq!(response.chosen, None);
    assert!(state.open);
}

#[test]
fn the_keyboard_walks_and_chooses_options() {
    let options = options(3, Some(0));
    let mut state = State::new();
    state.diff(options);
    state.focus();

    state.update(options, key(Key::ArrowDown), None);
    assert!(state.open);
    assert_eq!(state.highlighted, Some(0));
    state.update(options, key(Key::ArrowDown), None);
    state.update(options, key(Key::ArrowDown), None);
    state.update(options, key(Key::ArrowDown), None);
    assert_eq!(state.highlighted, Some(2));
    state.update(options, key(Key::ArrowUp), None);
    assert_eq!(state.highlighted, Some(1));
    state.update(options, key(Key::Home), None);
    assert_eq!(state.highlighted, Some(0));
    state.update(options, key(Key::End), None);
    assert_eq!(state.highlighted, Some(2));

    let response = state.update(options, key(Key::Enter), None);
    assert_eq!(response.chosen, Some(2));
    assert!(!state.open);

    state.update(options, key(Key::Space), None);
    assert!(state.open);
    let escaped = state.update(options, key(Key::Escape), None);
    assert!(!state.open);
    assert!(escaped.captured);
    let ignored = state.update(options, key(Key::Escape), None);
    assert!(!ignored.captured);
}

#[test]
fn keys_need_focus_and_ignore_repeats() {
    let options = options(2, None);
    let mut state = State::new();
    state.diff(options);
    let response = state.update(options, key(Key::ArrowDown), None);
    assert!(!state.open);
    assert!(!response.captured);

    state.focus();
    state.update(options, Event::Key { key: Key::ArrowDown, repeat: true }, None);
    assert!(!state.open);
    state.unfocus();
    assert!(!state.focused);
}

#[test]
fn a_disabled_selector_ignores_input_and_closes() {
    let mut state = State::new();
    state.diff(options(3, None));
    state.focus();
    state.update(options(3, None), key(Key::ArrowDown), None);
    assert!(state.open);

    let disabled = Options { count: 3, selected: None, selectable: false };
    state.diff(disabled);
    assert!(!state.open);
    assert_eq!(state.highlighted, None);
    let before = state;
    let response = state.update(disabled, Event::Press, Some(Target::Header));
    assert_eq!(state, before);
    assert_eq!(response, Response { chosen: None, captured: false, relayout: false, redraw: false });
}

#[test]
fn pressing_outside_closes_the_list() {
    let options = options(2, None);
    let mut state = State::new();
    state.diff(options);
    state.focus();
    state.update(options, key(Key::Home), None);
    assert!(state.open);
    let response = state.update(options, Event::Press, None);
    assert!(!state.open);
    assert!(!state.focused);
    assert!(response.relayout);
}

#[test]
fn hits_prefer_the_header() {
    assert_eq!(hit_target(true, true, Some(1)), Some(Target::Header));
    assert_eq!(hit_target(true, false, Some(1)), Some(Target::Choice(1)));
    assert_eq!(hit_target(false, false, Some(1)), None);
    assert_eq!(hit_target(true, false, None), None);
}
