use typing_trainer::app::{App, Key, KeyEvent, KeyKind};
use typing_trainer::components::prompt_box::{prompt_widget, render_prompt, Segment, MAX_PREVIEW};
use typing_trainer::prompt_queue::PromptQueue;

fn preview(prompt: &str) -> Segment {
    Segment::Preview(prompt.to_string())
}

fn session_of(prompts: &[&str]) -> App {
    App::new(PromptQueue::new(prompts.iter().map(|p| p.to_string()).collect()))
}

fn press_key(app: &mut App, key: Key) {
    app.handle_key(KeyEvent { key, kind: KeyKind::Press });
}

#[test]
fn input_is_compared_with_the_prompt() {
    let segments = render_prompt("abc", "ax", &vec![]);
    assert_eq!(
        segments,
        vec![Segment::Correct('a'), Segment::Incorrect('x'), Segment::Pending('c')]
    );
}

#[test]
fn an_empty_input_leaves_the_whole_prompt_pending() {
    let segments = render_prompt("dog", "", &vec![]);
    assert_eq!(
        segments,
        vec![Segment::Pending('d'), Segment::Pending('o'), Segment::Pending('g')]
    );
}

#[test]
fn a_complete_input_is_all_correct() {
    let segments = render_prompt("dog", "dog", &vec![]);
    assert_eq!(
        segments,
        vec![Segment::Correct('d'), Segment::Correct('o'), Segment::Correct('g')]
    );
}

#[test]
fn a_wrong_character_shows_what_was_typed() {
    let segments = render_prompt("dog", "Dig", &vec![]);
    assert_eq!(
        segments,
        vec![Segment::Incorrect('D'), Segment::Incorrect('i'), Segment::Correct('g')]
    );
}

#[test]
fn input_beyond_the_prompt_is_not_shown() {
    let segments = render_prompt("ab", "abXYZ", &vec![]);
    assert_eq!(segments, vec![Segment::Correct('a'), Segment::Correct('b')]);
    let segments = render_prompt("ab", "xyZZZ", &vec!["next"]);
    assert_eq!(
        segments,
        vec![Segment::Incorrect('x'), Segment::Incorrect('y'), preview("next")]
    );
}

#[test]
fn an_empty_prompt_shows_only_the_preview() {
    assert_eq!(render_prompt("", "abc", &vec![]), vec![]);
    assert_eq!(render_prompt("", "", &vec!["next"]), vec![preview("next")]);
}

#[test]
fn positions_are_counted_in_characters() {
    let segments = render_prompt("\u{e9}t\u{e9}", "\u{e9}te", &vec![]);
    assert_eq!(
        segments,
        vec![Segment::Correct('\u{e9}'), Segment::Correct('t'), Segment::Incorrect('e')]
    );
}

#[test]
fn upcoming_prompts_follow_as_previews() {
    let segments = render_prompt("a", "", &vec!["dog", "emu"]);
    assert_eq!(segments, vec![Segment::Pending('a'), preview("dog"), preview("emu")]);
}

#[test]
fn at_most_twenty_prompts_are_previewed() {
    assert_eq!(MAX_PREVIEW, 20);
    let words: Vec<String> = (0..30).map(|i| format!("w{}", i)).collect();
    let upcoming: Vec<&str> = words.iter().map(|w| w.as_str()).collect();
    let segments = render_prompt("ab", "a", &upcoming);
    assert_eq!(segments.len(), 2 + 20);
    for k in 0..20 {
        assert_eq!(segments[2 + k], preview(&words[k]));
    }
    let exactly: Vec<&str> = upcoming[..20].to_vec();
    assert_eq!(render_prompt("ab", "a", &exactly).len(), 22);
    let fewer: Vec<&str> = upcoming[..19].to_vec();
    assert_eq!(render_prompt("ab", "a", &fewer).len(), 21);
}

#[test]
fn a_segment_shows_its_character() {
    assert_eq!(Segment::Correct('a').text(), "a");
    assert_eq!(Segment::Incorrect('\u{e9}').text(), "\u{e9}");
    assert_eq!(Segment::Pending(' ').text(), " ");
}

#[test]
fn a_preview_is_set_off_by_one_space() {
    assert_eq!(preview("dog").text(), " dog");
    assert_eq!(preview("").text(), " ");
    assert_eq!(preview("caf\u{e9}").text(), " caf\u{e9}");
}

#[test]
fn the_shown_line_is_the_prompt_typed_so_far_and_the_preview() {
    let segments = render_prompt("abc", "ax", &vec!["dog", "emu"]);
    let line: String = segments.iter().map(|s| s.text()).collect();
    assert_eq!(line, "axc dog emu");
}

#[test]
fn the_widget_shows_the_sessions_prompt_and_input() {
    let mut app = session_of(&["abc", "dog", "emu"]);
    press_key(&mut app, Key::Char('e'));
    press_key(&mut app, Key::Char('a'));
    press_key(&mut app, Key::Char('x'));
    assert_eq!(
        prompt_widget(&app),
        vec![
            Segment::Correct('a'),
            Segment::Incorrect('x'),
            Segment::Pending('c'),
            preview("dog"),
            preview("emu"),
        ]
    );
}

#[test]
fn the_widget_previews_the_twenty_prompts_after_the_current_one() {
    let words: Vec<String> = (0..40).map(|i| format!("w{}", i)).collect();
    let app = App::new(PromptQueue::new(words.clone()));
    let segments = prompt_widget(&app);
    assert_eq!(segments.len(), 2 + 20);
    assert_eq!(segments[0], Segment::Pending('w'));
    assert_eq!(segments[1], Segment::Pending('0'));
    for k in 0..20 {
        assert_eq!(segments[2 + k], preview(&words[1 + k]));
    }
}

#[test]
fn the_widget_of_the_last_prompt_has_no_preview() {
    let app = session_of(&["end"]);
    assert_eq!(
        prompt_widget(&app),
        vec![Segment::Pending('e'), Segment::Pending('n'), Segment::Pending('d')]
    );
}

#[test]
fn rendering_twice_gives_the_same_segments() {
    let upcoming = vec!["dog", "emu"];
    let first = render_prompt("abc", "ax", &upcoming);
    let second = render_prompt("abc", "ax", &upcoming);
    assert_eq!(first, second);
    let mut app = session_of(&["abc", "dog"]);
    press_key(&mut app, Key::Char('e'));
    press_key(&mut app, Key::Char('a'));
    let first = prompt_widget(&app);
    let second = prompt_widget(&app);
    assert_eq!(first, second);
    assert_eq!(app.input.text(), "a");
    assert_eq!(app.prompts.len(), 2);
}

#[test]
fn the_widget_does_not_depend_on_mode_layout_or_cursor() {
    let mut app = session_of(&["abc", "dog"]);
    press_key(&mut app, Key::Char('e'));
    press_key(&mut app, Key::Char('a'));
    press_key(&mut app, Key::Char('b'));
    let shown = prompt_widget(&app);
    press_key(&mut app, Key::Left);
    assert_eq!(prompt_widget(&app), shown);
    press_key(&mut app, Key::Esc);
    assert_eq!(prompt_widget(&app), shown);
    press_key(&mut app, Key::Char('p'));
    assert_eq!(prompt_widget(&app), shown);
}
