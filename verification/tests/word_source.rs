use typing_trainer::word_source::{generate_prompts, word_list, PROMPT_COUNT};

fn lines(text: &str) -> Vec<String> {
    text.lines().map(|line| line.to_string()).collect()
}

#[test]
fn a_word_list_has_one_word_on_each_line() {
    assert_eq!(word_list("cat\ndog\nemu\n"), vec!["cat", "dog", "emu"]);
    assert_eq!(word_list("cat\ndog\nemu"), vec!["cat", "dog", "emu"]);
    assert_eq!(word_list("solo"), vec!["solo"]);
}

#[test]
fn an_empty_text_has_no_words() {
    assert_eq!(word_list(""), Vec::<String>::new());
}

#[test]
fn empty_lines_are_words_too() {
    assert_eq!(word_list("\n"), vec![""]);
    assert_eq!(word_list("\n\n"), vec!["", ""]);
    assert_eq!(word_list("a\n\nb"), vec!["a", "", "b"]);
    assert_eq!(word_list("\na"), vec!["", "a"]);
}

#[test]
fn a_carriage_return_before_a_line_feed_ends_the_line_with_it() {
    assert_eq!(word_list("cat\r\ndog\r\n"), vec!["cat", "dog"]);
    assert_eq!(word_list("\r\n"), vec![""]);
    assert_eq!(word_list("a\r\r\nb"), vec!["a\r", "b"]);
}

#[test]
fn other_carriage_returns_stay() {
    assert_eq!(word_list("ca\rt\ndog"), vec!["ca\rt", "dog"]);
    assert_eq!(word_list("cat\ndog\r"), vec!["cat", "dog\r"]);
    assert_eq!(word_list("\r"), vec!["\r"]);
}

#[test]
fn words_keep_their_characters_and_spaces() {
    assert_eq!(word_list(" caf\u{e9} \n\u{4e2d}\u{6587}\n"), vec![" caf\u{e9} ", "\u{4e2d}\u{6587}"]);
}

#[test]
fn a_word_list_is_what_the_lines_of_the_text_are() {
    for text in [
        "",
        "a",
        "a\n",
        "a\nb",
        "\n",
        "\n\n\n",
        "\r\n\r\n",
        "a\r\nb\rc\n\rd\r",
        "one two\nthree\r\n\nfour\u{e9}\r\r\n",
        "x\r",
        "\r",
        "\n\r",
    ] {
        assert_eq!(word_list(text), lines(text), "{:?}", text);
    }
}

#[test]
fn generated_prompts_are_drawn_from_the_words() {
    let words: Vec<String> = ["alpha", "beta", "gamma"].iter().map(|w| w.to_string()).collect();
    let prompts = generate_prompts(&words);
    assert_eq!(PROMPT_COUNT, 2000);
    assert_eq!(prompts.len(), PROMPT_COUNT);
    for prompt in &prompts {
        assert!(words.contains(prompt));
    }
}

#[test]
fn generated_prompts_of_one_word_repeat_it() {
    let words = vec!["solo".to_string()];
    let prompts = generate_prompts(&words);
    assert_eq!(prompts.len(), 2000);
    assert!(prompts.iter().all(|p| p == "solo"));
}

#[test]
fn generating_prompts_leaves_the_words_as_they_were() {
    let words: Vec<String> = ["one", "two"].iter().map(|w| w.to_string()).collect();
    let _ = generate_prompts(&words);
    assert_eq!(words, vec!["one".to_string(), "two".to_string()]);
}
