//! Holds the three patterns to what they are taken to mean, on every row of a
//! few telling pieces of text.
use city_chat_bot::intent::{TIME_GENERAL_PATTERN, TIME_PATTERN, WEATHER_PATTERN};
use regex::Regex;

fn folded(c: char) -> char {
    match c {
        'A'..='Z' | 'А'..='Я' => char::from_u32(c as u32 + 0x20).unwrap(),
        '\u{1c80}' => 'в',
        '\u{1c81}' => 'д',
        '\u{1c82}' => 'о',
        '\u{1c83}' => 'с',
        _ => c,
    }
}

fn word_at(word: &str, text: &[char], i: usize) -> bool {
    let w: Vec<char> = word.chars().collect();
    i + w.len() <= text.len() && (0..w.len()).all(|k| folded(text[i + k]) == w[k])
}

fn one_of(words: &[&str], text: &[char], i: usize) -> usize {
    words.iter().find(|w| word_at(w, text, i)).map_or(0, |w| w.chars().count())
}

fn trim_start(text: &[char]) -> &[char] {
    let n = text.iter().take_while(|c| c.is_whitespace()).count();
    &text[n..]
}

fn first_line(text: &[char]) -> String {
    text.iter().take_while(|c| **c != '\n').collect()
}

fn has_content(text: &[char]) -> bool {
    text.iter().any(|c| *c != '\n')
}

fn subject(rest: &[char]) -> String {
    let begin = trim_start(rest);
    let n = one_of(&["в", "городе", "для", "for", "in"], begin, 0);
    if n > 0 && has_content(&begin[n..]) {
        first_line(trim_start(&begin[n..])).trim().to_string()
    } else {
        first_line(begin).trim().to_string()
    }
}

fn question(words: &[&str], text: &[char]) -> Option<String> {
    let i = (0..text.len()).find(|i| one_of(words, text, *i) > 0)?;
    let rest = &text[i + one_of(words, text, i)..];
    if has_content(rest) {
        Some(subject(rest))
    } else {
        None
    }
}

fn ends_in(words: &[&str], text: &[char]) -> bool {
    (0..text.len()).any(|i| {
        let n = one_of(words, text, i);
        n > 0 && text[i + n..].iter().all(|c| c.is_whitespace())
    })
}

const WEATHER_WORDS: [&str; 2] = ["погода", "погоду"];
const TIME_WORDS: [&str; 3] = ["время", "час", "time"];

/// Calls `check` on every row of at most `n` of the pieces.
fn rows(pieces: &[&str], n: usize, text: &mut String, check: &dyn Fn(&str)) {
    check(text);
    if n > 0 {
        for p in pieces {
            let len = text.len();
            text.push_str(p);
            rows(pieces, n - 1, text, check);
            text.truncate(len);
        }
    }
}

fn hold(pattern: &str, words: &[&str], pieces: &[&str], n: usize) {
    let re = Regex::new(pattern).unwrap();
    rows(pieces, n, &mut String::new(), &|text| {
        let chars: Vec<char> = text.chars().collect();
        let found = re.captures(text).map(|c| {
            let group = c.get(1).unwrap().as_str();
            assert!(!group.is_empty());
            group.trim().to_string()
        });
        assert_eq!(found, question(words, &chars), "{:?}", text);
    });
}

#[test]
fn weather_pattern_and_prepositions() {
    let pieces =
        ["погода", "Погоду", "в", "В", "городе", "для", "in", "for", "x", " ", "\n", "\u{3000}"];
    hold(WEATHER_PATTERN, &WEATHER_WORDS, &pieces, 4);
}

#[test]
fn weather_pattern_and_what_goes_before() {
    let pieces = ["погода", "какая", "Подскажи", "покажи", "weather", "tell", "по", "п", " ", "\n"];
    hold(WEATHER_PATTERN, &WEATHER_WORDS, &pieces, 5);
}

#[test]
fn weather_pattern_letter_by_letter() {
    let pieces =
        ["п", "ог", "П\u{1c82}Г", "о\u{1c81}", "ода", "ОДУ", "од", "а", "у", "\u{1c80}", " ", "\n"];
    hold(WEATHER_PATTERN, &WEATHER_WORDS, &pieces, 5);
}

#[test]
fn time_pattern_and_prepositions() {
    let pieces =
        ["время", "Час", "TIME", "в", "городе", "ДЛЯ", "In", "for", "x", " ", "\n", "\u{a0}"];
    hold(TIME_PATTERN, &TIME_WORDS, &pieces, 4);
}

#[test]
fn time_pattern_and_what_goes_before() {
    let pieces = ["время", "час", "time", "который", "сколько", "what", "tell", "t", "ч", " ", "\n"];
    hold(TIME_PATTERN, &TIME_WORDS, &pieces, 4);
}

#[test]
fn time_pattern_letter_by_letter() {
    let pieces =
        ["\u{1c80}ре", "вр", "Е", "мя", "ча", "\u{1c83}", "с", "ti", "Me", "in", "t", " ", "\n"];
    hold(TIME_PATTERN, &TIME_WORDS, &pieces, 4);
}

#[test]
fn time_at_the_end() {
    let re = Regex::new(TIME_GENERAL_PATTERN).unwrap();
    let pieces =
        ["время", "ЧАС", "time", "\u{1c80}ремя", "ча\u{1c83}", "what", "в", "x", " ", "\n", "\u{85}"];
    rows(&pieces, 4, &mut String::new(), &|text| {
        let chars: Vec<char> = text.chars().collect();
        assert_eq!(re.is_match(text), ends_in(&TIME_WORDS, &chars), "{:?}", text);
    });
}

/// Puts every character in place of each letter of `word`, between `before` and
/// `after`.
fn every_letter(pattern: &str, words: &[&str], before: &str, word: &str, after: &str) {
    let re = Regex::new(pattern).unwrap();
    let letters: Vec<char> = word.chars().collect();
    for k in 0..letters.len() {
        for c in '\0'..='\u{ffff}' {
            let mut changed = letters.clone();
            changed[k] = c;
            let text: String = before.chars().chain(changed).chain(after.chars()).collect();
            let chars: Vec<char> = text.chars().collect();
            let found = re.captures(&text).map(|m| m.get(1).unwrap().as_str().trim().to_string());
            assert_eq!(found, question(words, &chars), "{:?}", text);
        }
    }
}

#[test]
fn case_of_the_weather() {
    every_letter(WEATHER_PATTERN, &WEATHER_WORDS, "", "погоду", "!");
}

#[test]
fn case_of_the_time() {
    every_letter(TIME_PATTERN, &TIME_WORDS, "", "время", "!");
}

#[test]
fn case_of_the_hour() {
    every_letter(TIME_PATTERN, &TIME_WORDS, "", "час", "!");
    every_letter(TIME_PATTERN, &TIME_WORDS, "", "time", "!");
}

#[test]
fn case_of_the_prepositions() {
    every_letter(TIME_PATTERN, &TIME_WORDS, "час ", "в", " x");
    every_letter(TIME_PATTERN, &TIME_WORDS, "час ", "для", " x");
    every_letter(TIME_PATTERN, &TIME_WORDS, "час ", "in", " x");
}

#[test]
fn case_of_the_longer_prepositions() {
    every_letter(TIME_PATTERN, &TIME_WORDS, "час ", "городе", " x");
    every_letter(TIME_PATTERN, &TIME_WORDS, "час ", "for", " x");
}
