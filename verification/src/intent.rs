//! What a message asks for.
use crate::text::{
    first_line, law_trimmed, law_trimmed_twice, lemma_occurs_within, lemma_trimmed_keeps,
    lower_text, lowercased, occurs, plain, plain_text, same_text, to_lowercase, trim, trimmed,
    trimmed_start, white_space,
};
use regex::Regex;
use vstd::prelude::*;

verus! {

/// A question about the weather; its group is the city.
pub const WEATHER_PATTERN: &'static str =
    r"(?i)(?:какая|какую|скажи|подскажи|покажи|weather|tell|show)?\s*(?:погода|погоду)\s*(?:в|городе|для|in|for)?\s*(.+)";

/// A question about the time in a city; its group is the city.
pub const TIME_PATTERN: &'static str =
    r"(?i)(?:который|сколько|скажи|подскажи|покажи|what|tell|show)?\s*(?:время|час|time)\s*(?:в|городе|для|in|for)?\s*(.+)";

/// A question about the time that ends the message.
pub const TIME_GENERAL_PATTERN: &'static str =
    r"(?i)(?:который|сколько|скажи|подскажи|покажи|what|tell|show)?\s*(?:время|час|time)\s*$";

/// `c` in the form that stands for both cases, as far as the words below need
/// it: case does not matter to the patterns.
pub open spec fn folded(c: char) -> char {
    let n = c as int;
    if 0x41 <= n <= 0x5a || 0x410 <= n <= 0x42f {
        (n + 0x20) as char
    } else if n == 0x1c80 {
        'в'
    } else if n == 0x1c81 {
        'д'
    } else if n == 0x1c82 {
        'о'
    } else if n == 0x1c83 {
        'с'
    } else {
        c
    }
}

/// Whether `word` stands in `text` at position `i`, in any case.
pub open spec fn word_at(word: Seq<char>, text: Seq<char>, i: int) -> bool {
    &&& 0 <= i && i + word.len() <= text.len()
    &&& forall|k: int| 0 <= k < word.len() ==> #[trigger] folded(text[i + k]) == word[k]
}

/// The length of the word for the weather that stands in `text` at position
/// `i`, or 0 if there is none.
pub open spec fn weather_word(text: Seq<char>, i: int) -> nat {
    if word_at("погода"@, text, i) || word_at("погоду"@, text, i) {
        6
    } else {
        0
    }
}

/// The length of the word for the time that stands in `text` at position `i`,
/// or 0 if there is none.
pub open spec fn time_word(text: Seq<char>, i: int) -> nat {
    if word_at("время"@, text, i) {
        5
    } else if word_at("час"@, text, i) {
        3
    } else if word_at("time"@, text, i) {
        4
    } else {
        0
    }
}

/// The length of the preposition that `text` begins with, or 0 if there is
/// none.
pub open spec fn preposition(text: Seq<char>) -> nat {
    if word_at("в"@, text, 0) {
        1
    } else if word_at("городе"@, text, 0) {
        6
    } else if word_at("для"@, text, 0) || word_at("for"@, text, 0) {
        3
    } else if word_at("in"@, text, 0) {
        2
    } else {
        0
    }
}

/// Whether `text` holds anything but line feeds.
pub open spec fn has_content(text: Seq<char>) -> bool {
    exists|i: int| 0 <= i < text.len() && #[trigger] text[i] != '\n'
}

/// The city that a question is about, where `rest` follows the word that made
/// it one: what stands on the line behind the preposition, if there is one.
/// Where only white space follows the preposition the city is left out, and
/// where not even that does the preposition is taken for the city.
pub open spec fn subject(rest: Seq<char>) -> Seq<char> {
    let begin = trimmed_start(rest);
    let behind = begin.skip(preposition(begin) as int);
    if preposition(begin) > 0 && has_content(behind) {
        trimmed(first_line(trimmed_start(behind)))
    } else {
        trimmed(first_line(begin))
    }
}

/// Whether the first of the words whose lengths `word` gives stands in `text`
/// at position `i`.
pub open spec fn first_word(
    text: Seq<char>,
    word: spec_fn(Seq<char>, int) -> nat,
    i: int,
) -> bool {
    &&& 0 <= i < text.len() && word(text, i) > 0
    &&& forall|j: int| 0 <= j < i ==> #[trigger] word(text, j) == 0
}

/// The city that `text` asks about, if it holds a question: one of the words,
/// with something behind it.
pub open spec fn question(text: Seq<char>, word: spec_fn(Seq<char>, int) -> nat) -> Option<
    Seq<char>,
> {
    if exists|i: int| first_word(text, word, i) {
        let i = choose|i: int| first_word(text, word, i);
        let rest = text.skip(i + word(text, i));
        if has_content(rest) {
            Some(subject(rest))
        } else {
            None
        }
    } else {
        None
    }
}

/// The city whose weather `text` asks for.
pub open spec fn weather_question(text: Seq<char>) -> Option<Seq<char>> {
    question(text, |t: Seq<char>, i: int| weather_word(t, i))
}

/// The city whose time `text` asks for.
pub open spec fn time_question(text: Seq<char>) -> Option<Seq<char>> {
    question(text, |t: Seq<char>, i: int| time_word(t, i))
}

/// Whether `text` ends in a word for the time.
pub open spec fn ends_in_time(text: Seq<char>) -> bool {
    exists|i: int| #[trigger]
        time_word(text, i) > 0 && trimmed(text.skip(i + time_word(text, i))).len() == 0
}

/// The city that a search captured: its group, without the white space around
/// it.
pub open spec fn captured_city(c: Option<Option<String>>) -> Option<Seq<char>> {
    match c {
        Some(Some(t)) => Some(trimmed(t@)),
        _ => None,
    }
}

/// What the strings of a search hold.
pub open spec fn capture_text(c: Option<Option<String>>) -> Option<Option<Seq<char>>> {
    match c {
        Some(Some(t)) => Some(Some(t@)),
        Some(None) => Some(None),
        None => None,
    }
}

/// `Regex::captures` and `Captures::get(1)`, for the two patterns that have a
/// group. What is stated is what the patterns mean: there is a match where one
/// of the words has something behind it other than line feeds, the match that
/// is found takes the first of the words, and the group is what is left of the
/// line once white space, a preposition and white space again have been taken
/// off its front, each as far as that leaves something. Not stated is how much
/// white space the group has around it. The group is `(.+)`, which stands in no
/// alternative and under no repetition: it takes part in every match, and holds
/// a piece of the text of at least one character.
#[verifier::external_body]
fn capture(pattern: &str, text: &str) -> (r: Option<Option<String>>)
    requires
        pattern@ == WEATHER_PATTERN@ || pattern@ == TIME_PATTERN@,
    ensures
        pattern@ == WEATHER_PATTERN@ ==> captured_city(r) == weather_question(text@),
        pattern@ == TIME_PATTERN@ ==> captured_city(r) == time_question(text@),
        r matches Some(group) ==> group is Some,
        r matches Some(Some(group)) ==> group@.len() > 0 && occurs(group@, text@),
{
    let found = Regex::new(pattern).unwrap().captures(text)?;
    Some(found.get(1).map(|m| m.as_str().to_string()))
}

/// `Regex::is_match`, for the pattern that is only tested: there is a match
/// where nothing but white space stands behind one of the words.
#[verifier::external_body]
fn is_match(pattern: &str, text: &str) -> (r: bool)
    requires
        pattern@ == TIME_GENERAL_PATTERN@,
    ensures
        r == ends_in_time(text@),
{
    Regex::new(pattern).unwrap().is_match(text)
}

/// What a message asks for.
#[derive(Debug, PartialEq, Eq)]
pub enum Intent {
    /// A greeting.
    Greeting,
    /// How the bot is doing.
    StatusCheck,
    /// The weather in a city.
    Weather { city: String },
    /// The weather, with white space for a city.
    WeatherNoCity,
    /// The time in a city.
    Time { city: String },
    /// The time, with white space for a city.
    TimeNoCity,
    /// A question whose city the pattern did not capture.
    Fallback,
    /// The time on the server.
    ServerTime,
    /// A command.
    Slash,
    /// Anything else.
    Unknown,
}

/// What an `Intent` holds.
pub enum IntentView {
    Greeting,
    StatusCheck,
    Weather { city: Seq<char> },
    WeatherNoCity,
    Time { city: Seq<char> },
    TimeNoCity,
    Fallback,
    ServerTime,
    Slash,
    Unknown,
}

impl View for Intent {
    type V = IntentView;

    open spec fn view(&self) -> IntentView {
        match self {
            Intent::Greeting => IntentView::Greeting,
            Intent::StatusCheck => IntentView::StatusCheck,
            Intent::Weather { city } => IntentView::Weather { city: city@ },
            Intent::WeatherNoCity => IntentView::WeatherNoCity,
            Intent::Time { city } => IntentView::Time { city: city@ },
            Intent::TimeNoCity => IntentView::TimeNoCity,
            Intent::Fallback => IntentView::Fallback,
            Intent::ServerTime => IntentView::ServerTime,
            Intent::Slash => IntentView::Slash,
            Intent::Unknown => IntentView::Unknown,
        }
    }
}

/// The words that greet the bot, in lower case.
pub open spec fn greets(lowered: Seq<char>) -> bool {
    ||| lowered == "привет"@
    ||| lowered == "здравствуй"@
    ||| lowered == "hello"@
    ||| lowered == "hi"@
}

/// The phrases that ask how the bot is doing, in lower case.
pub open spec fn asks_status(lowered: Seq<char>) -> bool {
    ||| lowered == "как твои дела?"@
    ||| lowered == "как дела"@
}

/// What a question about the weather asks for, given what its group captured.
pub open spec fn weather_intent(group: Option<Seq<char>>) -> IntentView {
    match group {
        None => IntentView::Fallback,
        Some(g) => if trimmed(g).len() == 0 {
            IntentView::WeatherNoCity
        } else {
            IntentView::Weather { city: trimmed(g) }
        },
    }
}

/// What a question about the time asks for, given what its group captured.
pub open spec fn time_intent(group: Option<Seq<char>>) -> IntentView {
    match group {
        None => IntentView::Fallback,
        Some(g) => if trimmed(g).len() == 0 {
            IntentView::TimeNoCity
        } else {
            IntentView::Time { city: trimmed(g) }
        },
    }
}

/// What the message `input` asks for, given its lower case form and what the
/// patterns found in it. What comes first here goes first.
pub open spec fn intent_of(
    input: Seq<char>,
    lowered: Seq<char>,
    weather: Option<Option<Seq<char>>>,
    time: Option<Option<Seq<char>>>,
    time_general: bool,
) -> IntentView {
    if greets(lowered) {
        IntentView::Greeting
    } else if asks_status(lowered) {
        IntentView::StatusCheck
    } else if weather is Some {
        weather_intent(weather->0)
    } else if time is Some {
        time_intent(time->0)
    } else if time_general {
        IntentView::ServerTime
    } else if input.len() > 0 && input[0] == '/' {
        IntentView::Slash
    } else {
        IntentView::Unknown
    }
}

/// What the message `input` asks for, where `lowered` is its lower case form
/// without the white space around it.
pub open spec fn understood_with(input: Seq<char>, lowered: Seq<char>) -> IntentView {
    intent_of(
        input,
        lowered,
        match weather_question(input) {
            Some(city) => Some(Some(city)),
            None => None,
        },
        match time_question(input) {
            Some(city) => Some(Some(city)),
            None => None,
        },
        ends_in_time(input),
    )
}

/// What the message `input` asks for.
pub open spec fn understood(input: Seq<char>) -> IntentView {
    understood_with(input, lowercased(trimmed(input)))
}

/// Whether `text` begins with `head`, in any case, in Russian letters and ASCII
/// characters.
pub open spec fn begins(head: Seq<char>, text: Seq<char>) -> bool {
    &&& head.len() <= text.len()
    &&& plain_text(text.take(head.len() as int))
    &&& lower_text(text.take(head.len() as int)) == head
}

/// What the bot promises to take the message `input` for. `"Погода в ..."`, in
/// any case, asks for the weather, and `"Время в ..."` for the time where it is
/// not taken for a question about the weather; what stands on the line behind is
/// the city, and only white space behind leaves it out. A greeting is taken for
/// one in any case and with any white space around it, and so is the question
/// how the bot is doing.
pub open spec fn promised(input: Seq<char>) -> Option<IntentView> {
    if begins("погода в "@, input) {
        Some(weather_intent(Some(first_line(trimmed_start(input.skip(9))))))
    } else if begins("время в "@, input) && weather_question(input) is None {
        Some(time_intent(Some(first_line(trimmed_start(input.skip(8))))))
    } else if plain_text(trimmed(input)) && greets(lower_text(trimmed(input))) {
        Some(IntentView::Greeting)
    } else if plain_text(trimmed(input)) && asks_status(lower_text(trimmed(input))) {
        Some(IntentView::StatusCheck)
    } else {
        None
    }
}

/// Whether `city` is a name that the message `input` gives: a piece of it that
/// neither begins nor ends with white space.
pub open spec fn names_city(city: Seq<char>, input: Seq<char>) -> bool {
    &&& city.len() > 0
    &&& occurs(city, input)
    &&& !white_space(city[0])
    &&& !white_space(city.last())
}

/// What the message `input` asks for, given its lower case form and what the
/// patterns found in it.
pub fn classify(
    input: &str,
    lowered: &str,
    weather: Option<Option<String>>,
    time: Option<Option<String>>,
    time_general: bool,
) -> (r: Intent)
    ensures
        r@ == intent_of(
            input@,
            lowered@,
            capture_text(weather),
            capture_text(time),
            time_general,
        ),
        !greets(lowered@) && !asks_status(lowered@) ==> {
            &&& weather matches Some(Some(g)) ==> {
                &&& trimmed(g@).len() > 0 ==> (r matches Intent::Weather { city } && city@
                    == trimmed(g@))
                &&& trimmed(g@).len() == 0 ==> r is WeatherNoCity
            }
            &&& weather is None ==> (time matches Some(Some(g)) ==> {
                &&& trimmed(g@).len() > 0 ==> (r matches Intent::Time { city } && city@
                    == trimmed(g@))
                &&& trimmed(g@).len() == 0 ==> r is TimeNoCity
            })
        },
{
    if same_text(lowered, "привет") || same_text(lowered, "здравствуй") || same_text(
        lowered,
        "hello",
    ) || same_text(lowered, "hi") {
        return Intent::Greeting;
    }
    if same_text(lowered, "как твои дела?") || same_text(lowered, "как дела") {
        return Intent::StatusCheck;
    }
    if let Some(group) = weather {
        return match group {
            Some(g) => {
                let city = trim(g.as_str());
                if !city.is_empty() {
                    Intent::Weather { city: city.to_string() }
                } else {
                    Intent::WeatherNoCity
                }
            },
            None => Intent::Fallback,
        };
    }
    if let Some(group) = time {
        return match group {
            Some(g) => {
                let city = trim(g.as_str());
                if !city.is_empty() {
                    Intent::Time { city: city.to_string() }
                } else {
                    Intent::TimeNoCity
                }
            },
            None => Intent::Fallback,
        };
    }
    if time_general {
        Intent::ServerTime
    } else if !input.is_empty() && input.get_char(0) == '/' {
        Intent::Slash
    } else {
        Intent::Unknown
    }
}

/// How the bot is doing is never asked with a greeting.
proof fn lemma_small_talk(lowered: Seq<char>)
    ensures
        !(greets(lowered) && asks_status(lowered)),
{
    reveal_strlit("привет");
    reveal_strlit("здравствуй");
    reveal_strlit("hello");
    reveal_strlit("hi");
    reveal_strlit("как твои дела?");
    reveal_strlit("как дела");
    if asks_status(lowered) {
        assert(lowered[0] == 'к');
    }
}

proof fn lemma_begins_word(head: Seq<char>, word: Seq<char>, text: Seq<char>)
    requires
        begins(head, text),
        word.is_prefix_of(head),
        forall|k: int| 0 <= k < word.len() ==> #[trigger] word[k] != 'ё',
    ensures
        word_at(word, text, 0),
{
    assert forall|k: int| 0 <= k < word.len() implies #[trigger] folded(text[0 + k])
        == word[k] by {
        let t = text.take(head.len() as int);
        assert(plain(t[k]));
        assert(lower_text(t)[k] == head[k]);
        assert(head.subrange(0, word.len() as int)[k] == head[k]);
        assert(word[k] != 'ё');
    }
}

/// What the message `input` asks for; where that is small talk is told by the
/// lower case of Russian letters and ASCII characters, if it is made of these. A
/// city that it asks about is named in it, there is no question whose city the
/// pattern did not capture, and what the bot promises to understand is
/// understood: `"погода в "` and `"время в "`, in any case, ask about the city
/// that stands behind, however long its name is.
pub fn understand(input: &str) -> (r: Intent)
    ensures
        r@ == understood(input@),
        r !is Fallback,
        r matches Intent::Weather { city } ==> names_city(city@, input@),
        r matches Intent::Time { city } ==> names_city(city@, input@),
        plain_text(trimmed(input@)) ==> r@ == understood_with(
            input@,
            lower_text(trimmed(input@)),
        ),
        promised(input@) matches Some(intent) ==> r@ == intent,
        begins("погода в "@, input@) ==> ({
            let asked = trimmed(first_line(trimmed_start(input@.skip(9))));
            &&& asked.len() > 0 ==> (r matches Intent::Weather { city } && city@ == asked)
            &&& asked.len() == 0 ==> r is WeatherNoCity
        }),
        begins("время в "@, input@) && weather_question(input@) is None ==> ({
            let asked = trimmed(first_line(trimmed_start(input@.skip(8))));
            &&& asked.len() > 0 ==> (r matches Intent::Time { city } && city@ == asked)
            &&& asked.len() == 0 ==> r is TimeNoCity
        }),
        r matches Intent::Weather { city } ==> weather_question(input@) == Some(city@),
        r matches Intent::Time { city } ==> time_question(input@) == Some(city@),
{
    let lowered = to_lowercase(trim(input));
    let weather = capture(WEATHER_PATTERN, input);
    let time = capture(TIME_PATTERN, input);
    let time_general = is_match(TIME_GENERAL_PATTERN, input);
    proof {
        lemma_small_talk(lowered@);
        if begins("погода в "@, input@) || begins("время в "@, input@) {
            lemma_questions_are_no_small_talk(input@, lowered@);
            lemma_questions(input@, lowered@);
        }
        if weather is Some && weather->0 is Some {
            let g = weather->0->0@;
            law_trimmed(g);
            law_trimmed_twice(g);
            lemma_occurs_within(trimmed(g), g, input@);
        }
        if time is Some && time->0 is Some {
            let g = time->0->0@;
            law_trimmed(g);
            law_trimmed_twice(g);
            lemma_occurs_within(trimmed(g), g, input@);
        }
    }
    classify(input, lowered.as_str(), weather, time, time_general)
}

/// What is promised of questions holds of texts that are no small talk.
proof fn lemma_questions(text: Seq<char>, lowered: Seq<char>)
    requires
        !greets(lowered),
        !asks_status(lowered),
    ensures
        begins("погода в "@, text) ==> understood_with(text, lowered) == weather_intent(
            Some(first_line(trimmed_start(text.skip(9)))),
        ),
        begins("время в "@, text) && weather_question(text) is None ==> understood_with(
            text,
            lowered,
        ) == time_intent(Some(first_line(trimmed_start(text.skip(8))))),
{
    if begins("погода в "@, text) {
        let word = |t: Seq<char>, i: int| weather_word(t, i);
        reveal_strlit("погода");
        reveal_strlit("погода в ");
        lemma_begins_word("погода в "@, "погода"@, text);
        assert(word(text, 0) == 6);
        lemma_first_word(text, word);
        let t = text.take(9);
        assert(lower_text(t)[6] == ' ' && lower_text(t)[7] == 'в' && lower_text(t)[8] == ' ');
        law_trimmed_twice(first_line(trimmed_start(text.skip(9))));
        lemma_behind_preposition(text, 6);
    }
    if begins("время в "@, text) {
        let word = |t: Seq<char>, i: int| time_word(t, i);
        reveal_strlit("время");
        reveal_strlit("время в ");
        lemma_begins_word("время в "@, "время"@, text);
        assert(word(text, 0) == 5);
        lemma_first_word(text, word);
        let t = text.take(8);
        assert(lower_text(t)[5] == ' ' && lower_text(t)[6] == 'в' && lower_text(t)[7] == ' ');
        law_trimmed_twice(first_line(trimmed_start(text.skip(8))));
        lemma_behind_preposition(text, 5);
    }
}

/// A text that begins with one of the two questions is no small talk.
proof fn lemma_questions_are_no_small_talk(text: Seq<char>, lowered: Seq<char>)
    requires
        begins("погода в "@, text) || begins("время в "@, text),
        forall|k: int|
            0 <= k <= trimmed(text).len() && plain_text(#[trigger] trimmed(text).take(k))
                ==> lower_text(trimmed(text).take(k)).is_prefix_of(lowered),
    ensures
        !greets(lowered),
        !asks_status(lowered),
{
    reveal_strlit("погода в ");
    reveal_strlit("время в ");
    let head = if begins("погода в "@, text) {
        "погода в "@
    } else {
        "время в "@
    };
    let t = text.take(head.len() as int);
    assert(lower_text(t)[0] == head[0]);
    assert(lower_text(t)[1] == head[1]);
    assert(lower_text(t)[2] == head[2]);
    assert(plain(t[0]) && plain(t[1]) && plain(t[2]));
    assert(!white_space(text[0]) && !white_space(text[2]));
    law_trimmed(text);
    lemma_trimmed_keeps(text, 3);
    let kept = trimmed(text).take(3);
    assert(kept =~= text.take(3));
    assert(plain_text(kept)) by {
        assert forall|i: int| 0 <= i < kept.len() implies plain(#[trigger] kept[i]) by {
            assert(kept[i] == t[i]);
        }
    }
    assert(lower_text(kept).is_prefix_of(lowered));
    assert(lowered.subrange(0, 3)[0] == lowered[0]);
    assert(lowered.subrange(0, 3)[2] == lowered[2]);
    assert(lower_text(kept)[0] == head[0]);
    assert(lower_text(kept)[2] == head[2]);
    reveal_strlit("привет");
    reveal_strlit("здравствуй");
    reveal_strlit("hello");
    reveal_strlit("hi");
    reveal_strlit("как твои дела?");
    reveal_strlit("как дела");
}

/// A word that a text begins with is the first one.
proof fn lemma_first_word(text: Seq<char>, word: spec_fn(Seq<char>, int) -> nat)
    requires
        text.len() > 0,
        word(text, 0) > 0,
    ensures
        question(text, word) == (if has_content(text.skip(word(text, 0) as int)) {
            Some(subject(text.skip(word(text, 0) as int)))
        } else {
            None
        }),
{
    assert(first_word(text, word, 0));
    let i = choose|i: int| first_word(text, word, i);
    assert(first_word(text, word, i));
    if i > 0 {
        assert(word(text, 0) == 0);
    }
}

/// What follows a word, a space, the preposition `"в"` and a space.
proof fn lemma_behind_preposition(text: Seq<char>, n: int)
    requires
        0 <= n,
        n + 3 <= text.len(),
        text[n] == ' ',
        text[n + 1] == 'в' || text[n + 1] == 'В',
        text[n + 2] == ' ',
    ensures
        has_content(text.skip(n)),
        subject(text.skip(n)) == trimmed(first_line(trimmed_start(text.skip(n + 3)))),
{
    let rest = text.skip(n);
    assert(rest[0] != '\n');
    let begin = text.skip(n + 1);
    assert(rest.skip(1) =~= begin);
    assert(begin[0] == text[n + 1]);
    assert(trimmed_start(begin) == begin);
    assert(trimmed_start(rest) == begin);
    reveal_strlit("в");
    assert(folded(begin[0]) == 'в');
    assert(word_at("в"@, begin, 0));
    let behind = begin.skip(1);
    assert(behind[0] == ' ');
    assert(has_content(behind));
    assert(behind.skip(1) =~= text.skip(n + 3));
    assert(trimmed_start(behind) == trimmed_start(text.skip(n + 3)));
}

/// A greeting is taken for a greeting however it is spelled, with white space
/// around it and in any case, and whatever else is found in it.
pub proof fn law_greeting_spelling(a: Seq<char>, b: Seq<char>)
    requires
        greets(lowercased(trimmed(a))),
        lowercased(trimmed(a)) == lowercased(trimmed(b)),
    ensures
        understood(a) == IntentView::Greeting,
        understood(b) == IntentView::Greeting,
{
}

/// A question about the weather asks for the city that its group holds, however
/// long the name is, and leaves the city out only where the group is nothing but
/// white space.
pub proof fn law_city_of_a_weather_question(group: Seq<char>)
    ensures
        weather_intent(Some(group)) == (IntentView::Weather { city: trimmed(group) }) <==> trimmed(
            group,
        ).len() > 0,
        weather_intent(Some(group)) == IntentView::WeatherNoCity <==> forall|i: int|
            0 <= i < group.len() ==> white_space(#[trigger] group[i]),
        weather_intent(None) == IntentView::Fallback,
{
    law_trimmed(group);
}

/// A question about the time asks for the city that its group holds, however long
/// the name is, and leaves the city out only where the group is nothing but white
/// space.
pub proof fn law_city_of_a_time_question(group: Seq<char>)
    ensures
        time_intent(Some(group)) == (IntentView::Time { city: trimmed(group) }) <==> trimmed(
            group,
        ).len() > 0,
        time_intent(Some(group)) == IntentView::TimeNoCity <==> forall|i: int|
            0 <= i < group.len() ==> white_space(#[trigger] group[i]),
        time_intent(None) == IntentView::Fallback,
{
    law_trimmed(group);
}

/// Small talk is a message whose lower case form, without the white space around
/// it, is one of six phrases, and nothing else is: four greet the bot, and two
/// ask how it is doing.
pub proof fn law_small_talk(input: Seq<char>, lowered: Seq<char>)
    ensures
        understood_with(input, lowered) == IntentView::Greeting <==> (lowered == "привет"@
            || lowered == "здравствуй"@ || lowered == "hello"@ || lowered == "hi"@),
        understood_with(input, lowered) == IntentView::StatusCheck <==> (lowered
            == "как твои дела?"@ || lowered == "как дела"@),
        understood(input) == understood_with(input, lowercased(trimmed(input))),
{
    lemma_small_talk(lowered);
}

/// What a message that is no small talk asks for: the weather in the city that it
/// asks about, if it is a question about the weather, or else the time in the
/// city that it asks about, if it is a question about the time. The city is left
/// out only where the question has none.
pub proof fn law_questions(input: Seq<char>, lowered: Seq<char>)
    requires
        !(understood_with(input, lowered) is Greeting),
        !(understood_with(input, lowered) is StatusCheck),
    ensures
        weather_question(input) matches Some(city) ==> {
            &&& city.len() > 0 ==> understood_with(input, lowered) == (IntentView::Weather { city })
            &&& city.len() == 0 ==> understood_with(input, lowered) == IntentView::WeatherNoCity
        },
        weather_question(input) is None ==> (time_question(input) matches Some(city) ==> {
            &&& city.len() > 0 ==> understood_with(input, lowered) == (IntentView::Time { city })
            &&& city.len() == 0 ==> understood_with(input, lowered) == IntentView::TimeNoCity
        }),
{
    lemma_question_is_trimmed(input, |t: Seq<char>, i: int| weather_word(t, i));
    lemma_question_is_trimmed(input, |t: Seq<char>, i: int| time_word(t, i));
}

/// What a message that is neither small talk nor a question about a city asks
/// for: the time on the server, where it ends in a word for the time; or else it
/// is a command, where it begins with a slash, and unknown where it does not.
pub proof fn law_what_is_left(input: Seq<char>, lowered: Seq<char>)
    requires
        !(understood_with(input, lowered) is Greeting),
        !(understood_with(input, lowered) is StatusCheck),
        weather_question(input) is None,
        time_question(input) is None,
    ensures
        understood_with(input, lowered) == IntentView::ServerTime <==> ends_in_time(input),
        understood_with(input, lowered) == IntentView::Slash <==> !ends_in_time(input)
            && input.len() > 0 && input[0] == '/',
        understood_with(input, lowered) == IntentView::Unknown <==> !ends_in_time(input) && (
        input.len() == 0 || input[0] != '/'),
{
}

/// The city of a question has no white space around it.
proof fn lemma_question_is_trimmed(text: Seq<char>, word: spec_fn(Seq<char>, int) -> nat)
    ensures
        question(text, word) matches Some(city) ==> trimmed(city) == city,
{
    if exists|i: int| first_word(text, word, i) {
        let i = choose|i: int| first_word(text, word, i);
        let rest = text.skip(i + word(text, i));
        let begin = trimmed_start(rest);
        let behind = begin.skip(preposition(begin) as int);
        law_trimmed_twice(first_line(begin));
        law_trimmed_twice(first_line(trimmed_start(behind)));
    }
}

/// A message that begins with `head`, which is `"погода в "` in some case, and is
/// no small talk asks for the weather in the city that stands on the line behind,
/// however long its name is, and leaves the city out only where the line holds
/// nothing but white space. So does `"время в "` for the time, where the message
/// is no question about the weather.
pub proof fn law_city_stands_behind(head: Seq<char>, rest: Seq<char>, lowered: Seq<char>)
    requires
        plain_text(head),
        !(understood_with(head + rest, lowered) is Greeting),
        !(understood_with(head + rest, lowered) is StatusCheck),
    ensures
        ({
            let intent = understood_with(head + rest, lowered);
            let line = first_line(trimmed_start(rest));
            let city = trimmed(line);
            &&& lower_text(head) == "погода в "@ ==> {
                &&& city.len() > 0 ==> intent == (IntentView::Weather { city })
                &&& intent == IntentView::WeatherNoCity <==> city.len() == 0
            }
            &&& lower_text(head) == "время в "@ && weather_question(head + rest) is None ==> {
                &&& city.len() > 0 ==> intent == (IntentView::Time { city })
                &&& intent == IntentView::TimeNoCity <==> city.len() == 0
            }
        }),
{
    let text = head + rest;
    reveal_strlit("погода в ");
    reveal_strlit("время в ");
    assert(head.len() == lower_text(head).len());
    assert(text.take(head.len() as int) =~= head);
    assert(text.skip(head.len() as int) =~= rest);
    if lower_text(head) == "погода в "@ || lower_text(head) == "время в "@ {
        lemma_questions(text, lowered);
    }
}

/// What the bot promises of a message, said for each kind of promise.
pub proof fn law_promises(input: Seq<char>)
    ensures
        begins("погода в "@, input) ==> ({
            let city = trimmed(first_line(trimmed_start(input.skip(9))));
            &&& city.len() > 0 ==> promised(input) == Some(IntentView::Weather { city })
            &&& city.len() == 0 ==> promised(input) == Some(IntentView::WeatherNoCity)
        }),
        begins("время в "@, input) && weather_question(input) is None ==> ({
            let city = trimmed(first_line(trimmed_start(input.skip(8))));
            &&& city.len() > 0 ==> promised(input) == Some(IntentView::Time { city })
            &&& city.len() == 0 ==> promised(input) == Some(IntentView::TimeNoCity)
        }),
{
    reveal_strlit("погода в ");
    reveal_strlit("время в ");
    if begins("погода в "@, input) && begins("время в "@, input) {
        assert(lower_text(input.take(9))[0] == 'п');
        assert(lower_text(input.take(8))[0] == 'в');
        assert(input.take(9)[0] == input.take(8)[0]);
    }
}

/// The words that make a question, and the prepositions that may follow them:
/// each of these is one, wherever it stands and in any case, and nothing else is.
pub proof fn law_words_of_questions(text: Seq<char>, i: int)
    ensures
        weather_word(text, i) > 0 <==> word_at("погода"@, text, i) || word_at(
            "погоду"@,
            text,
            i,
        ),
        time_word(text, i) > 0 <==> word_at("время"@, text, i) || word_at("час"@, text, i)
            || word_at("time"@, text, i),
        preposition(text) > 0 <==> word_at("в"@, text, 0) || word_at("городе"@, text, 0)
            || word_at("для"@, text, 0) || word_at("in"@, text, 0) || word_at("for"@, text, 0),
        word_at("погода"@, text, i) || word_at("погоду"@, text, i) ==> weather_word(text, i)
            == "погода"@.len(),
        word_at("время"@, text, i) ==> time_word(text, i) == "время"@.len(),
{
    reveal_strlit("погода");
    reveal_strlit("время");
}

/// A message is a question about the weather exactly where one of the words for
/// it has something behind it, other than line feeds, the first time that one of
/// them stands there; and so with the time.
pub proof fn law_what_is_a_question(text: Seq<char>)
    ensures
        weather_question(text) is Some <==> exists|i: int|
            {
                &&& 0 <= i < text.len()
                &&& #[trigger] weather_word(text, i) > 0
                &&& forall|j: int| 0 <= j < i ==> #[trigger] weather_word(text, j) == 0
                &&& has_content(text.skip(i + weather_word(text, i)))
            },
        time_question(text) is Some <==> exists|i: int|
            {
                &&& 0 <= i < text.len()
                &&& #[trigger] time_word(text, i) > 0
                &&& forall|j: int| 0 <= j < i ==> #[trigger] time_word(text, j) == 0
                &&& has_content(text.skip(i + time_word(text, i)))
            },
{
    lemma_weather_question(text);
    lemma_time_question(text);
}

proof fn lemma_weather_question(text: Seq<char>)
    ensures
        weather_question(text) is Some <==> exists|i: int|
            {
                &&& 0 <= i < text.len()
                &&& #[trigger] weather_word(text, i) > 0
                &&& forall|j: int| 0 <= j < i ==> #[trigger] weather_word(text, j) == 0
                &&& has_content(text.skip(i + weather_word(text, i)))
            },
{
    let word = |t: Seq<char>, i: int| weather_word(t, i);
    assert forall|i: int|
        {
            &&& 0 <= i < text.len()
            &&& #[trigger] weather_word(text, i) > 0
            &&& forall|j: int| 0 <= j < i ==> #[trigger] weather_word(text, j) == 0
        } implies first_word(text, word, i) by {
        assert forall|j: int| 0 <= j < i implies #[trigger] word(text, j) == 0 by {
            assert(weather_word(text, j) == 0);
        }
    }
    if exists|i: int| first_word(text, word, i) {
        let i = choose|i: int| first_word(text, word, i);
        assert(word(text, i) == weather_word(text, i));
        assert forall|j: int| 0 <= j < i implies #[trigger] weather_word(text, j) == 0 by {
            assert(word(text, j) == 0);
        }
        assert forall|k: int| first_word(text, word, k) implies k == i by {
            if k < i {
                assert(word(text, k) == 0);
            } else if i < k {
                assert(word(text, i) == 0);
            }
        }
    }
}

proof fn lemma_time_question(text: Seq<char>)
    ensures
        time_question(text) is Some <==> exists|i: int|
            {
                &&& 0 <= i < text.len()
                &&& #[trigger] time_word(text, i) > 0
                &&& forall|j: int| 0 <= j < i ==> #[trigger] time_word(text, j) == 0
                &&& has_content(text.skip(i + time_word(text, i)))
            },
{
    let word = |t: Seq<char>, i: int| time_word(t, i);
    assert forall|i: int|
        {
            &&& 0 <= i < text.len()
            &&& #[trigger] time_word(text, i) > 0
            &&& forall|j: int| 0 <= j < i ==> #[trigger] time_word(text, j) == 0
        } implies first_word(text, word, i) by {
        assert forall|j: int| 0 <= j < i implies #[trigger] word(text, j) == 0 by {
            assert(time_word(text, j) == 0);
        }
    }
    if exists|i: int| first_word(text, word, i) {
        let i = choose|i: int| first_word(text, word, i);
        assert(word(text, i) == time_word(text, i));
        assert forall|j: int| 0 <= j < i implies #[trigger] time_word(text, j) == 0 by {
            assert(word(text, j) == 0);
        }
        assert forall|k: int| first_word(text, word, k) implies k == i by {
            if k < i {
                assert(word(text, k) == 0);
            } else if i < k {
                assert(word(text, i) == 0);
            }
        }
    }
}

/// What is captured, and what a message asks for, is seen as what it holds.
pub proof fn law_intent_is_seen_whole(city: String)
    ensures
        (Intent::Weather { city })@ == (IntentView::Weather { city: city@ }),
        (Intent::Time { city })@ == (IntentView::Time { city: city@ }),
        Intent::Greeting@ == IntentView::Greeting,
        Intent::StatusCheck@ == IntentView::StatusCheck,
        Intent::WeatherNoCity@ == IntentView::WeatherNoCity,
        Intent::TimeNoCity@ == IntentView::TimeNoCity,
        Intent::Fallback@ == IntentView::Fallback,
        Intent::ServerTime@ == IntentView::ServerTime,
        Intent::Slash@ == IntentView::Slash,
        Intent::Unknown@ == IntentView::Unknown,
        capture_text(Some(Some(city))) == Some(Some(city@)),
        capture_text(Some(None)) == Some(None::<Seq<char>>),
        capture_text(None) == None::<Option<Seq<char>>>,
        captured_city(Some(Some(city))) == Some(trimmed(city@)),
        captured_city(Some(None)) == None::<Seq<char>>,
        captured_city(None) == None::<Seq<char>>,
{
}

/// What a message asks for goes by an order: small talk goes before the
/// weather, the weather before the time in a city, that before the time on the
/// server, and that before commands.
pub proof fn law_order_of_intents(
    input: Seq<char>,
    lowered: Seq<char>,
    weather: Option<Option<Seq<char>>>,
    time: Option<Option<Seq<char>>>,
    time_general: bool,
)
    ensures
        ({
            let intent = intent_of(input, lowered, weather, time, time_general);
            let small_talk = greets(lowered) || asks_status(lowered);
            let command = input.len() > 0 && input[0] == '/';
            &&& small_talk <==> intent is Greeting || intent is StatusCheck
            &&& intent is Greeting <==> greets(lowered)
            &&& intent is StatusCheck <==> asks_status(lowered)
            &&& !small_talk && weather is Some ==> intent == weather_intent(weather->0)
            &&& !small_talk && weather is None && time is Some ==> intent == time_intent(time->0)
            &&& intent is ServerTime <==> !small_talk && weather is None && time is None
                && time_general
            &&& intent is Slash <==> !small_talk && weather is None && time is None
                && !time_general && command
            &&& intent is Unknown <==> !small_talk && weather is None && time is None
                && !time_general && !command
        }),
{
    lemma_small_talk(lowered);
}

} // verus!
