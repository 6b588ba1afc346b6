//! Reading a line and answering it.

use super::globals::{
    rule_responses, responses_of, DEFAULT_RESPONSES, FACTS, GOODBYE_INPUTS, GOODBYE_RESPONSES,
    INTRO_RESPONSES, PATTERNS, REFLECTED_WORDS, RULE_COUNT,
};
use crate::chance::pick_one;
use crate::pattern::{capture_of, search, Capture, CaptureView};
use crate::text::{
    contains_text, has_part, is_listed, listed, lowercase, replace_text, replaced, same_text,
    split_words, text_views, trim_noise, trimmed, words_of,
};
use vstd::prelude::*;
use vstd::string::*;

verus! {

/// A line as the rules read it: without the noise at its ends, in lower case.
pub open spec fn preprocessed(input: Seq<char>) -> Seq<char> {
    lowercase(trimmed(input))
}

/// Strips punctuation and white space from both ends of a line and puts the
/// rest in lower case.
pub fn preprocess(input: &str) -> (line: String)
    ensures
        line@ == preprocessed(input@),
{
    trim_noise(input).to_lowercase()
}

/// One entry of `list`, picked at random; the empty text from an empty list.
pub fn random_element_from(list: &[&'static str]) -> (picked: &'static str)
    ensures
        list@.len() > 0 ==> is_listed(list@, picked@),
        list@.len() == 0 ==> picked@ == Seq::<char>::empty(),
{
    match pick_one(list) {
        Some(entry) => entry,
        None => {
            proof {
                reveal_strlit("");
            }
            assert(""@ =~= Seq::<char>::empty());
            ""
        },
    }
}

/// What `word` becomes by the entries of the table from `from` on: the other
/// side of the first entry that lists it, and itself where none does.
pub open spec fn reflection_from(word: Seq<char>, from: int) -> Seq<char>
    decreases REFLECTED_WORDS@.len() - from,
{
    if from < 0 || from >= REFLECTED_WORDS@.len() {
        word
    } else if REFLECTED_WORDS[from].0@ == word {
        REFLECTED_WORDS[from].1@
    } else {
        reflection_from(word, from + 1)
    }
}

/// What `word` becomes when a phrase is handed back: "my" becomes "your",
/// "you" becomes "me", and a word that the table does not list stays.
pub open spec fn reflected_word(word: Seq<char>) -> Seq<char> {
    reflection_from(word, 0)
}

/// Looks `word` up in the table of reflected words.
pub fn reflect_word<'a>(word: &'a str) -> (out: &'a str)
    ensures
        out@ == reflected_word(word@),
{
    let mut k: usize = 0;
    while k < REFLECTED_WORDS.len()
        invariant
            k <= REFLECTED_WORDS@.len(),
            reflection_from(word@, k as int) == reflected_word(word@),
        decreases REFLECTED_WORDS@.len() - k,
    {
        if same_text(REFLECTED_WORDS[k].0, word) {
            return REFLECTED_WORDS[k].1;
        }
        k += 1;
    }
    word
}

/// The texts of `words` in a row, with `gap` between each two.
pub open spec fn joined(words: Seq<Seq<char>>, gap: Seq<char>) -> Seq<char>
    decreases words.len(),
{
    if words.len() == 0 {
        Seq::empty()
    } else if words.len() == 1 {
        words[0]
    } else {
        joined(words.drop_last(), gap) + gap + words.last()
    }
}

/// A phrase handed back: each of its words reflected, with one space between
/// each two.
pub open spec fn reflected(fragment: Seq<char>) -> Seq<char> {
    joined(words_of(fragment).map_values(|word: Seq<char>| reflected_word(word)), " "@)
}

/// Hands a phrase back from the other side: splits it into words, reflects
/// each, and joins them with single spaces.
pub fn reflect(fragment: &str) -> (out: String)
    ensures
        out@ == reflected(fragment@),
{
    let words = split_words(fragment);
    let ghost turned = words_of(fragment@).map_values(|word: Seq<char>| reflected_word(word));
    let mut out = String::new();
    let mut k: usize = 0;
    while k < words.len()
        invariant
            k <= words.len(),
            text_views(words@) == words_of(fragment@),
            turned == words_of(fragment@).map_values(|word: Seq<char>| reflected_word(word)),
            out@ == joined(turned.take(k as int), " "@),
        decreases words.len() - k,
    {
        let ghost before = out@;
        if k > 0 {
            out.append(" ");
        }
        out.append(reflect_word(words[k].as_str()));
        proof {
            let now = turned.take(k + 1);
            assert(words@[k as int]@ == text_views(words@)[k as int]);
            assert(now.last() == reflected_word(words@[k as int]@));
            assert(now.drop_last() =~= turned.take(k as int));
            if k == 0 {
                assert(before =~= Seq::<char>::empty());
                assert(out@ =~= now[0]);
            }
        }
        k += 1;
    }
    assert(turned.take(k as int) =~= turned);
    out
}

/// What a rule answers with the response `response` after the search
/// `found`. A rule whose pattern does not match answers nothing. A response
/// with the mark `%s` has it filled with the reflected text of the first
/// group, and answers nothing where that group caught nothing. A response
/// without the mark is the answer as it stands.
pub open spec fn answered(response: Seq<char>, found: CaptureView) -> Option<Seq<char>> {
    match found {
        CaptureView::Match { group } => if has_part(response, "%s"@) {
            match group {
                Some(fragment) => Some(replaced(response, "%s"@, reflected(fragment))),
                None => None,
            }
        } else {
            Some(response)
        },
        _ => None,
    }
}

/// The view of an optional text.
pub open spec fn optional_text(text: Option<String>) -> Option<Seq<char>> {
    match text {
        Some(t) => Some(t@),
        None => None,
    }
}

/// Works out the answer of a rule from the response picked for it and from
/// what the search for its pattern found.
pub fn respond(response: &str, found: &Capture) -> (answer: Option<String>)
    ensures
        optional_text(answer) == answered(response@, found@),
{
    match found {
        Capture::Match { group } => {
            if contains_text(response, "%s") {
                match group {
                    Some(fragment) => {
                        proof {
                            reveal_strlit("%s");
                        }
                        let handed_back = reflect(fragment.as_str());
                        Some(replace_text(response, "%s", handed_back.as_str()))
                    },
                    None => None,
                }
            } else {
                Some(response.to_owned())
            }
        },
        _ => None,
    }
}

/// Rule `rule` may leave the line `line` to the rules after it: its pattern
/// is no regular expression or does not match, or one of its responses
/// answers nothing.
pub open spec fn may_pass(rule: int, line: Seq<char>) -> bool {
    let found = capture_of(PATTERNS[rule]@, line);
    found is Match ==> exists|k: int|
        0 <= k < rule_responses(rule).len() && answered(
            (#[trigger] rule_responses(rule)[k])@,
            found,
        ) is None
}

/// Rule `rule` may answer the line `line` with `answer`: one of its responses
/// gives that answer.
pub open spec fn may_answer(rule: int, line: Seq<char>, answer: Seq<char>) -> bool {
    exists|k: int|
        0 <= k < rule_responses(rule).len() && answered(
            (#[trigger] rule_responses(rule)[k])@,
            capture_of(PATTERNS[rule]@, line),
        ) == Some(answer)
}

/// Every rule before `rule` may leave the line to the rules after it.
pub open spec fn all_pass_before(rule: int, line: Seq<char>) -> bool {
    forall|earlier: int| 0 <= earlier < rule ==> #[trigger] may_pass(earlier, line)
}

/// `answer` is a possible response to the line `line`: the answer of a rule
/// that every earlier rule may leave the line to, or, where every rule may
/// leave it, one of the default responses.
pub open spec fn may_respond(line: Seq<char>, answer: Seq<char>) -> bool {
    ||| exists|rule: int|
        0 <= rule < RULE_COUNT && all_pass_before(rule, line) && #[trigger] may_answer(
            rule,
            line,
            answer,
        )
    ||| all_pass_before(RULE_COUNT as int, line) && is_listed(DEFAULT_RESPONSES@, answer)
}

/// Answers a preprocessed line: tries the rules in order, picks a response at
/// random from the first whose pattern matches, and goes on to the next rule
/// where that response answers nothing. Where no rule answers, picks a default
/// response.
pub fn lookup_response(input: &str) -> (answer: String)
    ensures
        may_respond(input@, answer@),
{
    let mut rule: usize = 0;
    while rule < RULE_COUNT
        invariant
            rule <= RULE_COUNT,
            all_pass_before(rule as int, input@),
        decreases RULE_COUNT - rule,
    {
        let found = search(PATTERNS[rule], input);
        match found {
            Capture::Match { .. } => {
                let responses = responses_of(rule);
                proof {
                    super::globals::lemma_rules_have_responses(rule as int);
                }
                let response = random_element_from(responses);
                let ghost k = choose|k: int|
                    0 <= k < responses@.len() && (#[trigger] responses@[k])@ == response@;
                match respond(response, &found) {
                    Some(answer) => {
                        assert(answered(rule_responses(rule as int)[k]@, found@) == Some(
                            answer@,
                        ));
                        assert(may_answer(rule as int, input@, answer@));
                        return answer;
                    },
                    None => {
                        assert(answered(rule_responses(rule as int)[k]@, found@) is None);
                        assert(may_pass(rule as int, input@));
                    },
                }
            },
            _ => {
                assert(may_pass(rule as int, input@));
            },
        }
        rule += 1;
    }
    random_element_from(&DEFAULT_RESPONSES).to_owned()
}

/// `line` is one of the lines that end a conversation.
pub open spec fn is_goodbye(line: Seq<char>) -> bool {
    is_listed(GOODBYE_INPUTS@, line)
}

/// `answer` is a possible reply to the line `input`, and `over` says whether
/// the line ends the conversation: a goodbye is answered with one of the
/// goodbye responses, any other line as its preprocessed form may be
/// responded to.
pub open spec fn may_reply(input: Seq<char>, answer: Seq<char>, over: bool) -> bool {
    &&& over == is_goodbye(preprocessed(input))
    &&& over ==> is_listed(GOODBYE_RESPONSES@, answer)
    &&& !over ==> may_respond(preprocessed(input), answer)
}

/// Answers a line of conversation and says whether the conversation is over.
/// A goodbye is answered with one of the goodbye responses; any other line as
/// [`lookup_response`] answers it, once preprocessed.
pub fn reply(input: &str) -> (out: (String, bool))
    ensures
        may_reply(input@, out.0@, out.1),
{
    let line = preprocess(input);
    if listed(&GOODBYE_INPUTS, line.as_str()) {
        (random_element_from(&GOODBYE_RESPONSES).to_owned(), true)
    } else {
        (lookup_response(line.as_str()), false)
    }
}

/// The last of the opening lines.
pub const INTRO_QUESTION: &'static str = "How are you feeling today?";

/// The lines that open a conversation with `name`: each intro line with its
/// mark `{}` replaced by the name, then a fact picked at random, then the
/// opening question.
pub fn get_intro_responses(name: &str) -> (intros: Vec<String>)
    ensures
        intros@.len() == 4,
        intros@[0]@ == replaced(INTRO_RESPONSES[0]@, "{}"@, name@),
        intros@[1]@ == replaced(INTRO_RESPONSES[1]@, "{}"@, name@),
        is_listed(FACTS@, intros@[2]@),
        intros@[3]@ == INTRO_QUESTION@,
{
    proof {
        reveal_strlit("{}");
    }
    let mut intros: Vec<String> = Vec::new();
    let mut k: usize = 0;
    while k < INTRO_RESPONSES.len()
        invariant
            k <= INTRO_RESPONSES@.len(),
            "{}"@.len() > 0,
            intros@.len() == k,
            forall|j: int|
                0 <= j < k ==> (#[trigger] intros@[j])@ == replaced(
                    INTRO_RESPONSES[j]@,
                    "{}"@,
                    name@,
                ),
        decreases INTRO_RESPONSES@.len() - k,
    {
        intros.push(replace_text(INTRO_RESPONSES[k], "{}", name));
        k += 1;
    }
    intros.push(random_element_from(&FACTS).to_owned());
    intros.push(INTRO_QUESTION.to_owned());
    intros
}

} // verus!
