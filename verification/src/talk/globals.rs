//! The tables of the responder: what it listens for and what it may say.

use vstd::prelude::*;

verus! {

/// The lines, trimmed and in lower case, that end a conversation.
pub const GOODBYE_INPUTS: [&'static str; 4] = [
    "bye",
    "exit",
    "goodbye",
    "quit",
];

/// What is said when no rule has an answer.
pub const DEFAULT_RESPONSES: [&'static str; 8] = [
    "Please tell me more.",
    "Let's change focus a bit...Tell me about your family.",
    "Can you elaborate on that?",
    "I see.",
    "Very interesting.",
    "I see. And what does that tell you?",
    "How does that make you feel?",
    "How do you feel when you say that?",
];

/// The opening lines.
pub const INTRO_RESPONSES: [&'static str; 2] = [
    "Hi %s. I'm just a greeter.",
    "Before we begin, %s, let me tell you something about myself.",
];

/// What the responder may tell about itself.
pub const FACTS: [&'static str; 9] = [
    "I was created by Joseph Weizenbaum.",
    "I was created in the 1960s.",
    "I am a Rogerian psychotherapist.",
    "I am named after Eliza Doolittle from the play Pygmalion.",
    "I was originally written on an IBM 7094.",
    "I can be accessed in most Emacs implementations with the command M-x doctor.",
    "I was created at the MIT Artificial Intelligence Laboratory.",
    "I was one of the first programs capable of attempting the Turing test.",
    "I was designed as a method to show the superficiality of communication between man and machine.",
];

/// What is said at the end of a conversation.
pub const GOODBYE_RESPONSES: [&'static str; 8] = [
    "Goodbye. It was nice talking to you.",
    "Thank you for talking with me.",
    "Thank you, that will be $150. Have a good day!",
    "Goodbye. This was really a nice talk.",
    "Goodbye. I'm looking forward to our next session.",
    "This was a good session, wasn't it – but time is over now. Goodbye.",
    "Maybe we could discuss this over more in our next session? Goodbye.",
    "Good-bye.",
];

/// Words that change sides when the responder hands a phrase back: each word
/// with what it becomes.
pub const REFLECTED_WORDS: [(&'static str, &'static str); 14] = [
    ("am", "are"),
    ("was", "were"),
    ("i", "you"),
    ("i'd", "you would"),
    ("i've", "you have"),
    ("i'll", "you will"),
    ("my", "your"),
    ("are", "am"),
    ("you've", "I have"),
    ("you'll", "I will"),
    ("your", "my"),
    ("yours", "mine"),
    ("you", "me"),
    ("me", "you"),
];

/// The number of rules.
pub const RULE_COUNT: usize = 41;

/// The pattern of each rule, in the order in which the rules are tried.
pub const PATTERNS: [&'static str; 41] = [
    r"i need (.*)",
    r"why don'?t you ([^\?]*)\??",
    r"why can'?t I ([^\?]*)\??",
    r"i can'?t (.*)",
    r"i am (.*)",
    r"i'?m (.*)",
    r"are you ([^\?]*)\??",
    r"what (.*)",
    r"how (.*)",
    r"because (.*)",
    r"(.*) sorry (.*)",
    r"^hello(.*)",
    r"^hi(.*)",
    r"^thanks(.*)",
    r"^thank you(.*)",
    r"^good morning(.*)",
    r"^good afternoon(.*)",
    r"I think (.*)",
    r"(.*) friend (.*)",
    r"yes",
    r"(.*) computer(.*)",
    r"is it (.*)",
    r"it is (.*)",
    r"can you ([^\?]*)\??",
    r"(.*)dream(.*)",
    r"can I ([^\?]*)\??",
    r"you are (.*)",
    r"you'?re (.*)",
    r"i don'?t (.*)",
    r"i feel (.*)",
    r"i have (.*)",
    r"i would (.*)",
    r"is there (.*)",
    r"my (.*)",
    r"you (.*)",
    r"why (.*)",
    r"i want (.*)",
    r"(.*) mother(.*)",
    r"(.*) father(.*)",
    r"(.*) child(.*)",
    r"(.*)\?",
];

/// The responses of the rule for `i need (.*)`.
pub const I_NEED: [&'static str; 3] = [
    "Why do you need %s?",
    "Would it really help you to get %s?",
    "Are you sure you need %s?",
];

/// The responses of the rule for `why don'?t you ([^\?]*)\??`.
pub const WHY_DONT_YOU: [&'static str; 3] = [
    "Do you really think I don't %s?",
    "Perhaps eventually I will %s.",
    "Do you really want me to %s?",
];

/// The responses of the rule for `why can'?t I ([^\?]*)\??`.
pub const WHY_CANT_I: [&'static str; 4] = [
    "Do you think you should be able to %s?",
    "If you could %s, what would you do?",
    "I don't know -- why can't you %s?",
    "Have you really tried?",
];

/// The responses of the rule for `i can'?t (.*)`.
pub const I_CANT: [&'static str; 3] = [
    "How do you know you can't %s?",
    "Perhaps you could %s if you tried.",
    "What would it take for you to %s?",
];

/// The responses of the rule for `i am (.*)`.
pub const I_AM: [&'static str; 3] = [
    "Did you come to me because you are %s?",
    "How long have you been %s?",
    "How do you feel about being %s?",
];

/// The responses of the rule for `i'?m (.*)`.
pub const IM: [&'static str; 4] = [
    "How does being %s make you feel?",
    "Do you enjoy being %s?",
    "Why do you tell me you're %s?",
    "Why do you think you're %s?",
];

/// The responses of the rule for `are you ([^\?]*)\??`.
pub const ARE_YOU: [&'static str; 4] = [
    "Why does it matter whether I am %s?",
    "Would you prefer it if I were not %s?",
    "Perhaps you believe I am %s.",
    "I may be %s -- what do you think?",
];

/// The responses of the rule for `what (.*)`.
pub const WHAT: [&'static str; 3] = [
    "Why do you ask?",
    "How would an answer to that help you?",
    "What do you think?",
];

/// The responses of the rule for `how (.*)`.
pub const HOW: [&'static str; 3] = [
    "How do you suppose?",
    "Perhaps you can answer your own question.",
    "What is it you're really asking?",
];

/// The responses of the rule for `because (.*)`.
pub const BECAUSE: [&'static str; 4] = [
    "Is that the real reason?",
    "What other reasons come to mind?",
    "Does that reason apply to anything else?",
    "If %s, what else must be true?",
];

/// The responses of the rule for `(.*) sorry (.*)`.
pub const SORRY: [&'static str; 2] = [
    "There are many times when no apology is needed.",
    "What feelings do you have when you apologize?",
];

/// The responses of the rule for `^hello(.*)`.
pub const HELLO: [&'static str; 3] = [
    "Hello...I'm glad you could drop by today.",
    "Hello there...how are you today?",
    "Hello, how are you feeling today?",
];

/// The responses of the rule for `^hi(.*)`.
pub const HI: [&'static str; 3] = [
    "Hello...I'm glad you could drop by today.",
    "Hi there...how are you today?",
    "Hello, how are you feeling today?",
];

/// The responses of the rule for `^thanks(.*)`.
pub const THANKS: [&'static str; 2] = [
    "You're welcome!",
    "Anytime!",
];

/// The responses of the rule for `^thank you(.*)`.
pub const THANK_YOU: [&'static str; 2] = [
    "You're welcome!",
    "Anytime!",
];

/// The responses of the rule for `^good morning(.*)`.
pub const GOOD_MORNING: [&'static str; 3] = [
    "Good morning...I'm glad you could drop by today.",
    "Good morning...how are you today?",
    "Good morning, how are you feeling today?",
];

/// The responses of the rule for `^good afternoon(.*)`.
pub const GOOD_AFTERNOON: [&'static str; 3] = [
    "Good afternoon...I'm glad you could drop by today.",
    "Good afternoon...how are you today?",
    "Good afternoon, how are you feeling today?",
];

/// The responses of the rule for `I think (.*)`.
pub const I_THINK: [&'static str; 3] = [
    "Do you doubt %s?",
    "Do you really think so?",
    "But you're not sure %s?",
];

/// The responses of the rule for `(.*) friend (.*)`.
pub const FRIEND: [&'static str; 3] = [
    "Tell me more about your friends.",
    "When you think of a friend, what comes to mind?",
    "Why don't you tell me about a childhood friend?",
];

/// The responses of the rule for `yes`.
pub const YES: [&'static str; 2] = [
    "You seem quite sure.",
    "OK, but can you elaborate a bit?",
];

/// The responses of the rule for `(.*) computer(.*)`.
pub const COMPUTER: [&'static str; 4] = [
    "Are you really talking about me?",
    "Does it seem strange to talk to a computer?",
    "How do computers make you feel?",
    "Do you feel threatened by computers?",
];

/// The responses of the rule for `is it (.*)`.
pub const IS_IT: [&'static str; 4] = [
    "Do you think it is %s?",
    "Perhaps it's %s -- what do you think?",
    "If it were %s, what would you do?",
    "It could well be that %s.",
];

/// The responses of the rule for `it is (.*)`.
pub const IT_IS: [&'static str; 2] = [
    "You seem very certain.",
    "If I told you that it probably isn't %s, what would you feel?",
];

/// The responses of the rule for `can you ([^\?]*)\??`.
pub const CAN_YOU: [&'static str; 3] = [
    "What makes you think I can't %s?",
    "If I could %s, then what?",
    "Why do you ask if I can %s?",
];

/// The responses of the rule for `(.*)dream(.*)`.
pub const DREAM: [&'static str; 1] = [
    "Tell me more about your dream.",
];

/// The responses of the rule for `can I ([^\?]*)\??`.
pub const CAN_I: [&'static str; 3] = [
    "Perhaps you don't want to %s.",
    "Do you want to be able to %s?",
    "If you could %s, would you?",
];

/// The responses of the rule for `you are (.*)`.
pub const YOU_ARE: [&'static str; 4] = [
    "Why do you think I am %s?",
    "Does it please you to think that I'm %s?",
    "Perhaps you would like me to be %s.",
    "Perhaps you're really talking about yourself?",
];

/// The responses of the rule for `you'?re (.*)`.
pub const YOURE: [&'static str; 3] = [
    "Why do you say I am %s?",
    "Why do you think I am %s?",
    "Are we talking about you, or me?",
];

/// The responses of the rule for `i don'?t (.*)`.
pub const I_DONT: [&'static str; 3] = [
    "Don't you really %s?",
    "Why don't you %s?",
    "Do you want to %s?",
];

/// The responses of the rule for `i feel (.*)`.
pub const I_FEEL: [&'static str; 5] = [
    "Good, tell me more about these feelings.",
    "Do you often feel %s?",
    "When do you usually feel %s?",
    "When you feel %s, what do you do?",
    "Feeling %s? Tell me more.",
];

/// The responses of the rule for `i have (.*)`.
pub const I_HAVE: [&'static str; 3] = [
    "Why do you tell me that you've %s?",
    "Have you really %s?",
    "Now that you have %s, what will you do next?",
];

/// The responses of the rule for `i would (.*)`.
pub const I_WOULD: [&'static str; 3] = [
    "Could you explain why you would %s?",
    "Why would you %s?",
    "Who else knows that you would %s?",
];

/// The responses of the rule for `is there (.*)`.
pub const IS_THERE: [&'static str; 3] = [
    "Do you think there is %s?",
    "It's likely that there is %s.",
    "Would you like there to be %s?",
];

/// The responses of the rule for `my (.*)`.
pub const MY: [&'static str; 3] = [
    "I see, your %s.",
    "Why do you say that your %s?",
    "When your %s, how do you feel?",
];

/// The responses of the rule for `you (.*)`.
pub const YOU: [&'static str; 3] = [
    "We should be discussing you, not me.",
    "Why do you say that about me?",
    "Why do you care whether I %s?",
];

/// The responses of the rule for `why (.*)`.
pub const WHY: [&'static str; 2] = [
    "Why don't you tell me the reason why %s?",
    "Why do you think %s?",
];

/// The responses of the rule for `i want (.*)`.
pub const I_WANT: [&'static str; 4] = [
    "What would it mean to you if you got %s?",
    "Why do you want %s?",
    "What would you do if you got %s?",
    "If you got %s, then what would you do?",
];

/// The responses of the rule for `(.*) mother(.*)`.
pub const MOTHER: [&'static str; 5] = [
    "Tell me more about your mother.",
    "What was your relationship with your mother like?",
    "How do you feel about your mother?",
    "How does this relate to your feelings today?",
    "Good family relations are important.",
];

/// The responses of the rule for `(.*) father(.*)`.
pub const FATHER: [&'static str; 5] = [
    "Tell me more about your father.",
    "How did your father make you feel?",
    "How do you feel about your father?",
    "Does your relationship with your father relate to your feelings today?",
    "Do you have trouble showing affection with your family?",
];

/// The responses of the rule for `(.*) child(.*)`.
pub const CHILD: [&'static str; 5] = [
    "Did you have close friends as a child?",
    "What is your favorite childhood memory?",
    "Do you remember any dreams or nightmares from childhood?",
    "Did the other children sometimes tease you?",
    "How do you think your childhood experiences relate to your feelings today?",
];

/// The responses of the rule for `(.*)\?`.
pub const QUESTION: [&'static str; 4] = [
    "Why do you ask that?",
    "Please consider whether you can answer your own question.",
    "Perhaps the answer lies within yourself?",
    "Why don't you tell me?",
];

/// The responses of rule `rule`; none for a number that names no rule.
pub open spec fn rule_responses(rule: int) -> Seq<&'static str> {
    if rule == 0 {
        I_NEED@
    } else if rule == 1 {
        WHY_DONT_YOU@
    } else if rule == 2 {
        WHY_CANT_I@
    } else if rule == 3 {
        I_CANT@
    } else if rule == 4 {
        I_AM@
    } else if rule == 5 {
        IM@
    } else if rule == 6 {
        ARE_YOU@
    } else if rule == 7 {
        WHAT@
    } else if rule == 8 {
        HOW@
    } else if rule == 9 {
        BECAUSE@
    } else if rule == 10 {
        SORRY@
    } else if rule == 11 {
        HELLO@
    } else if rule == 12 {
        HI@
    } else if rule == 13 {
        THANKS@
    } else if rule == 14 {
        THANK_YOU@
    } else if rule == 15 {
        GOOD_MORNING@
    } else if rule == 16 {
        GOOD_AFTERNOON@
    } else if rule == 17 {
        I_THINK@
    } else if rule == 18 {
        FRIEND@
    } else if rule == 19 {
        YES@
    } else if rule == 20 {
        COMPUTER@
    } else if rule == 21 {
        IS_IT@
    } else if rule == 22 {
        IT_IS@
    } else if rule == 23 {
        CAN_YOU@
    } else if rule == 24 {
        DREAM@
    } else if rule == 25 {
        CAN_I@
    } else if rule == 26 {
        YOU_ARE@
    } else if rule == 27 {
        YOURE@
    } else if rule == 28 {
        I_DONT@
    } else if rule == 29 {
        I_FEEL@
    } else if rule == 30 {
        I_HAVE@
    } else if rule == 31 {
        I_WOULD@
    } else if rule == 32 {
        IS_THERE@
    } else if rule == 33 {
        MY@
    } else if rule == 34 {
        YOU@
    } else if rule == 35 {
        WHY@
    } else if rule == 36 {
        I_WANT@
    } else if rule == 37 {
        MOTHER@
    } else if rule == 38 {
        FATHER@
    } else if rule == 39 {
        CHILD@
    } else if rule == 40 {
        QUESTION@
    } else {
        Seq::empty()
    }
}

/// The responses of rule `rule`; none for a number that names no rule.
pub fn responses_of(rule: usize) -> (list: &'static [&'static str])
    ensures
        list@ == rule_responses(rule as int),
{
    if rule == 0 {
        &I_NEED
    } else if rule == 1 {
        &WHY_DONT_YOU
    } else if rule == 2 {
        &WHY_CANT_I
    } else if rule == 3 {
        &I_CANT
    } else if rule == 4 {
        &I_AM
    } else if rule == 5 {
        &IM
    } else if rule == 6 {
        &ARE_YOU
    } else if rule == 7 {
        &WHAT
    } else if rule == 8 {
        &HOW
    } else if rule == 9 {
        &BECAUSE
    } else if rule == 10 {
        &SORRY
    } else if rule == 11 {
        &HELLO
    } else if rule == 12 {
        &HI
    } else if rule == 13 {
        &THANKS
    } else if rule == 14 {
        &THANK_YOU
    } else if rule == 15 {
        &GOOD_MORNING
    } else if rule == 16 {
        &GOOD_AFTERNOON
    } else if rule == 17 {
        &I_THINK
    } else if rule == 18 {
        &FRIEND
    } else if rule == 19 {
        &YES
    } else if rule == 20 {
        &COMPUTER
    } else if rule == 21 {
        &IS_IT
    } else if rule == 22 {
        &IT_IS
    } else if rule == 23 {
        &CAN_YOU
    } else if rule == 24 {
        &DREAM
    } else if rule == 25 {
        &CAN_I
    } else if rule == 26 {
        &YOU_ARE
    } else if rule == 27 {
        &YOURE
    } else if rule == 28 {
        &I_DONT
    } else if rule == 29 {
        &I_FEEL
    } else if rule == 30 {
        &I_HAVE
    } else if rule == 31 {
        &I_WOULD
    } else if rule == 32 {
        &IS_THERE
    } else if rule == 33 {
        &MY
    } else if rule == 34 {
        &YOU
    } else if rule == 35 {
        &WHY
    } else if rule == 36 {
        &I_WANT
    } else if rule == 37 {
        &MOTHER
    } else if rule == 38 {
        &FATHER
    } else if rule == 39 {
        &CHILD
    } else if rule == 40 {
        &QUESTION
    } else {
        &[]
    }
}

/// Every rule has something to say.
pub proof fn lemma_rules_have_responses(rule: int)
    requires
        0 <= rule < RULE_COUNT,
    ensures
        rule_responses(rule).len() > 0,
{
}

} // verus!
