//! Switches that a command turns on, off or over.

use crate::bot::MusicBotError;
use crate::text;
use vstd::prelude::*;

verus! {

/// A word for on or off, as the user wrote it, without white space around it
/// and in lower case.
pub open spec fn bare_word(word: Seq<char>) -> Seq<char> {
    text::ascii_lower(text::trim(word))
}

/// Whether a bare word means on.
pub open spec fn means_on(word: Seq<char>) -> bool {
    word == "on"@ || word == "true"@ || word == "1"@ || word == "yes"@ || word == "y"@
}

/// Whether a bare word means off.
pub open spec fn means_off(word: Seq<char>) -> bool {
    word == "off"@ || word == "false"@ || word == "0"@ || word == "no"@ || word == "n"@
}

/// What a switch is to be after a command with or without a word: without one
/// it is turned over. A word that means neither is refused, and returned.
pub open spec fn desired(current: bool, state: Option<Seq<char>>) -> Result<bool, Seq<char>> {
    match state {
        None => Ok(!current),
        Some(word) => if means_on(bare_word(word)) {
            Ok(true)
        } else if means_off(bare_word(word)) {
            Ok(false)
        } else {
            Err(bare_word(word))
        },
    }
}

/// What a word that means neither on nor off is answered with. `name` is that
/// of the switch.
pub open spec fn refusal(name: Seq<char>, word: Seq<char>) -> Seq<char> {
    "Unknown "@ + name + " state `"@ + word + "`. Use `on` or `off`."@
}

/// Decides what the switch called `name` is to be.
pub fn decide(name: &str, current: bool, state: Option<&str>) -> (r: Result<bool, MusicBotError>)
    ensures
        match desired(current, text::str_of(state)) {
            Ok(on) => r == Ok::<bool, MusicBotError>(on),
            Err(word) => r matches Err(e) && e.is_internal(refusal(name@, word)),
        },
{
    let word = match state {
        None => {
            return Ok(!current);
        },
        Some(word) => text::string_of(
            &text::ascii_lowered(&text::trimmed(&text::chars_of(word))),
        ),
    };
    let w = word.as_str();
    if text::same_text(w, "on") || text::same_text(w, "true") || text::same_text(w, "1")
        || text::same_text(w, "yes") || text::same_text(w, "y") {
        return Ok(true);
    }
    if text::same_text(w, "off") || text::same_text(w, "false") || text::same_text(w, "0")
        || text::same_text(w, "no") || text::same_text(w, "n") {
        return Ok(false);
    }
    let mut reason = "Unknown ".to_string();
    reason.append(name);
    reason.append(" state `");
    reason.append(w);
    reason.append("`. Use `on` or `off`.");
    Err(MusicBotError::InternalError(reason))
}

/// Turning a switch over twice leaves it as it was.
pub proof fn law_toggling_twice_restores(current: bool)
    ensures
        desired(current, None) is Ok,
        desired(desired(current, None)->Ok_0, None) == Ok::<bool, Seq<char>>(current),
{
}

/// A word decides on its own: what the switch was before does not matter.
pub proof fn law_words_decide_alone(a: bool, b: bool, word: Seq<char>)
    ensures
        desired(a, Some(word)) == desired(b, Some(word)),
{
}

/// Without a word a switch is turned over. The words for on and off, in either
/// case and with white space around them or not, turn it on and off, whatever it
/// was. Any other word is refused, and quoted.
pub proof fn law_switches_obey_words(
    name: &str,
    current: bool,
    state: Option<&str>,
    r: Result<bool, MusicBotError>,
)
    requires
        call_ensures(decide, (name, current, state), r),
    ensures
        state is None ==> r == Ok::<bool, MusicBotError>(!current),
        state matches Some(word) ==> {
            let w = text::ascii_lower(text::trim(word@));
            let on = w == "on"@ || w == "true"@ || w == "1"@ || w == "yes"@ || w == "y"@;
            let off = w == "off"@ || w == "false"@ || w == "0"@ || w == "no"@ || w == "n"@;
            &&& on ==> r == Ok::<bool, MusicBotError>(true)
            &&& off ==> r == Ok::<bool, MusicBotError>(false)
            &&& !on && !off ==> {
                &&& r matches Err(MusicBotError::InternalError(reason))
                &&& reason@ == "Unknown "@ + name@ + " state `"@ + w + "`. Use `on` or `off`."@
            }
        },
{
    reveal_strlit("on");
    reveal_strlit("true");
    reveal_strlit("1");
    reveal_strlit("yes");
    reveal_strlit("y");
    reveal_strlit("off");
    reveal_strlit("false");
    reveal_strlit("0");
    reveal_strlit("no");
    reveal_strlit("n");
    assert("on"@.len() == 2 && "true"@.len() == 4 && "yes"@.len() == 3);
    assert("1"@.len() == 1 && "y"@.len() == 1 && "0"@.len() == 1 && "n"@.len() == 1);
    assert("off"@.len() == 3 && "false"@.len() == 5 && "no"@.len() == 2);
    assert("on"@[1] != "no"@[1]);
    assert("1"@[0] != "0"@[0] && "1"@[0] != "n"@[0]);
    assert("y"@[0] != "0"@[0] && "y"@[0] != "n"@[0]);
    assert("yes"@[0] != "off"@[0]);
}

} // verus!
