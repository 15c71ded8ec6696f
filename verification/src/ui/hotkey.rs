use vstd::prelude::*;
use vstd::string::StringExecFns;

use crate::controller::events::ControllerEvent;
use crate::error::{AppError, AppErrorView, AppResult};
use crate::text::{
    chars_of, keyword, spec_keyword, spec_split, split, strings_view, text_eq,
};

verus! {

/// The modifier keys of a binding.
#[derive(Debug, Clone, Copy, PartialEq, Eq, Structural)]
pub struct Modifiers {
    pub control: bool,
    pub shift: bool,
    pub alt: bool,
    pub command: bool,
}

/// The key of a binding: the space bar or a letter `a` to `z`.
#[derive(Debug, Clone, Copy, PartialEq, Eq, Structural)]
pub enum KeyCode {
    Space,
    Letter(char),
}

/// What the tokens read so far add up to.
#[derive(Debug, Clone, Copy, PartialEq, Eq, Structural)]
pub struct Binding {
    pub modifiers: Modifiers,
    pub key: Option<KeyCode>,
}

/// The binding with one more token taken in, or nothing if the token is not known.
pub open spec fn spec_take_token(b: Binding, token: Seq<char>) -> Option<Binding> {
    if token == "ctrl"@ || token == "control"@ {
        Some(Binding { modifiers: Modifiers { control: true, ..b.modifiers }, ..b })
    } else if token == "shift"@ {
        Some(Binding { modifiers: Modifiers { shift: true, ..b.modifiers }, ..b })
    } else if token == "alt"@ || token == "option"@ {
        Some(Binding { modifiers: Modifiers { alt: true, ..b.modifiers }, ..b })
    } else if token == "cmd"@ || token == "command"@ || token == "super"@ {
        Some(Binding { modifiers: Modifiers { command: true, ..b.modifiers }, ..b })
    } else if token == "space"@ {
        Some(Binding { key: Some(KeyCode::Space), ..b })
    } else if token.len() == 1 && 'a' <= token[0] && token[0] <= 'z' {
        Some(Binding { key: Some(KeyCode::Letter(token[0])), ..b })
    } else {
        None
    }
}

/// The binding the tokens spell, read left to right, or the first token that is not known.
pub open spec fn spec_take_tokens(tokens: Seq<Seq<char>>) -> Result<Binding, Seq<char>>
    decreases tokens.len(),
{
    if tokens.len() == 0 {
        Ok(
            Binding {
                modifiers: Modifiers { control: false, shift: false, alt: false, command: false },
                key: None,
            },
        )
    } else {
        match spec_take_tokens(tokens.drop_last()) {
            Err(bad) => Err(bad),
            Ok(b) => match spec_take_token(b, tokens.last()) {
                Some(next) => Ok(next),
                None => Err(tokens.last()),
            },
        }
    }
}

/// The tokens of a binding: its `+`-separated parts, trimmed and lower-cased.
pub open spec fn spec_tokens(binding: Seq<char>) -> Seq<Seq<char>> {
    spec_split(binding, '+').map_values(|part: Seq<char>| spec_keyword(part))
}

/// What a binding such as `Ctrl+Shift+Space` means, or why it means nothing.
pub open spec fn spec_parse_binding(binding: Seq<char>) -> Result<(Modifiers, KeyCode), AppErrorView> {
    match spec_take_tokens(spec_tokens(binding)) {
        Err(bad) => Err(
            AppErrorView::Config(
                "unsupported hotkey token `"@ + bad + "` in binding `"@ + binding + "`"@,
            ),
        ),
        Ok(b) => match b.key {
            Some(key) => Ok((b.modifiers, key)),
            None => Err(
                AppErrorView::Config(
                    "hotkey binding `"@ + binding + "` must include a key token (for example `Space`)"@,
                ),
            ),
        },
    }
}

fn take_token(b: Binding, token: &str) -> (r: Option<Binding>)
    ensures
        r == spec_take_token(b, token@),
{
    let m = b.modifiers;
    if text_eq(token, "ctrl") || text_eq(token, "control") {
        Some(Binding { modifiers: Modifiers { control: true, shift: m.shift, alt: m.alt, command: m.command }, key: b.key })
    } else if text_eq(token, "shift") {
        Some(Binding { modifiers: Modifiers { control: m.control, shift: true, alt: m.alt, command: m.command }, key: b.key })
    } else if text_eq(token, "alt") || text_eq(token, "option") {
        Some(Binding { modifiers: Modifiers { control: m.control, shift: m.shift, alt: true, command: m.command }, key: b.key })
    } else if text_eq(token, "cmd") || text_eq(token, "command") || text_eq(token, "super") {
        Some(Binding { modifiers: Modifiers { control: m.control, shift: m.shift, alt: m.alt, command: true }, key: b.key })
    } else if text_eq(token, "space") {
        Some(Binding { modifiers: m, key: Some(KeyCode::Space) })
    } else {
        let v = chars_of(token);
        if v.len() == 1 && v[0] >= 'a' && v[0] <= 'z' {
            Some(Binding { modifiers: m, key: Some(KeyCode::Letter(v[0])) })
        } else {
            None
        }
    }
}

proof fn lemma_first_bad_token_wins(tokens: Seq<Seq<char>>, k: int)
    requires
        0 <= k <= tokens.len(),
        spec_take_tokens(tokens.take(k)) is Err,
    ensures
        spec_take_tokens(tokens) == spec_take_tokens(tokens.take(k)),
    decreases tokens.len(),
{
    if k == tokens.len() {
        assert(tokens.take(k) =~= tokens);
    } else {
        assert(tokens.drop_last().take(k) =~= tokens.take(k));
        lemma_first_bad_token_wins(tokens.drop_last(), k);
    }
}

/// Reads a hotkey binding.
pub fn parse_binding(binding: &str) -> (r: AppResult<(Modifiers, KeyCode)>)
    ensures
        match spec_parse_binding(binding@) {
            Ok(expected) => r == Ok::<(Modifiers, KeyCode), AppError>(expected),
            Err(expected) => r matches Err(e) && e@ == expected,
        },
{
    let parts = split(binding, '+');
    let ghost tokens = spec_tokens(binding@);
    let mut b = Binding {
        modifiers: Modifiers { control: false, shift: false, alt: false, command: false },
        key: None,
    };
    let mut i: usize = 0;
    assert(tokens.take(0) =~= Seq::<Seq<char>>::empty());
    while i < parts.len()
        invariant
            i <= parts.len(),
            strings_view(parts@) == spec_split(binding@, '+'),
            tokens == spec_tokens(binding@),
            tokens.len() == parts.len(),
            spec_take_tokens(tokens.take(i as int)) == Ok::<Binding, Seq<char>>(b),
        decreases parts.len() - i,
    {
        let token = keyword(parts[i].as_str());
        assert(token@ == tokens[i as int]) by {
            assert(strings_view(parts@)[i as int] == parts@[i as int]@);
        }
        assert(tokens.take(i + 1).drop_last() =~= tokens.take(i as int));
        assert(tokens.take(i + 1).last() == tokens[i as int]);
        match take_token(b, token.as_str()) {
            Some(next) => {
                b = next;
            },
            None => {
                proof {
                    lemma_first_bad_token_wins(tokens, i + 1);
                }
                let mut detail = String::from_str("unsupported hotkey token `");
                detail.append(token.as_str());
                detail.append("` in binding `");
                detail.append(binding);
                detail.append("`");
                return Err(AppError::Config(detail));
            },
        }
        i += 1;
    }
    assert(tokens.take(parts.len() as int) =~= tokens);
    match b.key {
        Some(key) => Ok((b.modifiers, key)),
        None => {
            let mut detail = String::from_str("hotkey binding `");
            detail.append(binding);
            detail.append("` must include a key token (for example `Space`)");
            Err(AppError::Config(detail))
        },
    }
}

/// The hotkey on a platform without global hotkeys: it registers nothing and never fires.
#[derive(Debug, Clone, Copy)]
pub struct HotkeyController;

impl HotkeyController {
    /// Accepts any binding and registers nothing.
    pub fn new(binding: &str) -> (r: AppResult<Self>)
        ensures
            r is Ok,
    {
        Ok(HotkeyController)
    }

    /// The hotkey presses since the last call: none.
    pub fn drain_events(&self) -> (events: Vec<ControllerEvent>)
        ensures
            events@.len() == 0,
    {
        Vec::new()
    }
}

} // verus!
