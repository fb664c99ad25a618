//! Answers `oh`.

use vstd::prelude::*;
use vstd::string::*;
use crate::errors::Error;
use crate::plugin::{Command, Plugin, PluginContext, Reaction, is_privmsg, is_quiet, says, command_is_privmsg};
use crate::text::str_chars;

verus! {

/// Answers `maize` to `oh`, `ooh`, `ohhh` and the like.
pub struct MaizePlugin;

/// The text is one or more `o` followed by one or more `h`, and nothing
/// else (`^[o]+[h]+$`).
pub open spec fn is_oh(s: Seq<char>) -> bool {
    exists|i: int| #[trigger] oh_split(s, i)
}

/// `s[..i]` is one or more `o` and `s[i..]` one or more `h`.
pub open spec fn oh_split(s: Seq<char>, i: int) -> bool {
    0 < i < s.len() && (forall|j: int| 0 <= j < i ==> s[j] == 'o') && (forall|j: int|
        i <= j < s.len() ==> s[j] == 'h')
}

/// Whether the text is one or more `o` followed by one or more `h`.
pub fn matches_oh(text: &str) -> (r: bool)
    ensures
        r == is_oh(text@),
{
    let v = str_chars(text);
    let n = v.len();
    let mut i: usize = 0;
    while i < n && v[i] == 'o'
        invariant
            i <= n == v@.len(),
            v@ == text@,
            forall|j: int| 0 <= j < i ==> v@[j] == 'o',
        decreases n - i,
    {
        i = i + 1;
    }
    if i == 0 || i == n {
        proof {
            if is_oh(v@) {
                let k = choose|k: int| oh_split(v@, k);
                if i == 0 {
                    assert(v@[0] == 'o');
                } else {
                    assert(v@[k] == 'h');
                }
            }
        }
        return false;
    }
    let mut j = i;
    while j < n
        invariant
            0 < i <= j <= n == v@.len(),
            v@ == text@,
            forall|k: int| 0 <= k < i ==> v@[k] == 'o',
            forall|k: int| i <= k < j ==> v@[k] == 'h',
            i < n ==> v@[i as int] != 'o',
        decreases n - j,
    {
        if v[j] != 'h' {
            proof {
                if is_oh(v@) {
                    let k = choose|k: int| oh_split(v@, k);
                    if k <= i {
                        assert(v@[j as int] == 'h');
                    } else {
                        assert(v@[i as int] == 'o');
                    }
                }
            }
            return false;
        }
        j = j + 1;
    }
    assert(oh_split(v@, i as int));
    true
}

/// What `MaizePlugin` answers to the message of `context`.
pub open spec fn maize_reaction(context: PluginContext, r: Result<Reaction, Error>) -> bool {
    match context.message.command {
        Command::Privmsg(target, msg) => if is_oh(msg@) {
            says(r, target@, "maize"@)
        } else {
            is_quiet(r)
        },
        _ => is_quiet(r),
    }
}

impl Plugin for MaizePlugin {
    fn will_handle(&self, command: Command) -> (r: bool)
        ensures
            r == is_privmsg(command),
    {
        command_is_privmsg(&command)
    }

    fn handle(&mut self, context: &PluginContext) -> (r: Result<Reaction, Error>)
        ensures
            maize_reaction(*context, r),
    {
        match &context.message.command {
            Command::Privmsg(target, msg) => {
                if matches_oh(msg.as_str()) {
                    Ok(Reaction::Say { target: target.clone(), text: String::from_str("maize") })
                } else {
                    Ok(Reaction::Nothing)
                }
            },
            _ => Ok(Reaction::Nothing),
        }
    }
}

} // verus!
