//! Commands that a client sends the window manager over its unix socket, and
//! how they are read from the words of a command line.
use vstd::prelude::*;
use vstd::string::StringExecFns;
use vstd::std_specs::convert::TryFromSpecImpl;
use crate::text::{has_prefix, join, parse_unsigned, parse_unsigned_radix, starts_with, str_eq};

verus! {

/// The words of a command line.
#[derive(Debug, Clone)]
pub struct WmMessage {
    pub parts: Vec<String>,
}

impl WmMessage {
    pub fn new(parts: Vec<String>) -> (res: Self)
        ensures
            res.parts == parts,
    {
        Self { parts }
    }

    pub open spec fn words(&self) -> Seq<Seq<char>> {
        Seq::new(self.parts@.len(), |i: int| self.parts@[i]@)
    }
}

#[derive(Debug, Clone, Copy, PartialEq, Eq, Structural)]
pub enum WmCommand {
    FocusLeft,
    FocusRight,
    MoveLeft,
    MoveRight,
    WorkspaceChange(u16),
}

/// The command that the words of a command line name, or the message that
/// says why they name none.
pub open spec fn command_of(parts: Seq<Seq<char>>) -> Result<WmCommand, Seq<char>> {
    let all = join(parts, " "@);
    if parts.len() == 0 {
        Err("Command should not be empty"@)
    } else if has_prefix(parts[0], "focus"@) && parts.len() == 2 {
        if has_prefix(parts[1], "left"@) {
            Ok(WmCommand::FocusLeft)
        } else if has_prefix(parts[1], "right"@) {
            Ok(WmCommand::FocusRight)
        } else {
            Err("Invalid focus command: "@ + all)
        }
    } else if parts[0] == "move"@ && parts.len() == 2 {
        if has_prefix(parts[1], "left"@) {
            Ok(WmCommand::MoveLeft)
        } else if has_prefix(parts[1], "right"@) {
            Ok(WmCommand::MoveRight)
        } else {
            Err("Invalid move command: "@ + all)
        }
    } else if parts[0] == "workspace"@ && parts.len() == 3 && parts[1] == "change"@ {
        match parse_unsigned(parts[2], 10, u16::MAX as nat) {
            Ok(id) => Ok(WmCommand::WorkspaceChange(id as u16)),
            Err(e) => Err(
                "Invalid workspace change command: "@ + all + ", error: "@ + e.spec_description(),
            ),
        }
    } else {
        Err("Unknown command: "@ + all)
    }
}

/// `w` begins with the characters of `p`.
pub open spec fn begins_with(w: Seq<char>, p: Seq<char>) -> bool {
    p.len() <= w.len() && forall|k: int| 0 <= k < p.len() ==> w[k] == #[trigger] p[k]
}

/// A command line of two words, `focus` or `move` and a direction, names the
/// command for the direction its second word begins with: `left` gives the
/// left command and `right` the right one, for focus and for move alike.
pub proof fn law_direction_words(ws: Seq<Seq<char>>)
    requires
        ws.len() == 2,
    ensures
        ws[0] == "focus"@ && begins_with(ws[1], "left"@) ==> command_of(ws) == Ok::<WmCommand, Seq<char>>(
            WmCommand::FocusLeft,
        ),
        ws[0] == "focus"@ && begins_with(ws[1], "right"@) ==> command_of(ws) == Ok::<WmCommand, Seq<char>>(
            WmCommand::FocusRight,
        ),
        ws[0] == "move"@ && begins_with(ws[1], "left"@) ==> command_of(ws) == Ok::<WmCommand, Seq<char>>(
            WmCommand::MoveLeft,
        ),
        ws[0] == "move"@ && begins_with(ws[1], "right"@) ==> command_of(ws) == Ok::<WmCommand, Seq<char>>(
            WmCommand::MoveRight,
        ),
{
    reveal_strlit("focus");
    reveal_strlit("move");
    reveal_strlit("left");
    reveal_strlit("right");
    let w = ws[1];
    if begins_with(w, "left"@) {
        assert(w.take(4) =~= "left"@);
    }
    if begins_with(w, "right"@) {
        assert(w.take(5) =~= "right"@);
    }
    if begins_with(w, "right"@) {
        assert(w[0] == "right"@[0]);
        assert(!has_prefix(w, "left"@)) by {
            if has_prefix(w, "left"@) {
                assert(w.take(4)[0] == "left"@[0]);
            }
        }
    }
    if ws[0] == "move"@ {
        assert(!has_prefix(ws[0], "focus"@)) by {
            if has_prefix(ws[0], "focus"@) {
                assert(ws[0].len() >= 5);
            }
        }
    }
    if ws[0] == "focus"@ {
        assert(ws[0].take(5) =~= "focus"@);
    }
}

/// The words `parts` joined by single spaces.
fn join_words(parts: &Vec<String>) -> (res: String)
    ensures
        res@ == join(Seq::new(parts@.len(), |i: int| parts@[i]@), " "@),
{
    let ghost ws = Seq::new(parts@.len(), |i: int| parts@[i]@);
    let mut res = String::new();
    let mut i: usize = 0;
    while i < parts.len()
        invariant
            0 <= i <= parts@.len(),
            ws == Seq::new(parts@.len(), |k: int| parts@[k]@),
            res@ == join(ws.take(i as int), " "@),
        decreases parts@.len() - i,
    {
        if i > 0 {
            res.append(" ");
        }
        res.append(parts[i].as_str());
        assert(ws.take(i + 1).drop_last() =~= ws.take(i as int));
        assert(ws.take(i + 1).last() == parts@[i as int]@);
        if i == 0 {
            assert(ws.take(1)[0] == parts@[0]@);
        }
        i = i + 1;
    }
    assert(ws.take(i as int) =~= ws);
    res
}

/// `prefix` followed by `rest`.
fn message(prefix: &str, rest: &str) -> (res: String)
    ensures
        res@ == prefix@ + rest@,
{
    let mut res = String::from_str(prefix);
    res.append(rest);
    res
}

impl TryFrom<WmMessage> for WmCommand {
    type Error = String;

    fn try_from(value: WmMessage) -> (res: Result<Self, Self::Error>)
        ensures
            match command_of(value.words()) {
                Ok(c) => res == Ok::<WmCommand, String>(c),
                Err(m) => res matches Err(e) && e@ == m,
            },
    {
        let ghost ws = value.words();
        if value.parts.len() == 0 {
            return Err(String::from_str("Command should not be empty"));
        }
        assert(ws[0] == value.parts@[0]@);
        let all = join_words(&value.parts);
        assert(Seq::new(value.parts@.len(), |i: int| value.parts@[i]@) =~= ws);
        let first = value.parts[0].as_str();
        if starts_with(first, "focus") && value.parts.len() == 2 {
            assert(ws[1] == value.parts@[1]@);
            let focus_type = value.parts[1].as_str();
            if starts_with(focus_type, "left") {
                Ok(WmCommand::FocusLeft)
            } else if starts_with(focus_type, "right") {
                Ok(WmCommand::FocusRight)
            } else {
                Err(message("Invalid focus command: ", all.as_str()))
            }
        } else if str_eq(first, "move") && value.parts.len() == 2 {
            assert(ws[1] == value.parts@[1]@);
            let move_type = value.parts[1].as_str();
            if starts_with(move_type, "left") {
                Ok(WmCommand::MoveLeft)
            } else if starts_with(move_type, "right") {
                Ok(WmCommand::MoveRight)
            } else {
                Err(message("Invalid move command: ", all.as_str()))
            }
        } else if str_eq(first, "workspace") && value.parts.len() == 3 && str_eq(
            value.parts[1].as_str(),
            "change",
        ) {
            assert(ws[1] == value.parts@[1]@);
            assert(ws[2] == value.parts@[2]@);
            match parse_unsigned_radix(value.parts[2].as_str(), 10, 0xffff) {
                Ok(workspace_id) => Ok(WmCommand::WorkspaceChange(workspace_id as u16)),
                Err(err) => {
                    let mut msg = message("Invalid workspace change command: ", all.as_str());
                    msg.append(", error: ");
                    msg.append(err.description());
                    Err(msg)
                },
            }
        } else {
            Err(message("Unknown command: ", all.as_str()))
        }
    }
}

/// The error message of a refused command line is text that the contract of
/// `try_from` states; the generic specification of `TryFrom` is not used.
impl TryFromSpecImpl<WmMessage> for WmCommand {
    open spec fn obeys_try_from_spec() -> bool {
        false
    }

    open spec fn try_from_spec(v: WmMessage) -> Result<Self, String> {
        match command_of(v.words()) {
            Ok(c) => Ok(c),
            Err(_) => Err(arbitrary()),
        }
    }
}

} // verus!
