use vstd::prelude::*;
use vstd::string::{StrSliceExecFns, StringExecFns};
use crate::pieces::Color;

verus! {

/// A text message from the client, sorted by what the session does with it.
#[derive(Debug)]
pub enum SessionCommand {
    /// `!calibrate`: run homing again.
    Calibrate,
    /// `!fen <FEN>`: set up the given position; holds the text after the
    /// command word and its separator.
    Fen(String),
    /// Another message that starts with `!`: it is ignored.
    Unknown,
    /// Anything else is a move in coordinate notation (`e2e4`, `e7e8q`).
    Move,
}

/// The state tag sent after each move and each `!fen`.
#[derive(Clone, Copy, Debug, PartialEq, Eq, Structural)]
pub enum StateTag {
    Checkmate,
    Draw,
    White,
    Black,
}

/// One reply of the session to the client.
#[derive(Clone, Copy, Debug, PartialEq, Eq, Structural)]
pub enum Reply {
    /// `!set <FEN>` with the current position.
    SetPosition,
    /// The state tag of the current position.
    Tag,
}

pub open spec fn starts_with(s: Seq<char>, p: Seq<char>) -> bool {
    p.len() <= s.len() && s.subrange(0, p.len() as int) == p
}

pub open spec fn is_calibrate(s: Seq<char>) -> bool {
    s == "!calibrate"@
}

pub open spec fn is_fen_command(s: Seq<char>) -> bool {
    starts_with(s, "!fen"@)
}

/// The argument of a `!fen` command: what follows `!fen` and one separator.
pub open spec fn fen_argument(s: Seq<char>) -> Seq<char> {
    if s.len() <= 5 { Seq::empty() } else { s.subrange(5, s.len() as int) }
}

fn has_prefix(s: &str, p: &str) -> (r: bool)
    ensures
        r == starts_with(s@, p@),
{
    let n = p.unicode_len();
    let m = s.unicode_len();
    if n > m {
        return false;
    }
    let mut i: usize = 0;
    while i < n
        invariant
            n == p@.len(),
            m == s@.len(),
            n <= m,
            i <= n,
            forall|j: int| 0 <= j < i ==> s@[j] == p@[j],
        decreases n - i,
    {
        if s.get_char(i) != p.get_char(i) {
            assert(s@.subrange(0, n as int)[i as int] != p@[i as int]);
            return false;
        }
        i = i + 1;
    }
    assert(s@.subrange(0, n as int) =~= p@);
    true
}

/// Sorts a message from the client.
pub fn parse_command(msg: &str) -> (r: SessionCommand)
    ensures
        match r {
            SessionCommand::Calibrate => is_calibrate(msg@),
            SessionCommand::Fen(f) => is_fen_command(msg@) && f@ == fen_argument(msg@),
            SessionCommand::Unknown => starts_with(msg@, "!"@) && !is_calibrate(msg@)
                && !is_fen_command(msg@),
            SessionCommand::Move => !starts_with(msg@, "!"@),
        },
{
    proof {
        reveal_strlit("!");
        reveal_strlit("");
        reveal_strlit("!fen");
        reveal_strlit("!calibrate");
    }
    if !has_prefix(msg, "!") {
        return SessionCommand::Move;
    }
    if has_prefix(msg, "!calibrate") && msg.unicode_len() == 10 {
        assert(msg@ =~= msg@.subrange(0, 10));
        return SessionCommand::Calibrate;
    }
    if has_prefix(msg, "!fen") {
        let n = msg.unicode_len();
        let arg = if n <= 5 { String::from_str("") } else { String::from_str(msg.substring_char(5, n)) };
        return SessionCommand::Fen(arg);
    }
    proof {
        if msg@ == "!calibrate"@ {
            assert(msg@.subrange(0, 10) =~= msg@);
        }
    }
    SessionCommand::Unknown
}

impl StateTag {
    /// The tag's text.
    pub fn text(self) -> (r: &'static str)
        ensures
            r@ == match self {
                StateTag::Checkmate => "!checkmate"@,
                StateTag::Draw => "!draw"@,
                StateTag::White => "!white"@,
                StateTag::Black => "!black"@,
            },
    {
        match self {
            StateTag::Checkmate => "!checkmate",
            StateTag::Draw => "!draw",
            StateTag::White => "!white",
            StateTag::Black => "!black",
        }
    }
}

/// The tag of a position: mate first, then draw, then the side to move.
pub fn state_tag(checkmate: bool, draw: bool, side_to_move: Color) -> (r: StateTag)
    ensures
        r == (if checkmate {
            StateTag::Checkmate
        } else if draw {
            StateTag::Draw
        } else if side_to_move == Color::White {
            StateTag::White
        } else {
            StateTag::Black
        }),
{
    if checkmate {
        StateTag::Checkmate
    } else if draw {
        StateTag::Draw
    } else {
        match side_to_move {
            Color::White => StateTag::White,
            Color::Black => StateTag::Black,
        }
    }
}

/// The `!set <FEN>` message.
pub fn set_message(fen: &str) -> (r: String)
    ensures
        r@ == "!set "@ + fen@,
{
    let mut s = String::from_str("!set ");
    s.append(fen);
    s
}

/// Replies to a move message that parsed: an illegal move is answered with
/// the current position first, so that the client resynchronises.
pub fn replies_after_move(legal: bool) -> (r: Vec<Reply>)
    ensures
        r@ == (if legal { seq![Reply::Tag] } else { seq![Reply::SetPosition, Reply::Tag] }),
{
    let mut r: Vec<Reply> = Vec::new();
    if !legal {
        r.push(Reply::SetPosition);
    }
    r.push(Reply::Tag);
    proof {
        if legal {
            assert(r@ =~= seq![Reply::Tag]);
        } else {
            assert(r@ =~= seq![Reply::SetPosition, Reply::Tag]);
        }
    }
    r
}

/// Replies to `!fen`: the position, valid or kept, then its tag.
pub fn replies_after_fen() -> (r: Vec<Reply>)
    ensures
        r@ == seq![Reply::SetPosition, Reply::Tag],
{
    let mut r: Vec<Reply> = Vec::new();
    r.push(Reply::SetPosition);
    r.push(Reply::Tag);
    assert(r@ =~= seq![Reply::SetPosition, Reply::Tag]);
    r
}

} // verus!
