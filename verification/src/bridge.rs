//! The bridge contract: the named operations the content surface exposes
//! once its own initialization completes, and the escaping used when a
//! command token is spliced into a single-quoted script literal.

use vstd::prelude::*;

verus! {

/// The fixed, callable members of the surface's bridge object. The
/// remaining member, `runCommand`, takes a token and is modeled by the
/// dispatcher.
#[derive(Clone, Copy, Debug, PartialEq, Eq, Structural)]
pub enum BridgeMethod {
    Play,
    Pause,
    TogglePlay,
    Next,
    Previous,
    RequestPiP,
}

/// The name under which the surface exposes each bridge operation.
pub open spec fn spec_method_name(m: BridgeMethod) -> Seq<char> {
    match m {
        BridgeMethod::Play => "play"@,
        BridgeMethod::Pause => "pause"@,
        BridgeMethod::TogglePlay => "togglePlay"@,
        BridgeMethod::Next => "next"@,
        BridgeMethod::Previous => "previous"@,
        BridgeMethod::RequestPiP => "requestPiP"@,
    }
}

impl BridgeMethod {
    /// The member name to call on the bridge object.
    pub fn name(self) -> (r: &'static str)
        ensures
            r@ == spec_method_name(self),
    {
        match self {
            BridgeMethod::Play => "play",
            BridgeMethod::Pause => "pause",
            BridgeMethod::TogglePlay => "togglePlay",
            BridgeMethod::Next => "next",
            BridgeMethod::Previous => "previous",
            BridgeMethod::RequestPiP => "requestPiP",
        }
    }
}

/// How one character appears inside a single-quoted script literal:
/// backslashes and single quotes gain a leading backslash, everything else
/// stands as it is.
pub open spec fn escaped_char(c: char) -> Seq<char> {
    if c == '\\' {
        seq!['\\', '\\']
    } else if c == '\'' {
        seq!['\\', '\'']
    } else {
        seq![c]
    }
}

/// The whole text escaped character by character.
pub open spec fn escape_seq(s: Seq<char>) -> Seq<char>
    decreases s.len(),
{
    if s.len() == 0 {
        Seq::empty()
    } else {
        escaped_char(s[0]) + escape_seq(s.skip(1))
    }
}

/// Escape `s` for splicing between single quotes in a script: every
/// backslash and every single quote gets a leading backslash.
pub fn escape_for_js(s: &str) -> (r: String)
    ensures
        r@ == escape_seq(s@),
{
    let n = s.unicode_len();
    let mut out = String::new();
    proof {
        assert(escape_seq(s@.take(0)) =~= Seq::<char>::empty());
    }
    let mut i: usize = 0;
    while i < n
        invariant
            n == s@.len(),
            0 <= i <= n,
            out@ == escape_seq(s@.take(i as int)),
        decreases n - i,
    {
        let c = s.get_char(i);
        if c == '\\' {
            out.append("\\\\");
            proof {
                reveal_strlit("\\\\");
                assert(("\\\\")@ =~= escaped_char(c));
            }
        } else if c == '\'' {
            out.append("\\'");
            proof {
                reveal_strlit("\\'");
                assert(("\\'")@ =~= escaped_char(c));
            }
        } else {
            let piece = s.substring_char(i, i + 1);
            out.append(piece);
            proof {
                assert(piece@ =~= escaped_char(c));
            }
        }
        proof {
            assert(s@.take(i + 1) =~= s@.take(i as int).push(c));
            lemma_escape_snoc(s@.take(i as int), c);
        }
        i += 1;
    }
    proof {
        assert(s@.take(n as int) =~= s@);
    }
    out
}

/// Escaping a text extended by one character appends that character's
/// escape.
proof fn lemma_escape_snoc(s: Seq<char>, c: char)
    ensures
        escape_seq(s.push(c)) == escape_seq(s) + escaped_char(c),
    decreases s.len(),
{
    if s.len() == 0 {
        assert(s.push(c)[0] == c);
        assert(s.push(c).skip(1) =~= Seq::<char>::empty());
        assert(escape_seq(Seq::<char>::empty()) =~= Seq::<char>::empty());
        assert(escape_seq(s.push(c)) =~= escaped_char(c) + escape_seq(s.push(c).skip(1)));
        assert(escape_seq(s.push(c)) =~= escaped_char(c));
        assert(escape_seq(s) + escaped_char(c) =~= escaped_char(c));
    } else {
        assert(s.push(c)[0] == s[0]);
        assert(s.push(c).skip(1) =~= s.skip(1).push(c));
        lemma_escape_snoc(s.skip(1), c);
        assert(escape_seq(s.push(c)) =~= escape_seq(s) + escaped_char(c));
    }
}

} // verus!
