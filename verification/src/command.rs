//! The command parser: launch arguments to a typed remote command.
//!
//! A launch may carry `--remote <token>` anywhere in its argument list. The
//! token is matched case-insensitively against a fixed vocabulary; anything
//! unrecognized means "no command", never an error.

use vstd::prelude::*;

verus! {

/// The closed set of playback directives a launch can carry.
#[derive(Clone, Copy, Debug, PartialEq, Eq, Structural)]
pub enum RemoteCommand {
    Toggle,
    Play,
    Pause,
    Next,
    Previous,
}

/// `a` matches `b` ignoring ASCII case, where `b` is already lower-case:
/// either the characters are equal, or `a` is an ASCII capital letter whose
/// lower-case form is `b`.
pub open spec fn ascii_lower_eq(a: char, b: char) -> bool {
    a == b || (('A' as int) <= a as int <= ('Z' as int) && a as int + 32 == b as int)
}

/// `s` equals the lower-case keyword `kw` up to ASCII case.
pub open spec fn token_eq_nocase(s: Seq<char>, kw: Seq<char>) -> bool {
    s.len() == kw.len() && forall|i: int| 0 <= i < s.len() ==> ascii_lower_eq(s[i], kw[i])
}

/// What a single token resolves to. Unrecognized tokens resolve to `None`.
pub open spec fn token_to_command(s: Seq<char>) -> Option<RemoteCommand> {
    if token_eq_nocase(s, "toggle"@) {
        Some(RemoteCommand::Toggle)
    } else if token_eq_nocase(s, "play"@) {
        Some(RemoteCommand::Play)
    } else if token_eq_nocase(s, "pause"@) {
        Some(RemoteCommand::Pause)
    } else if token_eq_nocase(s, "next"@) {
        Some(RemoteCommand::Next)
    } else if token_eq_nocase(s, "previous"@) || token_eq_nocase(s, "prev"@) {
        Some(RemoteCommand::Previous)
    } else {
        None
    }
}

/// The canonical bridge token of each command, as handed to the content
/// surface's `runCommand` operation.
pub open spec fn bridge_token(c: RemoteCommand) -> Seq<char> {
    match c {
        RemoteCommand::Toggle => "toggle"@,
        RemoteCommand::Play => "play"@,
        RemoteCommand::Pause => "pause"@,
        RemoteCommand::Next => "next"@,
        RemoteCommand::Previous => "previous"@,
    }
}

impl RemoteCommand {
    /// Resolve one token against the vocabulary, case-insensitively.
    pub fn from_str(value: &str) -> (r: Option<RemoteCommand>)
        ensures
            r == token_to_command(value@),
    {
        if eq_nocase(value, "toggle") {
            Some(RemoteCommand::Toggle)
        } else if eq_nocase(value, "play") {
            Some(RemoteCommand::Play)
        } else if eq_nocase(value, "pause") {
            Some(RemoteCommand::Pause)
        } else if eq_nocase(value, "next") {
            Some(RemoteCommand::Next)
        } else if eq_nocase(value, "previous") || eq_nocase(value, "prev") {
            Some(RemoteCommand::Previous)
        } else {
            None
        }
    }

    /// The canonical token for this command.
    pub fn as_bridge_command(self) -> (r: &'static str)
        ensures
            r@ == bridge_token(self),
    {
        match self {
            RemoteCommand::Toggle => "toggle",
            RemoteCommand::Play => "play",
            RemoteCommand::Pause => "pause",
            RemoteCommand::Next => "next",
            RemoteCommand::Previous => "previous",
        }
    }
}

/// What an argument list resolves to: the token after the first `--remote`
/// flag, if there is one and it is recognized. A trailing flag, an
/// unrecognized token, or an absent flag all mean "no command".
pub open spec fn parse_args(args: Seq<Seq<char>>) -> Option<RemoteCommand>
    decreases args.len(),
{
    if args.len() == 0 {
        None
    } else if args[0] == "--remote"@ {
        if args.len() >= 2 {
            token_to_command(args[1])
        } else {
            None
        }
    } else {
        parse_args(args.skip(1))
    }
}

/// Scan an argument list for `--remote <token>` and resolve the token.
/// A pure function of its input: safe to call once for the startup
/// arguments and once per subsequent launch.
pub fn parse_remote_command(args: &[String]) -> (r: Option<RemoteCommand>)
    ensures
        r == parse_args(args.deep_view()),
{
    let ghost av = args.deep_view();
    proof {
        assert(av.skip(0) =~= av);
    }
    let mut i: usize = 0;
    while i < args.len()
        invariant
            av == args.deep_view(),
            av.len() == args.len(),
            0 <= i <= args.len(),
            parse_args(av) == parse_args(av.skip(i as int)),
        decreases args.len() - i,
    {
        proof {
            assert(av[i as int] == args[i as int]@);
        }
        if str_eq(args[i].as_str(), "--remote") {
            if i + 1 < args.len() {
                proof {
                    assert(av.skip(i as int)[0] == av[i as int]);
                    assert(av.skip(i as int)[1] == av[i as int + 1]);
                    assert(av[i as int + 1] == args[i as int + 1]@);
                }
                return RemoteCommand::from_str(args[i + 1].as_str());
            } else {
                proof {
                    assert(av.skip(i as int)[0] == av[i as int]);
                    assert(av.skip(i as int).len() < 2);
                }
                return None;
            }
        }
        proof {
            assert(av.skip(i as int)[0] == av[i as int]);
            assert(av.skip(i as int).skip(1) =~= av.skip(i as int + 1));
        }
        i += 1;
    }
    proof {
        assert(av.skip(i as int).len() == 0);
    }
    None
}

/// One character of the case-insensitive comparison.
fn char_lower_eq(a: char, b: char) -> (r: bool)
    ensures
        r == ascii_lower_eq(a, b),
{
    let av = a as u32;
    let bv = b as u32;
    av == bv || (('A' as u32) <= av && av <= ('Z' as u32) && av + 32 == bv)
}

/// Case-insensitive equality of `value` against the lower-case keyword `kw`.
fn eq_nocase(value: &str, kw: &str) -> (r: bool)
    ensures
        r == token_eq_nocase(value@, kw@),
{
    let n = value.unicode_len();
    if n != kw.unicode_len() {
        return false;
    }
    let mut i: usize = 0;
    while i < n
        invariant
            n == value@.len(),
            n == kw@.len(),
            0 <= i <= n,
            forall|j: int| 0 <= j < i ==> ascii_lower_eq(value@[j], kw@[j]),
        decreases n - i,
    {
        if !char_lower_eq(value.get_char(i), kw.get_char(i)) {
            return false;
        }
        i += 1;
    }
    true
}

/// Equality of two string slices by their character sequences.
fn str_eq(a: &str, b: &str) -> (r: bool)
    ensures
        r == (a@ == b@),
{
    let n = a.unicode_len();
    if n != b.unicode_len() {
        return false;
    }
    let mut i: usize = 0;
    while i < n
        invariant
            n == a@.len(),
            n == b@.len(),
            0 <= i <= n,
            forall|j: int| 0 <= j < i ==> a@[j] == b@[j],
        decreases n - i,
    {
        if a.get_char(i) != b.get_char(i) {
            return false;
        }
        i += 1;
    }
    proof {
        assert(a@ =~= b@);
    }
    true
}

/// An argument list with no `--remote` flag resolves to no command.
pub proof fn lemma_parse_none_without_flag(args: Seq<Seq<char>>)
    requires
        forall|i: int| 0 <= i < args.len() ==> args[i] != "--remote"@,
    ensures
        parse_args(args) is None,
    decreases args.len(),
{
    if args.len() > 0 {
        assert(args.skip(1) =~= args.subrange(1, args.len() as int));
        lemma_parse_none_without_flag(args.skip(1));
    }
}

/// The first `--remote` flag decides: if it is followed by a token, the
/// argument list resolves to whatever that token resolves to.
pub proof fn lemma_parse_first_flag(args: Seq<Seq<char>>, i: int)
    requires
        0 <= i,
        i + 1 < args.len(),
        args[i] == "--remote"@,
        forall|j: int| 0 <= j < i ==> args[j] != "--remote"@,
    ensures
        parse_args(args) == token_to_command(args[i + 1]),
    decreases i,
{
    if i == 0 {
    } else {
        assert(args.skip(1)[i - 1] == args[i]);
        assert(args.skip(1)[i] == args[i + 1]);
        assert(forall|j: int| 0 <= j < i - 1 ==> args.skip(1)[j] == args[j + 1]);
        lemma_parse_first_flag(args.skip(1), i - 1);
    }
}

/// A `--remote` flag with nothing after it resolves to no command.
pub proof fn lemma_parse_flag_without_token(args: Seq<Seq<char>>, i: int)
    requires
        0 <= i,
        i + 1 == args.len(),
        args[i] == "--remote"@,
        forall|j: int| 0 <= j < i ==> args[j] != "--remote"@,
    ensures
        parse_args(args) is None,
    decreases i,
{
    if i > 0 {
        assert(args.skip(1)[i - 1] == args[i]);
        assert(forall|j: int| 0 <= j < i - 1 ==> args.skip(1)[j] == args[j + 1]);
        lemma_parse_flag_without_token(args.skip(1), i - 1);
    }
}

/// Synonym equivalence: `previous` and `prev` resolve to the identical
/// command.
pub proof fn lemma_previous_synonym()
    ensures
        token_to_command("previous"@) == token_to_command("prev"@),
        token_to_command("prev"@) == Some(RemoteCommand::Previous),
{
    reveal_strlit("toggle");
    reveal_strlit("play");
    reveal_strlit("pause");
    reveal_strlit("next");
    reveal_strlit("previous");
    reveal_strlit("prev");
    assert(!ascii_lower_eq("prev"@[1], "play"@[1]));
    assert(!ascii_lower_eq("prev"@[0], "next"@[0]));
    assert(token_eq_nocase("prev"@, "prev"@));
    assert(token_eq_nocase("previous"@, "previous"@));
}

/// Parsing is deterministic: equal argument lists resolve to the same
/// command, so parsing the same list twice yields the same result.
pub proof fn lemma_parse_idempotent(a: Seq<Seq<char>>, b: Seq<Seq<char>>)
    requires
        a == b,
    ensures
        parse_args(a) == parse_args(b),
{
}

} // verus!
