//! The command grammar: free text to a structured [`Command`].
//!
//! A command is case folded, split on whitespace runs, and must consist of a
//! first token starting with the marker `!` — the rest of that token is the
//! station name — followed by one of six fixed verbs: `help`, `shutdown`,
//! `power on`, `power off`, `ptt enable`, `ptt disable`.  Anything else is
//! malformed.

use vstd::prelude::*;

use crate::text::{
    chars_match, chars_of, fold_chars, is_space, lemma_lower_idempotent, lemma_lower_insert,
    lemma_tokens_insert_space, lemma_tokens_leading_space, lemma_tokens_trailing_space, lower,
    lower_char, string_from_chars, tokenize, tokens_of,
};

verus! {

/// Why a piece of text is not a command.
#[derive(Clone, Copy, Debug, PartialEq, Eq, Structural)]
pub enum ParseError {
    /// The text does not follow the command grammar.
    Malformed,
}

/// The requested action: one of the six verbs of the command grammar.
#[derive(Clone, Copy, Debug, Hash, PartialEq, Eq, Structural)]
pub enum Operation {
    Help,
    Shutdown,
    PowerOn,
    PowerOff,
    PttEnable,
    PttDisable,
}

impl Operation {
    /// Whether the operation requires operator privilege: every operation
    /// except `Help` does.
    pub open spec fn spec_is_operator_only(self) -> bool {
        match self {
            Operation::Help => false,
            Operation::Shutdown => true,
            Operation::PowerOff => true,
            Operation::PowerOn => true,
            Operation::PttEnable => true,
            Operation::PttDisable => true,
        }
    }

    /// Whether the operation requires operator privilege.
    pub fn is_operator_only(&self) -> (r: bool)
        ensures
            r == self.spec_is_operator_only(),
    {
        match self {
            Operation::Help => false,
            Operation::Shutdown => true,
            Operation::PowerOff => true,
            Operation::PowerOn => true,
            Operation::PttEnable => true,
            Operation::PttDisable => true,
        }
    }

    /// The operation denoted by a sequence of already case-folded tokens, if
    /// any: the fixed verb table of the grammar.
    pub open spec fn spec_of_tokens(ts: Seq<Seq<char>>) -> Option<Operation> {
        if ts.len() == 1 && ts[0] == "help"@ {
            Some(Operation::Help)
        } else if ts.len() == 1 && ts[0] == "shutdown"@ {
            Some(Operation::Shutdown)
        } else if ts.len() == 2 && ts[0] == "power"@ && ts[1] == "on"@ {
            Some(Operation::PowerOn)
        } else if ts.len() == 2 && ts[0] == "power"@ && ts[1] == "off"@ {
            Some(Operation::PowerOff)
        } else if ts.len() == 2 && ts[0] == "ptt"@ && ts[1] == "enable"@ {
            Some(Operation::PttEnable)
        } else if ts.len() == 2 && ts[0] == "ptt"@ && ts[1] == "disable"@ {
            Some(Operation::PttDisable)
        } else {
            None
        }
    }

    /// Matches a slice of already case-folded tokens against the verb table.
    /// Exactly the token sequences of the verb table are accepted.
    pub fn try_from(parts: &[&str]) -> (r: Result<Operation, ParseError>)
        ensures
            r == match Operation::spec_of_tokens(parts.deep_view()) {
                Some(op) => Ok::<Operation, ParseError>(op),
                None => Err(ParseError::Malformed),
            },
    {
        if parts.len() == 1 {
            let t0 = chars_of(parts[0]);
            if chars_match(t0.as_slice(), "help") {
                Ok(Operation::Help)
            } else if chars_match(t0.as_slice(), "shutdown") {
                Ok(Operation::Shutdown)
            } else {
                Err(ParseError::Malformed)
            }
        } else if parts.len() == 2 {
            let t0 = chars_of(parts[0]);
            let t1 = chars_of(parts[1]);
            if chars_match(t0.as_slice(), "power") && chars_match(t1.as_slice(), "on") {
                Ok(Operation::PowerOn)
            } else if chars_match(t0.as_slice(), "power") && chars_match(t1.as_slice(), "off") {
                Ok(Operation::PowerOff)
            } else if chars_match(t0.as_slice(), "ptt") && chars_match(t1.as_slice(), "enable") {
                Ok(Operation::PttEnable)
            } else if chars_match(t0.as_slice(), "ptt") && chars_match(t1.as_slice(), "disable") {
                Ok(Operation::PttDisable)
            } else {
                Err(ParseError::Malformed)
            }
        } else {
            Err(ParseError::Malformed)
        }
    }
}

/// The mathematical value of a [`Command`]: the station name as a sequence of
/// characters, and the operation.
pub ghost struct CommandView {
    pub station_name: Seq<char>,
    pub op: Operation,
}

/// A parsed command: the station it addresses and the requested operation.
#[derive(Clone, Debug, PartialEq)]
pub struct Command {
    pub station_name: String,
    pub op: Operation,
}

impl View for Command {
    type V = CommandView;

    open spec fn view(&self) -> CommandView {
        CommandView { station_name: self.station_name@, op: self.op }
    }
}

impl Default for Command {
    /// The default command: an empty station name and `Help`.
    fn default() -> (r: Command)
        ensures
            r@.station_name == Seq::<char>::empty(),
            r@.op == Operation::Help,
    {
        Command { station_name: String::new(), op: Operation::Help }
    }
}

/// What parsing a piece of text yields: the text is case folded and split on
/// whitespace runs; the first token must begin with `!` and names the station;
/// the remaining tokens must spell a verb of the table.
pub open spec fn parse_spec(s: Seq<char>) -> Result<CommandView, ParseError> {
    let toks = tokens_of(lower(s));
    if toks.len() == 0 {
        Err(ParseError::Malformed)
    } else if toks[0].len() > 0 && toks[0][0] == '!' {
        match Operation::spec_of_tokens(toks.skip(1)) {
            Some(op) => Ok(CommandView { station_name: toks[0].skip(1), op }),
            None => Err(ParseError::Malformed),
        }
    } else {
        Err(ParseError::Malformed)
    }
}

/// The view of a parse result, for relating executable results to
/// [`parse_spec`].
pub open spec fn parse_result_view(r: Result<Command, ParseError>) -> Result<
    CommandView,
    ParseError,
> {
    match r {
        Ok(c) => Ok(c@),
        Err(e) => Err(e),
    }
}

impl Command {
    /// Parses a command from raw text, per [`parse_spec`].
    pub fn try_from(cmd_str: String) -> (r: Result<Command, ParseError>)
        ensures
            parse_result_view(r) == parse_spec(cmd_str@),
    {
        let cs = chars_of(cmd_str.as_str());
        let low = fold_chars(cs.as_slice());
        let toks = tokenize(low.as_slice());
        let ghost tv = tokens_of(lower(cmd_str@));
        if toks.len() == 0 {
            return Err(ParseError::Malformed);
        }
        let first = &toks[0];
        if first.len() > 0 && first[0] == '!' {
            match op_of_parts(&toks, 1) {
                Ok(op) => {
                    let mut st: Vec<char> = Vec::new();
                    let mut i: usize = 1;
                    while i < first.len()
                        invariant
                            1 <= i <= first.len(),
                            first@ == tv[0],
                            st@ == first@.subrange(1, i as int),
                        decreases first.len() - i,
                    {
                        st.push(first[i]);
                        i = i + 1;
                        assert(st@ =~= first@.subrange(1, i as int));
                    }
                    assert(st@ =~= tv[0].skip(1));
                    let station_name = string_from_chars(st.as_slice());
                    Ok(Command { station_name, op })
                },
                Err(e) => Err(e),
            }
        } else {
            Err(ParseError::Malformed)
        }
    }
}

/// Parsing is insensitive to case: folding the input first changes nothing.
pub proof fn lemma_parse_case_insensitive(s: Seq<char>)
    ensures
        parse_spec(lower(s)) == parse_spec(s),
{
    lemma_lower_idempotent(s);
}

/// Extra whitespace in front of a command changes nothing.
pub proof fn lemma_parse_ignores_leading_space(c: char, s: Seq<char>)
    requires
        is_space(c),
    ensures
        parse_spec(seq![c] + s) == parse_spec(s),
{
    assert(lower(seq![c] + s) =~= seq![c] + lower(s)) by {
        assert forall|k: int| 0 <= k < s.len() + 1 implies #[trigger] lower(seq![c] + s)[k] == (
        seq![c] + lower(s))[k] by {
            if k == 0 {
                assert((seq![c] + s)[0] == c);
            } else {
                assert((seq![c] + s)[k] == s[k - 1]);
                assert((seq![c] + lower(s))[k] == lower(s)[k - 1]);
            }
        }
    }
    lemma_tokens_leading_space(c, lower(s));
}

/// Extra whitespace at the end of a command changes nothing.
pub proof fn lemma_parse_ignores_trailing_space(s: Seq<char>, c: char)
    requires
        is_space(c),
    ensures
        parse_spec(s.push(c)) == parse_spec(s),
{
    assert(lower(s.push(c)) =~= lower(s).push(c)) by {
        assert forall|k: int| 0 <= k < s.len() + 1 implies #[trigger] lower(s.push(c))[k] == lower(
            s,
        ).push(c)[k] by {
            if k < s.len() {
                assert(s.push(c)[k] == s[k]);
            } else {
                assert(s.push(c)[k] == c);
            }
        }
    }
    lemma_tokens_trailing_space(lower(s), c);
}

/// One more whitespace character next to existing whitespace inside a
/// command changes nothing: the whitespace between tokens may be stretched at
/// will.
pub proof fn lemma_parse_ignores_inserted_space(s: Seq<char>, p: int, c: char)
    requires
        is_space(c),
        0 <= p < s.len(),
        is_space(s[p]),
    ensures
        parse_spec(s.insert(p, c)) == parse_spec(s),
{
    lemma_lower_insert(s, p, c);
    assert(lower_char(c) == c);
    assert(lower(s)[p] == lower_char(s[p]));
    lemma_tokens_insert_space(lower(s), p, c);
}

/// Matches the tokens of `toks` from position `start` on against the verb
/// table.
fn op_of_parts(toks: &Vec<Vec<char>>, start: usize) -> (r: Result<Operation, ParseError>)
    requires
        start <= toks@.len(),
    ensures
        r == match Operation::spec_of_tokens(toks.deep_view().skip(start as int)) {
            Some(op) => Ok::<Operation, ParseError>(op),
            None => Err(ParseError::Malformed),
        },
{
    let ghost ts = toks.deep_view().skip(start as int);
    let n = toks.len() - start;
    if n == 1 {
        let t0 = &toks[start];
        assert(t0@ == ts[0]);
        if chars_match(t0.as_slice(), "help") {
            Ok(Operation::Help)
        } else if chars_match(t0.as_slice(), "shutdown") {
            Ok(Operation::Shutdown)
        } else {
            Err(ParseError::Malformed)
        }
    } else if n == 2 {
        let t0 = &toks[start];
        let t1 = &toks[start + 1];
        assert(t0@ == ts[0]);
        assert(t1@ == ts[1]);
        if chars_match(t0.as_slice(), "power") && chars_match(t1.as_slice(), "on") {
            Ok(Operation::PowerOn)
        } else if chars_match(t0.as_slice(), "power") && chars_match(t1.as_slice(), "off") {
            Ok(Operation::PowerOff)
        } else if chars_match(t0.as_slice(), "ptt") && chars_match(t1.as_slice(), "enable") {
            Ok(Operation::PttEnable)
        } else if chars_match(t0.as_slice(), "ptt") && chars_match(t1.as_slice(), "disable") {
            Ok(Operation::PttDisable)
        } else {
            Err(ParseError::Malformed)
        }
    } else {
        Err(ParseError::Malformed)
    }
}

} // verus!
