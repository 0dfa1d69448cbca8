//! Command parsing: a message is a command when it begins with the prefix; the
//! rest is split into words at white space, and a word that begins with `"`
//! runs to the next `"` (the quotes are dropped), so that an argument may hold
//! spaces. The first word is the command, the others are its arguments.

use vstd::prelude::*;
use crate::text::{chars_of, is_prefix, is_white_space, is_whitespace, starts_with, string_from_chars};

verus! {

/// The length of the word at the start of `s`: up to the first white space.
pub open spec fn word_len(s: Seq<char>) -> nat
    decreases s.len(),
{
    if s.len() == 0 || is_white_space(s[0]) {
        0
    } else {
        1 + word_len(s.skip(1))
    }
}

/// The index of the first `"` in `s`, or its length when there is none.
pub open spec fn quote_end(s: Seq<char>) -> nat
    decreases s.len(),
{
    if s.len() == 0 || s[0] == '"' {
        0
    } else {
        1 + quote_end(s.skip(1))
    }
}

pub proof fn lemma_word_len_bound(s: Seq<char>)
    ensures
        word_len(s) <= s.len(),
        s.len() > 0 && !is_white_space(s[0]) ==> word_len(s) >= 1,
    decreases s.len(),
{
    if s.len() > 0 && !is_white_space(s[0]) {
        lemma_word_len_bound(s.skip(1));
    }
}

pub proof fn lemma_quote_end_bound(s: Seq<char>)
    ensures
        quote_end(s) <= s.len(),
    decreases s.len(),
{
    if s.len() > 0 && s[0] != '"' {
        lemma_quote_end_bound(s.skip(1));
    }
}

/// The words of `s`, as the command parser splits them.
pub open spec fn tokens(s: Seq<char>) -> Seq<Seq<char>>
    decreases s.len(),
{
    if s.len() == 0 {
        Seq::empty()
    } else if is_white_space(s[0]) {
        tokens(s.skip(1))
    } else if s[0] == '"' {
        let body = s.skip(1);
        let e = quote_end(body);
        proof { lemma_quote_end_bound(body); }
        if e < body.len() {
            seq![body.take(e as int)] + tokens(body.skip(e as int + 1))
        } else {
            seq![body]
        }
    } else {
        let e = word_len(s);
        proof { lemma_word_len_bound(s); }
        seq![s.take(e as int)] + tokens(s.skip(e as int))
    }
}

/// A parsed command: its name, its arguments and the whole message.
pub struct ParsedCommand {
    pub cmd: String,
    pub args: Vec<String>,
    pub raw_msg: String,
}

/// The mathematical value of a `ParsedCommand`.
pub struct ParsedCommandView {
    pub cmd: Seq<char>,
    pub args: Seq<Seq<char>>,
    pub raw_msg: Seq<char>,
}

impl View for ParsedCommand {
    type V = ParsedCommandView;

    open spec fn view(&self) -> ParsedCommandView {
        ParsedCommandView {
            cmd: self.cmd@,
            args: self.args@.map_values(|a: String| a@),
            raw_msg: self.raw_msg@,
        }
    }
}

/// What `msg` parses to under `prefix`: nothing when it does not begin with the
/// prefix or holds no word after it.
pub open spec fn parse_spec(prefix: Seq<char>, msg: Seq<char>) -> Option<ParsedCommandView> {
    if !is_prefix(prefix, msg) {
        None
    } else {
        let words = tokens(msg.skip(prefix.len() as int));
        if words.len() == 0 {
            None
        } else {
            Some(ParsedCommandView { cmd: words[0], args: words.skip(1), raw_msg: msg })
        }
    }
}

/// The words of the characters `v[from..]`, in order.
fn split_words(v: &Vec<char>, from: usize) -> (r: Vec<String>)
    requires
        from <= v.len(),
    ensures
        r@.map_values(|a: String| a@) == tokens(v@.skip(from as int)),
{
    let mut out: Vec<String> = Vec::new();
    let mut i = from;
    let n = v.len();
    while i < n
        invariant
            n == v@.len(),
            from <= i <= n,
            out@.map_values(|a: String| a@) + tokens(v@.skip(i as int)) == tokens(v@.skip(from as int)),
        decreases n - i,
    {
        let ghost s = v@.skip(i as int);
        let ghost prev = out@.map_values(|a: String| a@);
        if is_whitespace(v[i]) {
            assert(s.skip(1) =~= v@.skip(i + 1));
            i = i + 1;
        } else if v[i] == '"' {
            let ghost body = s.skip(1);
            let mut j = i + 1;
            assert(body =~= v@.skip(j as int));
            while j < n && v[j] != '"'
                invariant
                    n == v@.len(),
                    i < j <= n,
                    body == v@.skip(i + 1),
                    quote_end(body) == (j - i - 1) + quote_end(v@.skip(j as int)),
                    forall|k: int| i < k < j ==> v@[k] != '"',
                decreases n - j,
            {
                assert(v@.skip(j as int).skip(1) =~= v@.skip(j + 1));
                j = j + 1;
            }
            let word = string_from_chars(v, i + 1, j);
            proof {
                lemma_quote_end_bound(body);
                assert(quote_end(v@.skip(j as int)) == 0);
                assert(quote_end(body) == j - i - 1);
            }
            out.push(word);
            if j < n {
                assert(body.take(j - i - 1) =~= v@.subrange(i + 1, j as int));
                assert(body.skip(j - i - 1 + 1) =~= v@.skip(j + 1));
                assert(out@.map_values(|a: String| a@) =~= prev.push(body.take(j - i - 1)));
                assert(out@.map_values(|a: String| a@) + tokens(v@.skip(j + 1)) =~= prev + tokens(s));
                i = j + 1;
            } else {
                assert(body =~= v@.subrange(i + 1, j as int));
                assert(v@.skip(j as int) =~= Seq::<char>::empty());
                assert(out@.map_values(|a: String| a@) =~= prev.push(body));
                assert(out@.map_values(|a: String| a@) + tokens(v@.skip(j as int)) =~= prev + tokens(s));
                i = j;
            }
        } else {
            let mut j = i;
            assert(s =~= v@.skip(j as int));
            while j < n && !is_whitespace(v[j])
                invariant
                    n == v@.len(),
                    i <= j <= n,
                    s == v@.skip(i as int),
                    word_len(s) == (j - i) + word_len(v@.skip(j as int)),
                decreases n - j,
            {
                assert(v@.skip(j as int).skip(1) =~= v@.skip(j + 1));
                j = j + 1;
            }
            let word = string_from_chars(v, i, j);
            proof {
                assert(word_len(v@.skip(j as int)) == 0);
                lemma_word_len_bound(s);
                assert(s.take(j - i) =~= v@.subrange(i as int, j as int));
                assert(s.skip(j - i) =~= v@.skip(j as int));
            }
            out.push(word);
            assert(out@.map_values(|a: String| a@) =~= prev.push(s.take(j - i)));
            assert(out@.map_values(|a: String| a@) + tokens(v@.skip(j as int)) =~= prev + tokens(s));
            i = j;
        }
    }
    assert(v@.skip(i as int) =~= Seq::<char>::empty());
    assert(out@.map_values(|a: String| a@) + Seq::<Seq<char>>::empty() =~= out@.map_values(|a: String| a@));
    out
}

/// The command parser.
pub struct Parser {
    prefix: String,
}

impl Parser {
    /// A parser for commands that begin with `prefix`.
    pub fn new(prefix: String) -> (p: Parser)
        ensures
            p.prefix() == prefix@,
    {
        Parser { prefix }
    }

    /// The command prefix.
    pub closed spec fn prefix(&self) -> Seq<char> {
        self.prefix@
    }

    /// The command prefix.
    pub fn get_prefix(&self) -> (r: &str)
        ensures
            r@ == self.prefix(),
    {
        self.prefix.as_str()
    }

    /// Replaces the command prefix.
    pub fn set_prefix(&mut self, prefix: String)
        ensures
            final(self).prefix() == prefix@,
    {
        self.prefix = prefix;
    }

    /// Whether `msg` begins with the command prefix.
    pub fn is_command(&self, msg: &str) -> (b: bool)
        ensures
            b == is_prefix(self.prefix(), msg@),
    {
        starts_with(msg, self.prefix.as_str())
    }

    /// The command in `msg`, if it is one.
    pub fn parse(&self, msg: &str) -> (r: Option<ParsedCommand>)
        ensures
            match r {
                Some(c) => parse_spec(self.prefix(), msg@) == Some(c@),
                None => parse_spec(self.prefix(), msg@) is None,
            },
    {
        if !self.is_command(msg) {
            return None;
        }
        let v = chars_of(msg);
        let plen = chars_of(self.prefix.as_str()).len();
        let mut words = split_words(&v, plen);
        if words.len() == 0 {
            return None;
        }
        let ghost all = words@.map_values(|a: String| a@);
        let cmd = words.remove(0);
        assert(words@.map_values(|a: String| a@) =~= all.skip(1));
        let raw_msg = msg.to_owned();
        Some(ParsedCommand { cmd, args: words, raw_msg })
    }
}

/// Every parsed command is a command in the sense of `is_command`: the message
/// begins with the prefix, and its name is the first word after it.
pub proof fn law_parsed_messages_are_commands(prefix: Seq<char>, msg: Seq<char>)
    ensures
        parse_spec(prefix, msg) is Some ==> is_prefix(prefix, msg),
        parse_spec(prefix, msg) matches Some(c) ==> c.cmd == tokens(msg.skip(prefix.len() as int))[0]
            && c.raw_msg == msg,
{
}

} // verus!
