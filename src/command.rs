//! The chat command grammar.
//!
//! A command is `!` followed by a name of ASCII letters, then zero or more
//! arguments, each preceded by one or more ASCII whitespace characters. An argument
//! is either a bare run of characters that are not ASCII whitespace, or a
//! double-quoted string in which a backslash escapes a following quote.
//! Whitespace may trail the last argument; anything else makes the text no
//! command.
use vstd::prelude::*;
use vstd::string::StrSliceExecFns;

verus! {

/// An ASCII letter, the characters of a command's name.
pub open spec fn is_letter(c: char) -> bool {
    ('a' <= c && c <= 'z') || ('A' <= c && c <= 'Z')
}

/// ASCII whitespace: it separates a command's name and its arguments, and
/// ends a bare argument.
pub open spec fn is_space(c: char) -> bool {
    c == ' ' || c == '\t' || c == '\n' || c == '\r' || c == '\x0C'
}

/// The number of letters at the start of `t`.
pub open spec fn letters_len(t: Seq<char>) -> nat
    decreases t.len(),
{
    if t.len() > 0 && is_letter(t[0]) {
        1 + letters_len(t.drop_first())
    } else {
        0
    }
}

/// The number of whitespace characters at the start of `t`.
pub open spec fn blanks_len(t: Seq<char>) -> nat
    decreases t.len(),
{
    if t.len() > 0 && is_space(t[0]) {
        1 + blanks_len(t.drop_first())
    } else {
        0
    }
}

/// The number of characters at the start of `t` that are not whitespace.
pub open spec fn word_len(t: Seq<char>) -> nat
    decreases t.len(),
{
    if t.len() > 0 && !is_space(t[0]) {
        1 + word_len(t.drop_first())
    } else {
        0
    }
}

/// The length of a quoted argument's text, `t` being what follows the opening
/// quote: the position of the first quote that no backslash escapes, if any.
pub open spec fn quoted_len(t: Seq<char>) -> Option<nat>
    decreases t.len(),
{
    if t.len() == 0 {
        None
    } else if t[0] == '"' {
        Some(0)
    } else if t[0] == '\\' && t.len() >= 2 && t[1] == '"' {
        match quoted_len(t.skip(2)) {
            Some(n) => Some(n + 2),
            None => None,
        }
    } else {
        match quoted_len(t.drop_first()) {
            Some(n) => Some(n + 1),
            None => None,
        }
    }
}

pub proof fn lemma_blanks_len_bound(t: Seq<char>)
    ensures
        blanks_len(t) <= t.len(),
        blanks_len(t) < t.len() ==> !is_space(t[blanks_len(t) as int]),
    decreases t.len(),
{
    if t.len() > 0 && is_space(t[0]) {
        lemma_blanks_len_bound(t.drop_first());
    }
}

pub proof fn lemma_word_len_bound(t: Seq<char>)
    ensures
        word_len(t) <= t.len(),
    decreases t.len(),
{
    if t.len() > 0 && !is_space(t[0]) {
        lemma_word_len_bound(t.drop_first());
    }
}

pub proof fn lemma_letters_len_bound(t: Seq<char>)
    ensures
        letters_len(t) <= t.len(),
    decreases t.len(),
{
    if t.len() > 0 && is_letter(t[0]) {
        lemma_letters_len_bound(t.drop_first());
    }
}

pub proof fn lemma_quoted_len_bound(t: Seq<char>)
    ensures
        quoted_len(t) matches Some(n) ==> n < t.len() && t[n as int] == '"',
    decreases t.len(),
{
    if t.len() == 0 {
    } else if t[0] == '"' {
    } else if t[0] == '\\' && t.len() >= 2 && t[1] == '"' {
        lemma_quoted_len_bound(t.skip(2));
    } else {
        lemma_quoted_len_bound(t.drop_first());
    }
}

/// The arguments in `t`, the text that follows a command's name: each one
/// preceded by whitespace, with whitespace allowed at the end. `None` where `t` has
/// another form.
pub open spec fn args_of(t: Seq<char>) -> Option<Seq<Seq<char>>>
    decreases t.len(),
{
    let b = blanks_len(t);
    proof {
        lemma_blanks_len_bound(t);
    }
    if b == t.len() {
        Some(Seq::empty())
    } else if b == 0 {
        None
    } else {
        let u = t.skip(b as int);
        if u[0] == '"' {
            proof {
                lemma_quoted_len_bound(u.drop_first());
            }
            match quoted_len(u.drop_first()) {
                None => None,
                Some(n) => match args_of(u.skip(n + 2 as int)) {
                    Some(rest) => Some(seq![u.subrange(1, n + 1 as int)].add(rest)),
                    None => None,
                },
            }
        } else {
            let n = word_len(u);
            proof {
                lemma_word_len_bound(u);
            }
            match args_of(u.skip(n as int)) {
                Some(rest) => Some(seq![u.take(n as int)].add(rest)),
                None => None,
            }
        }
    }
}

/// The command that the text `s` holds: its name and its arguments.
pub open spec fn command_of(s: Seq<char>) -> Option<(Seq<char>, Seq<Seq<char>>)> {
    let n = letters_len(s.drop_first());
    if s.len() >= 2 && s[0] == '!' && n >= 1 {
        match args_of(s.skip(n + 1 as int)) {
            Some(args) => Some((s.subrange(1, n + 1 as int), args)),
            None => None,
        }
    } else {
        None
    }
}

/// The text of each string of `v`.
pub open spec fn texts(v: Seq<String>) -> Seq<Seq<char>> {
    v.map_values(|x: String| x@)
}

/// The characters of `s`, in order.
pub fn chars_of(s: &str) -> (r: Vec<char>)
    ensures
        r@ == s@,
{
    broadcast use vstd::string::group_string_axioms;

    let mut out: Vec<char> = Vec::new();
    for c in it: s.chars()
        invariant
            it.seq() == s@,
            out@ == it.seq().take(it.index() as int),
    {
        out.push(c);
    }
    proof {
        assert(out@ =~= s@);
    }
    out
}

/// `None` stays `None`; otherwise `front` is put before the arguments.
pub open spec fn prepend(front: Seq<Seq<char>>, o: Option<Seq<Seq<char>>>) -> Option<Seq<Seq<char>>> {
    match o {
        Some(rest) => Some(front + rest),
        None => None,
    }
}

/// The position after the letters that start at `i`.
fn letters_end(cs: &Vec<char>, i: usize) -> (r: usize)
    requires
        i <= cs.len(),
    ensures
        r == i + letters_len(cs@.skip(i as int)),
{
    let mut j: usize = i;
    while j < cs.len() && (('a' <= cs[j] && cs[j] <= 'z') || ('A' <= cs[j] && cs[j] <= 'Z'))
        invariant
            i <= j <= cs.len(),
            j - i + letters_len(cs@.skip(j as int)) == letters_len(cs@.skip(i as int)),
        decreases cs.len() - j,
    {
        assert(cs@.skip(j as int).drop_first() =~= cs@.skip(j + 1));
        j = j + 1;
    }
    j
}

/// The position after the whitespace that starts at `i`.
fn blanks_end(cs: &Vec<char>, i: usize) -> (r: usize)
    requires
        i <= cs.len(),
    ensures
        r == i + blanks_len(cs@.skip(i as int)),
{
    let mut j: usize = i;
    while j < cs.len() && (cs[j] == ' ' || cs[j] == '\t' || cs[j] == '\n' || cs[j] == '\r'
        || cs[j] == '\x0C')
        invariant
            i <= j <= cs.len(),
            j - i + blanks_len(cs@.skip(j as int)) == blanks_len(cs@.skip(i as int)),
        decreases cs.len() - j,
    {
        assert(cs@.skip(j as int).drop_first() =~= cs@.skip(j + 1));
        j = j + 1;
    }
    j
}

/// The position after the bare argument that starts at `i`.
fn word_end(cs: &Vec<char>, i: usize) -> (r: usize)
    requires
        i <= cs.len(),
    ensures
        r == i + word_len(cs@.skip(i as int)),
{
    let mut j: usize = i;
    while j < cs.len() && !(cs[j] == ' ' || cs[j] == '\t' || cs[j] == '\n' || cs[j] == '\r'
        || cs[j] == '\x0C')
        invariant
            i <= j <= cs.len(),
            j - i + word_len(cs@.skip(j as int)) == word_len(cs@.skip(i as int)),
        decreases cs.len() - j,
    {
        assert(cs@.skip(j as int).drop_first() =~= cs@.skip(j + 1));
        j = j + 1;
    }
    j
}

/// The position of the quote that closes a quoted argument whose text starts
/// at `i`.
fn quote_end(cs: &Vec<char>, i: usize) -> (r: Option<usize>)
    requires
        i <= cs.len(),
    ensures
        match quoted_len(cs@.skip(i as int)) {
            Some(n) => r == Some((i + n) as usize),
            None => r is None,
        },
{
    let mut j: usize = i;
    while j < cs.len()
        invariant
            i <= j <= cs.len(),
            quoted_len(cs@.skip(i as int)) == match quoted_len(cs@.skip(j as int)) {
                Some(n) => Some(n + (j - i) as nat),
                None => None::<nat>,
            },
        decreases cs.len() - j,
    {
        if cs[j] == '"' {
            return Some(j);
        }
        if cs[j] == '\\' && j + 1 < cs.len() && cs[j + 1] == '"' {
            assert(cs@.skip(j as int).skip(2) =~= cs@.skip(j + 2));
            j = j + 2;
        } else {
            assert(cs@.skip(j as int).drop_first() =~= cs@.skip(j + 1));
            j = j + 1;
        }
    }
    None
}

/// The arguments that follow a command's name in `s`, from position `start`
/// of its characters `cs`.
fn parse_args(s: &str, cs: &Vec<char>, start: usize) -> (r: Option<Vec<String>>)
    requires
        cs@ == s@,
        start <= cs.len(),
    ensures
        match r {
            Some(args) => args_of(s@.skip(start as int)) == Some(texts(args@)),
            None => args_of(s@.skip(start as int)) is None,
        },
{
    let mut args: Vec<String> = Vec::new();
    let mut p: usize = start;
    loop
        invariant
            cs@ == s@,
            start <= p <= cs.len(),
            args_of(s@.skip(start as int)) == prepend(texts(args@), args_of(s@.skip(p as int))),
        decreases cs.len() - p,
    {
        let b = blanks_end(cs, p);
        let ghost t = s@.skip(p as int);
        proof {
            lemma_blanks_len_bound(t);
            assert(t.skip(b - p) =~= s@.skip(b as int));
        }
        if b == cs.len() {
            assert(texts(args@) + Seq::<Seq<char>>::empty() =~= texts(args@));
            return Some(args);
        }
        if b == p {
            return None;
        }
        let ghost u = s@.skip(b as int);
        if cs[b] == '"' {
            assert(u.drop_first() =~= s@.skip(b + 1));
            match quote_end(cs, b + 1) {
                None => {
                    return None;
                },
                Some(q) => {
                    proof {
                        lemma_quoted_len_bound(s@.skip(b + 1));
                    }
                    let arg = s.substring_char(b + 1, q).to_owned();
                    proof {
                        let n = (q - b - 1) as nat;
                        assert(u.skip(n + 2 as int) =~= s@.skip(q + 1));
                        assert(u.subrange(1, n + 1 as int) =~= s@.subrange(b + 1, q as int));
                    }
                    let ghost before = args@;
                    args.push(arg);
                    proof {
                        assert(texts(args@) =~= texts(before) + seq![arg@]);
                        assert(texts(args@) + args_of(s@.skip(q + 1)).unwrap_or(Seq::empty())
                            =~= texts(before) + (seq![arg@] + args_of(s@.skip(q + 1)).unwrap_or(Seq::empty())));
                    }
                    p = q + 1;
                },
            }
        } else {
            let w = word_end(cs, b);
            proof {
                lemma_word_len_bound(u);
            }
            let arg = s.substring_char(b, w).to_owned();
            proof {
                let n = (w - b) as nat;
                assert(u.skip(n as int) =~= s@.skip(w as int));
                assert(u.take(n as int) =~= s@.subrange(b as int, w as int));
            }
            let ghost before = args@;
            args.push(arg);
            proof {
                assert(texts(args@) =~= texts(before) + seq![arg@]);
                assert(texts(args@) + args_of(s@.skip(w as int)).unwrap_or(Seq::empty())
                    =~= texts(before) + (seq![arg@] + args_of(s@.skip(w as int)).unwrap_or(Seq::empty())));
            }
            p = w;
        }
    }
}

/// `r` is the reading of the text `s` as a command.
pub open spec fn parsed_as(s: Seq<char>, r: Option<(String, Vec<String>)>) -> bool {
    match r {
        Some((name, args)) => command_of(s) == Some((name@, texts(args@))),
        None => command_of(s) is None,
    }
}

/// Reading a text as a command depends on the text alone: two readings of
/// the same text give the same name and the same arguments.
pub proof fn lemma_parse_repeatable(
    s: Seq<char>,
    a: Option<(String, Vec<String>)>,
    b: Option<(String, Vec<String>)>,
)
    requires
        parsed_as(s, a),
        parsed_as(s, b),
    ensures
        match (a, b) {
            (Some((name_a, args_a)), Some((name_b, args_b))) => name_a@ == name_b@ && texts(args_a@)
                == texts(args_b@),
            (None, None) => true,
            _ => false,
        },
{
}

/// Reads a chat text as a command: its name and its arguments, or `None`
/// where the text is no command.
pub fn parse_message(input: &str) -> (r: Option<(String, Vec<String>)>)
    ensures
        parsed_as(input@, r),
{
    let cs = chars_of(input);
    if cs.len() < 2 || cs[0] != '!' {
        return None;
    }
    let end = letters_end(&cs, 1);
    proof {
        assert(input@.drop_first() =~= input@.skip(1));
        lemma_letters_len_bound(input@.skip(1));
    }
    if end == 1 {
        return None;
    }
    let name = input.substring_char(1, end).to_owned();
    match parse_args(input, &cs, end) {
        Some(args) => Some((name, args)),
        None => None,
    }
}

} // verus!
