//! Escaping for the dialects in which the launcher embeds text: AppleScript
//! string literals, PowerShell strings and words, POSIX shell words, `cmd`
//! command lines and the arguments of a Windows program. Each dialect has a
//! writer, a reader that models how the dialect
//! reads text back, and the law that the reader undoes the writer.

use crate::text::to_chars;
use vstd::prelude::*;

verus! {

/// The text in which each character of `s` is replaced by its image.
pub open spec fn expand(s: Seq<char>, image: spec_fn(char) -> Seq<char>) -> Seq<char>
    decreases s.len(),
{
    if s.len() == 0 {
        Seq::empty()
    } else {
        expand(s.drop_last(), image) + image(s.last())
    }
}

/// Reads `t` unit by unit: `decode` gives the character that the text begins
/// with and how much of the text stands for it, or `None` where the text
/// cannot go on.
pub open spec fn read_all(t: Seq<char>, decode: spec_fn(Seq<char>) -> Option<(char, nat)>)
    -> Option<Seq<char>>
    decreases t.len(),
{
    if t.len() == 0 {
        Some(Seq::empty())
    } else {
        match decode(t) {
            Some((c, n)) => if 0 < n <= t.len() {
                match read_all(t.skip(n as int), decode) {
                    Some(rest) => Some(seq![c] + rest),
                    None => None,
                }
            } else {
                None
            },
            None => None,
        }
    }
}

/// Every image is read back as its character, whatever follows it.
pub open spec fn decodes(
    image: spec_fn(char) -> Seq<char>,
    decode: spec_fn(Seq<char>) -> Option<(char, nat)>,
) -> bool {
    forall|c: char, rest: Seq<char>|
        #![trigger decode(image(c) + rest)]
        image(c).len() > 0 && decode(image(c) + rest) == Some((c, image(c).len()))
}

/// Expanding a text with one more character appends the image of that
/// character.
pub proof fn lemma_expand_push(s: Seq<char>, c: char, image: spec_fn(char) -> Seq<char>)
    ensures
        expand(s.push(c), image) == expand(s, image) + image(c),
{
    assert(s.push(c).drop_last() == s);
}

/// An expanded text begins with the image of its first character.
pub proof fn lemma_expand_front(s: Seq<char>, image: spec_fn(char) -> Seq<char>)
    requires
        s.len() > 0,
    ensures
        expand(s, image) == image(s[0]) + expand(s.drop_first(), image),
    decreases s.len(),
{
    if s.len() == 1 {
        assert(s.drop_last() =~= Seq::<char>::empty());
        assert(s.drop_first() =~= Seq::<char>::empty());
        assert(expand(s.drop_last(), image) =~= Seq::<char>::empty());
        assert(expand(s, image) =~= image(s[0]));
        assert(image(s[0]) + expand(s.drop_first(), image) =~= image(s[0]));
    } else {
        lemma_expand_front(s.drop_last(), image);
        assert(s.drop_last().drop_first() == s.drop_first().drop_last());
        assert(s.drop_first().last() == s.last());
        assert(s.drop_last()[0] == s[0]);
        assert(expand(s, image) =~= image(s[0]) + expand(s.drop_first(), image));
    }
}

/// The law of a dialect: the reader undoes the writer.
pub proof fn lemma_read_expand(
    s: Seq<char>,
    image: spec_fn(char) -> Seq<char>,
    decode: spec_fn(Seq<char>) -> Option<(char, nat)>,
)
    requires
        decodes(image, decode),
    ensures
        read_all(expand(s, image), decode) == Some(s),
    decreases s.len(),
{
    if s.len() == 0 {
        assert(s =~= Seq::<char>::empty());
    } else {
        let head = image(s[0]);
        let tail = expand(s.drop_first(), image);
        lemma_expand_front(s, image);
        lemma_read_expand(s.drop_first(), image, decode);
        assert(decode(head + tail) == Some((s[0], head.len())));
        assert((head + tail).skip(head.len() as int) =~= tail);
        assert(seq![s[0]] + s.drop_first() =~= s);
    }
}

/// How a character stands inside an AppleScript string literal.
pub open spec fn applescript_image(c: char) -> Seq<char> {
    if c == '\\' {
        seq!['\\', '\\']
    } else if c == '"' {
        seq!['\\', '"']
    } else if c == '\n' {
        seq!['\\', 'n']
    } else if c == '\r' {
        seq!['\\', 'r']
    } else {
        seq![c]
    }
}

/// How an AppleScript string literal goes on: a backslash takes the next
/// character with it; a bare quote ends the literal, and a bare line break
/// cannot stand in it.
pub open spec fn applescript_decode(t: Seq<char>) -> Option<(char, nat)> {
    if t.len() == 0 {
        None
    } else if t[0] == '\\' {
        if t.len() < 2 {
            None
        } else if t[1] == '\\' {
            Some(('\\', 2nat))
        } else if t[1] == '"' {
            Some(('"', 2nat))
        } else if t[1] == 'n' {
            Some(('\n', 2nat))
        } else if t[1] == 'r' {
            Some(('\r', 2nat))
        } else {
            None
        }
    } else if t[0] == '"' || t[0] == '\n' || t[0] == '\r' {
        None
    } else {
        Some((t[0], 1nat))
    }
}

/// `text` as it stands inside an AppleScript string literal.
pub open spec fn applescript_escaped(text: Seq<char>) -> Seq<char> {
    expand(text, |c: char| applescript_image(c))
}

/// What an AppleScript string literal with the body `body` denotes; `None`
/// where the body ends the literal early.
pub open spec fn applescript_read(body: Seq<char>) -> Option<Seq<char>> {
    read_all(body, |t: Seq<char>| applescript_decode(t))
}

/// Between the quotes of an AppleScript string literal, escaped text denotes
/// the text itself: nothing in it ends the literal.
pub proof fn lemma_applescript_round_trip(text: Seq<char>)
    ensures
        applescript_read(applescript_escaped(text)) == Some(text),
{
    let image = |c: char| applescript_image(c);
    let decode = |t: Seq<char>| applescript_decode(t);
    assert forall|c: char, rest: Seq<char>|
        #![trigger decode(image(c) + rest)]
        image(c).len() > 0 && decode(image(c) + rest) == Some((c, image(c).len())) by {
        let t = image(c) + rest;
        assert(t[0] == image(c)[0]);
        if image(c).len() == 2 {
            assert(t[1] == image(c)[1]);
        }
    }
    lemma_read_expand(text, image, decode);
}

/// How a character stands inside a double-quoted PowerShell string.
pub open spec fn powershell_image(c: char) -> Seq<char> {
    if c == '`' || c == '"' || c == '\'' || c == '$' {
        seq!['`', c]
    } else {
        seq![c]
    }
}

/// How a double-quoted PowerShell string goes on: a backtick takes the next
/// character with it; a bare quote ends the string, a bare dollar starts an
/// expansion.
pub open spec fn powershell_decode(t: Seq<char>) -> Option<(char, nat)> {
    if t.len() == 0 {
        None
    } else if t[0] == '`' {
        if t.len() < 2 {
            None
        } else if t[1] == '`' || t[1] == '"' || t[1] == '\'' || t[1] == '$' {
            Some((t[1], 2nat))
        } else {
            None
        }
    } else if t[0] == '"' || t[0] == '$' {
        None
    } else {
        Some((t[0], 1nat))
    }
}

/// `text` as it stands inside a double-quoted PowerShell string.
pub open spec fn powershell_escaped(text: Seq<char>) -> Seq<char> {
    expand(text, |c: char| powershell_image(c))
}

/// What a double-quoted PowerShell string with the body `body` denotes.
pub open spec fn powershell_read(body: Seq<char>) -> Option<Seq<char>> {
    read_all(body, |t: Seq<char>| powershell_decode(t))
}

/// Between the quotes of a double-quoted PowerShell string, escaped text
/// denotes the text itself.
pub proof fn lemma_powershell_round_trip(text: Seq<char>)
    ensures
        powershell_read(powershell_escaped(text)) == Some(text),
{
    let image = |c: char| powershell_image(c);
    let decode = |t: Seq<char>| powershell_decode(t);
    assert forall|c: char, rest: Seq<char>|
        #![trigger decode(image(c) + rest)]
        image(c).len() > 0 && decode(image(c) + rest) == Some((c, image(c).len())) by {
        let t = image(c) + rest;
        assert(t[0] == image(c)[0]);
        if image(c).len() == 2 {
            assert(t[1] == image(c)[1]);
        }
    }
    lemma_read_expand(text, image, decode);
}

/// How a character stands inside a single-quoted PowerShell string: a quote
/// is doubled.
pub open spec fn powershell_literal_image(c: char) -> Seq<char> {
    if c == '\'' {
        seq!['\'', '\'']
    } else {
        seq![c]
    }
}

/// How a single-quoted PowerShell string goes on: two quotes are one; a single
/// quote ends the string.
pub open spec fn powershell_literal_decode(t: Seq<char>) -> Option<(char, nat)> {
    if t.len() == 0 {
        None
    } else if t[0] == '\'' {
        if t.len() >= 2 && t[1] == '\'' {
            Some(('\'', 2nat))
        } else {
            None
        }
    } else {
        Some((t[0], 1nat))
    }
}

/// `text` as it stands inside a single-quoted PowerShell string.
pub open spec fn powershell_literal_escaped(text: Seq<char>) -> Seq<char> {
    expand(text, |c: char| powershell_literal_image(c))
}

/// What a single-quoted PowerShell string with the body `body` denotes.
pub open spec fn powershell_literal_read(body: Seq<char>) -> Option<Seq<char>> {
    read_all(body, |t: Seq<char>| powershell_literal_decode(t))
}

/// Between the quotes of a single-quoted PowerShell string, escaped text
/// denotes the text itself.
pub proof fn lemma_powershell_literal_round_trip(text: Seq<char>)
    ensures
        powershell_literal_read(powershell_literal_escaped(text)) == Some(text),
{
    let image = |c: char| powershell_literal_image(c);
    let decode = |t: Seq<char>| powershell_literal_decode(t);
    assert forall|c: char, rest: Seq<char>|
        #![trigger decode(image(c) + rest)]
        image(c).len() > 0 && decode(image(c) + rest) == Some((c, image(c).len())) by {
        let t = image(c) + rest;
        assert(t[0] == image(c)[0]);
        if image(c).len() == 2 {
            assert(t[1] == image(c)[1]);
        }
    }
    lemma_read_expand(text, image, decode);
}

/// `text` as one word of a PowerShell command: a single-quoted string.
pub open spec fn powershell_word(text: Seq<char>) -> Seq<char> {
    seq!['\''] + powershell_literal_escaped(text) + seq!['\'']
}

/// What PowerShell reads `t` as, if `t` is one single-quoted string: what
/// stands between its first and its last quote, with no single quote in
/// between that would end it.
pub open spec fn powershell_word_read(t: Seq<char>) -> Option<Seq<char>> {
    if t.len() >= 2 && t[0] == '\'' && t[t.len() - 1] == '\'' {
        powershell_literal_read(t.subrange(1, t.len() - 1))
    } else {
        None
    }
}

/// PowerShell reads a quoted word as one string, and the string is the text:
/// nothing in it ends the word, starts a command or expands.
pub proof fn lemma_powershell_word_round_trip(text: Seq<char>)
    ensures
        powershell_word_read(powershell_word(text)) == Some(text),
{
    lemma_powershell_literal_round_trip(text);
    let t = powershell_word(text);
    assert(t.subrange(1, t.len() - 1) =~= powershell_literal_escaped(text));
}

/// The characters that `cmd` reads as more than themselves.
pub open spec fn cmd_special(c: char) -> bool {
    c == '&' || c == '|' || c == '<' || c == '>' || c == '^' || c == '"' || c == '%' || c == '('
        || c == ')' || c == '!'
}

/// A line break cannot stand in a `cmd` command line: a space takes its place.
pub open spec fn cmd_plain(c: char) -> char {
    if c == '\n' || c == '\r' {
        ' '
    } else {
        c
    }
}

/// How a character stands in a `cmd` command line, outside quotes.
pub open spec fn cmd_image(c: char) -> Seq<char> {
    if cmd_special(c) {
        seq!['^', c]
    } else {
        seq![cmd_plain(c)]
    }
}

/// How a `cmd` command line goes on outside quotes: a caret takes the next
/// character with it; a bare special character or line break is an operator.
pub open spec fn cmd_decode(t: Seq<char>) -> Option<(char, nat)> {
    if t.len() == 0 {
        None
    } else if t[0] == '^' {
        if t.len() >= 2 && cmd_special(t[1]) {
            Some((t[1], 2nat))
        } else {
            None
        }
    } else if cmd_special(t[0]) || t[0] == '\n' || t[0] == '\r' {
        None
    } else {
        Some((t[0], 1nat))
    }
}

/// `text` as it stands in a `cmd` command line, outside quotes.
pub open spec fn cmd_escaped(text: Seq<char>) -> Seq<char> {
    expand(text, |c: char| cmd_image(c))
}

/// What a stretch of a `cmd` command line denotes as plain text; `None` where
/// it holds an operator.
pub open spec fn cmd_read(line: Seq<char>) -> Option<Seq<char>> {
    read_all(line, |t: Seq<char>| cmd_decode(t))
}

/// `text` with a space for each line break.
pub open spec fn cmd_flattened(text: Seq<char>) -> Seq<char> {
    Seq::new(text.len(), |i: int| cmd_plain(text[i]))
}

/// For `cmd`, a text is escaped as the text with a space for each line
/// break is.
pub proof fn lemma_cmd_flattened(text: Seq<char>)
    ensures
        cmd_escaped(text) == cmd_escaped(cmd_flattened(text)),
    decreases text.len(),
{
    let image = |c: char| cmd_image(c);
    if text.len() > 0 {
        lemma_cmd_flattened(text.drop_last());
        assert(cmd_flattened(text).drop_last() =~= cmd_flattened(text.drop_last()));
        assert(cmd_image(text.last()) == cmd_image(cmd_plain(text.last())));
    } else {
        assert(cmd_flattened(text) =~= text);
    }
}

/// In a `cmd` command line, escaped text denotes the text itself, with a space
/// for each line break: nothing in it is an operator.
pub proof fn lemma_cmd_round_trip(text: Seq<char>)
    ensures
        cmd_read(cmd_escaped(text)) == Some(cmd_flattened(text)),
{
    let image = |c: char| cmd_image(c);
    let decode = |t: Seq<char>| cmd_decode(t);
    let flat = cmd_flattened(text);
    lemma_cmd_flattened(text);
    assert forall|i: int| 0 <= i < flat.len() implies flat[i] != '\n' && flat[i] != '\r' by {}
    lemma_cmd_round_trip_flat(flat);
}

proof fn lemma_cmd_round_trip_flat(text: Seq<char>)
    requires
        forall|i: int| 0 <= i < text.len() ==> text[i] != '\n' && text[i] != '\r',
    ensures
        cmd_read(cmd_escaped(text)) == Some(text),
    decreases text.len(),
{
    let image = |c: char| cmd_image(c);
    let decode = |t: Seq<char>| cmd_decode(t);
    if text.len() == 0 {
        assert(text =~= Seq::<char>::empty());
    } else {
        let head = image(text[0]);
        let tail = expand(text.drop_first(), image);
        lemma_expand_front(text, image);
        lemma_cmd_round_trip_flat(text.drop_first());
        let t = head + tail;
        assert(t[0] == head[0]);
        if head.len() == 2 {
            assert(t[1] == head[1]);
        }
        assert(decode(t) == Some((text[0], head.len())));
        assert(t.skip(head.len() as int) =~= tail);
        assert(seq![text[0]] + text.drop_first() =~= text);
    }
}

/// Whether the backslashes that `s` begins with, if any, are followed by a
/// double quote or by the end of `s`.
pub open spec fn before_quote(s: Seq<char>) -> bool
    decreases s.len(),
{
    if s.len() == 0 {
        true
    } else if s[0] == '"' {
        true
    } else if s[0] == '\\' {
        before_quote(s.skip(1))
    } else {
        false
    }
}

/// `s` as it stands between the double quotes of an argument on the command
/// line of a Windows program: a quote gets a backslash, and so does each
/// backslash of a run that a quote follows, the closing one too.
pub open spec fn argv_body(s: Seq<char>) -> Seq<char>
    decreases s.len(),
{
    if s.len() == 0 {
        Seq::empty()
    } else if s[0] == '"' {
        seq!['\\', '"'] + argv_body(s.skip(1))
    } else if s[0] == '\\' && before_quote(s.skip(1)) {
        seq!['\\', '\\'] + argv_body(s.skip(1))
    } else {
        seq![s[0]] + argv_body(s.skip(1))
    }
}

/// The characters that end an argument on a command line.
pub open spec fn argv_blank(c: char) -> bool {
    c == ' ' || c == '\t' || c == '\n' || c == '\r'
}

/// `s` is an argument as it stands: not empty, with no blank and no quote.
pub open spec fn argv_plain(s: Seq<char>) -> bool {
    s.len() > 0 && forall|i: int| 0 <= i < s.len() ==> !argv_blank(#[trigger] s[i]) && s[i] != '"'
}

/// `text` as one argument on the command line of a Windows program: itself
/// where it is plain, else between double quotes.
pub open spec fn argv_quoted(text: Seq<char>) -> Seq<char> {
    if argv_plain(text) {
        text
    } else {
        seq!['"'] + argv_body(text) + seq!['"']
    }
}

/// Whether the backslashes that `t` begins with, if any, are followed by a
/// double quote.
pub open spec fn quote_follows(t: Seq<char>) -> bool
    decreases t.len(),
{
    if t.len() == 0 {
        false
    } else if t[0] == '"' {
        true
    } else if t[0] == '\\' {
        quote_follows(t.skip(1))
    } else {
        false
    }
}

/// What a Windows program reads after the quote that opens an argument, if
/// `t` is the rest of that argument: in a run of backslashes that a quote
/// follows, two backslashes are one and a backslash with the quote is the
/// quote; any other character is itself; a bare quote closes, and nothing may
/// follow it.
pub open spec fn argv_read_quoted(t: Seq<char>) -> Option<Seq<char>>
    decreases t.len(),
{
    if t.len() == 0 {
        None
    } else if t[0] == '"' {
        if t.len() == 1 {
            Some(Seq::empty())
        } else {
            None
        }
    } else if t[0] == '\\' && quote_follows(t) {
        if t.len() < 2 {
            None
        } else {
            match argv_read_quoted(t.skip(2)) {
                Some(rest) => Some(seq![t[1]] + rest),
                None => None,
            }
        }
    } else {
        match argv_read_quoted(t.skip(1)) {
            Some(rest) => Some(seq![t[0]] + rest),
            None => None,
        }
    }
}

/// What a Windows program reads `t` as, if `t` is one argument of its command
/// line: a plain argument is itself, a quoted one is what its quotes hold.
pub open spec fn argv_read(t: Seq<char>) -> Option<Seq<char>> {
    if t.len() > 0 && t[0] == '"' {
        argv_read_quoted(t.skip(1))
    } else if argv_plain(t) {
        Some(t)
    } else {
        None
    }
}

proof fn lemma_quote_follows_body(s: Seq<char>)
    ensures
        quote_follows(argv_body(s) + seq!['"']) == before_quote(s),
    decreases s.len(),
{
    let t = argv_body(s) + seq!['"'];
    if s.len() == 0 {
        assert(t[0] == '"');
    } else {
        let rest = argv_body(s.skip(1)) + seq!['"'];
        lemma_quote_follows_body(s.skip(1));
        if s[0] == '"' {
            assert(t =~= seq!['\\', '"'] + rest);
            assert(t[0] == '\\');
            assert(t.skip(1)[0] == '"');
            assert(quote_follows(t.skip(1)));
        } else if s[0] == '\\' && before_quote(s.skip(1)) {
            assert(t =~= seq!['\\', '\\'] + rest);
            assert(t[0] == '\\');
            assert(t.skip(1)[0] == '\\');
            assert(t.skip(1).skip(1) =~= rest);
            assert(quote_follows(t.skip(1)) == quote_follows(rest));
        } else {
            assert(t =~= seq![s[0]] + rest);
            assert(t[0] == s[0]);
            assert(t.skip(1) =~= rest);
            if s[0] == '\\' {
                assert(quote_follows(t) == quote_follows(rest));
            }
        }
    }
}

proof fn lemma_argv_read_body(s: Seq<char>)
    ensures
        argv_read_quoted(argv_body(s) + seq!['"']) == Some(s),
    decreases s.len(),
{
    let t = argv_body(s) + seq!['"'];
    if s.len() == 0 {
        assert(t =~= seq!['"']);
        assert(s =~= Seq::<char>::empty());
    } else {
        let rest = argv_body(s.skip(1)) + seq!['"'];
        lemma_argv_read_body(s.skip(1));
        lemma_quote_follows_body(s);
        lemma_quote_follows_body(s.skip(1));
        assert(seq![s[0]] + s.skip(1) =~= s);
        if s[0] == '"' {
            assert(t =~= seq!['\\', '"'] + rest);
            assert(t[0] == '\\' && t[1] == '"');
            assert(t.skip(2) =~= rest);
        } else if s[0] == '\\' && before_quote(s.skip(1)) {
            assert(t =~= seq!['\\', '\\'] + rest);
            assert(t[0] == '\\' && t[1] == '\\');
            assert(t.skip(2) =~= rest);
        } else {
            assert(t =~= seq![s[0]] + rest);
            assert(t[0] == s[0]);
            assert(t.skip(1) =~= rest);
        }
    }
}

/// A Windows program reads a quoted argument as one argument, and the
/// argument is the text: nothing in it ends the argument.
pub proof fn lemma_argv_round_trip(text: Seq<char>)
    ensures
        argv_read(argv_quoted(text)) == Some(text),
{
    if !argv_plain(text) {
        let t = argv_quoted(text);
        lemma_argv_read_body(text);
        assert(t[0] == '"');
        assert(t.skip(1) =~= argv_body(text) + seq!['"']);
    } else {
        assert(text[0] != '"');
    }
}

proof fn lemma_argv_body_flattened(s: Seq<char>)
    ensures
        before_quote(cmd_flattened(s)) == before_quote(s),
        argv_body(cmd_flattened(s)) == cmd_flattened(argv_body(s)),
    decreases s.len(),
{
    let flat = cmd_flattened(s);
    if s.len() == 0 {
        assert(cmd_flattened(argv_body(s)) =~= Seq::<char>::empty());
    } else {
        lemma_argv_body_flattened(s.skip(1));
        assert(flat.skip(1) =~= cmd_flattened(s.skip(1)));
        assert(flat[0] == cmd_plain(s[0]));
        let rest = argv_body(s.skip(1));
        if s[0] == '"' {
            assert(cmd_flattened(seq!['\\', '"'] + rest) =~= seq!['\\', '"'] + cmd_flattened(rest));
        } else if s[0] == '\\' && before_quote(s.skip(1)) {
            assert(cmd_flattened(seq!['\\', '\\'] + rest) =~= seq!['\\', '\\'] + cmd_flattened(
                rest,
            ));
        } else {
            assert(cmd_flattened(seq![s[0]] + rest) =~= seq![cmd_plain(s[0])] + cmd_flattened(rest));
        }
    }
}

/// `text` as one word of a `cmd` command line that starts a program: quoted
/// as an argument of the program, then escaped for `cmd`.
pub open spec fn cmd_word(text: Seq<char>) -> Seq<char> {
    cmd_escaped(argv_quoted(text))
}

/// What the program that `cmd` starts reads the word `t` as: `cmd` reads the
/// word as plain text, and the program reads that text as one argument.
pub open spec fn cmd_word_read(t: Seq<char>) -> Option<Seq<char>> {
    match cmd_read(t) {
        Some(plain) => argv_read(plain),
        None => None,
    }
}

/// A word escaped for `cmd` holds no operator of `cmd`, and the program reads
/// it as one argument: the text, with a space for each line break.
pub proof fn lemma_cmd_word_round_trip(text: Seq<char>)
    ensures
        cmd_word_read(cmd_word(text)) == Some(cmd_flattened(text)),
{
    let flat = cmd_flattened(text);
    lemma_cmd_round_trip(argv_quoted(text));
    lemma_argv_round_trip(flat);
    if argv_plain(text) {
        assert(flat =~= text);
    } else {
        lemma_argv_body_flattened(text);
        assert(cmd_flattened(argv_quoted(text)) =~= seq!['"'] + cmd_flattened(argv_body(text))
            + seq!['"']);
        if argv_plain(flat) {
            assert(text.len() > 0);
            assert forall|i: int| 0 <= i < text.len() implies !argv_blank(#[trigger] text[i])
                && text[i] != '"' by {
                assert(flat[i] == cmd_plain(text[i]));
                assert(!argv_blank(flat[i]) && flat[i] != '"');
            }
        }
    }
}

/// The characters that a POSIX shell reads as themselves in a word.
pub open spec fn shell_safe(c: char) -> bool {
    ('a' <= c && c <= 'z') || ('A' <= c && c <= 'Z') || ('0' <= c && c <= '9') || c == '_' || c
        == '@' || c == '%' || c == '+' || c == '=' || c == ':' || c == ',' || c == '.' || c == '/'
        || c == '-'
}

/// Every character of `s` is safe, and there is at least one.
pub open spec fn shell_plain(s: Seq<char>) -> bool {
    s.len() > 0 && forall|i: int| 0 <= i < s.len() ==> shell_safe(#[trigger] s[i])
}

/// How a character stands between single quotes in a shell word: a quote
/// closes the quotes, stands escaped, and opens them again.
pub open spec fn shell_image(c: char) -> Seq<char> {
    if c == '\'' {
        seq!['\'', '\\', '\'', '\'']
    } else {
        seq![c]
    }
}

/// `text` as one word of a POSIX shell: itself where all of it is safe, else
/// between single quotes.
pub open spec fn shell_quoted(text: Seq<char>) -> Seq<char> {
    if shell_plain(text) {
        text
    } else {
        seq!['\''] + expand(text, |c: char| shell_image(c)) + seq!['\'']
    }
}

/// What a POSIX shell reads `t` as, if `t` is one word: outside quotes a safe
/// character is itself, a backslash takes the next character, a quote opens;
/// inside quotes every character is itself until the quote that closes. A
/// word that is cut short, or holds another unquoted character, is `None`.
pub open spec fn shell_read(t: Seq<char>, quoted: bool) -> Option<Seq<char>>
    decreases t.len(),
{
    if t.len() == 0 {
        if quoted {
            None
        } else {
            Some(Seq::empty())
        }
    } else if quoted {
        if t[0] == '\'' {
            shell_read(t.skip(1), false)
        } else {
            match shell_read(t.skip(1), true) {
                Some(rest) => Some(seq![t[0]] + rest),
                None => None,
            }
        }
    } else if t[0] == '\'' {
        shell_read(t.skip(1), true)
    } else if t[0] == '\\' {
        if t.len() < 2 {
            None
        } else {
            match shell_read(t.skip(2), false) {
                Some(rest) => Some(seq![t[1]] + rest),
                None => None,
            }
        }
    } else if shell_safe(t[0]) {
        match shell_read(t.skip(1), false) {
            Some(rest) => Some(seq![t[0]] + rest),
            None => None,
        }
    } else {
        None
    }
}

proof fn lemma_shell_read_plain(s: Seq<char>)
    requires
        forall|i: int| 0 <= i < s.len() ==> shell_safe(#[trigger] s[i]),
    ensures
        shell_read(s, false) == Some(s),
    decreases s.len(),
{
    if s.len() == 0 {
        assert(s =~= Seq::<char>::empty());
    } else {
        assert(shell_safe(s[0]));
        assert forall|i: int| 0 <= i < s.skip(1).len() implies shell_safe(
            #[trigger] s.skip(1)[i],
        ) by {
            assert(s.skip(1)[i] == s[i + 1]);
        }
        lemma_shell_read_plain(s.skip(1));
        assert(seq![s[0]] + s.skip(1) =~= s);
    }
}

proof fn lemma_shell_read_body(s: Seq<char>)
    ensures
        shell_read(expand(s, |c: char| shell_image(c)) + seq!['\''], true) == Some(s),
    decreases s.len(),
{
    let image = |c: char| shell_image(c);
    if s.len() == 0 {
        let t = expand(s, image) + seq!['\''];
        assert(t =~= seq!['\'']);
        assert(t.skip(1) =~= Seq::<char>::empty());
        assert(shell_read(t.skip(1), false) == Some(Seq::<char>::empty()));
        assert(s =~= Seq::<char>::empty());
    } else {
        let rest = expand(s.drop_first(), image) + seq!['\''];
        lemma_expand_front(s, image);
        lemma_shell_read_body(s.drop_first());
        let t = expand(s, image) + seq!['\''];
        assert(t =~= image(s[0]) + rest);
        if s[0] == '\'' {
            let t1 = t.skip(1);
            assert(t1 =~= seq!['\\', '\'', '\''] + rest);
            assert(t[0] == '\'');
            assert(shell_read(t, true) == shell_read(t1, false));
            assert(t1[0] == '\\' && t1[1] == '\'');
            let t3 = t1.skip(2);
            assert(t3 =~= seq!['\''] + rest);
            assert(t3[0] == '\'');
            assert(t3.skip(1) =~= rest);
            assert(shell_read(t3, false) == shell_read(rest, true));
            assert(shell_read(t1, false) == Some(seq!['\''] + s.drop_first()));
            assert(seq!['\''] + s.drop_first() =~= s);
        } else {
            assert(t[0] == s[0]);
            assert(t.skip(1) =~= rest);
            assert(seq![s[0]] + s.drop_first() =~= s);
        }
    }
}

/// A POSIX shell reads quoted text as one word, and the word is the text:
/// nothing in it ends the word or starts a command.
pub proof fn lemma_shell_round_trip(text: Seq<char>)
    ensures
        shell_read(shell_quoted(text), false) == Some(text),
{
    if shell_plain(text) {
        lemma_shell_read_plain(text);
    } else {
        let body = expand(text, |c: char| shell_image(c));
        let t = shell_quoted(text);
        lemma_shell_read_body(text);
        assert(t[0] == '\'');
        assert(t.skip(1) =~= body + seq!['\'']);
    }
}

/// `text` for an AppleScript string literal.
pub fn escape_applescript(text: &str) -> (r: String)
    ensures
        r@ == applescript_escaped(text@),
{
    let v = to_chars(text);
    let mut r = String::new();
    let mut i: usize = 0;
    while i < v.len()
        invariant
            i <= v.len(),
            v@ == text@,
            r@ == applescript_escaped(v@.take(i as int)),
        decreases v.len() - i,
    {
        let c = v[i];
        proof {
            lemma_expand_push(v@.take(i as int), c, |c: char| applescript_image(c));
            assert(v@.take(i as int).push(c) == v@.take(i + 1));
        }
        if c == '\\' {
            r.push('\\');
            r.push('\\');
            assert(r@ =~= applescript_escaped(v@.take(i as int)) + seq!['\\', '\\']);
        } else if c == '"' {
            r.push('\\');
            r.push('"');
            assert(r@ =~= applescript_escaped(v@.take(i as int)) + seq!['\\', '"']);
        } else if c == '\n' {
            r.push('\\');
            r.push('n');
            assert(r@ =~= applescript_escaped(v@.take(i as int)) + seq!['\\', 'n']);
        } else if c == '\r' {
            r.push('\\');
            r.push('r');
            assert(r@ =~= applescript_escaped(v@.take(i as int)) + seq!['\\', 'r']);
        } else {
            r.push(c);
            assert(r@ =~= applescript_escaped(v@.take(i as int)) + seq![c]);
        }
        i += 1;
    }
    assert(v@.take(v.len() as int) == v@);
    r
}

/// `text` for a double-quoted PowerShell string.
pub fn escape_powershell(text: &str) -> (r: String)
    ensures
        r@ == powershell_escaped(text@),
{
    let v = to_chars(text);
    let mut r = String::new();
    let mut i: usize = 0;
    while i < v.len()
        invariant
            i <= v.len(),
            v@ == text@,
            r@ == powershell_escaped(v@.take(i as int)),
        decreases v.len() - i,
    {
        let c = v[i];
        proof {
            lemma_expand_push(v@.take(i as int), c, |c: char| powershell_image(c));
            assert(v@.take(i as int).push(c) == v@.take(i + 1));
        }
        if c == '`' || c == '"' || c == '\'' || c == '$' {
            r.push('`');
            r.push(c);
            assert(r@ =~= powershell_escaped(v@.take(i as int)) + seq!['`', c]);
        } else {
            r.push(c);
            assert(r@ =~= powershell_escaped(v@.take(i as int)) + seq![c]);
        }
        i += 1;
    }
    assert(v@.take(v.len() as int) == v@);
    r
}

/// `text` for a single-quoted PowerShell string.
pub fn escape_powershell_literal(text: &str) -> (r: String)
    ensures
        r@ == powershell_literal_escaped(text@),
{
    let v = to_chars(text);
    let mut r = String::new();
    let mut i: usize = 0;
    while i < v.len()
        invariant
            i <= v.len(),
            v@ == text@,
            r@ == powershell_literal_escaped(v@.take(i as int)),
        decreases v.len() - i,
    {
        let c = v[i];
        proof {
            lemma_expand_push(v@.take(i as int), c, |c: char| powershell_literal_image(c));
            assert(v@.take(i as int).push(c) == v@.take(i + 1));
        }
        if c == '\'' {
            r.push('\'');
            r.push('\'');
            assert(r@ =~= powershell_literal_escaped(v@.take(i as int)) + seq!['\'', '\'']);
        } else {
            r.push(c);
            assert(r@ =~= powershell_literal_escaped(v@.take(i as int)) + seq![c]);
        }
        i += 1;
    }
    assert(v@.take(v.len() as int) == v@);
    r
}

/// `text` as one word of a PowerShell command.
pub fn quote_powershell_word(text: &str) -> (r: String)
    ensures
        r@ == powershell_word(text@),
{
    let body = escape_powershell_literal(text);
    let mut r = String::new();
    r.push('\'');
    r.append(body.as_str());
    r.push('\'');
    assert(r@ =~= powershell_word(text@));
    r
}

fn is_cmd_special(c: char) -> (r: bool)
    ensures
        r == cmd_special(c),
{
    c == '&' || c == '|' || c == '<' || c == '>' || c == '^' || c == '"' || c == '%' || c == '('
        || c == ')' || c == '!'
}

/// `text` for a `cmd` command line, outside quotes.
pub fn escape_cmd(text: &str) -> (r: String)
    ensures
        r@ == cmd_escaped(text@),
{
    let v = to_chars(text);
    let mut r = String::new();
    let mut i: usize = 0;
    while i < v.len()
        invariant
            i <= v.len(),
            v@ == text@,
            r@ == cmd_escaped(v@.take(i as int)),
        decreases v.len() - i,
    {
        let c = v[i];
        proof {
            lemma_expand_push(v@.take(i as int), c, |c: char| cmd_image(c));
            assert(v@.take(i as int).push(c) == v@.take(i + 1));
        }
        if is_cmd_special(c) {
            r.push('^');
            r.push(c);
            assert(r@ =~= cmd_escaped(v@.take(i as int)) + seq!['^', c]);
        } else if c == '\n' || c == '\r' {
            r.push(' ');
            assert(r@ =~= cmd_escaped(v@.take(i as int)) + seq![' ']);
        } else {
            r.push(c);
            assert(r@ =~= cmd_escaped(v@.take(i as int)) + seq![c]);
        }
        i += 1;
    }
    assert(v@.take(v.len() as int) == v@);
    r
}

fn is_argv_plain(v: &Vec<char>) -> (r: bool)
    ensures
        r == argv_plain(v@),
{
    let mut plain = v.len() > 0;
    let mut k: usize = 0;
    while k < v.len()
        invariant
            k <= v.len(),
            plain == (v.len() > 0 && forall|j: int|
                0 <= j < k ==> !argv_blank(#[trigger] v@[j]) && v@[j] != '"'),
        decreases v.len() - k,
    {
        let c = v[k];
        if c == ' ' || c == '\t' || c == '\n' || c == '\r' || c == '"' {
            plain = false;
        }
        k += 1;
    }
    plain
}

/// For each position, whether what stands after it begins with backslashes
/// that a quote or the end follows.
fn quote_ahead(v: &Vec<char>) -> (r: Vec<bool>)
    ensures
        r@.len() == v@.len(),
        forall|k: int| 0 <= k < v@.len() ==> r@[k] == before_quote(v@.skip(k + 1)),
{
    let n = v.len();
    let mut r: Vec<bool> = Vec::new();
    let mut j: usize = 0;
    while j < n
        invariant
            j <= n,
            r@.len() == j,
        decreases n - j,
    {
        r.push(true);
        j += 1;
    }
    let mut i: usize = n;
    while i > 0
        invariant
            i <= n,
            n == v@.len(),
            r@.len() == n,
            forall|k: int| i <= k < n ==> r@[k] == before_quote(v@.skip(k + 1)),
        decreases i,
    {
        i -= 1;
        let ghost after = v@.skip(i + 1);
        let ahead = if i + 1 == n {
            true
        } else {
            assert(after[0] == v@[i + 1]);
            assert(after.skip(1) =~= v@.skip(i + 2));
            let c = v[i + 1];
            if c == '"' {
                true
            } else if c == '\\' {
                r[i + 1]
            } else {
                false
            }
        };
        assert(ahead == before_quote(after));
        r.set(i, ahead);
    }
    r
}

/// `text` as one argument on the command line of a Windows program.
pub fn quote_argv(text: &str) -> (r: String)
    ensures
        r@ == argv_quoted(text@),
{
    let v = to_chars(text);
    if is_argv_plain(&v) {
        return text.to_string();
    }
    let ahead = quote_ahead(&v);
    let mut r = String::new();
    r.push('"');
    let ghost mut body: Seq<char> = Seq::empty();
    assert(r@ =~= seq!['"'] + body);
    assert(v@.skip(0) =~= v@);
    let mut i: usize = 0;
    while i < v.len()
        invariant
            i <= v.len(),
            v@ == text@,
            ahead@.len() == v@.len(),
            forall|k: int| 0 <= k < v@.len() ==> ahead@[k] == before_quote(v@.skip(k + 1)),
            r@ == seq!['"'] + body,
            argv_body(v@) == body + argv_body(v@.skip(i as int)),
        decreases v.len() - i,
    {
        let c = v[i];
        let ghost here = v@.skip(i as int);
        let ghost rest = argv_body(v@.skip(i + 1));
        proof {
            assert(here[0] == c);
            assert(here.skip(1) =~= v@.skip(i + 1));
        }
        if c == '"' {
            r.push('\\');
            r.push('"');
            proof {
                assert(argv_body(here) == seq!['\\', '"'] + rest);
                assert(r@ =~= seq!['"'] + (body + seq!['\\', '"']));
                assert(body + (seq!['\\', '"'] + rest) =~= (body + seq!['\\', '"']) + rest);
                body = body + seq!['\\', '"'];
            }
        } else if c == '\\' && ahead[i] {
            r.push('\\');
            r.push('\\');
            proof {
                assert(argv_body(here) == seq!['\\', '\\'] + rest);
                assert(r@ =~= seq!['"'] + (body + seq!['\\', '\\']));
                assert(body + (seq!['\\', '\\'] + rest) =~= (body + seq!['\\', '\\']) + rest);
                body = body + seq!['\\', '\\'];
            }
        } else {
            r.push(c);
            proof {
                assert(argv_body(here) == seq![c] + rest);
                assert(r@ =~= seq!['"'] + (body + seq![c]));
                assert(body + (seq![c] + rest) =~= (body + seq![c]) + rest);
                body = body + seq![c];
            }
        }
        i += 1;
    }
    proof {
        assert(v@.skip(v@.len() as int) =~= Seq::<char>::empty());
        assert(body + Seq::<char>::empty() =~= body);
    }
    r.push('"');
    r
}

/// `text` as one word of a `cmd` command line that starts a program.
pub fn quote_cmd_word(text: &str) -> (r: String)
    ensures
        r@ == cmd_word(text@),
{
    let quoted = quote_argv(text);
    escape_cmd(quoted.as_str())
}

fn is_shell_safe(c: char) -> (r: bool)
    ensures
        r == shell_safe(c),
{
    ('a' <= c && c <= 'z') || ('A' <= c && c <= 'Z') || ('0' <= c && c <= '9') || c == '_' || c
        == '@' || c == '%' || c == '+' || c == '=' || c == ':' || c == ',' || c == '.' || c == '/'
        || c == '-'
}

/// `text` as one word of a POSIX shell.
pub fn shell_quote(text: &str) -> (r: String)
    ensures
        r@ == shell_quoted(text@),
{
    let v = to_chars(text);
    let mut plain = v.len() > 0;
    let mut k: usize = 0;
    while k < v.len()
        invariant
            k <= v.len(),
            plain == (v.len() > 0 && forall|j: int| 0 <= j < k ==> shell_safe(#[trigger] v@[j])),
        decreases v.len() - k,
    {
        if !is_shell_safe(v[k]) {
            plain = false;
        }
        k += 1;
    }
    if plain {
        return text.to_string();
    }
    let mut r = String::new();
    r.push('\'');
    assert(r@ =~= seq!['\''] + expand(v@.take(0), |c: char| shell_image(c)));
    let mut i: usize = 0;
    while i < v.len()
        invariant
            i <= v.len(),
            v@ == text@,
            r@ == seq!['\''] + expand(v@.take(i as int), |c: char| shell_image(c)),
        decreases v.len() - i,
    {
        let c = v[i];
        proof {
            lemma_expand_push(v@.take(i as int), c, |c: char| shell_image(c));
            assert(v@.take(i as int).push(c) == v@.take(i + 1));
        }
        let ghost before = expand(v@.take(i as int), |c: char| shell_image(c));
        if c == '\'' {
            r.push('\'');
            r.push('\\');
            r.push('\'');
            r.push('\'');
            assert(r@ =~= seq!['\''] + (before + seq!['\'', '\\', '\'', '\'']));
        } else {
            r.push(c);
            assert(r@ =~= seq!['\''] + (before + seq![c]));
        }
        i += 1;
    }
    assert(v@.take(v.len() as int) == v@);
    r.push('\'');
    r
}

} // verus!
