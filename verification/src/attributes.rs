use vstd::prelude::*;
use vstd::string::{StrSliceExecFns, StringExecFns};
use crate::text::same_text;
use crate::tokens::{
    lemma_open_groups_push, lemma_well_nested_concat, well_nested, Delimiter, ItemToken, Shape,
    Spacing, Span, Token,
};

verus! {

/// The attribute that is applied to an item.
#[derive(Debug, Clone, Copy, PartialEq, Eq, Hash, Structural)]
pub enum Attribute {
    /// Opens a zone named after the function each time the function runs.
    Instrument,
    /// Starts a capture, then opens the zone, each time the function runs.
    Capture,
}

/// Why an attribute cannot be applied, and where that is reported.
#[derive(Debug, Clone, Copy, PartialEq, Eq)]
pub struct Error {
    /// What is wrong.
    pub text: &'static str,
    /// Where the report starts.
    pub start: Span,
    /// Where the report ends.
    pub end: Span,
}

/// The texts of the tokens of `tokens`, as sequences of characters.
pub open spec fn shapes(tokens: Seq<Token>) -> Seq<Shape> {
    tokens.map_values(|token: Token| token@)
}

/// A punctuation character at the place where the attribute is applied.
pub open spec fn punct(ch: char, spacing: Spacing) -> Shape {
    Shape::Punct { ch, spacing, span: Span::CallSite }
}

/// A word at the place where the attribute is applied.
pub open spec fn word(name: &'static str) -> Shape {
    Shape::Ident { name: name@, span: Span::CallSite }
}

/// The statement that opens a zone called `name`, with the path of the
/// macro written from the root.
pub open spec fn zone_statement(name: Seq<char>) -> Seq<Shape> {
    Seq::empty()
        .push(punct(':', Spacing::Joint))
        .push(punct(':', Spacing::Alone))
        .push(word("tracy_gizmos"))
        .push(punct(':', Spacing::Joint))
        .push(punct(':', Spacing::Alone))
        .push(word("zone"))
        .push(punct('!', Spacing::Alone))
        .push(Shape::Open { delimiter: Delimiter::Parenthesis, span: Span::CallSite })
        .push(Shape::Literal { content: name, span: Span::CallSite })
        .push(Shape::Close)
        .push(punct(';', Spacing::Alone))
}

/// The statement that starts a capture and keeps it in a local variable
/// that the item cannot name, to the end of the body.
pub open spec fn capture_statement() -> Seq<Shape> {
    Seq::empty()
        .push(word("let"))
        .push(Shape::Ident { name: "_tracy"@, span: Span::MixedSite })
        .push(punct('=', Spacing::Alone))
        .push(punct(':', Spacing::Joint))
        .push(punct(':', Spacing::Alone))
        .push(word("tracy_gizmos"))
        .push(punct(':', Spacing::Joint))
        .push(punct(':', Spacing::Alone))
        .push(word("start_capture"))
        .push(Shape::Open { delimiter: Delimiter::Parenthesis, span: Span::CallSite })
        .push(Shape::Close)
        .push(punct(';', Spacing::Alone))
}

/// The call of the compile error macro with `text`, reported from
/// `start` to `end`.
pub open spec fn error_report(text: Seq<char>, start: Span, end: Span) -> Seq<Shape> {
    Seq::empty()
        .push(Shape::Punct { ch: ':', spacing: Spacing::Joint, span: start })
        .push(Shape::Punct { ch: ':', spacing: Spacing::Alone, span: start })
        .push(Shape::Ident { name: "core"@, span: start })
        .push(Shape::Punct { ch: ':', spacing: Spacing::Joint, span: start })
        .push(Shape::Punct { ch: ':', spacing: Spacing::Alone, span: start })
        .push(Shape::Ident { name: "compile_error"@, span: start })
        .push(Shape::Punct { ch: '!', spacing: Spacing::Alone, span: start })
        .push(Shape::Open { delimiter: Delimiter::Brace, span: end })
        .push(Shape::Literal { content: text, span: end })
        .push(Shape::Close)
}

/// The statements and the report of an error are whole token trees, and so
/// is the capture statement with a zone statement after it.
pub proof fn lemma_statements_are_well_nested(
    name: Seq<char>,
    text: Seq<char>,
    start: Span,
    end: Span,
)
    ensures
        well_nested(zone_statement(name)),
        well_nested(capture_statement()),
        well_nested(capture_statement() + zone_statement(name)),
        well_nested(error_report(text, start, end)),
{
    broadcast use lemma_open_groups_push;

    assert(well_nested(error_report(text, start, end)));
    assert(well_nested(zone_statement(name)));
    assert(well_nested(capture_statement()));
    lemma_well_nested_concat(capture_statement(), zone_statement(name));
}

fn call_site_punct(ch: char, spacing: Spacing) -> (token: Token)
    ensures
        token@ == punct(ch, spacing),
{
    Token::Punct { ch, spacing, span: Span::CallSite }
}

fn call_site_word(name: &'static str) -> (token: Token)
    ensures
        token@ == word(name),
{
    Token::Ident { name, span: Span::CallSite }
}

/// Makes the statement that opens a zone called `name`.
pub fn make_zone(name: &str) -> (tokens: Vec<Token>)
    ensures
        shapes(tokens@) == zone_statement(name@),
        well_nested(shapes(tokens@)),
{
    proof {
        lemma_statements_are_well_nested(name@, Seq::empty(), Span::CallSite, Span::CallSite);
    }
    let mut tokens: Vec<Token> = Vec::with_capacity(11);
    tokens.push(call_site_punct(':', Spacing::Joint));
    tokens.push(call_site_punct(':', Spacing::Alone));
    tokens.push(call_site_word("tracy_gizmos"));
    tokens.push(call_site_punct(':', Spacing::Joint));
    tokens.push(call_site_punct(':', Spacing::Alone));
    tokens.push(call_site_word("zone"));
    tokens.push(call_site_punct('!', Spacing::Alone));
    tokens.push(Token::Open { delimiter: Delimiter::Parenthesis, span: Span::CallSite });
    tokens.push(Token::Literal { content: String::from_str(name), span: Span::CallSite });
    tokens.push(Token::Close);
    tokens.push(call_site_punct(';', Spacing::Alone));
    assert(shapes(tokens@) =~= zone_statement(name@));
    tokens
}

/// Makes the statement that starts a capture.
pub fn make_start_capture() -> (tokens: Vec<Token>)
    ensures
        shapes(tokens@) == capture_statement(),
        well_nested(shapes(tokens@)),
{
    proof {
        lemma_statements_are_well_nested(Seq::empty(), Seq::empty(), Span::CallSite, Span::CallSite);
    }
    let mut tokens: Vec<Token> = Vec::with_capacity(12);
    tokens.push(call_site_word("let"));
    tokens.push(Token::Ident { name: "_tracy", span: Span::MixedSite });
    tokens.push(call_site_punct('=', Spacing::Alone));
    tokens.push(call_site_punct(':', Spacing::Joint));
    tokens.push(call_site_punct(':', Spacing::Alone));
    tokens.push(call_site_word("tracy_gizmos"));
    tokens.push(call_site_punct(':', Spacing::Joint));
    tokens.push(call_site_punct(':', Spacing::Alone));
    tokens.push(call_site_word("start_capture"));
    tokens.push(Token::Open { delimiter: Delimiter::Parenthesis, span: Span::CallSite });
    tokens.push(Token::Close);
    tokens.push(call_site_punct(';', Spacing::Alone));
    assert(shapes(tokens@) =~= capture_statement());
    tokens
}

impl Error {
    /// An error that is reported at one token.
    pub fn new(text: &'static str, s: Span) -> (error: Error)
        ensures
            error == (Error { text, start: s, end: s }),
    {
        Error { text, start: s, end: s }
    }

    /// The tokens that make the compiler report the error.
    pub fn to_compile_error(&self) -> (tokens: Vec<Token>)
        ensures
            shapes(tokens@) == error_report(self.text@, self.start, self.end),
            well_nested(shapes(tokens@)),
    {
        proof {
            lemma_statements_are_well_nested(Seq::empty(), self.text@, self.start, self.end);
        }
        let mut tokens: Vec<Token> = Vec::with_capacity(10);
        tokens.push(Token::Punct { ch: ':', spacing: Spacing::Joint, span: self.start });
        tokens.push(Token::Punct { ch: ':', spacing: Spacing::Alone, span: self.start });
        tokens.push(Token::Ident { name: "core", span: self.start });
        tokens.push(Token::Punct { ch: ':', spacing: Spacing::Joint, span: self.start });
        tokens.push(Token::Punct { ch: ':', spacing: Spacing::Alone, span: self.start });
        tokens.push(Token::Ident { name: "compile_error", span: self.start });
        tokens.push(Token::Punct { ch: '!', spacing: Spacing::Alone, span: self.start });
        tokens.push(Token::Open { delimiter: Delimiter::Brace, span: self.end });
        tokens.push(Token::Literal { content: String::from_str(self.text), span: self.end });
        tokens.push(Token::Close);
        assert(shapes(tokens@) =~= error_report(self.text@, self.start, self.end));
        tokens
    }
}

/// The content of a string literal as it is written: what stands between
/// its first character, a double quote, and its last one. `None` for a
/// text that is shorter than two characters or starts otherwise.
pub open spec fn unquoted(written: Seq<char>) -> Option<Seq<char>> {
    if written.len() >= 2 && written[0] == '"' {
        Some(written.subrange(1, written.len() - 1))
    } else {
        None
    }
}

/// Reads the content of a string literal as it is written.
pub fn try_parse_str_literal(s: &str) -> (content: Option<&str>)
    ensures
        match unquoted(s@) {
            Some(text) => content matches Some(found) && found@ == text,
            None => content is None,
        },
{
    let n = s.unicode_len();
    if n >= 2 && s.get_char(0) == '"' {
        Some(s.substring_char(1, n - 1))
    } else {
        None
    }
}

/// The name without the mark of a raw name, `r#`, where it starts with one.
pub open spec fn plain_name(name: Seq<char>) -> Seq<char> {
    if name.len() >= 2 && name[0] == 'r' && name[1] == '#' {
        name.skip(2)
    } else {
        name
    }
}

fn strip_raw_mark(name: &str) -> (plain: &str)
    ensures
        plain@ == plain_name(name@),
{
    let n = name.unicode_len();
    if n >= 2 && name.get_char(0) == 'r' && name.get_char(1) == '#' {
        name.substring_char(2, n)
    } else {
        name
    }
}

/// The prefix that an attribute gives to the name of the zone: the content
/// of its first token where that is a string literal.
pub open spec fn prefix_of(attr: Seq<ItemToken>) -> Option<Seq<char>> {
    if attr.len() > 0 {
        match attr[0] {
            ItemToken::Literal(written) => unquoted(written@),
            _ => None,
        }
    } else {
        None
    }
}

/// The name of the zone of a function called `ident`: the plain name,
/// after the prefix and two colons where there is a prefix.
pub open spec fn zone_name(prefix: Option<Seq<char>>, ident: Seq<char>) -> Seq<char> {
    match prefix {
        Some(prefix) => prefix + "::"@ + plain_name(ident),
        None => plain_name(ident),
    }
}

/// The token is the word `text`.
pub open spec fn is_word(token: ItemToken, text: Seq<char>) -> bool {
    token matches ItemToken::Ident(written) && written@ == text
}

/// The token is one of the words at which the search for `fn` ends.
pub open spec fn ends_search(token: ItemToken) -> bool {
    is_word(token, "const"@) || is_word(token, "async"@) || is_word(token, "fn"@)
}

/// The place of the first token from `from` on at which the search for
/// `fn` ends; the length of `item` where there is none.
pub open spec fn search_end(item: Seq<ItemToken>, from: int) -> int
    decreases item.len() - from,
{
    if from < 0 || from >= item.len() {
        item.len() as int
    } else if ends_search(item[from]) {
        from
    } else {
        search_end(item, from + 1)
    }
}

/// What keeps an attribute from being applied to an item.
#[derive(Debug, Clone, Copy, PartialEq, Eq, Hash, Structural)]
pub enum Fault {
    /// The function is `const`: it may run when the program is compiled.
    Const,
    /// The function is `async`: it does not run from its start to its end
    /// in one piece.
    Async,
    /// The item is no function.
    OtherItem,
    /// The function is declared without a body.
    NoBody,
}

/// The words in which `what` reports `fault`.
pub open spec fn refusal_text(what: Attribute, fault: Fault) -> &'static str {
    match (what, fault) {
        (Attribute::Instrument, Fault::Const) => "Const functions can't be instrumented.",
        (Attribute::Instrument, Fault::Async) => "Async functions can't be instrumented, yet.",
        (Attribute::Instrument, Fault::OtherItem) => "Only functions can be instrumented.",
        (Attribute::Instrument, Fault::NoBody) => "Function without a body can't be instrumented.",
        (Attribute::Capture, Fault::Const) => "Const functions can't be a capture scope.",
        (Attribute::Capture, Fault::Async) => "Async functions can't be a capture scope, yet.",
        (Attribute::Capture, Fault::OtherItem) => "Only functions can be a capture scope.",
        (Attribute::Capture, Fault::NoBody) => "Function without a body can't be a capture scope.",
    }
}

/// The words in which `what` reports `fault`.
#[verifier::when_used_as_spec(refusal_text)]
pub fn refusal(what: Attribute, fault: Fault) -> (text: &'static str)
    ensures
        text == refusal_text(what, fault),
{
    match (what, fault) {
        (Attribute::Instrument, Fault::Const) => "Const functions can't be instrumented.",
        (Attribute::Instrument, Fault::Async) => "Async functions can't be instrumented, yet.",
        (Attribute::Instrument, Fault::OtherItem) => "Only functions can be instrumented.",
        (Attribute::Instrument, Fault::NoBody) => "Function without a body can't be instrumented.",
        (Attribute::Capture, Fault::Const) => "Const functions can't be a capture scope.",
        (Attribute::Capture, Fault::Async) => "Async functions can't be a capture scope, yet.",
        (Attribute::Capture, Fault::OtherItem) => "Only functions can be a capture scope.",
        (Attribute::Capture, Fault::NoBody) => "Function without a body can't be a capture scope.",
    }
}

/// An error that is reported at the token at place `at` of the item.
pub open spec fn error_at(text: &'static str, at: int) -> Error {
    Error { text, start: Span::Token(at as usize), end: Span::Token(at as usize) }
}

/// Where the name of the function stands in `item`, or why `what` cannot
/// be applied to `item`.
///
/// The search goes to the first of the words `const`, `async` and `fn`.
/// The first two are errors, reported at the word. The token after `fn`
/// has to be a word, the name; an item without the two is no function,
/// reported at its first token. The last token of the item has to be a
/// group in curly brackets, the body; another one is reported.
pub open spec fn name_place(what: Attribute, item: Seq<ItemToken>) -> Result<int, Error> {
    let end = search_end(item, 0);
    if end < item.len() && is_word(item[end], "const"@) {
        Err(error_at(refusal(what, Fault::Const), end))
    } else if end < item.len() && is_word(item[end], "async"@) {
        Err(error_at(refusal(what, Fault::Async), end))
    } else if end + 1 < item.len() && item[end + 1] is Ident {
        if item.last() matches ItemToken::Group(Delimiter::Brace) {
            Ok(end + 1)
        } else {
            Err(error_at(refusal(what, Fault::NoBody), item.len() - 1))
        }
    } else {
        Err(error_at(refusal(what, Fault::OtherItem), 0))
    }
}

/// The text of a word; empty for a token that is no word.
pub open spec fn written_word(token: ItemToken) -> Seq<char> {
    match token {
        ItemToken::Ident(written) => written@,
        _ => Seq::empty(),
    }
}

fn find_name<'a>(what: Attribute, item: &'a Vec<ItemToken>) -> (found: Result<&'a str, Error>)
    requires
        item@.len() > 0,
    ensures
        match name_place(what, item@) {
            Ok(place) => found matches Ok(name) && name@ == written_word(item@[place]),
            Err(error) => found == Err::<&'a str, Error>(error),
        },
{
    let mut i: usize = 0;
    while i < item.len()
        invariant
            i <= item@.len(),
            search_end(item@, 0) == search_end(item@, i as int),
        ensures
            i <= item@.len(),
            search_end(item@, 0) == i,
            i < item@.len() ==> is_word(item@[i as int], "fn"@) && !is_word(
                item@[i as int],
                "const"@,
            ) && !is_word(item@[i as int], "async"@),
        decreases item@.len() - i,
    {
        match &item[i] {
            ItemToken::Ident(written) => {
                if same_text(written.as_str(), "const") {
                    return Err(Error::new(refusal(what, Fault::Const), Span::Token(i)));
                } else if same_text(written.as_str(), "async") {
                    return Err(Error::new(refusal(what, Fault::Async), Span::Token(i)));
                } else if same_text(written.as_str(), "fn") {
                    break ;
                }
            },
            _ => {},
        }
        i += 1;
    }
    let last = item.len() - 1;
    if i < last {
        match &item[i + 1] {
            ItemToken::Ident(written) => {
                return match &item[last] {
                    ItemToken::Group(Delimiter::Brace) => Ok(written.as_str()),
                    _ => Err(Error::new(refusal(what, Fault::NoBody), Span::Token(last))),
                };
            },
            _ => {},
        }
    }
    Err(Error::new(refusal(what, Fault::OtherItem), Span::Token(0)))
}

/// The tokens that `what` puts at the start of the body of `item`, or why
/// it cannot be applied.
///
/// `Instrument` opens a zone under the name of the function, with the
/// prefix that `attr` gives. `Capture` starts a capture and then opens the
/// zone, under the name alone: the capture comes first, since no zone may
/// be opened before it.
pub open spec fn prologue(what: Attribute, attr: Seq<ItemToken>, item: Seq<ItemToken>) -> Result<
    Seq<Shape>,
    Error,
> {
    match name_place(what, item) {
        Ok(place) => Ok(
            match what {
                Attribute::Instrument => zone_statement(
                    zone_name(prefix_of(attr), written_word(item[place])),
                ),
                Attribute::Capture => capture_statement() + zone_statement(
                    plain_name(written_word(item[place])),
                ),
            },
        ),
        Err(error) => Err(error),
    }
}

/// Makes the tokens that open a zone at the start of the body of `item`, a
/// function, under its name and the prefix that `attr` gives.
pub fn try_instrument(attr: &Vec<ItemToken>, item: &Vec<ItemToken>) -> (made: Result<
    Vec<Token>,
    Error,
>)
    requires
        item@.len() > 0,
    ensures
        match prologue(Attribute::Instrument, attr@, item@) {
            Ok(statement) => made matches Ok(tokens) && shapes(tokens@) == statement,
            Err(error) => made matches Err(found) && found == error,
        },
        made matches Ok(tokens) ==> well_nested(shapes(tokens@)),
{
    let prefix: Option<&str> = if attr.len() > 0 {
        match &attr[0] {
            ItemToken::Literal(written) => try_parse_str_literal(written.as_str()),
            _ => None,
        }
    } else {
        None
    };
    match find_name(Attribute::Instrument, item) {
        Ok(ident) => {
            let name = strip_raw_mark(ident);
            match prefix {
                Some(prefix) => {
                    let prefixed = String::from_str(prefix).concat("::").concat(name);
                    Ok(make_zone(prefixed.as_str()))
                },
                None => Ok(make_zone(name)),
            }
        },
        Err(error) => Err(error),
    }
}

/// Makes the tokens that start a capture and open a zone at the start of
/// the body of `item`, a function, under its name.
pub fn try_capture(item: &Vec<ItemToken>) -> (made: Result<Vec<Token>, Error>)
    requires
        item@.len() > 0,
    ensures
        match prologue(Attribute::Capture, Seq::empty(), item@) {
            Ok(statements) => made matches Ok(tokens) && shapes(tokens@) == statements,
            Err(error) => made matches Err(found) && found == error,
        },
        made matches Ok(tokens) ==> well_nested(shapes(tokens@)),
{
    match find_name(Attribute::Capture, item) {
        Ok(ident) => {
            let mut tokens = make_start_capture();
            let mut zone = make_zone(strip_raw_mark(ident));
            let ghost first = tokens@;
            let ghost second = zone@;
            tokens.append(&mut zone);
            assert(shapes(tokens@) =~= shapes(first) + shapes(second));
            proof {
                lemma_well_nested_concat(shapes(first), shapes(second));
            }
            Ok(tokens)
        },
        Err(error) => Err(error),
    }
}

/// What becomes of an item that an attribute is applied to.
#[derive(Debug, PartialEq, Eq)]
pub enum Expansion {
    /// The item as it is, but for its body, the last token, which now
    /// starts with these tokens.
    Body(Vec<Token>),
    /// These tokens, which make the compiler report an error, and after
    /// them the item as it is, so that nothing else is reported about it.
    Failure(Vec<Token>),
}

impl Expansion {
    /// The tokens that the attribute adds to the item.
    pub open spec fn added(self) -> Seq<Token> {
        match self {
            Expansion::Body(tokens) => tokens@,
            Expansion::Failure(tokens) => tokens@,
        }
    }
}

/// The expansion that belongs to a prologue or to the error in its place.
pub open spec fn expands_to(expansion: Expansion, wanted: Result<Seq<Shape>, Error>) -> bool {
    match wanted {
        Ok(statements) => expansion matches Expansion::Body(tokens) && shapes(tokens@)
            == statements,
        Err(error) => expansion matches Expansion::Failure(tokens) && shapes(tokens@)
            == error_report(error.text@, error.start, error.end),
    }
}

/// Applies the attribute that opens a zone each time the function `item`
/// runs. `attr` holds what the attribute was given.
pub fn instrument(attr: &Vec<ItemToken>, item: &Vec<ItemToken>) -> (expansion: Expansion)
    requires
        item@.len() > 0,
    ensures
        expands_to(expansion, prologue(Attribute::Instrument, attr@, item@)),
        well_nested(shapes(expansion.added())),
{
    match try_instrument(attr, item) {
        Ok(tokens) => Expansion::Body(tokens),
        Err(error) => Expansion::Failure(error.to_compile_error()),
    }
}

/// Applies the attribute that starts a capture, and opens a zone, each
/// time the function `item` runs. What the attribute was given is not read.
pub fn capture(_attr: &Vec<ItemToken>, item: &Vec<ItemToken>) -> (expansion: Expansion)
    requires
        item@.len() > 0,
    ensures
        expands_to(expansion, prologue(Attribute::Capture, Seq::empty(), item@)),
        well_nested(shapes(expansion.added())),
{
    match try_capture(item) {
        Ok(tokens) => Expansion::Body(tokens),
        Err(error) => Expansion::Failure(error.to_compile_error()),
    }
}

} // verus!
