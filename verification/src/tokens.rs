use vstd::prelude::*;

verus! {

/// The brackets round a group of tokens.
#[derive(Debug, Clone, Copy, PartialEq, Eq, Hash, Structural)]
pub enum Delimiter {
    /// Round brackets.
    Parenthesis,
    /// Curly brackets.
    Brace,
    /// Square brackets.
    Bracket,
    /// No written brackets.
    Invisible,
}

/// Whether a punctuation character runs on into the next one.
#[derive(Debug, Clone, Copy, PartialEq, Eq, Hash, Structural)]
pub enum Spacing {
    /// The character ends an operator.
    Alone,
    /// The next character belongs to the same operator.
    Joint,
}

/// The place in the source that a token is reported at.
#[derive(Debug, Clone, Copy, PartialEq, Eq, Hash, Structural)]
pub enum Span {
    /// Where the attribute is applied.
    CallSite,
    /// Where the attribute is applied, with names of local variables
    /// kept apart from those of the item.
    MixedSite,
    /// Where the token at this place of the item stands.
    Token(usize),
}

/// What the attributes read of one token of the item they are applied to.
///
/// The tokens are those of the top level: a group is one token, whatever
/// it holds.
#[derive(Debug, PartialEq, Eq)]
pub enum ItemToken {
    /// A group in brackets.
    Group(Delimiter),
    /// A word, as it is written.
    Ident(String),
    /// A punctuation character.
    Punct(char),
    /// A literal, as it is written.
    Literal(String),
}

/// A token that an attribute adds to an item.
///
/// A group is written flat, from its `Open` to the `Close` that matches it.
#[derive(Debug, PartialEq, Eq)]
pub enum Token {
    /// Opens a group.
    Open { delimiter: Delimiter, span: Span },
    /// Closes the group that was opened last.
    Close,
    /// A word.
    Ident { name: &'static str, span: Span },
    /// A punctuation character.
    Punct { ch: char, spacing: Spacing, span: Span },
    /// A string literal with this content.
    Literal { content: String, span: Span },
}

/// A [`Token`], with its texts as sequences of characters.
pub ghost enum Shape {
    Open { delimiter: Delimiter, span: Span },
    Close,
    Ident { name: Seq<char>, span: Span },
    Punct { ch: char, spacing: Spacing, span: Span },
    Literal { content: Seq<char>, span: Span },
}

impl View for Token {
    type V = Shape;

    open spec fn view(&self) -> Shape {
        match self {
            Token::Open { delimiter, span } => Shape::Open { delimiter: *delimiter, span: *span },
            Token::Close => Shape::Close,
            Token::Ident { name, span } => Shape::Ident { name: name@, span: *span },
            Token::Punct { ch, spacing, span } => Shape::Punct {
                ch: *ch,
                spacing: *spacing,
                span: *span,
            },
            Token::Literal { content, span } => Shape::Literal { content: content@, span: *span },
        }
    }
}

/// How many groups are open after a token, where `open` were open before
/// it. `None` where a `Close` has no group to close.
pub open spec fn open_after(open: Option<nat>, shape: Shape) -> Option<nat> {
    match open {
        Some(open) => match shape {
            Shape::Open { .. } => Some(open + 1),
            Shape::Close => if open > 0 {
                Some((open - 1) as nat)
            } else {
                None
            },
            _ => Some(open),
        },
        None => None,
    }
}

/// How many groups are open after the tokens `shapes`, read from the
/// first. `None` where a `Close` has no group to close.
pub open spec fn open_groups(shapes: Seq<Shape>) -> Option<nat>
    decreases shapes.len(),
{
    if shapes.len() == 0 {
        Some(0)
    } else {
        open_after(open_groups(shapes.drop_last()), shapes.last())
    }
}

/// Every `Close` closes a group, and every group is closed: the tokens
/// write a sequence of whole token trees.
pub open spec fn well_nested(shapes: Seq<Shape>) -> bool {
    open_groups(shapes) == Some(0nat)
}

/// One more token changes the number of open groups as `open_after` says.
pub broadcast proof fn lemma_open_groups_push(shapes: Seq<Shape>, shape: Shape)
    ensures
        #[trigger] open_groups(shapes.push(shape)) == open_after(open_groups(shapes), shape),
{
    assert(shapes.push(shape).drop_last() =~= shapes);
}

/// Well nested tokens after well nested tokens are well nested.
pub proof fn lemma_well_nested_concat(first: Seq<Shape>, second: Seq<Shape>)
    requires
        well_nested(first),
        well_nested(second),
    ensures
        well_nested(first + second),
{
    lemma_open_groups_concat(first, second);
}

proof fn lemma_open_groups_concat(first: Seq<Shape>, second: Seq<Shape>)
    requires
        well_nested(first),
    ensures
        open_groups(first + second) == open_groups(second),
    decreases second.len(),
{
    if second.len() == 0 {
        assert(first + second =~= first);
    } else {
        lemma_open_groups_concat(first, second.drop_last());
        assert((first + second).drop_last() =~= first + second.drop_last());
        assert((first + second).last() == second.last());
    }
}

} // verus!
