//! Laws of texts: how tokens are written.

use crate::token::{lexeme, quoted, Tok};
use vstd::prelude::*;

verus! {

/// How marks, keywords and the starts of comments are written.
pub proof fn how_marks_and_keywords_are_written(tok: Tok)
    ensures
        tok == Tok::Lpar ==> lexeme(tok) == seq!['('],
        tok == Tok::Rpar ==> lexeme(tok) == seq![')'],
        tok == Tok::Lsqb ==> lexeme(tok) == seq!['['],
        tok == Tok::Rsqb ==> lexeme(tok) == seq![']'],
        tok == Tok::Lbrace ==> lexeme(tok) == seq!['{'],
        tok == Tok::Rbrace ==> lexeme(tok) == seq!['}'],
        tok == Tok::Plus ==> lexeme(tok) == seq!['+'],
        tok == Tok::Minus ==> lexeme(tok) == seq!['-'],
        tok == Tok::Star ==> lexeme(tok) == seq!['*'],
        tok == Tok::Slash ==> lexeme(tok) == seq!['/'],
        tok == Tok::Less ==> lexeme(tok) == seq!['<'],
        tok == Tok::Greater ==> lexeme(tok) == seq!['>'],
        tok == Tok::LessEqual ==> lexeme(tok) == seq!['<', '='],
        tok == Tok::GreaterEqual ==> lexeme(tok) == seq!['>', '='],
        tok == Tok::Percent ==> lexeme(tok) == seq!['%'],
        tok == Tok::Colon ==> lexeme(tok) == seq![':'],
        tok == Tok::Comma ==> lexeme(tok) == seq![','],
        tok == Tok::Equal ==> lexeme(tok) == seq!['='],
        tok == Tok::EqualEqual ==> lexeme(tok) == seq!['=', '='],
        tok == Tok::NotEqual ==> lexeme(tok) == seq!['!', '='],
        tok == Tok::Vbar ==> lexeme(tok) == seq!['|'],
        tok == Tok::VbarVbar ==> lexeme(tok) == seq!['|', '|'],
        tok == Tok::AmperAmper ==> lexeme(tok) == seq!['&', '&'],
        tok == Tok::LtLt ==> lexeme(tok) == seq!['<', '<'],
        tok == Tok::GtGt ==> lexeme(tok) == seq!['>', '>'],
        tok == Tok::Pipe ==> lexeme(tok) == seq!['|', '>'],
        tok == Tok::Dot ==> lexeme(tok) == seq!['.'],
        tok == Tok::RArrow ==> lexeme(tok) == seq!['-', '>'],
        tok == Tok::DotDot ==> lexeme(tok) == seq!['.', '.'],
        tok == Tok::ListNil ==> lexeme(tok) == seq!['[', ']'],
        tok == Tok::CommentNormal ==> lexeme(tok) == seq!['/', '/'],
        tok == Tok::CommentDoc ==> lexeme(tok) == seq!['/', '/', '/'],
        tok == Tok::CommentModule ==> lexeme(tok) == seq!['/', '/', '/', '/'],
        tok == Tok::As ==> lexeme(tok) == seq!['a', 's'],
        tok == Tok::Assert ==> lexeme(tok) == seq!['a', 's', 's', 'e', 'r', 't'],
        tok == Tok::Case ==> lexeme(tok) == seq!['c', 'a', 's', 'e'],
        tok == Tok::Const ==> lexeme(tok) == seq!['c', 'o', 'n', 's', 't'],
        tok == Tok::External ==> lexeme(tok) == seq!['e', 'x', 't', 'e', 'r', 'n', 'a', 'l'],
        tok == Tok::Fn ==> lexeme(tok) == seq!['f', 'n'],
        tok == Tok::If ==> lexeme(tok) == seq!['i', 'f'],
        tok == Tok::Import ==> lexeme(tok) == seq!['i', 'm', 'p', 'o', 'r', 't'],
        tok == Tok::Let ==> lexeme(tok) == seq!['l', 'e', 't'],
        tok == Tok::Opaque ==> lexeme(tok) == seq!['o', 'p', 'a', 'q', 'u', 'e'],
        tok == Tok::Pub ==> lexeme(tok) == seq!['p', 'u', 'b'],
        tok == Tok::Todo ==> lexeme(tok) == seq!['t', 'o', 'd', 'o'],
        tok == Tok::Try ==> lexeme(tok) == seq!['t', 'r', 'y'],
        tok == Tok::Tuple ==> lexeme(tok) == seq!['t', 'u', 'p', 'l', 'e'],
        tok == Tok::Type ==> lexeme(tok) == seq!['t', 'y', 'p', 'e'],
{
    reveal_strlit("(");
    reveal_strlit(")");
    reveal_strlit("[");
    reveal_strlit("]");
    reveal_strlit("{");
    reveal_strlit("}");
    reveal_strlit("+");
    reveal_strlit("-");
    reveal_strlit("*");
    reveal_strlit("/");
    reveal_strlit("<");
    reveal_strlit(">");
    reveal_strlit("<=");
    reveal_strlit(">=");
    reveal_strlit("%");
    reveal_strlit("+.");
    reveal_strlit("-.");
    reveal_strlit("*.");
    reveal_strlit("/.");
    reveal_strlit("<.");
    reveal_strlit(">.");
    reveal_strlit("<=.");
    reveal_strlit(">=.");
    reveal_strlit(":");
    reveal_strlit(",");
    reveal_strlit("=");
    reveal_strlit("==");
    reveal_strlit("!=");
    reveal_strlit("|");
    reveal_strlit("||");
    reveal_strlit("&&");
    reveal_strlit("<<");
    reveal_strlit(">>");
    reveal_strlit("|>");
    reveal_strlit(".");
    reveal_strlit("->");
    reveal_strlit("..");
    reveal_strlit("[]");
    reveal_strlit("//");
    reveal_strlit("///");
    reveal_strlit("////");
    reveal_strlit("as");
    reveal_strlit("assert");
    reveal_strlit("case");
    reveal_strlit("const");
    reveal_strlit("external");
    reveal_strlit("fn");
    reveal_strlit("if");
    reveal_strlit("import");
    reveal_strlit("let");
    reveal_strlit("opaque");
    reveal_strlit("pub");
    reveal_strlit("todo");
    reveal_strlit("try");
    reveal_strlit("tuple");
    reveal_strlit("type");
}

/// The operators on numbers with a fraction are written like those on integers, with a dot behind.
pub proof fn how_operators_on_fractions_are_written()
    ensures
        lexeme(Tok::PlusDot) == lexeme(Tok::Plus).push('.'),
        lexeme(Tok::MinusDot) == lexeme(Tok::Minus).push('.'),
        lexeme(Tok::StarDot) == lexeme(Tok::Star).push('.'),
        lexeme(Tok::SlashDot) == lexeme(Tok::Slash).push('.'),
        lexeme(Tok::LessDot) == lexeme(Tok::Less).push('.'),
        lexeme(Tok::GreaterDot) == lexeme(Tok::Greater).push('.'),
        lexeme(Tok::LessEqualDot) == lexeme(Tok::LessEqual).push('.'),
        lexeme(Tok::GreaterEqualDot) == lexeme(Tok::GreaterEqual).push('.'),
{
    reveal_strlit("+");
    reveal_strlit("-");
    reveal_strlit("*");
    reveal_strlit("/");
    reveal_strlit("<");
    reveal_strlit(">");
    reveal_strlit("<=");
    reveal_strlit(">=");
    reveal_strlit("+.");
    reveal_strlit("-.");
    reveal_strlit("*.");
    reveal_strlit("/.");
    reveal_strlit("<.");
    reveal_strlit(">.");
    reveal_strlit("<=.");
    reveal_strlit(">=.");
}

/// A token with text is written as that text.
pub proof fn how_tokens_with_text_are_written(text: String)
    ensures
        lexeme(Tok::Name { name: text }) == text@,
        lexeme(Tok::UpName { name: text }) == text@,
        lexeme(Tok::DiscardName { name: text }) == text@,
        lexeme(Tok::Int { value: text }) == text@,
        lexeme(Tok::Float { value: text }) == text@,
        lexeme(Tok::String { value: text }) == text@,
{
}

/// In an error a token is written between two double quotes.
pub proof fn how_tokens_are_quoted(tok: Tok)
    ensures
        quoted(tok).len() == lexeme(tok).len() + 2,
        quoted(tok).first() == '"',
        quoted(tok).last() == '"',
        quoted(tok).subrange(1, quoted(tok).len() - 1) == lexeme(tok),
{
    reveal_strlit("\"");
    assert(quoted(tok).subrange(1, quoted(tok).len() - 1) =~= lexeme(tok));
}

} // verus!
