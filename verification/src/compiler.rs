//! The front end: a flat expression, read strictly left to right, becomes a
//! program that keeps its running result in heap slot 0.

use vstd::prelude::*;
use crate::value::{Address, Instruction, Value};

verus! {

/// The words of a text: what `str::split_whitespace` yields for it, in order.
pub uninterp spec fn whitespace_words(source: Seq<char>) -> Seq<Seq<char>>;

/// The integer that a word denotes: what `str::parse::<i64>` makes of it,
/// `None` where it refuses the word.
pub uninterp spec fn integer_literal(word: Seq<char>) -> Option<i64>;

/// Calls `str::split_whitespace` and hands out the words as owned strings.
/// The contract only gives the outcome its name: the words, in order, are
/// `whitespace_words` of the text.
#[verifier::external_body]
fn split_words(source: &str) -> (words: Vec<String>)
    ensures
        words@.len() == whitespace_words(source@).len(),
        forall|i: int| 0 <= i < words@.len() ==> (#[trigger] words@[i])@ == whitespace_words(source@)[i],
{
    source.split_whitespace().map(String::from).collect()
}

/// Calls `str::parse::<i64>`. The contract only gives the outcome its name:
/// the integer read, or `None` where the word is refused.
#[verifier::external_body]
fn parse_integer(word: &str) -> (value: Option<i64>)
    ensures
        value == integer_literal(word@),
{
    word.parse::<i64>().ok()
}

/// One word of an expression.
#[derive(Clone, Copy, Debug, PartialEq, Eq, Structural)]
pub enum Token {
    Plus,
    Minus,
    Star,
    Slash,
    /// An integer literal.
    Number(i64),
    /// Neither an operator nor an integer literal.
    Unknown,
}

/// Why an expression has no program.
#[derive(Clone, Copy, Debug, PartialEq, Eq, Structural)]
pub enum CompileError {
    /// A word where a literal or an operator may stand is neither.
    UnknownToken,
    /// The word after an operator is not an integer literal.
    InvalidOperand,
    /// An operator is the last word.
    MissingOperand,
}

/// The token that a word is.
pub open spec fn token_of(word: Seq<char>) -> Token {
    if word == "+"@ {
        Token::Plus
    } else if word == "-"@ {
        Token::Minus
    } else if word == "*"@ {
        Token::Star
    } else if word == "/"@ {
        Token::Slash
    } else {
        match integer_literal(word) {
            Some(n) => Token::Number(n),
            None => Token::Unknown,
        }
    }
}

/// The tokens of a text, word by word.
pub open spec fn tokens_of(source: Seq<char>) -> Seq<Token> {
    whitespace_words(source).map_values(|word: Seq<char>| token_of(word))
}

/// The four instructions for an operator and its literal: the literal goes
/// into the slot at the address register, the register is set back to slot 1
/// so that the slot is free again, and the operator folds the literal into
/// the slot below it.
pub open spec fn group(operator: Instruction, n: i64) -> Seq<Instruction> {
    seq![
        Instruction::Store(Value::Integer(n)),
        Instruction::Push(Address(1)),
        Instruction::Ar,
        operator,
    ]
}

/// The arithmetic instruction of an operator token.
pub open spec fn instruction_of(t: Token) -> Option<Instruction> {
    match t {
        Token::Plus => Some(Instruction::Add),
        Token::Minus => Some(Instruction::Sub),
        Token::Star => Some(Instruction::Mul),
        Token::Slash => Some(Instruction::Div),
        _ => None,
    }
}

/// `first`, followed by the rest of the program where there is one.
pub open spec fn followed_by(
    first: Seq<Instruction>,
    rest: Result<Seq<Instruction>, CompileError>,
) -> Result<Seq<Instruction>, CompileError> {
    match rest {
        Ok(code) => Ok(first + code),
        Err(e) => Err(e),
    }
}

/// The program of a token sequence, read from the left: a literal alone is
/// stored; an operator takes the literal after it and gives a `group`. The
/// first word that cannot be read decides the error.
pub open spec fn program_of(tokens: Seq<Token>) -> Result<Seq<Instruction>, CompileError>
    decreases tokens.len(),
{
    if tokens.len() == 0 {
        Ok(Seq::empty())
    } else {
        match tokens[0] {
            Token::Unknown => Err(CompileError::UnknownToken),
            Token::Number(n) => followed_by(
                seq![Instruction::Store(Value::Integer(n))],
                program_of(tokens.skip(1)),
            ),
            operator => if tokens.len() < 2 {
                Err(CompileError::MissingOperand)
            } else {
                match tokens[1] {
                    Token::Number(n) => followed_by(
                        group(instruction_of(operator).unwrap(), n),
                        program_of(tokens.skip(2)),
                    ),
                    _ => Err(CompileError::InvalidOperand),
                }
            },
        }
    }
}

/// Tells what token a word is: an operator sign, else what the integer
/// parser makes of it.
pub fn classify(word: &String) -> (t: Token)
    ensures
        t == token_of(word@),
{
    if *word == "+".to_owned() {
        Token::Plus
    } else if *word == "-".to_owned() {
        Token::Minus
    } else if *word == "*".to_owned() {
        Token::Star
    } else if *word == "/".to_owned() {
        Token::Slash
    } else {
        match parse_integer(word.as_str()) {
            Some(n) => Token::Number(n),
            None => Token::Unknown,
        }
    }
}

/// Splits a text into words and classifies each.
pub fn tokenize(source: &str) -> (tokens: Vec<Token>)
    ensures
        tokens@ == tokens_of(source@),
{
    let words = split_words(source);
    let mut tokens: Vec<Token> = Vec::new();
    let mut i: usize = 0;
    while i < words.len()
        invariant
            i <= words@.len(),
            tokens@.len() == i,
            words@.len() == whitespace_words(source@).len(),
            forall|k: int| 0 <= k < words@.len() ==> (#[trigger] words@[k])@ == whitespace_words(source@)[k],
            forall|k: int| 0 <= k < i ==> tokens@[k] == token_of(whitespace_words(source@)[k]),
        decreases words@.len() - i,
    {
        let t = classify(&words[i]);
        tokens.push(t);
        i = i + 1;
    }
    assert(tokens@ =~= tokens_of(source@));
    tokens
}

/// The program of a token sequence.
pub fn compile_tokens(tokens: &Vec<Token>) -> (r: Result<Vec<Instruction>, CompileError>)
    ensures
        match program_of(tokens@) {
            Ok(code) => r is Ok && r->Ok_0@ == code,
            Err(e) => r == Err::<Vec<Instruction>, CompileError>(e),
        },
{
    let mut code: Vec<Instruction> = Vec::new();
    let mut index: usize = 0;
    proof {
        assert(tokens@.skip(0) =~= tokens@);
        assert(Seq::<Instruction>::empty() + program_of(tokens@)->Ok_0 =~= program_of(tokens@)->Ok_0);
    }
    while index < tokens.len()
        invariant
            index <= tokens@.len(),
            match program_of(tokens@.skip(index as int)) {
                Ok(rest) => program_of(tokens@) == Ok::<Seq<Instruction>, CompileError>(code@ + rest),
                Err(e) => program_of(tokens@) == Err::<Seq<Instruction>, CompileError>(e),
            },
        decreases tokens@.len() - index,
    {
        let ghost here = tokens@.skip(index as int);
        let ghost done = code@;
        let token = tokens[index];
        let operator = match token {
            Token::Unknown => {
                return Err(CompileError::UnknownToken);
            },
            Token::Number(n) => {
                code.push(Instruction::Store(Value::Integer(n)));
                proof {
                    assert(here.skip(1) =~= tokens@.skip(index + 1));
                    let first = seq![Instruction::Store(Value::Integer(n))];
                    assert(code@ =~= done + first);
                    if let Ok(rest) = program_of(here.skip(1)) {
                        assert(done + (first + rest) =~= code@ + rest);
                    }
                }
                index = index + 1;
                continue ;
            },
            Token::Plus => Instruction::Add,
            Token::Minus => Instruction::Sub,
            Token::Star => Instruction::Mul,
            Token::Slash => Instruction::Div,
        };
        if tokens.len() - index < 2 {
            return Err(CompileError::MissingOperand);
        }
        match tokens[index + 1] {
            Token::Number(n) => {
                code.push(Instruction::Store(Value::Integer(n)));
                code.push(Instruction::Push(Address(1)));
                code.push(Instruction::Ar);
                code.push(operator);
                proof {
                    assert(here.skip(2) =~= tokens@.skip(index + 2));
                    let first = group(operator, n);
                    assert(code@ =~= done + first);
                    if let Ok(rest) = program_of(here.skip(2)) {
                        assert(done + (first + rest) =~= code@ + rest);
                    }
                }
                index = index + 2;
            },
            _ => {
                return Err(CompileError::InvalidOperand);
            },
        }
    }
    proof {
        assert(code@ + Seq::<Instruction>::empty() =~= code@);
    }
    Ok(code)
}

/// Compiler of simple calculation expressions: the program of the text's words.
pub fn calc_compiler(source: &str) -> (r: Result<Vec<Instruction>, CompileError>)
    ensures
        match program_of(tokens_of(source@)) {
            Ok(code) => r is Ok && r->Ok_0@ == code,
            Err(e) => r == Err::<Vec<Instruction>, CompileError>(e),
        },
{
    let tokens = tokenize(source);
    compile_tokens(&tokens)
}

} // verus!
