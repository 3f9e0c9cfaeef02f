//! Writing the [`Exception`](crate::Exception) impl of a declared type.
//!
//! A declaration arrives as its tokens. The type's name is the token that follows the first
//! keyword that declares a nominal type: `struct`, `enum` or `union`. The impl answers that
//! name and erases the value itself.

use vstd::prelude::*;
use vstd::string::StringExecFns;

verus! {

/// What is read of one token of a declaration.
#[derive(Debug)]
pub struct Token {
    /// Whether the token is an identifier or a keyword, and no punctuation, literal or group.
    pub is_ident: bool,
    /// The token as text.
    pub text: String,
}

/// Why no impl could be written.
#[derive(Debug, PartialEq, Eq, Structural)]
pub enum DeriveError {
    /// The tokens hold no `struct`, `enum` or `union`: they declare no nominal type.
    NoDeclaration,
    /// Nothing follows the keyword.
    NoIdentifier,
}

pub const IMPL_OPEN: &'static str = "impl Exception for ";

pub const NAME_OPEN: &'static str = " {\n    fn name(&self) -> &'static str {\n        \"";

pub const NAME_CLOSE: &'static str =
    "\"\n    }\n    fn into_any(self: Box<Self>) -> ::trycatch::Erased {\n        ::trycatch::Erased { boxed: self }\n    }\n}\n";

/// Whether a token is the keyword `struct` or `enum`.
pub open spec fn is_keyword(t: Token) -> bool {
    t.is_ident && (t.text@ == "struct"@ || t.text@ == "enum"@)
}

/// Whether a token is a keyword that declares a nominal type: `struct`, `enum` or `union`.
pub open spec fn declares_type(t: Token) -> bool {
    is_keyword(t) || (t.is_ident && t.text@ == "union"@)
}

/// Whether `k` is the place of the first declaring keyword among the tokens.
pub open spec fn first_keyword(tokens: Seq<Token>, k: int) -> bool {
    &&& 0 <= k < tokens.len()
    &&& declares_type(tokens[k])
    &&& forall|j: int| 0 <= j < k ==> !declares_type(#[trigger] tokens[j])
}

/// The text of the impl for a type of the given name.
pub open spec fn impl_text(name: Seq<char>) -> Seq<char> {
    IMPL_OPEN@ + name + NAME_OPEN@ + name + NAME_CLOSE@
}

/// Whether the next token, if there is one, is `struct` or `enum`.
pub fn is_struct_or_enum(next: Option<&Token>) -> (found: bool)
    ensures
        found == (next matches Some(t) && is_keyword(*t)),
{
    match next {
        None => false,
        Some(t) => {
            t.is_ident && (t.text == String::from_str("struct") || t.text == String::from_str(
                "enum",
            ))
        },
    }
}

/// Whether the token is `struct`, `enum` or `union`.
pub fn is_declaring_keyword(t: &Token) -> (found: bool)
    ensures
        found == declares_type(*t),
{
    is_struct_or_enum(Some(t)) || (t.is_ident && t.text == String::from_str("union"))
}

/// Finds the name of the declared type: the text of the token after the first declaring
/// keyword.
pub fn declared_name(tokens: &Vec<Token>) -> (r: Result<String, DeriveError>)
    ensures
        match r {
            Ok(name) => exists|k: int|
                first_keyword(tokens@, k) && k + 1 < tokens.len() && name@ == tokens[k + 1].text@,
            Err(DeriveError::NoIdentifier) => first_keyword(tokens@, tokens.len() - 1),
            Err(DeriveError::NoDeclaration) => forall|j: int|
                0 <= j < tokens.len() ==> !declares_type(#[trigger] tokens[j]),
        },
{
    let mut i: usize = 0;
    while i < tokens.len()
        invariant
            i <= tokens.len(),
            forall|j: int| 0 <= j < i ==> !declares_type(#[trigger] tokens[j]),
        decreases tokens.len() - i,
    {
        if is_declaring_keyword(&tokens[i]) {
            assert(first_keyword(tokens@, i as int));
            if i + 1 < tokens.len() {
                return Ok(tokens[i + 1].text.clone());
            } else {
                return Err(DeriveError::NoIdentifier);
            }
        }
        i = i + 1;
    }
    Err(DeriveError::NoDeclaration)
}

/// Writes the impl for a type of the given name: `name` answers the type's own name, and
/// `into_any` erases the value itself.
pub fn exception_impl(name: &str) -> (text: String)
    ensures
        text@ == impl_text(name@),
{
    String::from_str(IMPL_OPEN).concat(name).concat(NAME_OPEN).concat(name).concat(NAME_CLOSE)
}

/// Writes the impl for the struct, enum or union that the tokens declare.
pub fn derive_exception(tokens: &Vec<Token>) -> (r: Result<String, DeriveError>)
    ensures
        match r {
            Ok(text) => exists|k: int|
                first_keyword(tokens@, k) && k + 1 < tokens.len() && text@ == impl_text(
                    tokens[k + 1].text@,
                ),
            Err(DeriveError::NoIdentifier) => first_keyword(tokens@, tokens.len() - 1),
            Err(DeriveError::NoDeclaration) => forall|j: int|
                0 <= j < tokens.len() ==> !declares_type(#[trigger] tokens[j]),
        },
{
    match declared_name(tokens) {
        Ok(name) => Ok(exception_impl(name.as_str())),
        Err(e) => Err(e),
    }
}

} // verus!
