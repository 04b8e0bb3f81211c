//! Code emission: one constant per kind definition and one complete type
//! definition per error definition, concatenated in input order.

use vstd::prelude::*;
use crate::token::{Token, TokenV, GrammarError};
use crate::model::{KindDef, KindDefV, ErrorDef, ErrorDefV, kind_views, error_views};
use crate::numeral::{dec_seq, dec_string};
use crate::parse::{kind_list, error_list_from, parse_kinds, parse_errors};
use crate::token::token_views;
use crate::lexer::{lex, lex_from, LexError};

verus! {

/// A failed compilation: the source text could not be tokenized, or a
/// tokenized entry was malformed.
#[derive(Clone, Copy, Debug, PartialEq, Eq, Structural)]
pub enum CompileError {
    Lex(LexError),
    Grammar(GrammarError),
}

/// The source text of the constant emitted for one kind definition: a
/// 4-tuple holding the kind's own name, its message id, its code and its
/// description, bound to a constant named after the kind.
pub open spec fn kind_const_text(d: KindDefV) -> Seq<char> {
    "#[allow(non_upper_case_globals)]\npub const "@ + d.name
        + ": oxiderr::ErrorKind = oxiderr::ErrorKind(\""@ + d.name + "\", \""@ + d.message
        + "\", "@ + dec_seq(d.code as nat) + ", \""@ + d.description + "\");\n"@
}

/// The source text emitted for a sequence of kind definitions: the
/// constants in input order.
pub open spec fn kinds_text(ds: Seq<KindDefV>) -> Seq<char>
    decreases ds.len(),
{
    if ds.len() == 0 {
        Seq::empty()
    } else {
        kind_const_text(ds[0]) + kinds_text(ds.drop_first())
    }
}

/// Emits the constant for one kind definition.
pub fn emit_kind(d: &KindDef) -> (r: String)
    ensures
        r@ == kind_const_text(d@),
{
    let mut s = String::new();
    s.append("#[allow(non_upper_case_globals)]\npub const ");
    s.append(d.name.as_str());
    s.append(": oxiderr::ErrorKind = oxiderr::ErrorKind(\"");
    s.append(d.name.as_str());
    s.append("\", \"");
    s.append(d.message.as_str());
    s.append("\", ");
    let c = dec_string(d.code as u64);
    s.append(c.as_str());
    s.append(", \"");
    s.append(d.description.as_str());
    s.append("\");\n");
    proof {
        assert(s@ =~= kind_const_text(d@));
    }
    s
}

/// Emits the constants for the kind definitions from index `i` on.
fn emit_kinds_from(ds: &Vec<KindDef>, i: usize) -> (r: String)
    requires
        i <= ds@.len(),
    ensures
        r@ == kinds_text(kind_views(ds@).skip(i as int)),
    decreases ds@.len() - i,
{
    if i >= ds.len() {
        let s = String::new();
        proof {
            assert(kind_views(ds@).skip(i as int) =~= Seq::<KindDefV>::empty());
        }
        s
    } else {
        let mut s = emit_kind(&ds[i]);
        let rest = emit_kinds_from(ds, i + 1);
        s.append(rest.as_str());
        proof {
            let vs = kind_views(ds@);
            assert(vs.skip(i as int).drop_first() =~= vs.skip(i as int + 1));
            assert(vs.skip(i as int)[0] == vs[i as int]);
        }
        s
    }
}

/// Emits the constants for a list of kind definitions, in input order.
pub fn emit_kinds(ds: &Vec<KindDef>) -> (r: String)
    ensures
        r@ == kinds_text(kind_views(ds@)),
{
    let r = emit_kinds_from(ds, 0);
    proof {
        assert(kind_views(ds@).skip(0) =~= kind_views(ds@));
    }
    r
}

/// Compiles a kind list: parses the tokens and, when the whole list is well
/// formed, emits one constant per entry in input order; an empty list or a
/// malformed entry fails the whole batch with its grammar error and no
/// output.
pub fn define_kinds(tokens: &Vec<Token>) -> (r: Result<String, GrammarError>)
    ensures
        r matches Ok(out) ==> (kind_list(token_views(tokens@)) matches Ok(ds) && out@
            == kinds_text(ds)),
        r matches Err(e) ==> kind_list(token_views(tokens@)) == Err::<
            Seq<KindDefV>,
            GrammarError,
        >(e),
{
    match parse_kinds(tokens) {
        Ok(ds) => Ok(emit_kinds(&ds)),
        Err(e) => Err(e),
    }
}

/// The source text of the type definition emitted for one error
/// definition: the struct, its inherent impl (the `kind` constant, `new`,
/// `set_message`, `set_details`, `convert`), its error-contract impl, and
/// its display impl rendering `"[{message_id}] {type_name} ({code}): {message}"`.
///
/// The emitted `convert` unwraps the serialization result, keeping the
/// emitted API's established shape. The unwrap cannot fire: the value
/// being serialized is a container whose details were just cleared and
/// whose kind is skipped during serialization, and for that shape the
/// structured-value serializer has no failure path (see
/// `crate::interop::serialize_cleared`). The library's own
/// `crate::instance::ErrorValue::convert` models the same algorithm with
/// the failure kept catchable.
pub open spec fn error_type_text(d: ErrorDefV) -> Seq<char> {
    "#[derive(Debug, Clone)]\npub struct "@ + d.name
        + " {\n    class: String,\n    message: String,\n    details: Option<std::collections::BTreeMap<String, serde_value::Value>>,\n}\n\nimpl "@
        + d.name
        + " {\n    #[allow(non_upper_case_globals)]\n    pub const kind: oxiderr::ErrorKind = "@
        + d.kind_path
        + ";\n    pub fn new() -> Self {\n        Self {\n            class: format!(\"{}::{}::{}\", Self::kind.side(), Self::kind.name(), \""@
        + d.name
        + "\"),\n            message: Self::kind.description().into(),\n            details: None,\n        }\n    }\n    pub fn set_message(mut self, message: String) -> Self {\n        self.message = message;\n        self\n    }\n    pub fn set_details(mut self, details: std::collections::BTreeMap<String, serde_value::Value>) -> Self {\n        self.details = Some(details);\n        self\n    }\n    pub fn convert(error: oxiderr::Error) -> Self {\n        let mut err_clone = error.clone();\n        let mut details = error.details.unwrap_or_default();\n        err_clone.details = None;\n        details.insert(\"origin\".to_string(), serde_value::to_value(err_clone).unwrap());\n        Self {\n            class: format!(\"{}::{}::{}\", Self::kind.side(), Self::kind.name(), \""@
        + d.name
        + "\"),\n            message: Self::kind.description().into(),\n            details: Some(details),\n        }\n    }\n}\n\nimpl oxiderr::AsError for "@
        + d.name
        + " {\n    fn kind() -> oxiderr::ErrorKind {\n        Self::kind\n    }\n    fn class(&self) -> String {\n        self.class.clone()\n    }\n    fn message(&self) -> String {\n        self.message.clone()\n    }\n    fn details(&self) -> Option<std::collections::BTreeMap<String, serde_value::Value>> {\n        self.details.clone()\n    }\n}\n\nimpl std::error::Error for "@
        + d.name
        + " {}\n\nimpl std::fmt::Display for "@ + d.name
        + " {\n    fn fmt(&self, f: &mut std::fmt::Formatter) -> std::fmt::Result {\n        write!(f, \"[{}] {} ({}): {}\", Self::kind.message_id(), \""@
        + d.name
        + "\", Self::kind.code(), self.message())\n    }\n}\n"@
}

/// The source text emitted for a sequence of error definitions: the type
/// definitions in input order.
pub open spec fn errors_text(ds: Seq<ErrorDefV>) -> Seq<char>
    decreases ds.len(),
{
    if ds.len() == 0 {
        Seq::empty()
    } else {
        error_type_text(ds[0]) + errors_text(ds.drop_first())
    }
}

/// Emits the type definition for one error definition.
pub fn emit_error_type(d: &ErrorDef) -> (r: String)
    ensures
        r@ == error_type_text(d@),
{
    let mut s = String::new();
    s.append("#[derive(Debug, Clone)]\npub struct ");
    s.append(d.name.as_str());
    s.append(
        " {\n    class: String,\n    message: String,\n    details: Option<std::collections::BTreeMap<String, serde_value::Value>>,\n}\n\nimpl ",
    );
    s.append(d.name.as_str());
    s.append(
        " {\n    #[allow(non_upper_case_globals)]\n    pub const kind: oxiderr::ErrorKind = ",
    );
    s.append(d.kind_path.as_str());
    s.append(
        ";\n    pub fn new() -> Self {\n        Self {\n            class: format!(\"{}::{}::{}\", Self::kind.side(), Self::kind.name(), \"",
    );
    s.append(d.name.as_str());
    s.append(
        "\"),\n            message: Self::kind.description().into(),\n            details: None,\n        }\n    }\n    pub fn set_message(mut self, message: String) -> Self {\n        self.message = message;\n        self\n    }\n    pub fn set_details(mut self, details: std::collections::BTreeMap<String, serde_value::Value>) -> Self {\n        self.details = Some(details);\n        self\n    }\n    pub fn convert(error: oxiderr::Error) -> Self {\n        let mut err_clone = error.clone();\n        let mut details = error.details.unwrap_or_default();\n        err_clone.details = None;\n        details.insert(\"origin\".to_string(), serde_value::to_value(err_clone).unwrap());\n        Self {\n            class: format!(\"{}::{}::{}\", Self::kind.side(), Self::kind.name(), \"",
    );
    s.append(d.name.as_str());
    s.append(
        "\"),\n            message: Self::kind.description().into(),\n            details: Some(details),\n        }\n    }\n}\n\nimpl oxiderr::AsError for ",
    );
    s.append(d.name.as_str());
    s.append(
        " {\n    fn kind() -> oxiderr::ErrorKind {\n        Self::kind\n    }\n    fn class(&self) -> String {\n        self.class.clone()\n    }\n    fn message(&self) -> String {\n        self.message.clone()\n    }\n    fn details(&self) -> Option<std::collections::BTreeMap<String, serde_value::Value>> {\n        self.details.clone()\n    }\n}\n\nimpl std::error::Error for ",
    );
    s.append(d.name.as_str());
    s.append(" {}\n\nimpl std::fmt::Display for ");
    s.append(d.name.as_str());
    s.append(
        " {\n    fn fmt(&self, f: &mut std::fmt::Formatter) -> std::fmt::Result {\n        write!(f, \"[{}] {} ({}): {}\", Self::kind.message_id(), \"",
    );
    s.append(d.name.as_str());
    s.append("\", Self::kind.code(), self.message())\n    }\n}\n");
    proof {
        assert(s@ =~= error_type_text(d@));
    }
    s
}

/// Emits the type definitions for the error definitions from index `i` on.
fn emit_errors_from(ds: &Vec<ErrorDef>, i: usize) -> (r: String)
    requires
        i <= ds@.len(),
    ensures
        r@ == errors_text(error_views(ds@).skip(i as int)),
    decreases ds@.len() - i,
{
    if i >= ds.len() {
        let s = String::new();
        proof {
            assert(error_views(ds@).skip(i as int) =~= Seq::<ErrorDefV>::empty());
        }
        s
    } else {
        let mut s = emit_error_type(&ds[i]);
        let rest = emit_errors_from(ds, i + 1);
        s.append(rest.as_str());
        proof {
            let vs = error_views(ds@);
            assert(vs.skip(i as int).drop_first() =~= vs.skip(i as int + 1));
            assert(vs.skip(i as int)[0] == vs[i as int]);
        }
        s
    }
}

/// Emits the type definitions for a list of error definitions, in input
/// order.
pub fn emit_error_types(ds: &Vec<ErrorDef>) -> (r: String)
    ensures
        r@ == errors_text(error_views(ds@)),
{
    let r = emit_errors_from(ds, 0);
    proof {
        assert(error_views(ds@).skip(0) =~= error_views(ds@));
    }
    r
}

/// Compiles an error list: parses the tokens and, when the whole list is
/// well formed, emits one complete type definition per entry in input
/// order; a malformed entry fails the whole batch with its grammar error
/// and no output.
pub fn define_errors(tokens: &Vec<Token>) -> (r: Result<String, GrammarError>)
    ensures
        r matches Ok(out) ==> (error_list_from(token_views(tokens@), 0) matches Ok(ds) && out@
            == errors_text(ds)),
        r matches Err(e) ==> error_list_from(token_views(tokens@), 0) == Err::<
            Seq<ErrorDefV>,
            GrammarError,
        >(e),
{
    match parse_errors(tokens) {
        Ok(ds) => Ok(emit_error_types(&ds)),
        Err(e) => Err(e),
    }
}

} // verus!

verus! {

/// Compiles a kind list from source text: tokenizes, parses, and emits one
/// constant per entry in input order; any tokenization failure, an empty
/// list, or a malformed entry fails the whole batch with no output.
pub fn define_kinds_source(src: &str) -> (r: Result<String, CompileError>)
    ensures
        r matches Ok(out) ==> (lex_from(src@, 0) matches Ok(ts) && kind_list(ts) matches Ok(
            ds,
        ) && out@ == kinds_text(ds)),
        r matches Err(e) ==> match e {
            CompileError::Lex(le) => lex_from(src@, 0) == Err::<Seq<TokenV>, LexError>(le),
            CompileError::Grammar(ge) => (lex_from(src@, 0) matches Ok(ts) && kind_list(ts)
                == Err::<Seq<KindDefV>, GrammarError>(ge)),
        },
{
    match lex(src) {
        Err(e) => Err(CompileError::Lex(e)),
        Ok(tokens) => match define_kinds(&tokens) {
            Err(e) => Err(CompileError::Grammar(e)),
            Ok(out) => Ok(out),
        },
    }
}

/// Compiles an error list from source text: tokenizes, parses, and emits
/// one complete type definition per entry in input order; any tokenization
/// failure or malformed entry fails the whole batch with no output.
pub fn define_errors_source(src: &str) -> (r: Result<String, CompileError>)
    ensures
        r matches Ok(out) ==> (lex_from(src@, 0) matches Ok(ts) && error_list_from(ts, 0) matches Ok(
            ds,
        ) && out@ == errors_text(ds)),
        r matches Err(e) ==> match e {
            CompileError::Lex(le) => lex_from(src@, 0) == Err::<Seq<TokenV>, LexError>(le),
            CompileError::Grammar(ge) => (lex_from(src@, 0) matches Ok(ts) && error_list_from(ts, 0)
                == Err::<Seq<ErrorDefV>, GrammarError>(ge)),
        },
{
    match lex(src) {
        Err(e) => Err(CompileError::Lex(e)),
        Ok(tokens) => match define_errors(&tokens) {
            Err(e) => Err(CompileError::Grammar(e)),
            Ok(out) => Ok(out),
        },
    }
}

} // verus!
