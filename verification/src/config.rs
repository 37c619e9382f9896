//! The configuration parser: turns the raw token list attached to the
//! transformation invocation into a typed [`Config`].
//!
//! The accepted surface is a comma-separated list of `name = identifier`
//! pairs, with an optional trailing comma. The recognized names are `wrapper`
//! and `async_wrapper`; a repeated name is not an error — the last occurrence
//! wins. Anything else is a `ConfigurationError` anchored at the offending
//! token's index.

use vstd::prelude::*;
use vstd::string::StringExecFns;

use crate::diag::{Diagnostic, DiagnosticV, ErrSpan, ErrSpanV, ErrorKind};
use crate::res_dv;

verus! {

/// One raw configuration token, as the front end hands them over: an
/// identifier, `=`, `,`, or anything else (carried verbatim, recognized only
/// as malformed here).
#[derive(Clone, PartialEq, Eq, Debug)]
pub enum Token {
    Ident(String),
    Equals,
    Comma,
    Other(String),
}

/// Deep view of a `Token`.
pub enum TokenV {
    Ident(Seq<char>),
    Equals,
    Comma,
    Other(Seq<char>),
}

impl DeepView for Token {
    type V = TokenV;

    open spec fn deep_view(&self) -> TokenV {
        match self {
            Token::Ident(s) => TokenV::Ident(s.deep_view()),
            Token::Equals => TokenV::Equals,
            Token::Comma => TokenV::Comma,
            Token::Other(s) => TokenV::Other(s.deep_view()),
        }
    }
}

/// The typed configuration: an optional handler name for ordinary tests and an
/// optional handler name for async tests. Both independently optional; whether
/// a missing one is an error is decided only at each test declaration that
/// needs it.
#[derive(Clone, PartialEq, Eq, Debug)]
pub struct Config {
    pub wrapper: Option<String>,
    pub async_wrapper: Option<String>,
}

/// Deep view of a `Config`.
pub struct ConfigV {
    pub wrapper: Option<Seq<char>>,
    pub async_wrapper: Option<Seq<char>>,
}

impl DeepView for Config {
    type V = ConfigV;

    open spec fn deep_view(&self) -> ConfigV {
        ConfigV { wrapper: self.wrapper.deep_view(), async_wrapper: self.async_wrapper.deep_view() }
    }
}

/// A `ConfigurationError` anchored at token index `i`: an identifier was
/// expected there.
pub open spec fn spec_diag_expected_ident(i: int) -> DiagnosticV {
    DiagnosticV {
        kind: ErrorKind::ConfigurationError,
        span: ErrSpanV::ConfigToken(i),
        message: "wraptest: Expected an identifier"@,
        note: None,
    }
}

/// A `ConfigurationError` anchored at token index `i`: `=` was expected there.
pub open spec fn spec_diag_expected_equals(i: int) -> DiagnosticV {
    DiagnosticV {
        kind: ErrorKind::ConfigurationError,
        span: ErrSpanV::ConfigToken(i),
        message: "wraptest: Expected `=`"@,
        note: None,
    }
}

/// A `ConfigurationError` anchored at token index `i`: `,` was expected there.
pub open spec fn spec_diag_expected_comma(i: int) -> DiagnosticV {
    DiagnosticV {
        kind: ErrorKind::ConfigurationError,
        span: ErrSpanV::ConfigToken(i),
        message: "wraptest: Expected `,`"@,
        note: None,
    }
}

/// A `ConfigurationError` anchored at the unrecognized argument name at token
/// index `i`, with the usage hint.
pub open spec fn spec_diag_unexpected_parameter(i: int) -> DiagnosticV {
    DiagnosticV {
        kind: ErrorKind::ConfigurationError,
        span: ErrSpanV::ConfigToken(i),
        message: "wraptest: Unexpected parameter"@,
        note: Some(crate::diag::spec_usage()),
    }
}

/// Parsing the token list from index `i` on, with `acc` holding what the pairs
/// before `i` resolved to. Each step reads one `name = identifier` pair,
/// overwrites the named entry of `acc` (so of duplicate names the last wins),
/// and continues past a `,`; the list may end after any pair or after its
/// separating comma.
pub open spec fn spec_parse_args_from(toks: Seq<TokenV>, i: int, acc: ConfigV) -> Result<
    ConfigV,
    DiagnosticV,
>
    decreases toks.len() - i,
{
    if i >= toks.len() {
        Ok(acc)
    } else if !(toks[i] is Ident) {
        Err(spec_diag_expected_ident(i))
    } else if i + 1 >= toks.len() || !(toks[i + 1] is Equals) {
        Err(spec_diag_expected_equals(i + 1))
    } else if i + 2 >= toks.len() || !(toks[i + 2] is Ident) {
        Err(spec_diag_expected_ident(i + 2))
    } else {
        let name = toks[i]->Ident_0;
        let value = toks[i + 2]->Ident_0;
        if name == "wrapper"@ || name == "async_wrapper"@ {
            let acc2 = if name == "wrapper"@ {
                ConfigV { wrapper: Some(value), async_wrapper: acc.async_wrapper }
            } else {
                ConfigV { wrapper: acc.wrapper, async_wrapper: Some(value) }
            };
            if i + 3 >= toks.len() {
                Ok(acc2)
            } else if !(toks[i + 3] is Comma) {
                Err(spec_diag_expected_comma(i + 3))
            } else {
                spec_parse_args_from(toks, i + 4, acc2)
            }
        } else {
            Err(spec_diag_unexpected_parameter(i))
        }
    }
}

/// What parsing the whole raw token list yields.
pub open spec fn spec_parse_args(toks: Seq<TokenV>) -> Result<ConfigV, DiagnosticV> {
    spec_parse_args_from(toks, 0, ConfigV { wrapper: None, async_wrapper: None })
}

/// True of two strings with the same characters.
pub fn string_eq_lit(a: &String, b: &str) -> (r: bool)
    ensures
        r == (a@ == b@),
{
    let bs = String::from_str(b);
    *a == bs
}

/// Builds the `ConfigurationError` diagnostics of the parser.
fn config_error(i: usize, message: &str, with_usage: bool) -> (d: Diagnostic)
    ensures
        d.deep_view() == (DiagnosticV {
            kind: ErrorKind::ConfigurationError,
            span: ErrSpanV::ConfigToken(i as int),
            message: message@,
            note: if with_usage {
                Some(crate::diag::spec_usage())
            } else {
                None
            },
        }),
{
    Diagnostic {
        kind: ErrorKind::ConfigurationError,
        span: ErrSpan::ConfigToken(i),
        message: String::from_str(message),
        note: if with_usage {
            Some(crate::diag::usage())
        } else {
            None
        },
    }
}

/// Parses the raw configuration token list into a [`Config`]: a comma-
/// separated list of `name = identifier` pairs with `name` one of `wrapper`
/// and `async_wrapper`, of duplicates the last winning; on the first malformed
/// or unrecognized token, the `ConfigurationError` anchored there.
pub fn parse_args(tokens: &Vec<Token>) -> (r: Result<Config, Diagnostic>)
    ensures
        res_dv(r) == spec_parse_args(tokens.deep_view()),
{
    let ghost toks = tokens.deep_view();
    let mut wrapper: Option<String> = None;
    let mut async_wrapper: Option<String> = None;
    let mut i: usize = 0;
    loop
        invariant
            i <= tokens.len(),
            toks == tokens.deep_view(),
            toks.len() == tokens.len(),
            spec_parse_args(toks) == spec_parse_args_from(
                toks,
                i as int,
                ConfigV { wrapper: wrapper.deep_view(), async_wrapper: async_wrapper.deep_view() },
            ),
        decreases tokens.len() - i,
    {
        if i >= tokens.len() {
            return Ok(Config { wrapper, async_wrapper });
        }
        let name = match &tokens[i] {
            Token::Ident(s) => s,
            _ => {
                return Err(config_error(i, "wraptest: Expected an identifier", false));
            },
        };
        if i + 1 >= tokens.len() {
            return Err(config_error(i + 1, "wraptest: Expected `=`", false));
        }
        match &tokens[i + 1] {
            Token::Equals => {},
            _ => {
                return Err(config_error(i + 1, "wraptest: Expected `=`", false));
            },
        }
        if i + 2 >= tokens.len() {
            return Err(config_error(i + 2, "wraptest: Expected an identifier", false));
        }
        let value = match &tokens[i + 2] {
            Token::Ident(s) => s.clone(),
            _ => {
                return Err(config_error(i + 2, "wraptest: Expected an identifier", false));
            },
        };
        if string_eq_lit(name, "wrapper") {
            wrapper = Some(value);
        } else if string_eq_lit(name, "async_wrapper") {
            async_wrapper = Some(value);
        } else {
            return Err(config_error(i, "wraptest: Unexpected parameter", true));
        }
        if i + 3 >= tokens.len() {
            return Ok(Config { wrapper, async_wrapper });
        }
        match &tokens[i + 3] {
            Token::Comma => {},
            _ => {
                return Err(config_error(i + 3, "wraptest: Expected `,`", false));
            },
        }
        i = i + 4;
    }
}

} // verus!
