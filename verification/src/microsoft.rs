//! The structured remote-error schemas: the Microsoft-Graph-style response
//! error and the Azure-style recursive error body, with a verified parser
//! from a JSON value into the Azure-style schema.

use crate::json::{
    JsonVal, find_val, lemma_find_val_weight, weight, weight_list,
};
use crate::value::find_field;
use crate::{ErrPile, PileResult};
use vstd::prelude::*;
use vstd::string::StringExecFns;

verus! {

/// The inner part of a Microsoft-Graph-style response error.
#[derive(Debug)]
pub struct MSResponseErrorInner {
    pub code: String,
    pub inner_error: JsonVal,
    pub message: String,
}

/// A Microsoft-Graph-style response error body.
#[derive(Debug)]
pub struct MSResponseError {
    pub error: MSResponseErrorInner,
}

/// A Microsoft-Graph-style response: at most one of a successful value and an
/// error body.
#[derive(Debug)]
pub struct MSResponse<T> {
    pub value: Option<T>,
    pub error: Option<MSResponseError>,
}

/// The message reported when a response carries neither a value nor an error
/// body: the complaint followed by the rendering of such a response, which is
/// one fixed text since both fields are absent in that case.
pub open spec fn graph_neither_message() -> Seq<char> {
    "Could not parse Ok variant or the Err variant | Response: MSResponse { value: None, error: None }"@
}

impl<T> MSResponse<T> {
    /// Splits the response: an error body becomes the Graph-style error
    /// variant, otherwise the value is the success, and a response carrying
    /// neither is reported through the free-text fallback.
    pub fn into_pile_result(self) -> (r: PileResult<T>)
        ensures
            self.error matches Some(err) ==> (r matches Err(e) && e matches ErrPile::MS(m) && m
                == err),
            (self.value is Some && self.error is None) ==> (r matches Ok(rv) && rv
                == self.value->0),
            self.error is None && self.value is None ==> (r matches Err(e) && e
                matches ErrPile::Custom(m) && m@ == graph_neither_message()),
    {
        if let Some(err) = self.error {
            return Err(ErrPile::MS(err));
        }
        if let Some(val) = self.value {
            return Ok(val);
        }
        Err(ErrPile::Custom(
            String::from_str(
                "Could not parse Ok variant or the Err variant | Response: MSResponse { value: None, error: None }",
            ),
        ))
    }
}

/// An Azure-style error body: a single `error` object.
#[derive(Debug)]
pub struct AZError {
    pub error: AZErrorDetails,
}

/// The details of an Azure-style error: code and message are required,
/// the rest optional; `details` nests whole errors and `innererror` nests a
/// chain of inner errors.
#[derive(Debug)]
pub struct AZErrorDetails {
    pub code: String,
    pub message: String,
    pub target: Option<String>,
    pub details: Option<Vec<AZError>>,
    pub innererror: Option<AZErrorInner>,
}

/// A link of the Azure-style inner-error chain; every field is optional.
#[derive(Debug)]
pub struct AZErrorInner {
    pub code: Option<String>,
    pub message: Option<String>,
    pub innererror: Option<Box<AZErrorInner>>,
}

/// A warning reported beside an Azure-style result.
#[derive(Debug)]
pub struct AZWarning {
    pub code: String,
    pub message: String,
    pub target: Option<String>,
}

/// The mathematical value of an Azure-style error.
pub ghost struct AZErrorView {
    pub error: AZDetailsView,
}

/// The mathematical value of the details of an Azure-style error.
pub ghost struct AZDetailsView {
    pub code: Seq<char>,
    pub message: Seq<char>,
    pub target: Option<Seq<char>>,
    pub details: Option<Seq<AZErrorView>>,
    pub innererror: Option<Seq<AZInnerNodeView>>,
}

/// One link of the inner-error chain, as a mathematical value; the chain
/// itself is a sequence, outermost link first.
pub ghost struct AZInnerNodeView {
    pub code: Option<Seq<char>>,
    pub message: Option<Seq<char>>,
}

/// The text of an optional string, when there is one.
pub open spec fn str_opt_view(os: Option<String>) -> Option<Seq<char>> {
    match os {
        Some(s) => Some(s@),
        None => None,
    }
}

/// The mathematical value of an `AZError`.
pub open spec fn az_error_view(e: AZError) -> AZErrorView
    decreases e, 1int,
{
    AZErrorView { error: az_details_view(e.error) }
}

/// The mathematical value of an `AZErrorDetails`.
pub open spec fn az_details_view(d: AZErrorDetails) -> AZDetailsView
    decreases d, 0int,
{
    AZDetailsView {
        code: d.code@,
        message: d.message@,
        target: str_opt_view(d.target),
        details: match d.details {
            Some(list) => Some(az_list_view(list@)),
            None => None,
        },
        innererror: match d.innererror {
            Some(n) => Some(az_inner_view(n)),
            None => None,
        },
    }
}

/// The mathematical value of a list of `AZError`s.
pub open spec fn az_list_view(list: Seq<AZError>) -> Seq<AZErrorView>
    decreases list, 2int,
{
    if list.len() == 0 {
        Seq::empty()
    } else {
        seq![az_error_view(list[0])] + az_list_view(list.drop_first())
    }
}

/// The inner-error chain of an `AZErrorInner`, flattened outermost first.
pub open spec fn az_inner_view(n: AZErrorInner) -> Seq<AZInnerNodeView>
    decreases n,
{
    seq![
        AZInnerNodeView { code: str_opt_view(n.code), message: str_opt_view(n.message) },
    ] + match n.innererror {
        Some(b) => az_inner_view(*b),
        None => Seq::empty(),
    }
}

/// How an optional string field reads from an object: a missing field and a
/// null both stand for no string, a string stands for itself, and any other
/// value does not parse.
pub open spec fn opt_string_field(
    entries: Seq<(String, JsonVal)>,
    name: Seq<char>,
) -> Option<Option<Seq<char>>> {
    match find_val(entries, name) {
        None => Some(None),
        Some(JsonVal::Null) => Some(None),
        Some(JsonVal::Str(s)) => Some(Some(s@)),
        Some(_) => None,
    }
}

/// How a JSON value parses as an Azure-style error: an object whose `error`
/// field parses as the details; anything else does not parse.
pub open spec fn az_error_spec(v: JsonVal) -> Option<AZErrorView>
    decreases weight(v), 1int,
{
    match v {
        JsonVal::Obj(entries) => match find_val(entries@, "error"@) {
            Some(found) => {
                proof {
                    lemma_find_val_weight(entries@, "error"@);
                }
                match az_details_spec(found) {
                    Some(d) => Some(AZErrorView { error: d }),
                    None => None,
                }
            },
            None => None,
        },
        _ => None,
    }
}

/// How a JSON value parses as the details of an Azure-style error: an object
/// with required string fields `code` and `message`, an optional string
/// `target`, an optional array `details` of whole errors, and an optional
/// object `innererror`; unknown fields are ignored.
pub open spec fn az_details_spec(v: JsonVal) -> Option<AZDetailsView>
    decreases weight(v), 0int,
{
    match v {
        JsonVal::Obj(entries) => match (find_val(entries@, "code"@), find_val(
            entries@,
            "message"@,
        )) {
            (Some(JsonVal::Str(code)), Some(JsonVal::Str(message))) => match opt_string_field(
                entries@,
                "target"@,
            ) {
                Some(target) => {
                    let details = match find_val(entries@, "details"@) {
                        None => Some(None),
                        Some(JsonVal::Null) => Some(None),
                        Some(JsonVal::Arr(items)) => {
                            proof {
                                lemma_find_val_weight(entries@, "details"@);
                            }
                            match az_list_spec(items@) {
                                Some(list) => Some(Some(list)),
                                None => None,
                            }
                        },
                        Some(_) => None,
                    };
                    match details {
                        Some(details) => {
                            let innererror = match find_val(entries@, "innererror"@) {
                                None => Some(None),
                                Some(JsonVal::Null) => Some(None),
                                Some(found) => {
                                    proof {
                                        lemma_find_val_weight(entries@, "innererror"@);
                                    }
                                    match az_inner_spec(found) {
                                        Some(chain) => Some(Some(chain)),
                                        None => None,
                                    }
                                },
                            };
                            match innererror {
                                Some(innererror) => Some(
                                    AZDetailsView {
                                        code: code@,
                                        message: message@,
                                        target,
                                        details,
                                        innererror,
                                    },
                                ),
                                None => None,
                            }
                        },
                        None => None,
                    }
                },
                None => None,
            },
            _ => None,
        },
        _ => None,
    }
}

/// How a sequence of JSON values parses as a list of Azure-style errors:
/// every item must parse.
pub open spec fn az_list_spec(items: Seq<JsonVal>) -> Option<Seq<AZErrorView>>
    decreases weight_list(items), 2int,
{
    if items.len() == 0 {
        Some(Seq::empty())
    } else {
        match az_error_spec(items[0]) {
            Some(e) => match az_list_spec(items.drop_first()) {
                Some(rest) => Some(seq![e] + rest),
                None => None,
            },
            None => None,
        }
    }
}

/// How a JSON value parses as a link of the inner-error chain: an object with
/// optional string fields `code` and `message` and an optional nested
/// `innererror` object; the result is the flattened chain.
pub open spec fn az_inner_spec(v: JsonVal) -> Option<Seq<AZInnerNodeView>>
    decreases weight(v),
{
    match v {
        JsonVal::Obj(entries) => match (opt_string_field(entries@, "code"@), opt_string_field(
            entries@,
            "message"@,
        )) {
            (Some(code), Some(message)) => match find_val(entries@, "innererror"@) {
                None => Some(seq![AZInnerNodeView { code, message }]),
                Some(JsonVal::Null) => Some(seq![AZInnerNodeView { code, message }]),
                Some(found) => {
                    proof {
                        lemma_find_val_weight(entries@, "innererror"@);
                    }
                    match az_inner_spec(found) {
                        Some(rest) => Some(seq![AZInnerNodeView { code, message }] + rest),
                        None => None,
                    }
                },
            },
            _ => None,
        },
        _ => None,
    }
}

/// Reads an optional string field from an object, executably.
fn parse_opt_string(entries: &Vec<(String, JsonVal)>, name: &String) -> (r: Option<Option<String>>)
    ensures
        match r {
            Some(os) => opt_string_field(entries@, name@) == Some(str_opt_view(os)),
            None => opt_string_field(entries@, name@) is None,
        },
{
    match find_field(entries, name) {
        None => Some(None),
        Some(found) => match found {
            JsonVal::Null => Some(None),
            JsonVal::Str(s) => Some(Some(s.clone())),
            _ => None,
        },
    }
}

/// Parses a JSON value as an Azure-style error, exactly as `az_error_spec`
/// reads it.
pub fn parse_az_error(v: &JsonVal) -> (r: Option<AZError>)
    ensures
        r matches Some(e) ==> az_error_spec(*v) == Some(az_error_view(e)),
        r is None ==> az_error_spec(*v) is None,
    decreases weight(*v), 1int,
{
    match v {
        JsonVal::Obj(entries) => {
            let name = String::from_str("error");
            match find_field(entries, &name) {
                Some(found) => {
                    proof {
                        lemma_find_val_weight(entries@, "error"@);
                    }
                    match parse_az_details(found) {
                        Some(d) => Some(AZError { error: d }),
                        None => None,
                    }
                },
                None => None,
            }
        },
        _ => None,
    }
}

/// Parses a JSON value as the details of an Azure-style error.
fn parse_az_details(v: &JsonVal) -> (r: Option<AZErrorDetails>)
    ensures
        r matches Some(d) ==> az_details_spec(*v) == Some(az_details_view(d)),
        r is None ==> az_details_spec(*v) is None,
    decreases weight(*v), 0int,
{
    let entries = match v {
        JsonVal::Obj(entries) => entries,
        _ => {
            return None;
        },
    };
    let code_name = String::from_str("code");
    let code = match find_field(entries, &code_name) {
        Some(JsonVal::Str(c)) => c.clone(),
        _ => {
            return None;
        },
    };
    let message_name = String::from_str("message");
    let message = match find_field(entries, &message_name) {
        Some(JsonVal::Str(m)) => m.clone(),
        _ => {
            return None;
        },
    };
    let target_name = String::from_str("target");
    let target = match parse_opt_string(entries, &target_name) {
        Some(t) => t,
        None => {
            return None;
        },
    };
    let details_name = String::from_str("details");
    let details = match find_field(entries, &details_name) {
        None => None,
        Some(found) => match found {
            JsonVal::Null => None,
            JsonVal::Arr(items) => {
                proof {
                    lemma_find_val_weight(entries@, "details"@);
                    assert(items@.skip(0) =~= items@);
                }
                match parse_az_list(items, 0) {
                    Some(list) => Some(list),
                    None => {
                        return None;
                    },
                }
            },
            _ => {
                return None;
            },
        },
    };
    let inner_name = String::from_str("innererror");
    let innererror = match find_field(entries, &inner_name) {
        None => None,
        Some(found) => match found {
            JsonVal::Null => None,
            _ => {
                proof {
                    lemma_find_val_weight(entries@, "innererror"@);
                }
                match parse_az_inner(found) {
                    Some(n) => Some(n),
                    None => {
                        return None;
                    },
                }
            },
        },
    };
    Some(AZErrorDetails { code, message, target, details, innererror })
}

/// Parses the items of a `details` array from `start` on; every item must
/// parse as a whole Azure-style error.
fn parse_az_list(items: &Vec<JsonVal>, start: usize) -> (r: Option<Vec<AZError>>)
    requires
        start <= items@.len(),
    ensures
        r matches Some(list) ==> az_list_spec(items@.skip(start as int)) == Some(
            az_list_view(list@),
        ),
        r is None ==> az_list_spec(items@.skip(start as int)) is None,
    decreases weight_list(items@.skip(start as int)), 2int,
{
    if start == items.len() {
        proof {
            assert(items@.skip(start as int) =~= Seq::<JsonVal>::empty());
        }
        Some(Vec::new())
    } else {
        proof {
            assert(items@.skip(start as int)[0] == items@[start as int]);
            assert(items@.skip(start as int).drop_first() =~= items@.skip(start as int + 1));
        }
        let head = match parse_az_error(&items[start]) {
            Some(e) => e,
            None => {
                return None;
            },
        };
        match parse_az_list(items, start + 1) {
            Some(mut rest) => {
                let ghost rest0 = rest@;
                rest.insert(0, head);
                proof {
                    assert(rest@[0] == head);
                    assert(rest@.drop_first() =~= rest0);
                }
                Some(rest)
            },
            None => None,
        }
    }
}

/// Parses a JSON value as a link of the inner-error chain.
fn parse_az_inner(v: &JsonVal) -> (r: Option<AZErrorInner>)
    ensures
        r matches Some(n) ==> az_inner_spec(*v) == Some(az_inner_view(n)),
        r is None ==> az_inner_spec(*v) is None,
    decreases weight(*v),
{
    let entries = match v {
        JsonVal::Obj(entries) => entries,
        _ => {
            return None;
        },
    };
    let code_name = String::from_str("code");
    let code = match parse_opt_string(entries, &code_name) {
        Some(c) => c,
        None => {
            return None;
        },
    };
    let message_name = String::from_str("message");
    let message = match parse_opt_string(entries, &message_name) {
        Some(m) => m,
        None => {
            return None;
        },
    };
    let inner_name = String::from_str("innererror");
    match find_field(entries, &inner_name) {
        None => Some(AZErrorInner { code, message, innererror: None }),
        Some(found) => match found {
            JsonVal::Null => Some(AZErrorInner { code, message, innererror: None }),
            _ => {
                proof {
                    lemma_find_val_weight(entries@, "innererror"@);
                }
                match parse_az_inner(found) {
                    Some(nested) => Some(
                        AZErrorInner { code, message, innererror: Some(Box::new(nested)) },
                    ),
                    None => None,
                }
            },
        },
    }
}

/// The display text of the details: the code and the message, joined by a
/// dash.
pub open spec fn az_display_spec(d: AZErrorDetails) -> Seq<char> {
    d.code@ + " - "@ + d.message@
}

/// The display text of an inner-error link: the code and the message, either
/// standing empty when absent, joined by a dash.
pub open spec fn az_inner_display_spec(n: AZErrorInner) -> Seq<char> {
    (match n.code {
        Some(c) => c@,
        None => Seq::empty(),
    }) + " - "@ + (match n.message {
        Some(m) => m@,
        None => Seq::empty(),
    })
}

impl AZError {
    /// The display text of the whole error: that of its details.
    pub fn display_message(&self) -> (r: String)
        ensures
            r@ == az_display_spec(self.error),
    {
        self.error.display_message()
    }

    /// The chained cause: the details the error wraps.
    pub fn source(&self) -> (r: &AZErrorDetails)
        ensures
            *r == self.error,
    {
        &self.error
    }
}

impl AZErrorDetails {
    /// The display text of the details.
    pub fn display_message(&self) -> (r: String)
        ensures
            r@ == az_display_spec(*self),
    {
        let mut out = self.code.clone();
        out.append(" - ");
        out.append(self.message.as_str());
        out
    }

    /// The chained cause: the inner error, when there is one.
    pub fn source(&self) -> (r: Option<&AZErrorInner>)
        ensures
            match r {
                Some(n) => self.innererror == Some(*n),
                None => self.innererror is None,
            },
    {
        match &self.innererror {
            Some(n) => Some(n),
            None => None,
        }
    }
}

impl AZErrorInner {
    /// The display text of an inner-error link.
    pub fn display_message(&self) -> (r: String)
        ensures
            r@ == az_inner_display_spec(*self),
    {
        let mut out = match &self.code {
            Some(c) => c.clone(),
            None => String::new(),
        };
        out.append(" - ");
        match &self.message {
            Some(m) => out.append(m.as_str()),
            None => {},
        }
        out
    }

    /// The chained cause: the next link of the inner-error chain, when there
    /// is one.
    pub fn source(&self) -> (r: Option<&AZErrorInner>)
        ensures
            match r {
                Some(n) => self.innererror matches Some(b) && *b == *n,
                None => self.innererror is None,
            },
    {
        match &self.innererror {
            Some(b) => Some(&**b),
            None => None,
        }
    }
}

} // verus!
