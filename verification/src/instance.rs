//! The runtime contract of a generated error type: construction with the
//! kind-derived class path and default message, builder-style overwrites,
//! display rendering, and conversion that wraps an upstream error as an
//! `"origin"` detail.

use vstd::prelude::*;
use crate::model::{KindDef, KindDefV, side_seq};
use crate::details::DetailMap;
use crate::numeral::{dec_seq, dec_string};
use crate::interop::{origin_value, serialize_cleared};

verus! {

/// Mathematical model of a runtime error value.
pub ghost struct ErrorValueV {
    pub kind: KindDefV,
    pub typename: Seq<char>,
    pub class: Seq<char>,
    pub message: Seq<char>,
    pub details: Option<Map<Seq<char>, serde_value::Value>>,
}

/// The class path of an error type: the kind's side, the kind's name and
/// the type's own name, joined by `::`.
pub open spec fn class_of(k: KindDefV, typename: Seq<char>) -> Seq<char> {
    side_seq(k.code) + "::"@ + k.name + "::"@ + typename
}

/// A freshly constructed error value: the class computed from the kind and
/// type name, the kind's description as the default message, no details.
pub open spec fn new_value(k: KindDefV, typename: Seq<char>) -> ErrorValueV {
    ErrorValueV {
        kind: k,
        typename: typename,
        class: class_of(k, typename),
        message: k.description,
        details: None,
    }
}

/// The error value with its message replaced.
pub open spec fn with_message(e: ErrorValueV, m: Seq<char>) -> ErrorValueV {
    ErrorValueV { message: m, ..e }
}

/// The error value with its details replaced.
pub open spec fn with_details(e: ErrorValueV, d: Map<Seq<char>, serde_value::Value>) -> ErrorValueV {
    ErrorValueV { details: Some(d), ..e }
}

/// The result of converting a source error: a fresh value of the target
/// kind and type name whose details are the source's details (or the empty
/// mapping) with the serialized origin stored under `"origin"`.
pub open spec fn converted(
    k: KindDefV,
    typename: Seq<char>,
    src_details: Option<Map<Seq<char>, serde_value::Value>>,
    origin: serde_value::Value,
) -> ErrorValueV {
    ErrorValueV {
        kind: k,
        typename: typename,
        class: class_of(k, typename),
        message: k.description,
        details: Some(
            (match src_details {
                Some(m) => m,
                None => Map::empty(),
            }).insert("origin"@, origin),
        ),
    }
}

/// The display rendering of an error value:
/// `"[{message_id}] {typename} ({code}): {message}"`.
pub open spec fn display_of(e: ErrorValueV) -> Seq<char> {
    "["@ + e.kind.message + "] "@ + e.typename + " ("@ + dec_seq(e.kind.code as nat) + "): "@
        + e.message
}

/// Conversion of a source error failed.
#[derive(Clone, Copy, Debug, PartialEq, Eq, Structural)]
pub enum ConvertError {
    /// The details-cleared source could not be serialized to a structured
    /// value.
    Serialization,
}

/// A cross-boundary error container: the generic shape an upstream error
/// arrives in for conversion, carrying its kind, class path, message and
/// optional details.
pub struct ErrorReport {
    pub kind: KindDef,
    pub class: String,
    pub message: String,
    pub details: Option<DetailMap>,
}

/// Mathematical model of a cross-boundary error container.
pub ghost struct ErrorReportV {
    pub kind: KindDefV,
    pub class: Seq<char>,
    pub message: Seq<char>,
    pub details: Option<Map<Seq<char>, serde_value::Value>>,
}

impl View for ErrorReport {
    type V = ErrorReportV;

    open spec fn view(&self) -> ErrorReportV {
        ErrorReportV {
            kind: self.kind@,
            class: self.class@,
            message: self.message@,
            details: match self.details {
                Some(d) => Some(d@),
                None => None,
            },
        }
    }
}

/// A runtime error value of a generated type: its class is computed once
/// at construction and never recomputed, its message defaults to the
/// kind's description, and its details are absent by default.
pub struct ErrorValue {
    kind: KindDef,
    typename: String,
    class: String,
    message: String,
    details: Option<DetailMap>,
}

impl View for ErrorValue {
    type V = ErrorValueV;

    closed spec fn view(&self) -> ErrorValueV {
        ErrorValueV {
            kind: self.kind@,
            typename: self.typename@,
            class: self.class@,
            message: self.message@,
            details: match self.details {
                Some(d) => Some(d@),
                None => None,
            },
        }
    }
}

impl ErrorValue {
    /// Constructs the default error value of the type named `typename`
    /// attached to `kind`.
    pub fn new(kind: KindDef, typename: String) -> (r: ErrorValue)
        ensures
            r@ == new_value(kind@, typename@),
    {
        let mut class = String::new();
        class.append(kind.side());
        class.append("::");
        class.append(kind.name.as_str());
        class.append("::");
        class.append(typename.as_str());
        let message = kind.description.clone();
        let r = ErrorValue { kind, typename, class, message, details: None };
        proof {
            assert(r@.class =~= class_of(r@.kind, r@.typename));
        }
        r
    }

    /// Replaces the message; any string is accepted.
    pub fn set_message(self, message: String) -> (r: ErrorValue)
        ensures
            r@ == with_message(self@, message@),
    {
        ErrorValue { message, ..self }
    }

    /// Replaces the details with the given mapping; no merge with any
    /// prior details takes place.
    pub fn set_details(self, details: DetailMap) -> (r: ErrorValue)
        ensures
            r@ == with_details(self@, details@),
    {
        ErrorValue { details: Some(details), ..self }
    }

    /// Constructs the converted value once the origin payload is known:
    /// the source's details (or the empty mapping) gain the payload under
    /// `"origin"`, and class and message are computed as in `new`.
    pub fn convert_with_origin(
        kind: KindDef,
        typename: String,
        src_details: Option<DetailMap>,
        origin: serde_value::Value,
    ) -> (r: ErrorValue)
        ensures
            r@ == converted(
                kind@,
                typename@,
                match src_details {
                    Some(d) => Some(d@),
                    None => None,
                },
                origin,
            ),
    {
        let ghost gsrc = src_details;
        let ghost sd = match gsrc {
            Some(d) => Some(d@),
            None => None,
        };
        let mut merged = match src_details {
            Some(d) => d,
            None => DetailMap::new(),
        };
        merged.insert("origin".to_owned(), origin);
        let base = ErrorValue::new(kind, typename);
        let r = base.set_details(merged);
        proof {
            assert(r@ == converted(r@.kind, r@.typename, sd, origin));
        }
        r
    }

    /// Converts a source error into this kind and type name: the source's
    /// details (or the empty mapping) gain the serialized, details-cleared
    /// source under `"origin"`, overwriting any prior `"origin"` entry;
    /// class and message are computed as in `new`, not inherited. A
    /// serialization failure would be returned as a catchable conversion
    /// error rather than losing the origin, but none can occur: the
    /// cleared source always serializes, so conversion succeeds on every
    /// input.
    pub fn convert(kind: KindDef, typename: String, source: ErrorReport) -> (r: Result<
        ErrorValue,
        ConvertError,
    >)
        ensures
            r is Ok,
            r matches Ok(e) ==> e@ == converted(
                kind@,
                typename@,
                source@.details,
                origin_value(source@.class, source@.message),
            ),
    {
        let ErrorReport { kind: _, class, message, details } = source;
        match serialize_cleared(&class, &message) {
            Ok(v) => Ok(ErrorValue::convert_with_origin(kind, typename, details, v)),
            Err(_) => Err(ConvertError::Serialization),
        }
    }

    /// The kind the value's type is attached to.
    pub fn kind(&self) -> (r: &KindDef)
        ensures
            r@ == self@.kind,
    {
        &self.kind
    }

    /// The name of the value's type.
    pub fn typename(&self) -> (r: &String)
        ensures
            r@ == self@.typename,
    {
        &self.typename
    }

    /// The class path computed at construction.
    pub fn class(&self) -> (r: &String)
        ensures
            r@ == self@.class,
    {
        &self.class
    }

    /// The current message.
    pub fn message(&self) -> (r: &String)
        ensures
            r@ == self@.message,
    {
        &self.message
    }

    /// The current details, if any are present.
    pub fn details(&self) -> (r: Option<&DetailMap>)
        ensures
            match r {
                Some(d) => self@.details == Some(d@),
                None => self@.details is None,
            },
    {
        match &self.details {
            Some(d) => Some(d),
            None => None,
        }
    }

    /// Renders the value for display:
    /// `"[{message_id}] {typename} ({code}): {message}"`.
    pub fn display_string(&self) -> (r: String)
        ensures
            r@ == display_of(self@),
    {
        let mut s = String::new();
        s.append("[");
        s.append(self.kind.message.as_str());
        s.append("] ");
        s.append(self.typename.as_str());
        s.append(" (");
        let c = dec_string(self.kind.code as u64);
        s.append(c.as_str());
        s.append("): ");
        s.append(self.message.as_str());
        proof {
            assert(s@ =~= display_of(self@));
        }
        s
    }
}

/// Setting the message twice keeps only the second message, and setting
/// the details twice keeps only the second mapping; neither touches the
/// class, the kind or the type name.
pub proof fn lemma_setters_overwrite(
    e: ErrorValueV,
    m1: Seq<char>,
    m2: Seq<char>,
    d1: Map<Seq<char>, serde_value::Value>,
    d2: Map<Seq<char>, serde_value::Value>,
)
    ensures
        with_message(with_message(e, m1), m2) == with_message(e, m2),
        with_details(with_details(e, d1), d2) == with_details(e, d2),
        with_message(e, m2).class == e.class,
        with_message(e, m2).kind == e.kind,
        with_message(e, m2).typename == e.typename,
        with_details(e, d2).class == e.class,
        with_details(e, d2).kind == e.kind,
        with_details(e, d2).typename == e.typename,
{
}

/// Converting a source whose details already hold an `"origin"` entry
/// replaces that entry with the newly serialized payload: the old payload
/// is gone, and no other key is touched.
pub proof fn lemma_convert_overwrites_origin(
    k: KindDefV,
    typename: Seq<char>,
    d: Map<Seq<char>, serde_value::Value>,
    origin: serde_value::Value,
)
    requires
        d.contains_key("origin"@),
    ensures
        converted(k, typename, Some(d), origin).details == Some(d.insert("origin"@, origin)),
        d.insert("origin"@, origin)["origin"@] == origin,
        d.insert("origin"@, origin).dom() == d.dom(),
        forall|key: Seq<char>| d.contains_key(key) && key != "origin"@ ==> d.insert(
            "origin"@,
            origin,
        )[key] == d[key],
{
    assert(d.insert("origin"@, origin).dom() =~= d.dom());
}

/// Two error types attached to the same kind get class paths that share
/// the kind's prefix and differ exactly in the trailing type-name segment.
pub proof fn lemma_classes_differ_in_typename(k: KindDefV, n1: Seq<char>, n2: Seq<char>)
    ensures
        class_of(k, n1) == (side_seq(k.code) + "::"@ + k.name + "::"@) + n1,
        class_of(k, n2) == (side_seq(k.code) + "::"@ + k.name + "::"@) + n2,
        n1 != n2 ==> class_of(k, n1) != class_of(k, n2),
{
    let p = side_seq(k.code) + "::"@ + k.name + "::"@;
    assert(class_of(k, n1) =~= p + n1);
    assert(class_of(k, n2) =~= p + n2);
    if class_of(k, n1) == class_of(k, n2) {
        assert((p + n1).skip(p.len() as int) =~= n1);
        assert((p + n2).skip(p.len() as int) =~= n2);
        assert(n1 == n2);
    }
}

} // verus!
