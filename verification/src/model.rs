//! The in-memory definition model: one record per parsed kind entry and one
//! per parsed error entry.

use vstd::prelude::*;

verus! {

/// Mathematical model of a kind definition.
pub ghost struct KindDefV {
    pub name: Seq<char>,
    pub message: Seq<char>,
    pub code: u16,
    pub description: Seq<char>,
}

/// One error-kind definition: a stable identifier, a message id, a numeric
/// code, and a human-readable description. Immutable once parsed.
pub struct KindDef {
    pub name: String,
    pub message: String,
    pub code: u16,
    pub description: String,
}

impl View for KindDef {
    type V = KindDefV;

    open spec fn view(&self) -> KindDefV {
        KindDefV {
            name: self.name@,
            message: self.message@,
            code: self.code,
            description: self.description@,
        }
    }
}

/// The owning side of a kind: codes up to 499 classify client errors, codes
/// from 500 on classify server errors.
pub open spec fn side_seq(code: u16) -> Seq<char> {
    if code <= 499 {
        "Client"@
    } else {
        "Server"@
    }
}

impl KindDef {
    /// The kind's stable identifier.
    pub fn name(&self) -> (r: &String)
        ensures
            r@ == self@.name,
    {
        &self.name
    }

    /// The message id attached to the kind.
    pub fn message_id(&self) -> (r: &String)
        ensures
            r@ == self@.message,
    {
        &self.message
    }

    /// The kind's numeric code.
    pub fn code(&self) -> (r: u16)
        ensures
            r == self@.code,
    {
        self.code
    }

    /// The kind's human-readable description.
    pub fn description(&self) -> (r: &String)
        ensures
            r@ == self@.description,
    {
        &self.description
    }

    /// Which side the kind classifies: codes up to 499 are client errors,
    /// codes from 500 on are server errors.
    pub fn side(&self) -> (r: &'static str)
        ensures
            r@ == side_seq(self@.code),
    {
        if self.code <= 499 {
            "Client"
        } else {
            "Server"
        }
    }
}

/// Mathematical model of an error definition.
pub ghost struct ErrorDefV {
    pub name: Seq<char>,
    pub kind_path: Seq<char>,
}

/// One error-type definition: the generated type's name and the path of the
/// kind constant it references.
pub struct ErrorDef {
    pub name: String,
    pub kind_path: String,
}

impl View for ErrorDef {
    type V = ErrorDefV;

    open spec fn view(&self) -> ErrorDefV {
        ErrorDefV { name: self.name@, kind_path: self.kind_path@ }
    }
}

/// The sequence of kind models underlying a definition vector.
pub open spec fn kind_views(ds: Seq<KindDef>) -> Seq<KindDefV> {
    ds.map_values(|d: KindDef| d@)
}

/// The sequence of error models underlying a definition vector.
pub open spec fn error_views(ds: Seq<ErrorDef>) -> Seq<ErrorDefV> {
    ds.map_values(|d: ErrorDef| d@)
}

} // verus!
