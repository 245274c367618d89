//! Model of a derive-style generator that equips an enum with database
//! text-column conversions.
//!
//! Given an enum declaration annotated `#[fromtosql(sql_type = SomeType)]`,
//! the generator emits two trait-implementation blocks: one that writes an
//! enum value to a text column by way of its string form, and one that reads
//! a text column back into an enum value, turning an unknown text into a
//! recoverable error rather than a crash.
//!
//! The declaration is modelled by [`decl::EnumDecl`]: plain names for the
//! enum, its unit variants and its attributes. Token-level handling of real
//! source text is left to a thin unverified front end; everything the
//! generator decides — which attribute is recognized, which companion type
//! is chosen, what text is emitted, and how the emitted conversions behave
//! at the consumer's runtime — is stated and proved here.

use vstd::prelude::*;

pub mod convert;
pub mod decl;
pub mod emit;

use decl::Attr;
use decl::EnumDecl;
use decl::Scan;
use decl::scan_attrs;
use decl::text_eq;
use emit::Generated;
use emit::error_message;
use emit::from_sql_template;
use emit::generate_from_to_sql;
use emit::to_sql_template;
use emit::usage_message;

verus! {

/// Why generation stopped.
pub enum GenError {
    /// A recognized attribute's arguments did not read back as identifiers
    /// separated by `=`; carries the argument reader's own message.
    MalformedArguments(String),
    /// No recognized attribute contributed a companion type: the attribute
    /// is absent altogether, or present under a different key. The fixed
    /// usage diagnostic applies.
    MissingAttribute,
}

impl GenError {
    /// The diagnostic text for this error.
    pub fn message(&self) -> (m: String)
        ensures
            m@ == match *self {
                GenError::MalformedArguments(s) => s@,
                GenError::MissingAttribute => usage_message(),
            },
    {
        match self {
            GenError::MalformedArguments(s) => s.clone(),
            GenError::MissingAttribute => error_message(),
        }
    }
}

/// The scan outcome a part-way walk of the attributes stands for: the first
/// malformed recognized attribute's message wins; otherwise the first
/// contributed companion type.
spec fn walk_outcome(malformed: Option<String>, found: Option<String>) -> Scan {
    match malformed {
        Option::Some(m) => Scan::Malformed(m@),
        Option::None => match found {
            Option::Some(v) => Scan::Found(v@),
            Option::None => Scan::Missing,
        },
    }
}

/// The generator: decide the companion type from the declaration's
/// attributes and emit the two implementation blocks, or report why not.
///
/// Two policy points are settled here rather than left open. A declaration
/// that is not an enum of plain variants cannot even be stated as an
/// [`EnumDecl`], so non-enum input is rejected outright by the front end
/// that builds the declaration. And a recognized attribute whose arguments
/// do not read back stops generation with the argument reader's own message,
/// carried in [`GenError::MalformedArguments`], instead of stopping the host
/// outright.
pub fn describe(decl: &EnumDecl) -> (r: Result<Generated, GenError>)
    ensures
        match r {
            Ok(g) => {
                &&& scan_attrs(decl.attrs@) matches Scan::Found(att)
                &&& g.to_sql_impl@ == to_sql_template(att, decl.ident@)
                &&& g.from_sql_impl@ == from_sql_template(att, decl.ident@)
            },
            Err(e) => match e {
                GenError::MalformedArguments(m) => scan_attrs(decl.attrs@) == Scan::Malformed(m@),
                GenError::MissingAttribute => scan_attrs(decl.attrs@) == Scan::Missing,
            },
        },
{
    let n = decl.attrs.len();
    let mut malformed: Option<String> = None;
    let mut found: Option<String> = None;
    let mut i: usize = 0;
    while i < n
        invariant
            i <= n,
            n == decl.attrs@.len(),
            walk_outcome(malformed, found) == scan_attrs(decl.attrs@.subrange(0, i as int)),
        decreases n - i,
    {
        let a: &Attr = &decl.attrs[i];
        if malformed.is_none() && text_eq(&a.path, "fromtosql") {
            match &a.args {
                Result::Err(m) => {
                    malformed = Some(m.clone());
                },
                Result::Ok(list) => {
                    if found.is_none() && list.len() > 0 && text_eq(&list[0], "sql_type") {
                        found = Some(list[list.len() - 1].clone());
                    }
                },
            }
        }
        proof {
            let prefix = decl.attrs@.subrange(0, (i + 1) as int);
            assert(prefix.drop_last() =~= decl.attrs@.subrange(0, i as int));
            assert(prefix.last() == decl.attrs@[i as int]);
        }
        i = i + 1;
    }
    proof {
        assert(decl.attrs@.subrange(0, n as int) =~= decl.attrs@);
    }
    if let Some(m) = malformed {
        return Err(GenError::MalformedArguments(m));
    }
    match found {
        Some(att) => Ok(generate_from_to_sql(att.as_str(), decl.ident.as_str())),
        None => Err(GenError::MissingAttribute),
    }
}

} // verus!
