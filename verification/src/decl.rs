//! The declaration handed to the generator, as plain values, and the scan
//! that decides the companion type from its attributes.

use vstd::prelude::*;

verus! {

/// One attribute attached to the declaration.
///
/// `path` is the attribute's name as written; `fromtosql` is the one the
/// generator recognizes. `args` is the outcome of reading the attribute's
/// parenthesised arguments as a non-empty run of identifiers separated by
/// `=`, in source order: `Err(msg)` when the arguments do not have that
/// shape, where `msg` is the argument reader's own message.
pub struct Attr {
    pub path: String,
    pub args: Result<Vec<String>, String>,
}

/// An enum declaration: its name, its unit variants' names in source order,
/// and its attached attributes in source order. Only enums made of plain,
/// data-less variants are representable; any other declaration is rejected
/// before it reaches the generator.
pub struct EnumDecl {
    pub ident: String,
    pub variants: Vec<String>,
    pub attrs: Vec<Attr>,
}

/// The attribute name the generator scans for.
pub open spec fn recognized_name() -> Seq<char> {
    "fromtosql"@
}

/// The one argument key the generator understands.
pub open spec fn companion_key() -> Seq<char> {
    "sql_type"@
}

pub open spec fn is_recognized(a: Attr) -> bool {
    a.path@ == recognized_name()
}

/// A recognized attribute contributes a companion type when its arguments
/// read back cleanly and the first identifier is the key `sql_type`; what it
/// contributes is the last identifier. (A lone `sql_type` with no `=` thus
/// contributes the key itself.)
pub open spec fn collects(a: Attr) -> bool {
    &&& is_recognized(a)
    &&& a.args is Ok
    &&& a.args->Ok_0@.len() > 0
    &&& a.args->Ok_0@[0]@ == companion_key()
}

pub open spec fn collected_value(a: Attr) -> Seq<char> {
    a.args->Ok_0@[a.args->Ok_0@.len() - 1]@
}

/// What scanning the attributes decides.
pub enum Scan {
    /// A recognized attribute's arguments did not read back; the field is
    /// the argument reader's message for the first such attribute. The
    /// generator stops on it even when an earlier attribute already
    /// contributed a companion type.
    Malformed(Seq<char>),
    /// The companion type: contributed by the first recognized attribute
    /// keyed `sql_type`.
    Found(Seq<char>),
    /// No recognized attribute contributed a companion type.
    Missing,
}

/// The scan over the attributes in source order.
pub open spec fn scan_attrs(attrs: Seq<Attr>) -> Scan
    decreases attrs.len(),
{
    if attrs.len() == 0 {
        Scan::Missing
    } else {
        let prev = scan_attrs(attrs.drop_last());
        let a = attrs.last();
        match prev {
            Scan::Malformed(m) => Scan::Malformed(m),
            Scan::Found(v) => if is_recognized(a) && a.args is Err {
                Scan::Malformed(a.args->Err_0@)
            } else {
                Scan::Found(v)
            },
            Scan::Missing => if is_recognized(a) && a.args is Err {
                Scan::Malformed(a.args->Err_0@)
            } else if collects(a) {
                Scan::Found(collected_value(a))
            } else {
                Scan::Missing
            },
        }
    }
}

/// With every recognized attribute reading back cleanly, the scan never
/// stops malformed.
pub proof fn lemma_clean_attrs_not_malformed(attrs: Seq<Attr>)
    requires
        forall|i: int|
            0 <= i < attrs.len() && is_recognized(#[trigger] attrs[i]) ==> attrs[i].args is Ok,
    ensures
        !(scan_attrs(attrs) is Malformed),
    decreases attrs.len(),
{
    if attrs.len() > 0 {
        assert(forall|i: int|
            0 <= i < attrs.drop_last().len() && is_recognized(#[trigger] attrs.drop_last()[i])
                ==> attrs.drop_last()[i].args is Ok);
        lemma_clean_attrs_not_malformed(attrs.drop_last());
        assert(attrs.last() == attrs[attrs.len() - 1]);
    }
}

/// Law: a declaration whose recognized attributes all read back cleanly,
/// at least one of them keyed `sql_type`, always yields a companion type.
pub proof fn lemma_valid_attribute_found(attrs: Seq<Attr>)
    requires
        forall|i: int|
            0 <= i < attrs.len() && is_recognized(#[trigger] attrs[i]) ==> attrs[i].args is Ok,
        exists|i: int| 0 <= i < attrs.len() && collects(#[trigger] attrs[i]),
    ensures
        scan_attrs(attrs) is Found,
    decreases attrs.len(),
{
    lemma_clean_attrs_not_malformed(attrs);
    let w = choose|i: int| 0 <= i < attrs.len() && collects(#[trigger] attrs[i]);
    if w < attrs.len() - 1 {
        assert(forall|i: int|
            0 <= i < attrs.drop_last().len() && is_recognized(#[trigger] attrs.drop_last()[i])
                ==> attrs.drop_last()[i].args is Ok);
        assert(attrs.drop_last()[w] == attrs[w]);
        lemma_valid_attribute_found(attrs.drop_last());
    } else {
        lemma_clean_attrs_not_malformed(attrs.drop_last());
        assert(attrs.last() == attrs[attrs.len() - 1]);
    }
}

/// Law: with no recognized attribute at all, the scan reports the attribute
/// missing.
pub proof fn lemma_no_attribute_missing(attrs: Seq<Attr>)
    requires
        forall|i: int| 0 <= i < attrs.len() ==> !is_recognized(#[trigger] attrs[i]),
    ensures
        scan_attrs(attrs) == Scan::Missing,
    decreases attrs.len(),
{
    if attrs.len() > 0 {
        lemma_no_attribute_missing(attrs.drop_last());
        assert(attrs.last() == attrs[attrs.len() - 1]);
    }
}

/// Law: recognized attributes that read back cleanly but carry only other
/// keys leave the scan exactly as a missing attribute would.
pub proof fn lemma_wrong_key_missing(attrs: Seq<Attr>)
    requires
        forall|i: int|
            0 <= i < attrs.len() && is_recognized(#[trigger] attrs[i])
                ==> attrs[i].args is Ok && !collects(attrs[i]),
    ensures
        scan_attrs(attrs) == Scan::Missing,
    decreases attrs.len(),
{
    if attrs.len() > 0 {
        assert(forall|i: int|
            0 <= i < attrs.drop_last().len() && is_recognized(#[trigger] attrs.drop_last()[i])
                ==> attrs.drop_last()[i].args is Ok && !collects(attrs.drop_last()[i]));
        lemma_wrong_key_missing(attrs.drop_last());
        assert(attrs.last() == attrs[attrs.len() - 1]);
    }
}

/// Text equality between an owned and a borrowed string.
pub(crate) fn text_eq(a: &String, b: &str) -> (r: bool)
    ensures
        r == (a@ == b@),
{
    let owned: String = b.to_owned();
    *a == owned
}

} // verus!
