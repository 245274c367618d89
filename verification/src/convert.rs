//! What the emitted implementation blocks do at the consumer's runtime,
//! modelled over the variant names: an enum value is the index of its
//! variant in the declaration, and its text form is that variant's name.
//!
//! The write half appends the variant's text to the output buffer and
//! reports a non-null write; it cannot fail. The read half looks the
//! column's text up among the variant names and, when none matches, returns
//! an error message rather than stopping the program.

use vstd::prelude::*;
use vstd::string::StrSliceExecFns;
use vstd::string::StringExecFns;

use crate::decl::text_eq;

verus! {

/// The index of the first variant whose name is the given text, if any.
pub open spec fn first_match(variants: Seq<String>, text: Seq<char>) -> Option<int>
    decreases variants.len(),
{
    if variants.len() == 0 {
        Option::None
    } else if variants[0]@ == text {
        Option::Some(0int)
    } else {
        match first_match(variants.drop_first(), text) {
            Option::Some(i) => Option::Some(i + 1),
            Option::None => Option::None,
        }
    }
}

/// What `first_match` returns: the least index carrying the text, or none
/// when no variant carries it.
pub proof fn lemma_first_match_characterization(variants: Seq<String>, text: Seq<char>)
    ensures
        match first_match(variants, text) {
            Option::Some(i) => {
                &&& 0 <= i < variants.len()
                &&& variants[i]@ == text
                &&& forall|j: int| 0 <= j < i ==> variants[j]@ != text
            },
            Option::None => forall|j: int| 0 <= j < variants.len() ==> variants[j]@ != text,
        },
    decreases variants.len(),
{
    if variants.len() > 0 && variants[0]@ != text {
        lemma_first_match_characterization(variants.drop_first(), text);
        assert(forall|j: int|
            0 < j < variants.len() ==> variants[j] == variants.drop_first()[j - 1]);
    }
}

/// Conversely, an index that carries the text and has no earlier carrier is
/// the one `first_match` returns.
pub proof fn lemma_first_match_complete(variants: Seq<String>, text: Seq<char>, v: int)
    requires
        0 <= v < variants.len(),
        variants[v]@ == text,
        forall|j: int| 0 <= j < v ==> variants[j]@ != text,
    ensures
        first_match(variants, text) == Option::Some(v),
    decreases variants.len(),
{
    if v > 0 {
        assert(forall|j: int|
            0 < j < variants.len() ==> variants[j] == variants.drop_first()[j - 1]);
        lemma_first_match_complete(variants.drop_first(), text, v - 1);
    }
}

/// Law: reading back a variant's own text finds that variant again, whenever
/// the variants' texts are pairwise distinct — which is what a working
/// to-text / from-text pair on the consumer's enum amounts to. With two
/// variants of one name, the earlier one is found.
pub proof fn lemma_round_trip(variants: Seq<String>, v: int)
    requires
        0 <= v < variants.len(),
        forall|i: int, j: int|
            0 <= i < j < variants.len() ==> (#[trigger] variants[i])@ != (#[trigger] variants[j])@,
    ensures
        first_match(variants, variants[v]@) == Option::Some(v),
{
    lemma_first_match_complete(variants, variants[v]@, v);
}

/// One character of a text's debug form: the quote, the backslash and the
/// common control characters are written out as escapes; any other
/// character stands for itself.
pub open spec fn escaped_char(c: char) -> Seq<char> {
    if c == '"' {
        seq!['\\', '"']
    } else if c == '\\' {
        seq!['\\', '\\']
    } else if c == '\n' {
        seq!['\\', 'n']
    } else if c == '\t' {
        seq!['\\', 't']
    } else if c == '\r' {
        seq!['\\', 'r']
    } else {
        seq![c]
    }
}

/// A text with each character escaped.
pub open spec fn escaped_text(t: Seq<char>) -> Seq<char>
    decreases t.len(),
{
    if t.len() == 0 {
        Seq::empty()
    } else {
        escaped_text(t.drop_last()) + escaped_char(t.last())
    }
}

/// The debug form of a text: quoted, with the escapes written out.
pub open spec fn debug_text(t: Seq<char>) -> Seq<char> {
    seq!['"'] + escaped_text(t) + seq!['"']
}

/// The message carried by the error the read half returns on a text that
/// names no variant.
pub open spec fn read_error_message(t: Seq<char>) -> Seq<char> {
    "Error converting from PgValue "@ + debug_text(t)
}

/// The debug form of a text, built character by character.
pub fn debug_quoted(text: &str) -> (r: String)
    ensures
        r@ == debug_text(text@),
{
    let mut r = String::new();
    r.append("\"");
    proof {
        reveal_strlit("\"");
        assert(r@ =~= seq!['"']);
    }
    let n = text.unicode_len();
    let mut i: usize = 0;
    while i < n
        invariant
            i <= n,
            n == text@.len(),
            r@ == seq!['"'] + escaped_text(text@.subrange(0, i as int)),
        decreases n - i,
    {
        let c = text.get_char(i);
        if c == '"' {
            r.append("\\\"");
            proof {
                reveal_strlit("\\\"");
            }
        } else if c == '\\' {
            r.append("\\\\");
            proof {
                reveal_strlit("\\\\");
            }
        } else if c == '\n' {
            r.append("\\n");
            proof {
                reveal_strlit("\\n");
            }
        } else if c == '\t' {
            r.append("\\t");
            proof {
                reveal_strlit("\\t");
            }
        } else if c == '\r' {
            r.append("\\r");
            proof {
                reveal_strlit("\\r");
            }
        } else {
            let piece = text.substring_char(i, i + 1);
            r.append(piece);
        }
        proof {
            let prefix = text@.subrange(0, (i + 1) as int);
            assert(prefix.drop_last() =~= text@.subrange(0, i as int));
            assert(prefix.last() == text@[i as int]);
            assert(r@ =~= seq!['"'] + escaped_text(prefix));
        }
        i = i + 1;
    }
    proof {
        assert(text@.subrange(0, n as int) =~= text@);
    }
    r.append("\"");
    proof {
        reveal_strlit("\"");
        assert(r@ =~= debug_text(text@));
    }
    r
}

/// The write half: append the variant's text to the output buffer; the
/// returned flag says whether a null value was written, and it never is.
pub fn write_variant(variants: &Vec<String>, v: usize, out: &mut String) -> (is_null: bool)
    requires
        v < variants@.len(),
    ensures
        final(out)@ == old(out)@ + variants@[v as int]@,
        !is_null,
{
    out.append(variants[v].as_str());
    false
}

/// The read half: the first variant whose name is the column's text, or an
/// error carrying the fixed message around the text's debug form. It never
/// stops the program.
pub fn read_variant(variants: &Vec<String>, text: &str) -> (r: Result<usize, String>)
    ensures
        match r {
            Ok(v) => first_match(variants@, text@) == Option::Some(v as int),
            Err(m) => {
                &&& first_match(variants@, text@) is None
                &&& m@ == read_error_message(text@)
            },
        },
{
    let n = variants.len();
    let mut i: usize = 0;
    while i < n
        invariant
            i <= n,
            n == variants@.len(),
            forall|j: int| 0 <= j < i ==> variants@[j]@ != text@,
        decreases n - i,
    {
        if text_eq(&variants[i], text) {
            proof {
                lemma_first_match_complete(variants@, text@, i as int);
            }
            return Ok(i);
        }
        i = i + 1;
    }
    proof {
        lemma_first_match_characterization(variants@, text@);
    }
    let mut m: String = "Error converting from PgValue ".to_owned();
    m.append(debug_quoted(text).as_str());
    Err(m)
}

/// Law: the read error's message starts with the word `Error` and ends with
/// the offending text's debug form, carried verbatim.
pub proof fn lemma_read_error_message_shape(t: Seq<char>)
    ensures
        read_error_message(t).subrange(0, "Error"@.len() as int) == "Error"@,
        ({
            let p = "Error converting from PgValue "@;
            read_error_message(t).subrange(p.len() as int, p.len() as int + debug_text(t).len())
                == debug_text(t)
        }),
        read_error_message(t).len() == "Error converting from PgValue "@.len() + debug_text(
            t,
        ).len(),
{
    reveal_strlit("Error converting from PgValue ");
    reveal_strlit("Error");
    assert(read_error_message(t).subrange(0, "Error"@.len() as int) =~= "Error"@);
    assert(({
        let p = "Error converting from PgValue "@;
        read_error_message(t).subrange(p.len() as int, p.len() as int + debug_text(t).len())
            =~= debug_text(t)
    }));
}

} // verus!
