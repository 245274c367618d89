//! The generated artifact: two implementation blocks of source text,
//! parameterized by the companion type's name and the enum's name.

use vstd::prelude::*;
use vstd::string::StringExecFns;

verus! {

/// The generated artifact: exactly two implementation blocks.
pub struct Generated {
    /// The write half: converts the enum value to its text form and writes
    /// that text's bytes to the column, reporting a non-null write.
    pub to_sql_impl: String,
    /// The read half: reads the column's text and parses it back into an
    /// enum value, turning a parse failure into a recoverable error.
    pub from_sql_impl: String,
}

/// The text of the write half, with the companion type and the enum name
/// spliced in verbatim.
pub open spec fn to_sql_template(att: Seq<char>, ident: Seq<char>) -> Seq<char> {
    "impl ::diesel::serialize::ToSql<"@ + att + ", ::diesel::pg::Pg> for "@ + ident
        + " {\n    fn to_sql<'b>(&'b self, out: &mut ::diesel::serialize::Output<'b, '_, ::diesel::pg::Pg>) -> ::diesel::serialize::Result {\n        use ::std::io::Write;\n        out.write_all(self.to_string().as_bytes())?;\n        Ok(::diesel::serialize::IsNull::No)\n    }\n}\n"@
}

/// The text of the read half, with the companion type spliced in once and
/// the enum name twice.
pub open spec fn from_sql_template(att: Seq<char>, ident: Seq<char>) -> Seq<char> {
    "impl FromSql<"@ + att + ", ::diesel::pg::Pg> for "@ + ident
        + " {\n    fn from_sql(bytes: ::diesel::pg::PgValue) -> ::diesel::deserialize::Result<Self> {\n        use ::std::str::FromStr;\n        let value: String = <String as FromSql<::diesel::sql_types::Text, ::diesel::pg::Pg>>::from_sql(bytes)?;\n        "@
        + ident
        + "::from_str(value.as_str())\n            .map_err(|e| format!(\"Error converting from PgValue {:?}\", e).into())\n    }\n}\n"@
}

/// Emit the two implementation blocks for a companion type and an enum name.
pub fn generate_from_to_sql(att: &str, ident: &str) -> (g: Generated)
    ensures
        g.to_sql_impl@ == to_sql_template(att@, ident@),
        g.from_sql_impl@ == from_sql_template(att@, ident@),
{
    let mut w = String::new();
    w.append("impl ::diesel::serialize::ToSql<");
    w.append(att);
    w.append(", ::diesel::pg::Pg> for ");
    w.append(ident);
    w.append(
        " {\n    fn to_sql<'b>(&'b self, out: &mut ::diesel::serialize::Output<'b, '_, ::diesel::pg::Pg>) -> ::diesel::serialize::Result {\n        use ::std::io::Write;\n        out.write_all(self.to_string().as_bytes())?;\n        Ok(::diesel::serialize::IsNull::No)\n    }\n}\n",
    );
    proof {
        assert(w@ =~= to_sql_template(att@, ident@));
    }

    let mut r = String::new();
    r.append("impl FromSql<");
    r.append(att);
    r.append(", ::diesel::pg::Pg> for ");
    r.append(ident);
    r.append(
        " {\n    fn from_sql(bytes: ::diesel::pg::PgValue) -> ::diesel::deserialize::Result<Self> {\n        use ::std::str::FromStr;\n        let value: String = <String as FromSql<::diesel::sql_types::Text, ::diesel::pg::Pg>>::from_sql(bytes)?;\n        ",
    );
    r.append(ident);
    r.append(
        "::from_str(value.as_str())\n            .map_err(|e| format!(\"Error converting from PgValue {:?}\", e).into())\n    }\n}\n",
    );
    proof {
        assert(r@ =~= from_sql_template(att@, ident@));
    }

    Generated { to_sql_impl: w, from_sql_impl: r }
}

impl Generated {
    /// Both blocks as one piece of source text, the write half first,
    /// separated by a blank line.
    pub fn text(&self) -> (t: String)
        ensures
            t@ == self.to_sql_impl@ + "\n"@ + self.from_sql_impl@,
    {
        let mut t = self.to_sql_impl.clone();
        t.append("\n");
        t.append(self.from_sql_impl.as_str());
        t
    }
}

/// The fixed usage diagnostic, including a worked example.
pub open spec fn usage_message() -> Seq<char> {
    "`fromtosql` attribute not found.\n Please add #[fromtosql(sql_type = MyEntityEnumSqlType)] to your enum \n\nExample:\n\n #[derive(Debug, PartialEq, EnumString, Display, FromToSql)]\n #[fromtosql(sql_type = MyEntityEnumSqlType)]\n enum MyEntityEnum { \n\t  #[strum(serialize = \"ONE\")]\n \t  EnumOne, \n\t  #[strum(serialize = \"TWO\")]\n \t  EnumTwo,\n } "@
}

/// The usage diagnostic raised when no recognized attribute contributes a
/// companion type.
pub fn error_message() -> (m: String)
    ensures
        m@ == usage_message(),
{
    "`fromtosql` attribute not found.\n Please add #[fromtosql(sql_type = MyEntityEnumSqlType)] to your enum \n\nExample:\n\n #[derive(Debug, PartialEq, EnumString, Display, FromToSql)]\n #[fromtosql(sql_type = MyEntityEnumSqlType)]\n enum MyEntityEnum { \n\t  #[strum(serialize = \"ONE\")]\n \t  EnumOne, \n\t  #[strum(serialize = \"TWO\")]\n \t  EnumTwo,\n } ".to_owned()
}

/// Law: each emitted block names the companion type and the enum exactly as
/// given — both identifiers stand verbatim in the emitted text, at the
/// positions right after the pieces that precede them.
pub proof fn lemma_templates_name_inputs(att: Seq<char>, ident: Seq<char>)
    ensures
        ({
            let p = "impl ::diesel::serialize::ToSql<"@;
            to_sql_template(att, ident).subrange(p.len() as int, p.len() as int + att.len()) == att
        }),
        ({
            let p = "impl ::diesel::serialize::ToSql<"@ + att + ", ::diesel::pg::Pg> for "@;
            to_sql_template(att, ident).subrange(p.len() as int, p.len() as int + ident.len()) == ident
        }),
        ({
            let p = "impl FromSql<"@;
            from_sql_template(att, ident).subrange(p.len() as int, p.len() as int + att.len()) == att
        }),
        ({
            let p = "impl FromSql<"@ + att + ", ::diesel::pg::Pg> for "@;
            from_sql_template(att, ident).subrange(p.len() as int, p.len() as int + ident.len()) == ident
        }),
{
    assert(({
        let p = "impl ::diesel::serialize::ToSql<"@;
        to_sql_template(att, ident).subrange(p.len() as int, p.len() as int + att.len()) =~= att
    }));
    assert(({
        let p = "impl ::diesel::serialize::ToSql<"@ + att + ", ::diesel::pg::Pg> for "@;
        to_sql_template(att, ident).subrange(p.len() as int, p.len() as int + ident.len()) =~= ident
    }));
    assert(({
        let p = "impl FromSql<"@;
        from_sql_template(att, ident).subrange(p.len() as int, p.len() as int + att.len()) =~= att
    }));
    assert(({
        let p = "impl FromSql<"@ + att + ", ::diesel::pg::Pg> for "@;
        from_sql_template(att, ident).subrange(p.len() as int, p.len() as int + ident.len()) =~= ident
    }));
}

} // verus!
