use diesel_sqltype_enum_pg::convert::read_variant;
use diesel_sqltype_enum_pg::convert::write_variant;
use diesel_sqltype_enum_pg::decl::Attr;
use diesel_sqltype_enum_pg::decl::EnumDecl;
use diesel_sqltype_enum_pg::describe;
use diesel_sqltype_enum_pg::emit::error_message;
use diesel_sqltype_enum_pg::emit::generate_from_to_sql;
use diesel_sqltype_enum_pg::GenError;

fn attr(path: &str, args: Result<Vec<&str>, &str>) -> Attr {
    Attr {
        path: path.to_string(),
        args: match args {
            Ok(list) => Ok(list.into_iter().map(|s| s.to_string()).collect()),
            Err(m) => Err(m.to_string()),
        },
    }
}

fn enum_struct_decl(attrs: Vec<Attr>) -> EnumDecl {
    EnumDecl {
        ident: "EnumStruct".to_string(),
        variants: vec!["EnumOne".to_string(), "EnumTwo".to_string()],
        attrs,
    }
}

const EXPECTED_TO_SQL: &str = "impl ::diesel::serialize::ToSql<EnumStructSqlType, ::diesel::pg::Pg> for EnumStruct {\n    fn to_sql<'b>(&'b self, out: &mut ::diesel::serialize::Output<'b, '_, ::diesel::pg::Pg>) -> ::diesel::serialize::Result {\n        use ::std::io::Write;\n        out.write_all(self.to_string().as_bytes())?;\n        Ok(::diesel::serialize::IsNull::No)\n    }\n}\n";

const EXPECTED_FROM_SQL: &str = "impl FromSql<EnumStructSqlType, ::diesel::pg::Pg> for EnumStruct {\n    fn from_sql(bytes: ::diesel::pg::PgValue) -> ::diesel::deserialize::Result<Self> {\n        use ::std::str::FromStr;\n        let value: String = <String as FromSql<::diesel::sql_types::Text, ::diesel::pg::Pg>>::from_sql(bytes)?;\n        EnumStruct::from_str(value.as_str())\n            .map_err(|e| format!(\"Error converting from PgValue {:?}\", e).into())\n    }\n}\n";

const EXPECTED_USAGE: &str = "`fromtosql` attribute not found.\n Please add #[fromtosql(sql_type = MyEntityEnumSqlType)] to your enum \n\nExample:\n\n #[derive(Debug, PartialEq, EnumString, Display, FromToSql)]\n #[fromtosql(sql_type = MyEntityEnumSqlType)]\n enum MyEntityEnum { \n\t  #[strum(serialize = \"ONE\")]\n \t  EnumOne, \n\t  #[strum(serialize = \"TWO\")]\n \t  EnumTwo,\n } ";

#[test]
fn test_truth() {
    assert!(true);
}

#[test]
fn annotated_enum_generates_two_blocks() {
    let decl = enum_struct_decl(vec![attr(
        "fromtosql",
        Ok(vec!["sql_type", "EnumStructSqlType"]),
    )]);
    let generated = describe(&decl).unwrap_or_else(|_| panic!("generation failed"));
    assert_eq!(generated.to_sql_impl, EXPECTED_TO_SQL);
    assert_eq!(generated.from_sql_impl, EXPECTED_FROM_SQL);
    let text = generated.text();
    assert_eq!(text, format!("{}\n{}", EXPECTED_TO_SQL, EXPECTED_FROM_SQL));
}

#[test]
fn zero_variant_enum_generates() {
    let decl = EnumDecl {
        ident: "Empty".to_string(),
        variants: vec![],
        attrs: vec![attr("fromtosql", Ok(vec!["sql_type", "EmptySqlType"]))],
    };
    let generated = describe(&decl).unwrap_or_else(|_| panic!("generation failed"));
    assert!(generated.to_sql_impl.contains("EmptySqlType"));
    assert!(generated.to_sql_impl.contains("for Empty {"));
    assert!(generated.from_sql_impl.contains("EmptySqlType"));
}

#[test]
fn generated_text_names_inputs_verbatim() {
    let generated = generate_from_to_sql("MyColumnType", "MyEnum");
    assert!(generated.to_sql_impl.contains("ToSql<MyColumnType, ::diesel::pg::Pg> for MyEnum"));
    assert!(generated.from_sql_impl.contains("FromSql<MyColumnType, ::diesel::pg::Pg> for MyEnum"));
    assert!(generated.from_sql_impl.contains("MyEnum::from_str"));
}

#[test]
fn missing_attribute_uses_fixed_diagnostic() {
    let decl = enum_struct_decl(vec![]);
    match describe(&decl) {
        Err(GenError::MissingAttribute) => {}
        _ => panic!("expected the missing-attribute error"),
    }
    assert_eq!(error_message(), EXPECTED_USAGE);
    assert_eq!(GenError::MissingAttribute.message(), EXPECTED_USAGE);
}

#[test]
fn unrecognized_attribute_is_ignored() {
    let decl = enum_struct_decl(vec![attr("derive", Ok(vec!["Debug"]))]);
    match describe(&decl) {
        Err(GenError::MissingAttribute) => {}
        _ => panic!("expected the missing-attribute error"),
    }
}

#[test]
fn wrong_key_fails_like_missing_attribute() {
    let decl = enum_struct_decl(vec![attr("fromtosql", Ok(vec!["other_key", "X"]))]);
    match describe(&decl) {
        Err(e) => assert_eq!(e.message(), EXPECTED_USAGE),
        Ok(_) => panic!("expected the missing-attribute error"),
    }
}

#[test]
fn malformed_arguments_surface_reader_message() {
    let decl = enum_struct_decl(vec![attr("fromtosql", Err("expected identifier"))]);
    match describe(&decl) {
        Err(GenError::MalformedArguments(m)) => assert_eq!(m, "expected identifier"),
        _ => panic!("expected the malformed-arguments error"),
    }
}

#[test]
fn malformed_arguments_stop_generation_even_after_a_match() {
    let decl = enum_struct_decl(vec![
        attr("fromtosql", Ok(vec!["sql_type", "EnumStructSqlType"])),
        attr("fromtosql", Err("unexpected token")),
    ]);
    match describe(&decl) {
        Err(GenError::MalformedArguments(m)) => assert_eq!(m, "unexpected token"),
        _ => panic!("expected the malformed-arguments error"),
    }
}

#[test]
fn first_recognized_attribute_wins() {
    let decl = enum_struct_decl(vec![
        attr("fromtosql", Ok(vec!["sql_type", "FirstType"])),
        attr("fromtosql", Ok(vec!["sql_type", "SecondType"])),
    ]);
    let generated = describe(&decl).unwrap_or_else(|_| panic!("generation failed"));
    assert!(generated.to_sql_impl.contains("ToSql<FirstType,"));
    assert!(!generated.to_sql_impl.contains("SecondType"));
}

#[test]
fn lone_key_contributes_itself() {
    let decl = enum_struct_decl(vec![attr("fromtosql", Ok(vec!["sql_type"]))]);
    let generated = describe(&decl).unwrap_or_else(|_| panic!("generation failed"));
    assert!(generated.to_sql_impl.contains("ToSql<sql_type,"));
}

#[test]
fn writing_a_variant_emits_its_text() {
    let variants = vec!["EnumOne".to_string(), "EnumTwo".to_string()];
    let mut out = String::new();
    let is_null = write_variant(&variants, 0, &mut out);
    assert!(!is_null);
    assert_eq!(out, "EnumOne");
    assert_eq!(out.into_bytes(), b"EnumOne".to_vec());
}

#[test]
fn writing_appends_to_the_buffer() {
    let variants = vec!["EnumOne".to_string(), "EnumTwo".to_string()];
    let mut out = String::from("prefix:");
    let is_null = write_variant(&variants, 1, &mut out);
    assert!(!is_null);
    assert_eq!(out, "prefix:EnumTwo");
}

#[test]
fn reading_a_variant_text_round_trips() {
    let variants = vec!["EnumOne".to_string(), "EnumTwo".to_string()];
    assert_eq!(read_variant(&variants, "EnumOne"), Ok(0));
    assert_eq!(read_variant(&variants, "EnumTwo"), Ok(1));
}

#[test]
fn reading_unknown_text_is_a_recoverable_error() {
    let variants = vec!["EnumOne".to_string(), "EnumTwo".to_string()];
    let err = match read_variant(&variants, "Bogus") {
        Err(m) => m,
        Ok(_) => panic!("expected an error"),
    };
    assert_eq!(err, "Error converting from PgValue \"Bogus\"");
    assert!(err.contains("Error"));
    assert!(err.contains("\"Bogus\""));
}

#[test]
fn read_error_escapes_the_text() {
    let variants = vec!["EnumOne".to_string()];
    let err = match read_variant(&variants, "a\"b\\c\nd") {
        Err(m) => m,
        Ok(_) => panic!("expected an error"),
    };
    assert_eq!(err, "Error converting from PgValue \"a\\\"b\\\\c\\nd\"");
}

#[test]
fn reading_a_duplicated_text_finds_the_first_variant() {
    let variants = vec!["Same".to_string(), "Same".to_string()];
    assert_eq!(read_variant(&variants, "Same"), Ok(0));
}
