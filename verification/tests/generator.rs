//! Schema validation and the generated conversion impl text.

use error_code::codegen::{composite_code, gen_arm, gen_pattern, process_error_info};
use error_code::schema::{ErrorTypeSchema, RawVariant, SchemaError, VariantSchema, VariantShape};

fn raw(
    name: &str,
    shape: VariantShape,
    code: Option<&str>,
    app_code: Option<&str>,
    client_msg: Option<&str>,
) -> RawVariant {
    RawVariant {
        variant_name: name.to_string(),
        shape,
        short_code: code.map(|s| s.to_string()),
        app_code: app_code.map(|s| s.to_string()),
        client_msg: client_msg.map(|s| s.to_string()),
    }
}

fn my_error_schema() -> ErrorTypeSchema {
    ErrorTypeSchema::build(
        "MyError".to_string(),
        "StatusCodeLike".to_string(),
        "01".to_string(),
        true,
        vec![
            raw(
                "BadRequest",
                VariantShape::Tuple,
                Some("BR"),
                Some("400"),
                Some("Bad Request"),
            ),
            raw("Forbidden", VariantShape::Unit, Some("FB"), Some("403"), Some("Forbidden")),
            raw("Detailed", VariantShape::Struct, Some("DT"), Some("500"), Some("Oops")),
        ],
    )
    .unwrap()
}

#[test]
fn composite_code_is_plain_concatenation() {
    assert_eq!(composite_code("01", "BR"), "01BR");
    assert_eq!(composite_code("", "BR"), "BR");
    assert_eq!(composite_code("ns-", ""), "ns-");
    assert_eq!(composite_code("a.b", "c.d"), "a.bc.d");
}

#[test]
fn build_rejects_a_non_enum() {
    let r = ErrorTypeSchema::build(
        "NotAUnion".to_string(),
        "u16".to_string(),
        "01".to_string(),
        false,
        vec![],
    );
    assert_eq!(r.unwrap_err(), SchemaError::NotAnEnum);
}

#[test]
fn build_reports_the_first_missing_short_code() {
    let r = ErrorTypeSchema::build(
        "MyError".to_string(),
        "u16".to_string(),
        "01".to_string(),
        true,
        vec![
            raw("Ok1", VariantShape::Unit, Some("A"), None, None),
            raw("Bad", VariantShape::Unit, None, None, None),
            raw("AlsoBad", VariantShape::Unit, None, None, None),
        ],
    );
    assert_eq!(r.unwrap_err(), SchemaError::MissingShortCode("Bad".to_string()));
}

#[test]
fn build_rejects_an_empty_short_code() {
    let r = ErrorTypeSchema::build(
        "MyError".to_string(),
        "u16".to_string(),
        "01".to_string(),
        true,
        vec![raw("Blank", VariantShape::Tuple, Some(""), None, None)],
    );
    assert_eq!(r.unwrap_err(), SchemaError::EmptyShortCode("Blank".to_string()));
}

#[test]
fn build_fills_the_empty_defaults() {
    let s = ErrorTypeSchema::build(
        "MyError".to_string(),
        "u16".to_string(),
        "01".to_string(),
        true,
        vec![raw("Spare", VariantShape::Unit, Some("SP"), None, None)],
    )
    .unwrap();
    assert_eq!(s.enum_name, "MyError");
    assert_eq!(s.app_type, "u16");
    assert_eq!(s.code_prefix, "01");
    assert_eq!(s.variants.len(), 1);
    assert_eq!(s.variants[0].variant_name, "Spare");
    assert_eq!(s.variants[0].short_code, "SP");
    assert_eq!(s.variants[0].app_code, "");
    assert_eq!(s.variants[0].client_msg, "");
}

#[test]
fn patterns_follow_the_variant_shape() {
    let v = |shape| VariantSchema {
        variant_name: "V".to_string(),
        shape,
        short_code: "C".to_string(),
        app_code: String::new(),
        client_msg: String::new(),
    };
    assert_eq!(gen_pattern("E", &v(VariantShape::Unit)), "E::V");
    assert_eq!(gen_pattern("E", &v(VariantShape::Tuple)), "E::V(..)");
    assert_eq!(gen_pattern("E", &v(VariantShape::Struct)), "E::V { .. }");
}

#[test]
fn an_arm_holds_the_composite_code_and_messages() {
    let v = VariantSchema {
        variant_name: "BadRequest".to_string(),
        shape: VariantShape::Tuple,
        short_code: "BR".to_string(),
        app_code: "400".to_string(),
        client_msg: "Bad Request".to_string(),
    };
    assert_eq!(
        gen_arm("MyError", "01", &v),
        "            MyError::BadRequest(..) => ErrorInfo::try_new(\"400\", \"01BR\", \"Bad Request\", self.to_string()),\n"
    );
}

#[test]
fn generated_impl_matches_expected_text() {
    let text = process_error_info(&my_error_schema());
    let expected = "use error_code::{ErrorInfo, ParseCode, ToErrorInfo};\nimpl ToErrorInfo for MyError {\n    type T = StatusCodeLike;\n    fn to_error_info(&self) -> Result<ErrorInfo<Self::T>, <Self::T as ParseCode>::Err> {\n        match self {\n            MyError::BadRequest(..) => ErrorInfo::try_new(\"400\", \"01BR\", \"Bad Request\", self.to_string()),\n            MyError::Forbidden => ErrorInfo::try_new(\"403\", \"01FB\", \"Forbidden\", self.to_string()),\n            MyError::Detailed { .. } => ErrorInfo::try_new(\"500\", \"01DT\", \"Oops\", self.to_string()),\n        }\n    }\n}\n";
    assert_eq!(text, expected);
}

#[test]
fn every_variant_has_an_arm() {
    let schema = my_error_schema();
    let text = process_error_info(&schema);
    for v in &schema.variants {
        let arm = gen_arm("MyError", "01", v);
        assert!(text.contains(&arm));
    }
}
