//! Generation of the conversion impl from a validated schema: one match arm
//! per declared variant, each building the structured record from the
//! variant's static metadata and the live instance's rendered text.
//!
//! The emitted text is pinned down exactly: [`process_error_info`] returns
//! precisely [`impl_spec`] of the schema, and [`lemma_generated_conversion_exhaustive`]
//! shows that the arm of every declared variant occurs in that text.

use crate::schema::{ErrorTypeSchema, ErrorTypeSchemaV, VariantSchema, VariantSchemaV, VariantShape};
use vstd::prelude::*;

verus! {

/// Concatenates a code prefix and a variant's short code into the composite
/// code that identifies an error class; nothing is inserted between them.
pub fn composite_code(prefix: &str, short_code: &str) -> (r: String)
    ensures
        r@ == prefix@ + short_code@,
{
    let mut code = prefix.to_owned();
    code.append(short_code);
    code
}

/// The match pattern of one variant: its path, shaped after the variant's
/// field arity so that every shape is matched without touching its fields.
pub open spec fn pattern_spec(enum_name: Seq<char>, v: VariantSchemaV) -> Seq<char> {
    enum_name + "::"@ + v.variant_name + (match v.shape {
        VariantShape::Unit => Seq::<char>::empty(),
        VariantShape::Tuple => "(..)"@,
        VariantShape::Struct => " { .. }"@,
    })
}

/// The full match arm of one variant: its pattern, then a call of the record
/// constructor with the variant's app code, the composite code, the client
/// message, and the instance's own rendered text.
pub open spec fn arm_spec(enum_name: Seq<char>, prefix: Seq<char>, v: VariantSchemaV) -> Seq<char> {
    "            "@ + pattern_spec(enum_name, v) + " => ErrorInfo::try_new(\""@ + v.app_code
        + "\", \""@ + prefix + v.short_code + "\", \""@ + v.client_msg
        + "\", self.to_string()),\n"@
}

/// The arms of all variants, in schema order.
pub open spec fn arms_spec(enum_name: Seq<char>, prefix: Seq<char>, vs: Seq<VariantSchemaV>) -> Seq<
    char,
>
    decreases vs.len(),
{
    if vs.len() == 0 {
        Seq::empty()
    } else {
        arms_spec(enum_name, prefix, vs.drop_last()) + arm_spec(enum_name, prefix, vs.last())
    }
}

/// The text before the arms: the imports and the head of the impl, naming
/// the error type and its app-code type.
pub open spec fn header_spec(enum_name: Seq<char>, app_type: Seq<char>) -> Seq<char> {
    "use error_code::{ErrorInfo, ParseCode, ToErrorInfo};\nimpl ToErrorInfo for "@ + enum_name
        + " {\n    type T = "@ + app_type
        + ";\n    fn to_error_info(&self) -> Result<ErrorInfo<Self::T>, <Self::T as ParseCode>::Err> {\n        match self {\n"@
}

/// The text after the arms: the closing of the match, the function and the impl.
pub open spec fn footer_spec() -> Seq<char> {
    "        }\n    }\n}\n"@
}

/// The entire generated conversion impl for a schema.
pub open spec fn impl_spec(s: ErrorTypeSchemaV) -> Seq<char> {
    header_spec(s.enum_name, s.app_type) + arms_spec(s.enum_name, s.code_prefix, s.variants)
        + footer_spec()
}

/// Emits the match pattern of one variant.
pub fn gen_pattern(enum_name: &str, v: &VariantSchema) -> (r: String)
    ensures
        r@ == pattern_spec(enum_name@, v@),
{
    let mut s = enum_name.to_owned();
    s.append("::");
    s.append(v.variant_name.as_str());
    match v.shape {
        VariantShape::Unit => {},
        VariantShape::Tuple => s.append("(..)"),
        VariantShape::Struct => s.append(" { .. }"),
    }
    proof {
        assert(s@ =~= pattern_spec(enum_name@, v@));
    }
    s
}

/// Emits the full match arm of one variant.
pub fn gen_arm(enum_name: &str, prefix: &str, v: &VariantSchema) -> (r: String)
    ensures
        r@ == arm_spec(enum_name@, prefix@, v@),
{
    let mut s = "            ".to_owned();
    let pattern = gen_pattern(enum_name, v);
    s.append(pattern.as_str());
    s.append(" => ErrorInfo::try_new(\"");
    s.append(v.app_code.as_str());
    s.append("\", \"");
    let code = composite_code(prefix, v.short_code.as_str());
    s.append(code.as_str());
    s.append("\", \"");
    s.append(v.client_msg.as_str());
    s.append("\", self.to_string()),\n");
    proof {
        assert(s@ =~= arm_spec(enum_name@, prefix@, v@));
    }
    s
}

/// Emits the whole conversion impl for a validated schema: the impl head,
/// one arm per variant in schema order, and the closing text.
pub fn process_error_info(schema: &ErrorTypeSchema) -> (r: String)
    ensures
        r@ == impl_spec(schema@),
{
    let mut s = "use error_code::{ErrorInfo, ParseCode, ToErrorInfo};\nimpl ToErrorInfo for "
        .to_owned();
    s.append(schema.enum_name.as_str());
    s.append(" {\n    type T = ");
    s.append(schema.app_type.as_str());
    s.append(
        ";\n    fn to_error_info(&self) -> Result<ErrorInfo<Self::T>, <Self::T as ParseCode>::Err> {\n        match self {\n",
    );
    proof {
        assert(schema@.variants.take(0) =~= Seq::<VariantSchemaV>::empty());
        assert(s@ =~= header_spec(schema@.enum_name, schema@.app_type) + arms_spec(
            schema@.enum_name,
            schema@.code_prefix,
            schema@.variants.take(0),
        ));
    }
    let mut i: usize = 0;
    while i < schema.variants.len()
        invariant
            i <= schema.variants@.len(),
            schema@.variants.len() == schema.variants@.len(),
            s@ == header_spec(schema@.enum_name, schema@.app_type) + arms_spec(
                schema@.enum_name,
                schema@.code_prefix,
                schema@.variants.take(i as int),
            ),
        decreases schema.variants@.len() - i,
    {
        let arm = gen_arm(schema.enum_name.as_str(), schema.code_prefix.as_str(), &schema.variants[i]);
        s.append(arm.as_str());
        proof {
            let taken = schema@.variants.take(i + 1);
            assert(taken.drop_last() =~= schema@.variants.take(i as int));
            assert(taken.last() == schema@.variants[i as int]);
            assert(s@ =~= header_spec(schema@.enum_name, schema@.app_type) + arms_spec(
                schema@.enum_name,
                schema@.code_prefix,
                taken,
            ));
        }
        i = i + 1;
    }
    s.append("        }\n    }\n}\n");
    proof {
        assert(schema@.variants.take(i as int) =~= schema@.variants);
        assert(s@ =~= impl_spec(schema@));
    }
    s
}

/// `needle` occurs in `hay` starting at position `k`.
pub open spec fn contains_at(hay: Seq<char>, k: int, needle: Seq<char>) -> bool {
    0 <= k && k + needle.len() <= hay.len() && hay.subrange(k, k + needle.len()) == needle
}

/// `needle` occurs somewhere in `hay`.
pub open spec fn contains_seq(hay: Seq<char>, needle: Seq<char>) -> bool {
    exists|k: int| contains_at(hay, k, needle)
}

proof fn lemma_arm_occurs(enum_name: Seq<char>, prefix: Seq<char>, vs: Seq<VariantSchemaV>, i: int)
    requires
        0 <= i < vs.len(),
    ensures
        contains_seq(arms_spec(enum_name, prefix, vs), arm_spec(enum_name, prefix, vs[i])),
    decreases vs.len(),
{
    let whole = arms_spec(enum_name, prefix, vs);
    let arm = arm_spec(enum_name, prefix, vs[i]);
    if i == vs.len() - 1 {
        let k = arms_spec(enum_name, prefix, vs.drop_last()).len() as int;
        assert(whole.subrange(k, k + arm.len()) =~= arm);
        assert(contains_at(whole, k, arm));
    } else {
        lemma_arm_occurs(enum_name, prefix, vs.drop_last(), i);
        let head = arms_spec(enum_name, prefix, vs.drop_last());
        let k = choose|k: int| contains_at(head, k, arm_spec(enum_name, prefix, vs.drop_last()[i]));
        assert(vs.drop_last()[i] == vs[i]);
        assert(whole.subrange(k, k + arm.len()) =~= head.subrange(k, k + arm.len()));
        assert(contains_at(whole, k, arm));
    }
}

/// Exhaustiveness of the generated mapping: the generated impl text holds
/// the match arm of every variant that the schema declares, so no declared
/// variant is left unhandled by the emitted match.
pub proof fn lemma_generated_conversion_exhaustive(s: ErrorTypeSchemaV, i: int)
    requires
        0 <= i < s.variants.len(),
    ensures
        contains_seq(impl_spec(s), arm_spec(s.enum_name, s.code_prefix, s.variants[i])),
{
    lemma_arm_occurs(s.enum_name, s.code_prefix, s.variants, i);
    let arms = arms_spec(s.enum_name, s.code_prefix, s.variants);
    let arm = arm_spec(s.enum_name, s.code_prefix, s.variants[i]);
    let k = choose|k: int| contains_at(arms, k, arm);
    let h = header_spec(s.enum_name, s.app_type).len() as int;
    assert(impl_spec(s).subrange(h + k, h + k + arm.len()) =~= arms.subrange(k, k + arm.len()));
    assert(contains_at(impl_spec(s), h + k, arm));
}

} // verus!
