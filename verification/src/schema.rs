//! The declarative schema read off an annotated error type: per-type options
//! (app type, code prefix) and per-variant options (short code, app code,
//! client message), validated before any code is generated.

use vstd::prelude::*;

verus! {

/// The field arity class of one enum variant. Only the shape is kept — the
/// fields themselves are never inspected, since the mapping matches a
/// variant's identity regardless of what data it carries.
#[derive(Clone, Copy, Debug, PartialEq, Eq, Structural)]
pub enum VariantShape {
    Unit,
    Tuple,
    Struct,
}

/// Per-variant metadata as read off the annotations, before validation: the
/// options that the annotation surface may omit are still optional here.
#[derive(Debug)]
pub struct RawVariant {
    pub variant_name: String,
    pub shape: VariantShape,
    pub short_code: Option<String>,
    pub app_code: Option<String>,
    pub client_msg: Option<String>,
}

/// Validated per-variant metadata: the short code is present and non-empty,
/// and the optional texts have their empty defaults filled in.
#[derive(Debug)]
pub struct VariantSchema {
    pub variant_name: String,
    pub shape: VariantShape,
    pub short_code: String,
    pub app_code: String,
    pub client_msg: String,
}

/// Ghost image of a validated variant.
pub struct VariantSchemaV {
    pub variant_name: Seq<char>,
    pub shape: VariantShape,
    pub short_code: Seq<char>,
    pub app_code: Seq<char>,
    pub client_msg: Seq<char>,
}

impl View for VariantSchema {
    type V = VariantSchemaV;

    open spec fn view(&self) -> VariantSchemaV {
        VariantSchemaV {
            variant_name: self.variant_name@,
            shape: self.shape,
            short_code: self.short_code@,
            app_code: self.app_code@,
            client_msg: self.client_msg@,
        }
    }
}

/// The validated schema of one error type: its name, the caller-facing code
/// type, the prefix every composite code starts with, and one entry per
/// variant of the source enum.
#[derive(Debug)]
pub struct ErrorTypeSchema {
    pub enum_name: String,
    pub app_type: String,
    pub code_prefix: String,
    pub variants: Vec<VariantSchema>,
}

/// Ghost image of a validated schema.
pub struct ErrorTypeSchemaV {
    pub enum_name: Seq<char>,
    pub app_type: Seq<char>,
    pub code_prefix: Seq<char>,
    pub variants: Seq<VariantSchemaV>,
}

impl View for ErrorTypeSchema {
    type V = ErrorTypeSchemaV;

    open spec fn view(&self) -> ErrorTypeSchemaV {
        ErrorTypeSchemaV {
            enum_name: self.enum_name@,
            app_type: self.app_type@,
            code_prefix: self.code_prefix@,
            variants: self.variants@.map_values(|v: VariantSchema| v@),
        }
    }
}

impl ErrorTypeSchemaV {
    /// Well-formedness: every variant carries a non-empty short code.
    pub open spec fn wf(self) -> bool {
        forall|i: int| 0 <= i < self.variants.len() ==> (#[trigger] self.variants[i]).short_code.len() > 0
    }
}

/// A generation-time schema failure; these abort code generation and must
/// never reach runtime.
#[derive(Debug, PartialEq, Eq)]
pub enum SchemaError {
    /// The annotated type is not a tagged union.
    NotAnEnum,
    /// The named variant carries no short code option.
    MissingShortCode(String),
    /// The named variant's short code option is present but empty.
    EmptyShortCode(String),
}

/// A raw variant is acceptable when its short code is present and non-empty.
pub open spec fn raw_variant_ok(v: RawVariant) -> bool {
    match v.short_code {
        Some(s) => s@.len() > 0,
        None => false,
    }
}

/// What a raw variant validates to: its defaults filled in.
pub open spec fn resolved_variant(v: RawVariant) -> VariantSchemaV {
    VariantSchemaV {
        variant_name: v.variant_name@,
        shape: v.shape,
        short_code: match v.short_code {
            Some(s) => s@,
            None => Seq::empty(),
        },
        app_code: match v.app_code {
            Some(s) => s@,
            None => Seq::empty(),
        },
        client_msg: match v.client_msg {
            Some(s) => s@,
            None => Seq::empty(),
        },
    }
}

/// The index of the first variant that fails validation, or the sequence's
/// length when every variant is acceptable.
pub open spec fn first_invalid(vs: Seq<RawVariant>) -> int
    decreases vs.len(),
{
    if vs.len() == 0 {
        0
    } else if !raw_variant_ok(vs[0]) {
        0
    } else {
        1 + first_invalid(vs.drop_first())
    }
}

proof fn lemma_first_invalid_at(vs: Seq<RawVariant>, i: int)
    requires
        0 <= i <= vs.len(),
        forall|j: int| 0 <= j < i ==> raw_variant_ok(#[trigger] vs[j]),
        i < vs.len() ==> !raw_variant_ok(vs[i]),
    ensures
        first_invalid(vs) == i,
    decreases vs.len(),
{
    if vs.len() == 0 {
    } else if i == 0 {
    } else {
        assert(raw_variant_ok(vs[0]));
        assert(forall|j: int| 0 <= j < i - 1 ==> raw_variant_ok(#[trigger] vs.drop_first()[j]));
        lemma_first_invalid_at(vs.drop_first(), i - 1);
    }
}

impl ErrorTypeSchema {
    /// Validates the raw reading of an annotated type into a schema. Fails
    /// when the type is not a tagged union, or when a variant's short code
    /// is missing or empty; the first offending variant is the one reported.
    pub fn build(
        enum_name: String,
        app_type: String,
        code_prefix: String,
        is_enum: bool,
        variants: Vec<RawVariant>,
    ) -> (r: Result<ErrorTypeSchema, SchemaError>)
        ensures
            (r matches Err(e) && e == SchemaError::NotAnEnum) <==> !is_enum,
            is_enum ==> (r is Ok <==> first_invalid(variants@) == variants@.len()),
            r matches Ok(s) ==> (s@.enum_name == enum_name@
                && s@.app_type == app_type@
                && s@.code_prefix == code_prefix@
                && s@.variants.len() == variants@.len()
                && (forall|i: int| 0 <= i < variants@.len()
                        ==> s@.variants[i] == resolved_variant(#[trigger] variants@[i]))
                && s@.wf()),
            (is_enum && first_invalid(variants@) < variants@.len()
                && variants@[first_invalid(variants@)].short_code is None)
                ==> (r matches Err(e) && e matches SchemaError::MissingShortCode(n)
                    && n@ == variants@[first_invalid(variants@)].variant_name@),
            (is_enum && first_invalid(variants@) < variants@.len()
                && variants@[first_invalid(variants@)].short_code is Some)
                ==> (r matches Err(e) && e matches SchemaError::EmptyShortCode(n)
                    && n@ == variants@[first_invalid(variants@)].variant_name@),
    {
        if !is_enum {
            return Err(SchemaError::NotAnEnum);
        }
        let mut out: Vec<VariantSchema> = Vec::new();
        let mut i: usize = 0;
        while i < variants.len()
            invariant
                is_enum,
                0 <= i <= variants@.len(),
                out@.len() == i,
                forall|j: int| 0 <= j < i ==> raw_variant_ok(#[trigger] variants@[j]),
                forall|j: int| 0 <= j < i
                    ==> (#[trigger] out@[j])@ == resolved_variant(variants@[j]),
            decreases variants@.len() - i,
        {
            let v = &variants[i];
            match &v.short_code {
                None => {
                    proof {
                        lemma_first_invalid_at(variants@, i as int);
                    }
                    return Err(SchemaError::MissingShortCode(v.variant_name.clone()));
                },
                Some(sc) => {
                    if sc.as_str().is_empty() {
                        proof {
                            lemma_first_invalid_at(variants@, i as int);
                        }
                        return Err(SchemaError::EmptyShortCode(v.variant_name.clone()));
                    }
                    let resolved = VariantSchema {
                        variant_name: v.variant_name.clone(),
                        shape: v.shape,
                        short_code: sc.clone(),
                        app_code: match &v.app_code {
                            Some(s) => s.clone(),
                            None => String::new(),
                        },
                        client_msg: match &v.client_msg {
                            Some(s) => s.clone(),
                            None => String::new(),
                        },
                    };
                    out.push(resolved);
                },
            }
            i = i + 1;
        }
        proof {
            lemma_first_invalid_at(variants@, variants@.len() as int);
        }
        Ok(ErrorTypeSchema { enum_name, app_type, code_prefix, variants: out })
    }
}

} // verus!
