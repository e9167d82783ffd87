//! Behaviour of the transform engine over whole declarations.

use enum_newtype::ast::{Attribute, Body, Declaration, Field, FieldList, Span, Variant};
use enum_newtype::engine::enum_newtype;
use enum_newtype::params::{ParamEntry, ParamValue, Params};

fn doc_attr(text: &str) -> Attribute {
    Attribute { path: "doc".to_string(), tokens: format!("= \"{}\"", text) }
}

fn derive_attr(tokens: &str) -> Attribute {
    Attribute { path: "derive".to_string(), tokens: format!("({})", tokens) }
}

fn named_variant(name: &str, fields: &[(&str, &str)]) -> Variant {
    let fields = fields
        .iter()
        .map(|(field_name, field_ty)| Field {
            name: field_name.to_string(),
            ty: field_ty.to_string(),
        })
        .collect();
    Variant {
        name: name.to_string(),
        attrs: vec![doc_attr(&format!("{} docs.", name))],
        fields: FieldList::Named(fields),
    }
}

fn op_params() -> Params {
    Params {
        span: Span { lo: 10, hi: 40 },
        entries: vec![
            ParamEntry::NameValue {
                name: "name".to_string(),
                value: ParamValue::Ident("OpVariants".to_string()),
            },
            ParamEntry::NameValue {
                name: "aliases".to_string(),
                value: ParamValue::Other("true".to_string()),
            },
        ],
    }
}

fn op_declaration() -> Declaration {
    Declaration {
        span: Span { lo: 50, hi: 400 },
        attrs: vec![derive_attr("Debug, Copy, Clone")],
        vis: "pub".to_string(),
        name: "Op".to_string(),
        generics: String::new(),
        body: Body::Enum(vec![
            named_variant("Add", &[("lhs", "Reg"), ("rhs", "Reg")]),
            named_variant("Sub", &[("lhs", "Reg"), ("rhs", "Reg")]),
            named_variant("Mul", &[("lhs", "Reg"), ("rhs", "Reg")]),
            named_variant("Const", &[("value", "Value")]),
        ]),
    }
}

#[test]
fn transformation_is_deterministic() {
    let first = enum_newtype(&op_params(), &op_declaration());
    let second = enum_newtype(&op_params(), &op_declaration());
    assert_eq!(first, second);
}

#[test]
fn op_scenario_generates_all_declarations() {
    let generated = enum_newtype(&op_params(), &op_declaration()).unwrap();

    assert_eq!(generated.enum_decl.name, "Op");
    assert_eq!(generated.enum_decl.vis, "pub");
    assert_eq!(generated.enum_decl.variants.len(), 4);
    let names: Vec<&str> =
        generated.enum_decl.variants.iter().map(|v| v.name.as_str()).collect();
    assert_eq!(names, ["Add", "Sub", "Mul", "Const"]);
    for variant in &generated.enum_decl.variants {
        assert_eq!(variant.payload_trait, "OpVariants");
        assert_eq!(variant.payload_assoc, variant.name);
    }

    assert_eq!(generated.trait_decl.name, "OpVariants");
    assert_eq!(generated.trait_decl.assoc_types, ["Add", "Sub", "Mul", "Const"]);

    assert_eq!(generated.helpers.records.len(), 4);
    for (record, variant) in
        generated.helpers.records.iter().zip(op_declaration_variants().iter())
    {
        assert_eq!(record.name, format!("__enum_newtype_{}", variant.name));
        assert_eq!(record.fields, variant.fields);
    }

    assert_eq!(generated.helpers.conversions.len(), 4);
    for (conversion, variant) in
        generated.helpers.conversions.iter().zip(op_declaration_variants().iter())
    {
        assert_eq!(conversion.wrapper, format!("__enum_newtype_{}", variant.name));
        assert_eq!(conversion.enum_name, "Op");
        assert_eq!(conversion.variant, variant.name);
    }

    assert_eq!(generated.helpers.trait_impl.trait_name, "OpVariants");
    assert_eq!(generated.helpers.trait_impl.enum_name, "Op");
    assert_eq!(generated.helpers.trait_impl.bindings.len(), 4);
    for (binding, variant) in
        generated.helpers.trait_impl.bindings.iter().zip(op_declaration_variants().iter())
    {
        assert_eq!(binding.assoc, variant.name);
        assert_eq!(binding.wrapper, format!("__enum_newtype_{}", variant.name));
    }
}

fn op_declaration_variants() -> Vec<Variant> {
    match op_declaration().body {
        Body::Enum(variants) => variants,
        _ => unreachable!(),
    }
}

#[test]
fn derive_annotations_propagate_to_wrapper_records() {
    let generated = enum_newtype(&op_params(), &op_declaration()).unwrap();
    for record in &generated.helpers.records {
        // The variant's own doc annotation first, then the declaration's
        // derive-class annotations; nothing else.
        assert_eq!(record.attrs.len(), 2);
        assert_eq!(record.attrs[0].path, "doc");
        assert_eq!(record.attrs[1], derive_attr("Debug, Copy, Clone"));
    }
}

#[test]
fn rewritten_enum_keeps_outer_annotations_and_generics() {
    let mut declaration = op_declaration();
    declaration.generics = "<T>".to_string();
    let generated = enum_newtype(&op_params(), &declaration).unwrap();
    assert_eq!(generated.enum_decl.attrs, vec![derive_attr("Debug, Copy, Clone")]);
    assert_eq!(generated.enum_decl.generics, "<T>");
    // The companion trait and every wrapper record carry the generics
    // verbatim, even when unused.
    assert_eq!(generated.trait_decl.generics, "<T>");
    for record in &generated.helpers.records {
        assert_eq!(record.generics, "<T>");
    }
}

#[test]
fn struct_input_is_rejected() {
    let declaration = Declaration {
        span: Span { lo: 7, hi: 90 },
        attrs: vec![],
        vis: "pub".to_string(),
        name: "NotAnEnum".to_string(),
        generics: String::new(),
        body: Body::Struct,
    };
    let diagnostic = enum_newtype(&op_params(), &declaration).unwrap_err();
    assert_eq!(diagnostic.reports.len(), 1);
    assert_eq!(diagnostic.reports[0].message, "cannot use `#enum_newtype` on `struct` types");
    assert_eq!(diagnostic.reports[0].span, Span { lo: 7, hi: 90 });
}

#[test]
fn union_input_is_rejected() {
    let declaration = Declaration {
        span: Span { lo: 3, hi: 44 },
        attrs: vec![],
        vis: String::new(),
        name: "NotAnEnum".to_string(),
        generics: String::new(),
        body: Body::Union,
    };
    let diagnostic = enum_newtype(&op_params(), &declaration).unwrap_err();
    assert_eq!(diagnostic.reports.len(), 1);
    assert_eq!(diagnostic.reports[0].message, "cannot use `#enum_newtype` on `union` types");
    assert_eq!(diagnostic.reports[0].span, Span { lo: 3, hi: 44 });
}

#[test]
fn name_resolution_precedes_shape_check() {
    // The parameter parser runs first: a struct body with a parameter
    // list that names no trait fails with the missing-name diagnostic at
    // the parameter list, not with the shape diagnostic.
    let params = Params { span: Span { lo: 0, hi: 5 }, entries: vec![] };
    let declaration = Declaration {
        span: Span { lo: 8, hi: 20 },
        attrs: vec![],
        vis: String::new(),
        name: "S".to_string(),
        generics: String::new(),
        body: Body::Struct,
    };
    let diagnostic = enum_newtype(&params, &declaration).unwrap_err();
    assert_eq!(diagnostic.reports[0].message, "cannot find valid `name` parameter");
    assert_eq!(diagnostic.reports[0].span, Span { lo: 0, hi: 5 });
}

#[test]
fn enum_input_always_succeeds_with_a_valid_name() {
    // Empty, single-variant and generic enums are all accepted.
    let mut declaration = op_declaration();
    declaration.body = Body::Enum(vec![]);
    let generated = enum_newtype(&op_params(), &declaration).unwrap();
    assert_eq!(generated.enum_decl.variants.len(), 0);
    assert_eq!(generated.trait_decl.assoc_types.len(), 0);
    assert_eq!(generated.helpers.records.len(), 0);

    let mut declaration = op_declaration();
    declaration.body = Body::Enum(vec![named_variant("Only", &[("inner", "u8")])]);
    declaration.generics = "<'a, T: Clone>".to_string();
    let generated = enum_newtype(&op_params(), &declaration).unwrap();
    assert_eq!(generated.enum_decl.variants.len(), 1);
    assert_eq!(generated.helpers.records[0].generics, "<'a, T: Clone>");
}

#[test]
fn unit_variant_gets_a_fieldless_wrapper() {
    let mut declaration = op_declaration();
    declaration.body = Body::Enum(vec![Variant {
        name: "Halt".to_string(),
        attrs: vec![],
        fields: FieldList::Unit,
    }]);
    let generated = enum_newtype(&op_params(), &declaration).unwrap();
    let record = &generated.helpers.records[0];
    assert_eq!(record.name, "__enum_newtype_Halt");
    assert_eq!(record.fields, FieldList::Unit);
    // The conversion is still generated and names the fieldless wrapper.
    let conversion = &generated.helpers.conversions[0];
    assert_eq!(conversion.wrapper, "__enum_newtype_Halt");
    assert_eq!(conversion.variant, "Halt");
}

#[test]
fn positional_fields_stay_positional() {
    let mut declaration = op_declaration();
    declaration.body = Body::Enum(vec![Variant {
        name: "Pair".to_string(),
        attrs: vec![],
        fields: FieldList::Unnamed(vec!["u8".to_string(), "u16".to_string()]),
    }]);
    let generated = enum_newtype(&op_params(), &declaration).unwrap();
    assert_eq!(
        generated.helpers.records[0].fields,
        FieldList::Unnamed(vec!["u8".to_string(), "u16".to_string()])
    );
}

#[test]
fn missing_name_is_rejected_at_the_parameter_list() {
    let params = Params {
        span: Span { lo: 11, hi: 31 },
        entries: vec![ParamEntry::NameValue {
            name: "aliases".to_string(),
            value: ParamValue::Other("true".to_string()),
        }],
    };
    let diagnostic = enum_newtype(&params, &op_declaration()).unwrap_err();
    assert_eq!(diagnostic.reports.len(), 1);
    assert_eq!(diagnostic.reports[0].message, "cannot find valid `name` parameter");
    assert_eq!(diagnostic.reports[0].span, Span { lo: 11, hi: 31 });
}
