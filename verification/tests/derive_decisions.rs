use nvml_wrapper::wrap_derive::{
    attr_val_for_str, expand_enum_wrapper, gen_impl, parse_derive_input, try_wrap_enum, variant_attr_val_for_str, wrap_enum, AttrValue, Attribute, Body,
    DeriveInput, Lit, NestedMetaItem, Variant, VariantInfo,
};

fn pair(name: &str, value: &str) -> NestedMetaItem {
    NestedMetaItem::NameValue(name.to_string(), Lit::Str(value.to_string()))
}

fn wrap(items: Vec<NestedMetaItem>) -> Attribute {
    Attribute { value: AttrValue::List("wrap".to_string(), items) }
}

fn variant(ident: &str, c_variant: &str) -> Variant {
    Variant { ident: ident.to_string(), attrs: vec![wrap(vec![pair("c_variant", c_variant)])] }
}

fn enum_input(attrs: Vec<Attribute>, variants: Vec<Variant>) -> DeriveInput {
    DeriveInput { ident: "SomeEnum".to_string(), attrs, body: Body::Enum(variants) }
}

#[test]
fn attr_value_found_in_later_attribute() {
    let ast = enum_input(
        vec![
            Attribute { value: AttrValue::Other },
            Attribute { value: AttrValue::List("serde".to_string(), vec![NestedMetaItem::OtherMeta]) },
            wrap(vec![pair("c_enum", "nvmlSomeEnum_t")]),
            wrap(vec![pair("has_count", "NVML_SOME_COUNT")]),
        ],
        vec![],
    );
    assert_eq!(attr_val_for_str("c_enum", &ast), Some("nvmlSomeEnum_t".to_string()));
    assert_eq!(attr_val_for_str("has_count", &ast), Some("NVML_SOME_COUNT".to_string()));
    assert_eq!(attr_val_for_str("missing", &ast), None);
}

#[test]
fn attr_value_first_match_wins() {
    let ast = enum_input(
        vec![wrap(vec![NestedMetaItem::Literal, pair("c_enum", "first"), pair("c_enum", "second")])],
        vec![],
    );
    assert_eq!(attr_val_for_str("c_enum", &ast), Some("first".to_string()));
}

#[test]
fn variant_value_or_start_string() {
    let v = variant("SomeVariant", "NVML_SOME_VARIANT");
    assert_eq!(variant_attr_val_for_str("c_variant", &v), "NVML_SOME_VARIANT");
    let bare = Variant { ident: "Bare".to_string(), attrs: vec![] };
    assert_eq!(variant_attr_val_for_str("c_variant", &bare), "this_is_not_to_be_returned");
}

#[test]
fn variant_info_collects_names() {
    let v = variant("SomeVariant", "NVML_SOME_VARIANT");
    let info = VariantInfo::from(&v, &"nvmlSomeEnum_t".to_string(), &"SomeEnum".to_string());
    assert_eq!(
        info,
        VariantInfo {
            rust_name: "SomeEnum".to_string(),
            rust_variant: "SomeVariant".to_string(),
            c_name: "nvmlSomeEnum_t".to_string(),
            c_variant: "NVML_SOME_VARIANT".to_string(),
        }
    );
}

#[test]
fn gen_impl_takes_names_from_first_variant() {
    let infos = vec![
        VariantInfo {
            rust_name: "A".to_string(),
            rust_variant: "X".to_string(),
            c_name: "a_t".to_string(),
            c_variant: "A_X".to_string(),
        },
        VariantInfo {
            rust_name: "A".to_string(),
            rust_variant: "Y".to_string(),
            c_name: "a_t".to_string(),
            c_variant: "A_Y".to_string(),
        },
    ];
    let generated = gen_impl(&infos, Some("A_COUNT".to_string()));
    assert_eq!(generated.rust_name, "A");
    assert_eq!(generated.c_name, "a_t");
    assert_eq!(generated.arms, infos);
    assert_eq!(generated.count_variant, Some("A_COUNT".to_string()));
}

#[test]
fn wrap_enum_without_count() {
    let ast = enum_input(
        vec![wrap(vec![pair("c_enum", "nvmlSomeEnum_t")])],
        vec![variant("SomeVariant", "NVML_SOME_VARIANT"), variant("SomeOtherVariant", "NVML_OTHER_VARIANT")],
    );
    let generated = wrap_enum(&ast);
    assert_eq!(generated.rust_name, "SomeEnum");
    assert_eq!(generated.c_name, "nvmlSomeEnum_t");
    assert_eq!(generated.count_variant, None);
    assert_eq!(generated.arms.len(), 2);
    assert_eq!(generated.arms[1].rust_variant, "SomeOtherVariant");
    assert_eq!(generated.arms[1].c_variant, "NVML_OTHER_VARIANT");
    assert_eq!(generated.arms[0].c_name, "nvmlSomeEnum_t");
}

#[test]
fn wrap_enum_with_count() {
    let ast = enum_input(
        vec![wrap(vec![pair("c_enum", "nvmlClockType_t"), pair("has_count", "NVML_CLOCK_COUNT")])],
        vec![variant("Graphics", "NVML_CLOCK_GRAPHICS")],
    );
    let generated = wrap_enum(&ast);
    assert_eq!(generated.count_variant, Some("NVML_CLOCK_COUNT".to_string()));
    assert_eq!(generated.arms[0].rust_name, "SomeEnum");
    assert_eq!(generated.arms[0].c_variant, "NVML_CLOCK_GRAPHICS");
}

#[test]
fn try_wrap_enum_accepts_what_wrap_enum_takes() {
    let ast = enum_input(
        vec![wrap(vec![pair("c_enum", "nvmlSomeEnum_t")])],
        vec![variant("SomeVariant", "NVML_SOME_VARIANT")],
    );
    assert_eq!(try_wrap_enum(&ast), Some(wrap_enum(&ast)));
}

#[test]
fn try_wrap_enum_variant_without_setting_gets_start_string() {
    let ast = enum_input(
        vec![wrap(vec![pair("c_enum", "e_t")])],
        vec![Variant { ident: "Bare".to_string(), attrs: vec![] }],
    );
    let generated = try_wrap_enum(&ast).unwrap();
    assert_eq!(generated.arms[0].c_variant, "this_is_not_to_be_returned");
}

#[test]
fn try_wrap_enum_refusals() {
    let good_variants = || vec![variant("V", "E_V")];
    let no_c_enum = enum_input(vec![wrap(vec![pair("has_count", "E_COUNT")])], good_variants());
    assert_eq!(try_wrap_enum(&no_c_enum), None);
    let structure = DeriveInput {
        ident: "S".to_string(),
        attrs: vec![wrap(vec![pair("c_enum", "e_t")])],
        body: Body::Struct,
    };
    assert_eq!(try_wrap_enum(&structure), None);
    let empty = enum_input(vec![wrap(vec![pair("c_enum", "e_t")])], vec![]);
    assert_eq!(try_wrap_enum(&empty), None);
    let word_item = enum_input(vec![wrap(vec![NestedMetaItem::OtherMeta, pair("c_enum", "e_t")])], good_variants());
    assert_eq!(try_wrap_enum(&word_item), None);
    let non_string = enum_input(
        vec![wrap(vec![NestedMetaItem::NameValue("c_enum".to_string(), Lit::Other)])],
        good_variants(),
    );
    assert_eq!(try_wrap_enum(&non_string), None);
    let refused = enum_input(
        vec![wrap(vec![pair("c_enum", "e_t")])],
        vec![variant("V", "this_is_not_supposed_to_be_returned")],
    );
    assert_eq!(try_wrap_enum(&refused), None);
}

const CLOCK_SOURCE: &str = r#"
#[wrap(c_enum = "nvmlClockType_t")]
#[wrap(has_count = "NVML_CLOCK_COUNT")]
pub enum Clock {
    #[wrap(c_variant = "NVML_CLOCK_GRAPHICS")]
    Graphics,
    #[wrap(c_variant = "NVML_CLOCK_SM")]
    SM,
}
"#;

#[test]
fn expand_enum_wrapper_from_source() {
    let generated = expand_enum_wrapper(CLOCK_SOURCE).unwrap();
    assert_eq!(generated.rust_name, "Clock");
    assert_eq!(generated.c_name, "nvmlClockType_t");
    assert_eq!(generated.count_variant, Some("NVML_CLOCK_COUNT".to_string()));
    assert_eq!(generated.arms.len(), 2);
    assert_eq!(generated.arms[0].rust_variant, "Graphics");
    assert_eq!(generated.arms[0].c_variant, "NVML_CLOCK_GRAPHICS");
    assert_eq!(generated.arms[1].rust_variant, "SM");
    assert_eq!(generated.arms[1].c_variant, "NVML_CLOCK_SM");
}

#[test]
fn expand_enum_wrapper_refusals() {
    assert_eq!(expand_enum_wrapper("this is not an item"), None);
    assert_eq!(expand_enum_wrapper("#[wrap(c_enum = \"a_t\")] pub struct S { x: u32 }"), None);
    assert_eq!(expand_enum_wrapper("pub enum E { #[wrap(c_variant = \"E_A\")] A }"), None);
    assert_eq!(expand_enum_wrapper("#[wrap(c_enum = 5)] pub enum E { #[wrap(c_variant = \"E_A\")] A }"), None);
    let ok = expand_enum_wrapper("#[wrap(c_enum = \"e_t\")] pub enum E { #[wrap(c_variant = \"E_A\")] A }");
    assert_eq!(ok.map(|g| g.c_name), Some("e_t".to_string()));
}

#[test]
fn expanded_arms_convert_back() {
    let generated = expand_enum_wrapper(CLOCK_SOURCE).unwrap();
    for arm in generated.arms.iter() {
        let into_c = generated.arms.iter().find(|a| a.rust_variant == arm.rust_variant).map(|a| a.c_variant.clone());
        assert_eq!(into_c, Some(arm.c_variant.clone()));
        let from_c = generated.arms.iter().find(|a| a.c_variant == arm.c_variant).map(|a| a.rust_variant.clone());
        assert_eq!(from_c, Some(arm.rust_variant.clone()));
    }
}

#[test]
fn parse_derive_input_reads_source() {
    let source = r#"
/// The clocks.
#[wrap(c_enum = "nvmlClockType_t", 3)]
#[derive(Debug)]
pub enum Clock {
    /// Graphics.
    #[wrap(c_variant = "NVML_CLOCK_GRAPHICS", other(x), n = 1)]
    Graphics,
    SM,
}
"#;
    let ast = parse_derive_input(source).unwrap();
    assert_eq!(ast.ident, "Clock");
    assert_eq!(ast.attrs.len(), 3);
    assert_eq!(ast.attrs[0], Attribute { value: AttrValue::Other });
    assert_eq!(
        ast.attrs[1],
        wrap(vec![pair("c_enum", "nvmlClockType_t"), NestedMetaItem::Literal])
    );
    assert_eq!(
        ast.attrs[2],
        Attribute { value: AttrValue::List("derive".to_string(), vec![NestedMetaItem::OtherMeta]) }
    );
    match ast.body {
        Body::Enum(variants) => {
            assert_eq!(variants.len(), 2);
            assert_eq!(variants[0].ident, "Graphics");
            assert_eq!(
                variants[0].attrs[1],
                wrap(vec![
                    pair("c_variant", "NVML_CLOCK_GRAPHICS"),
                    NestedMetaItem::OtherMeta,
                    NestedMetaItem::NameValue("n".to_string(), Lit::Other),
                ])
            );
            assert_eq!(variants[1], Variant { ident: "SM".to_string(), attrs: vec![] });
        }
        Body::Struct => panic!("expected an enum"),
    }
    let s = parse_derive_input("struct S;").unwrap();
    assert_eq!(s.body, Body::Struct);
    assert_eq!(parse_derive_input("fn f() {}"), None);
}

#[test]
fn byte_literal_with_non_ascii_character_is_refused() {
    let source = "#[wrap(c_enum = \"e_t\", x = b'\u{e9}')] pub enum E { #[wrap(c_variant = \"E_A\")] A }";
    assert_eq!(parse_derive_input(source), None);
    assert_eq!(expand_enum_wrapper(source), None);
    let in_variant = "#[wrap(c_enum = \"e_t\")] pub enum E { #[wrap(c_variant = \"E_A\", y = b'\u{e9}')] A }";
    assert_eq!(expand_enum_wrapper(in_variant), None);
}

#[test]
fn non_ascii_text_elsewhere_is_read() {
    let source = "#[wrap(c_enum = \"e_t\")] pub enum E { #[wrap(c_variant = \"\u{c9}T\u{c9}\")] A, #[wrap(c_variant = \"B\", z = b'z')] B }";
    let generated = expand_enum_wrapper(source).unwrap();
    assert_eq!(generated.arms[0].c_variant, "\u{c9}T\u{c9}");
    assert_eq!(generated.arms[1].c_variant, "B");
}
