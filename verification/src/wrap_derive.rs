//! The decisions of the `EnumWrapper` derive: where it finds the values of its
//! `#[wrap(..)]` attributes, and which conversion impl it generates for an enum.
//!
//! The derive input is modelled by the plain values that these decisions read;
//! parsing it and rendering the generated impl are left to the macro's host.
use syn::Lit as SynLit;
use syn::MetaItem as SynMeta;
use syn::NestedMetaItem as SynNested;
use quote::ToTokens;
use vstd::prelude::*;
use vstd::utf8::encode_utf8;

verus! {

/// A literal in an attribute.
#[derive(Debug, Clone, PartialEq, Eq, Hash)]
pub enum Lit {
    Str(String),
    /// Any literal other than a string.
    Other,
}

/// An item nested in a list attribute such as `#[wrap(..)]`.
#[derive(Debug, Clone, PartialEq, Eq, Hash)]
pub enum NestedMetaItem {
    /// A `name = literal` pair.
    NameValue(String, Lit),
    /// A meta item of another form (a word or a list).
    OtherMeta,
    /// A bare literal.
    Literal,
}

/// The value of an attribute.
#[derive(Debug, Clone, PartialEq, Eq, Hash)]
pub enum AttrValue {
    /// A list attribute `name(items..)`.
    List(String, Vec<NestedMetaItem>),
    /// An attribute of another form (a word or a `name = value` pair).
    Other,
}

/// An attribute on the enum or on one of its variants.
#[derive(Debug, Clone, PartialEq, Eq, Hash)]
pub struct Attribute {
    pub value: AttrValue,
}

/// A variant of the enum that is derived for.
#[derive(Debug, Clone, PartialEq, Eq, Hash)]
pub struct Variant {
    pub ident: String,
    pub attrs: Vec<Attribute>,
}

/// The body of the item that is derived for.
#[derive(Debug, Clone, PartialEq, Eq, Hash)]
pub enum Body {
    Enum(Vec<Variant>),
    Struct,
}

/// The item that is derived for.
#[derive(Debug, Clone, PartialEq, Eq, Hash)]
pub struct DeriveInput {
    pub ident: String,
    pub attrs: Vec<Attribute>,
    pub body: Body,
}

/// What looking for a `#[wrap(name = "..")]` value finds.
pub enum Lookup {
    /// The string value of the first matching pair.
    Found(Seq<char>),
    /// No matching pair.
    NotFound,
    /// The scan met a form that the derive rejects (and panics on): a nested
    /// meta item that is not a `name = literal` pair, or a matching pair whose
    /// value is not a string.
    Rejected,
}

/// The name of the attribute list that holds the derive's settings.
pub open spec fn wrap_ident() -> Seq<char> {
    "wrap"@
}

/// Scans the items of a `#[wrap(..)]` list in order for the pair named `name`.
pub open spec fn lookup_in_items(items: Seq<NestedMetaItem>, name: Seq<char>) -> Lookup
    decreases items.len(),
{
    if items.len() == 0 {
        Lookup::NotFound
    } else {
        match items[0] {
            NestedMetaItem::Literal => lookup_in_items(items.drop_first(), name),
            NestedMetaItem::OtherMeta => Lookup::Rejected,
            NestedMetaItem::NameValue(n, lit) => if n@ == name {
                match lit {
                    Lit::Str(s) => Lookup::Found(s@),
                    Lit::Other => Lookup::Rejected,
                }
            } else {
                lookup_in_items(items.drop_first(), name)
            },
        }
    }
}

/// Scans attributes in order for the first `#[wrap(..)]` list that settles the
/// lookup of `name`; attributes of other forms are passed over.
pub open spec fn lookup_in_attrs(attrs: Seq<Attribute>, name: Seq<char>) -> Lookup
    decreases attrs.len(),
{
    if attrs.len() == 0 {
        Lookup::NotFound
    } else {
        match attrs[0].value {
            AttrValue::List(ident, items) => if ident@ == wrap_ident() {
                match lookup_in_items(items@, name) {
                    Lookup::NotFound => lookup_in_attrs(attrs.drop_first(), name),
                    settled => settled,
                }
            } else {
                lookup_in_attrs(attrs.drop_first(), name)
            },
            AttrValue::Other => lookup_in_attrs(attrs.drop_first(), name),
        }
    }
}

/// Scans the items of one attribute list.
fn lookup_items(items: &Vec<NestedMetaItem>, name: &String) -> (r: Option<Option<String>>)
    ensures
        match lookup_in_items(items@, name@) {
            Lookup::Found(s) => r matches Some(Some(v)) && v@ == s,
            Lookup::NotFound => r == Some(None::<String>),
            Lookup::Rejected => r is None,
        },
{
    let mut i: usize = 0;
    assert(items@.skip(0) =~= items@);
    while i < items.len()
        invariant
            0 <= i <= items@.len(),
            lookup_in_items(items@, name@) == lookup_in_items(items@.skip(i as int), name@),
        decreases items@.len() - i,
    {
        let ghost rest = items@.skip(i as int);
        assert(rest.drop_first() =~= items@.skip(i + 1));
        assert(rest[0] == items@[i as int]);
        match &items[i] {
            NestedMetaItem::Literal => {},
            NestedMetaItem::OtherMeta => {
                return None;
            },
            NestedMetaItem::NameValue(n, lit) => {
                if *n == *name {
                    return match lit {
                        Lit::Str(s) => Some(Some(s.clone())),
                        Lit::Other => None,
                    };
                }
            },
        }
        i = i + 1;
    }
    assert(items@.skip(i as int).len() == 0);
    Some(None)
}

/// Scans attributes for the `#[wrap(..)]` pair named `name`.
fn lookup_attrs(attrs: &Vec<Attribute>, name: &String) -> (r: Option<Option<String>>)
    ensures
        match lookup_in_attrs(attrs@, name@) {
            Lookup::Found(s) => r matches Some(Some(v)) && v@ == s,
            Lookup::NotFound => r == Some(None::<String>),
            Lookup::Rejected => r is None,
        },
{
    proof {
        reveal_strlit("wrap");
    }
    let wrap = "wrap".to_owned();
    let mut i: usize = 0;
    assert(attrs@.skip(0) =~= attrs@);
    while i < attrs.len()
        invariant
            0 <= i <= attrs@.len(),
            wrap@ == wrap_ident(),
            lookup_in_attrs(attrs@, name@) == lookup_in_attrs(attrs@.skip(i as int), name@),
        decreases attrs@.len() - i,
    {
        let ghost rest = attrs@.skip(i as int);
        assert(rest.drop_first() =~= attrs@.skip(i + 1));
        assert(rest[0] == attrs@[i as int]);
        match &attrs[i].value {
            AttrValue::List(ident, items) => {
                if *ident == wrap {
                    match lookup_items(items, name) {
                        None => {
                            return None;
                        },
                        Some(Some(v)) => {
                            return Some(Some(v));
                        },
                        Some(None) => {},
                    }
                }
            },
            AttrValue::Other => {},
        }
        i = i + 1;
    }
    assert(attrs@.skip(i as int).len() == 0);
    Some(None)
}

/// The value of the `#[wrap(name = "..")]` setting on the derived enum, if any.
pub fn attr_val_for_str(string: &str, ast: &DeriveInput) -> (r: Option<String>)
    requires
        !(lookup_in_attrs(ast.attrs@, string@) is Rejected),
    ensures
        match lookup_in_attrs(ast.attrs@, string@) {
            Lookup::Found(s) => r matches Some(v) && v@ == s,
            _ => r is None,
        },
{
    let name = string.to_owned();
    match lookup_attrs(&ast.attrs, &name) {
        Some(found) => found,
        None => None,
    }
}

/// The string that the variant lookup starts from and gives back when the
/// variant has no matching setting.
pub open spec fn variant_lookup_start() -> Seq<char> {
    "this_is_not_to_be_returned"@
}

/// The string that the variant lookup refuses (by panicking) as a result.
pub open spec fn variant_lookup_refused() -> Seq<char> {
    "this_is_not_supposed_to_be_returned"@
}

/// What the variant lookup gives back: the value of the first matching
/// setting, or the string it starts from.
pub open spec fn variant_lookup_value(attrs: Seq<Attribute>, name: Seq<char>) -> Seq<char> {
    match lookup_in_attrs(attrs, name) {
        Lookup::Found(s) => s,
        _ => variant_lookup_start(),
    }
}

/// The value of the `#[wrap(name = "..")]` setting on a variant.
///
/// A variant without the setting gives back the string that the lookup starts
/// from, `"this_is_not_to_be_returned"`: the check that was meant to reject it
/// compares against another string, and so only rejects a setting whose value
/// is that other string.
pub fn variant_attr_val_for_str(string: &str, variant: &Variant) -> (r: String)
    requires
        !(lookup_in_attrs(variant.attrs@, string@) is Rejected),
        variant_lookup_value(variant.attrs@, string@) != variant_lookup_refused(),
    ensures
        r@ == variant_lookup_value(variant.attrs@, string@),
{
    let name = string.to_owned();
    let mut return_string = "this_is_not_to_be_returned".to_owned();
    match lookup_attrs(&variant.attrs, &name) {
        Some(Some(v)) => {
            return_string = v;
        },
        _ => {},
    }
    return_string
}

/// Everything the generated code needs about one variant.
#[derive(Debug, Clone, PartialEq, Eq, Hash)]
pub struct VariantInfo {
    pub rust_name: String,
    pub rust_variant: String,
    pub c_name: String,
    pub c_variant: String,
}

/// Whether the variant lookup for `c_variant` succeeds on a variant.
pub open spec fn has_c_variant(variant: Variant) -> bool {
    &&& !(lookup_in_attrs(variant.attrs@, "c_variant"@) is Rejected)
    &&& variant_lookup_value(variant.attrs@, "c_variant"@) != variant_lookup_refused()
}

impl VariantInfo {
    /// Collects the names of a variant: its own, its enum's, the C enum's, and
    /// the C variant that its `c_variant` setting names.
    pub fn from(variant: &Variant, c_name: &String, rust_name: &String) -> (r: VariantInfo)
        requires
            has_c_variant(*variant),
        ensures
            r.rust_name@ == rust_name@,
            r.rust_variant@ == variant.ident@,
            r.c_name@ == c_name@,
            r.c_variant@ == variant_lookup_value(variant.attrs@, "c_variant"@),
    {
        proof {
            reveal_strlit("c_variant");
        }
        let c_variant = variant_attr_val_for_str("c_variant", variant);
        VariantInfo {
            rust_name: rust_name.clone(),
            rust_variant: variant.ident.clone(),
            c_name: c_name.clone(),
            c_variant,
        }
    }
}

/// The conversion impl that the derive generates for an enum.
///
/// It always holds `into_c`, with one arm per variant mapping the Rust variant
/// to the C variant. With a count variant it also holds a `try_from` with one
/// arm per variant and an `UnexpectedVariant` error for the count variant;
/// without one, a `From` impl with one arm per variant.
#[derive(Debug, Clone, PartialEq, Eq, Hash)]
pub struct GeneratedImpl {
    pub rust_name: String,
    pub c_name: String,
    /// The variants, in declaration order, one arm each.
    pub arms: Vec<VariantInfo>,
    /// The C count variant, if the enum declares one.
    pub count_variant: Option<String>,
}

/// Builds the impl for the given variants; the Rust and C enum names are taken
/// from the first variant.
pub fn gen_impl(variant_slice: &Vec<VariantInfo>, count_variant: Option<String>) -> (r: GeneratedImpl)
    requires
        variant_slice@.len() > 0,
    ensures
        r.rust_name@ == variant_slice@[0].rust_name@,
        r.c_name@ == variant_slice@[0].c_name@,
        r.arms@.len() == variant_slice@.len(),
        forall|i: int|
            0 <= i < variant_slice@.len() ==> {
                &&& (#[trigger] r.arms@[i]).rust_name@ == variant_slice@[i].rust_name@
                &&& r.arms@[i].rust_variant@ == variant_slice@[i].rust_variant@
                &&& r.arms@[i].c_name@ == variant_slice@[i].c_name@
                &&& r.arms@[i].c_variant@ == variant_slice@[i].c_variant@
            },
        r.count_variant == count_variant,
{
    let mut arms: Vec<VariantInfo> = Vec::new();
    let mut i: usize = 0;
    while i < variant_slice.len()
        invariant
            0 <= i <= variant_slice@.len(),
            arms@.len() == i,
            forall|j: int|
                0 <= j < i ==> {
                    &&& (#[trigger] arms@[j]).rust_name@ == variant_slice@[j].rust_name@
                    &&& arms@[j].rust_variant@ == variant_slice@[j].rust_variant@
                    &&& arms@[j].c_name@ == variant_slice@[j].c_name@
                    &&& arms@[j].c_variant@ == variant_slice@[j].c_variant@
                },
        decreases variant_slice@.len() - i,
    {
        let v = &variant_slice[i];
        arms.push(
            VariantInfo {
                rust_name: v.rust_name.clone(),
                rust_variant: v.rust_variant.clone(),
                c_name: v.c_name.clone(),
                c_variant: v.c_variant.clone(),
            },
        );
        i = i + 1;
    }
    GeneratedImpl {
        rust_name: variant_slice[0].rust_name.clone(),
        c_name: variant_slice[0].c_name.clone(),
        arms,
        count_variant,
    }
}

/// Whether the derive accepts an item: an enum with at least one variant,
/// a `c_enum` setting, settings that can be read, and a `c_variant` setting that
/// can be read on every variant.
pub open spec fn is_wrappable(ast: DeriveInput) -> bool {
    &&& lookup_in_attrs(ast.attrs@, "c_enum"@) is Found
    &&& !(lookup_in_attrs(ast.attrs@, "has_count"@) is Rejected)
    &&& match ast.body {
        Body::Enum(variants) => variants@.len() > 0 && forall|i: int|
            0 <= i < variants@.len() ==> has_c_variant(#[trigger] variants@[i]),
        Body::Struct => false,
    }
}

/// Whether `r` is the impl generated for `ast`: the enum's name, the C enum
/// that its `c_enum` setting names, one arm per variant in order with the C
/// variant that the variant's `c_variant` setting names, and the count variant
/// that its `has_count` setting names, if any.
pub open spec fn is_generated_for(r: GeneratedImpl, ast: DeriveInput) -> bool {
    &&& r.rust_name@ == ast.ident@
    &&& lookup_in_attrs(ast.attrs@, "c_enum"@) == Lookup::Found(r.c_name@)
    &&& match lookup_in_attrs(ast.attrs@, "has_count"@) {
        Lookup::Found(s) => r.count_variant matches Some(v) && v@ == s,
        _ => r.count_variant is None,
    }
    &&& ast.body matches Body::Enum(variants) && r.arms@.len() == variants@.len() && forall|i: int|
        0 <= i < variants@.len() ==> {
            &&& (#[trigger] r.arms@[i]).rust_name@ == ast.ident@
            &&& r.arms@[i].rust_variant@ == variants@[i].ident@
            &&& r.arms@[i].c_name@ == r.c_name@
            &&& r.arms@[i].c_variant@ == variant_lookup_value(variants@[i].attrs@, "c_variant"@)
        }
}

/// Decides the impl that the derive generates for an enum: the enum's name,
/// the C enum that its `c_enum` setting names, one arm per variant with the C
/// variant that the variant's `c_variant` setting names, and the count variant
/// that its `has_count` setting names, if any.
pub fn wrap_enum(ast: &DeriveInput) -> (r: GeneratedImpl)
    requires
        is_wrappable(*ast),
    ensures
        is_generated_for(r, *ast),
{
    proof {
        reveal_strlit("c_enum");
        reveal_strlit("has_count");
    }
    let c_name = match attr_val_for_str("c_enum", ast) {
        Some(v) => v,
        None => {
            assert(false);
            String::new()
        },
    };
    let count_variant = attr_val_for_str("has_count", ast);
    match &ast.body {
        Body::Enum(variant_vec) => {
            let mut info_vec: Vec<VariantInfo> = Vec::new();
            let mut i: usize = 0;
            while i < variant_vec.len()
                invariant
                    0 <= i <= variant_vec@.len(),
                    forall|k: int|
                        0 <= k < variant_vec@.len() ==> has_c_variant(#[trigger] variant_vec@[k]),
                    info_vec@.len() == i,
                    forall|j: int|
                        0 <= j < i ==> {
                            &&& (#[trigger] info_vec@[j]).rust_name@ == ast.ident@
                            &&& info_vec@[j].rust_variant@ == variant_vec@[j].ident@
                            &&& info_vec@[j].c_name@ == c_name@
                            &&& info_vec@[j].c_variant@ == variant_lookup_value(
                                variant_vec@[j].attrs@,
                                "c_variant"@,
                            )
                        },
                decreases variant_vec@.len() - i,
            {
                info_vec.push(VariantInfo::from(&variant_vec[i], &c_name, &ast.ident));
                i = i + 1;
            }
            gen_impl(&info_vec, count_variant)
        },
        Body::Struct => {
            assert(false);
            gen_impl(&Vec::new(), count_variant)
        },
    }
}

/// Decides the impl for any item, or `None` for an item that the derive
/// refuses (by panicking): one that is not an enum with variants, lacks a
/// `c_enum` setting, has a variant without a usable `c_variant` setting, or
/// holds a setting that cannot be read.
pub fn try_wrap_enum(ast: &DeriveInput) -> (r: Option<GeneratedImpl>)
    ensures
        r is Some <==> is_wrappable(*ast),
        r matches Some(g) ==> is_generated_for(g, *ast),
{
    proof {
        reveal_strlit("c_enum");
        reveal_strlit("has_count");
        reveal_strlit("c_variant");
        reveal_strlit("this_is_not_to_be_returned");
        reveal_strlit("this_is_not_supposed_to_be_returned");
    }
    let c_enum = "c_enum".to_owned();
    match lookup_attrs(&ast.attrs, &c_enum) {
        Some(Some(_)) => {},
        _ => {
            return None;
        },
    }
    let has_count = "has_count".to_owned();
    if lookup_attrs(&ast.attrs, &has_count).is_none() {
        return None;
    }
    match &ast.body {
        Body::Struct => {
            return None;
        },
        Body::Enum(variants) => {
            if variants.len() == 0 {
                return None;
            }
            let c_variant = "c_variant".to_owned();
            let refused = "this_is_not_supposed_to_be_returned".to_owned();
            assert(variant_lookup_start() != variant_lookup_refused()) by {
                assert(variant_lookup_start().len() != variant_lookup_refused().len());
            }
            let mut i: usize = 0;
            while i < variants.len()
                invariant
                    ast.body == Body::Enum(*variants),
                    0 <= i <= variants@.len(),
                    c_variant@ == "c_variant"@,
                    refused@ == variant_lookup_refused(),
                    variant_lookup_start() != variant_lookup_refused(),
                    forall|k: int| 0 <= k < i ==> has_c_variant(#[trigger] variants@[k]),
                decreases variants@.len() - i,
            {
                match lookup_attrs(&variants[i].attrs, &c_variant) {
                    None => {
                        assert(!has_c_variant(variants@[i as int]));
                        return None;
                    },
                    Some(Some(v)) => {
                        if v == refused {
                            assert(!has_c_variant(variants@[i as int]));
                            return None;
                        }
                    },
                    Some(None) => {},
                }
                i = i + 1;
            }
        },
    }
    Some(wrap_enum(ast))
}

/// The parts of a derive input that the derive reads, each attribute held as
/// the text that syn prints for it.
#[derive(Debug, Clone, PartialEq, Eq, Hash)]
pub struct DeriveShape {
    pub ident: String,
    pub attrs: Vec<String>,
    /// The variants of an enum; `None` for a struct.
    pub variants: Option<Vec<VariantShape>>,
}

/// A variant of a derive input, each attribute held as the text that syn prints for it.
#[derive(Debug, Clone, PartialEq, Eq, Hash)]
pub struct VariantShape {
    pub ident: String,
    pub attrs: Vec<String>,
}

/// Whether a text, as UTF-8 bytes, holds `b'` followed by a non-ASCII
/// character: the start of a byte literal on which syn's parser panics (it cuts
/// the text inside that character).
pub open spec fn has_non_ascii_byte_literal(bytes: Seq<u8>) -> bool {
    exists|i: int|
        0 <= i && i + 2 < bytes.len() && #[trigger] bytes[i] == 0x62u8 && bytes[i + 1] == 0x27u8
            && bytes[i + 2] >= 0x80u8
}

/// Whether syn's parsers can be handed a text: it holds no byte literal on
/// which they panic.
pub open spec fn is_parsable_text(text: Seq<char>) -> bool {
    !has_non_ascii_byte_literal(encode_utf8(text))
}

/// Tells whether syn's parsers can be handed a text.
fn parsable_text(text: &str) -> (r: bool)
    ensures
        r == is_parsable_text(text@),
{
    let bytes = text.as_bytes();
    let n = bytes.len();
    let mut i: usize = 0;
    while i < n && n - i > 2
        invariant
            i <= n,
            bytes@ == encode_utf8(text@),
            n == bytes@.len(),
            forall|j: int|
                0 <= j < i ==> !(#[trigger] bytes@[j] == 0x62u8 && bytes@[j + 1] == 0x27u8 && bytes@[j
                    + 2] >= 0x80u8),
        decreases n - i,
    {
        if bytes[i] == 0x62u8 && bytes[i + 1] == 0x27u8 && bytes[i + 2] >= 0x80u8 {
            return false;
        }
        i = i + 1;
    }
    true
}

/// What syn's derive-input parser gives for a source text, read as a
/// `DeriveShape`; `None` where it refuses the text.
pub uninterp spec fn parsed_derive_shape(source: Seq<char>) -> Option<DeriveShape>;

/// What syn's outer-attribute parser gives for a text, read as an `Attribute`;
/// `None` where it refuses the text.
pub uninterp spec fn parsed_outer_attr(text: Seq<char>) -> Option<Attribute>;

/// `syn::parse_derive_input` on a source text: its identifiers read as their
/// text, each attribute as the text that syn's printing (`ToTokens`) gives for
/// it, and the body as its variants or as a struct.
///
/// The contract names the result as a function of the text, which syn's
/// parser and printer are; what syn's grammar accepts is left unsaid. The
/// parser panics on a byte literal holding a non-ASCII character, which the
/// `requires` leaves out; it recurses on nested brackets, and how deep a
/// nesting the stack allows depends on the machine, so that is left unsaid.
#[verifier::external_body]
fn parse_derive_shape(source: &str) -> (r: Option<DeriveShape>)
    requires
        is_parsable_text(source@),
    ensures
        r == parsed_derive_shape(source@),
{
    let ast = syn::parse_derive_input(source).ok()?;
    let texts = |attrs: &Vec<syn::Attribute>| attrs.iter().map(|a| {
        let mut t = quote::Tokens::new();
        a.to_tokens(&mut t);
        t.into_string()
    }).collect::<Vec<String>>();
    let variants = match &ast.body {
        syn::Body::Enum(vs) => Some(vs.iter().map(|v| VariantShape { ident: v.ident.to_string(), attrs: texts(&v.attrs) }).collect()),
        syn::Body::Struct(_) => None,
    };
    Some(DeriveShape { ident: ast.ident.to_string(), attrs: texts(&ast.attrs), variants })
}

/// `syn::parse_outer_attr` on a text: a list attribute read as its name and
/// items (each `name = "string"` pair, other `name = literal` pair, other meta
/// item or bare literal), any other attribute as `Other`.
///
/// The contract names the result as a function of the text, which syn's
/// parser is; what syn's grammar accepts is left unsaid. The parser panics on
/// a byte literal holding a non-ASCII character, which the `requires` leaves
/// out; how deep a nesting the stack allows depends on the machine and is
/// left unsaid.
#[verifier::external_body]
fn parse_outer_attr(text: &str) -> (r: Option<Attribute>)
    requires
        is_parsable_text(text@),
    ensures
        r == parsed_outer_attr(text@),
{
    let a = syn::parse_outer_attr(text).ok()?;
    let nested = |n: &SynNested| match n {
        SynNested::MetaItem(SynMeta::NameValue(k, SynLit::Str(s, _))) => NestedMetaItem::NameValue(k.to_string(), Lit::Str(s.clone())),
        SynNested::MetaItem(SynMeta::NameValue(k, _)) => NestedMetaItem::NameValue(k.to_string(), Lit::Other),
        SynNested::MetaItem(_) => NestedMetaItem::OtherMeta,
        SynNested::Literal(_) => NestedMetaItem::Literal,
    };
    let value = match &a.value {
        SynMeta::List(k, items) => AttrValue::List(k.to_string(), items.iter().map(nested).collect()),
        _ => AttrValue::Other,
    };
    Some(Attribute { value })
}

/// Whether every attribute text can be handed to syn's parser and parses.
pub open spec fn attr_texts_parse(texts: Seq<String>) -> bool {
    forall|i: int|
        0 <= i < texts.len() ==> is_parsable_text(texts[i]@) && (#[trigger] parsed_outer_attr(
            texts[i]@,
        )) is Some
}

/// Whether `attrs` are the attributes that the texts parse to, in order.
pub open spec fn attrs_read_from(attrs: Seq<Attribute>, texts: Seq<String>) -> bool {
    &&& attrs.len() == texts.len()
    &&& forall|i: int|
        0 <= i < texts.len() ==> #[trigger] parsed_outer_attr(texts[i]@) == Some(attrs[i])
}

/// Whether every attribute text of a shape parses.
pub open spec fn shape_attrs_parse(shape: DeriveShape) -> bool {
    &&& attr_texts_parse(shape.attrs@)
    &&& shape.variants matches Some(vs) ==> forall|i: int|
        0 <= i < vs@.len() ==> attr_texts_parse(#[trigger] vs@[i].attrs@)
}

/// Whether `ast` is the derive input that a shape stands for: the same
/// identifiers, and each attribute the parse of its text.
pub open spec fn is_read_from_shape(ast: DeriveInput, shape: DeriveShape) -> bool {
    &&& ast.ident@ == shape.ident@
    &&& attrs_read_from(ast.attrs@, shape.attrs@)
    &&& match shape.variants {
        None => ast.body is Struct,
        Some(vs) => ast.body matches Body::Enum(avs) && avs@.len() == vs@.len() && forall|i: int|
            0 <= i < vs@.len() ==> (#[trigger] avs@[i]).ident@ == vs@[i].ident@
                && attrs_read_from(avs@[i].attrs@, vs@[i].attrs@),
    }
}

/// Whether `ast` is what the source text of a derive input parses to.
pub open spec fn is_parsed_input(source: Seq<char>, ast: DeriveInput) -> bool {
    &&& is_parsable_text(source)
    &&& parsed_derive_shape(source) matches Some(shape)
    &&& shape_attrs_parse(shape)
    &&& is_read_from_shape(ast, shape)
}

/// Parses each attribute text in order; `None` if one does not parse.
fn read_attrs(texts: &Vec<String>) -> (r: Option<Vec<Attribute>>)
    ensures
        r is Some <==> attr_texts_parse(texts@),
        r matches Some(attrs) ==> attrs_read_from(attrs@, texts@),
{
    let mut attrs: Vec<Attribute> = Vec::new();
    let mut i: usize = 0;
    while i < texts.len()
        invariant
            0 <= i <= texts@.len(),
            attrs@.len() == i,
            forall|j: int| 0 <= j < i ==> #[trigger] parsed_outer_attr(texts@[j]@) == Some(attrs@[j]),
            forall|j: int| 0 <= j < i ==> is_parsable_text(#[trigger] texts@[j]@),
        decreases texts@.len() - i,
    {
        if !parsable_text(texts[i].as_str()) {
            assert(!(is_parsable_text(texts@[i as int]@) && parsed_outer_attr(texts@[i as int]@) is Some));
            return None;
        }
        match parse_outer_attr(texts[i].as_str()) {
            Some(a) => attrs.push(a),
            None => {
                return None;
            },
        }
        i = i + 1;
    }
    Some(attrs)
}

/// Parses the source text of a derive input into the values that the
/// derive's decisions read; `None` where syn refuses the text, and for a text
/// (or an attribute as syn prints it) holding a byte literal with a non-ASCII
/// character, on which syn's parser would panic.
pub fn parse_derive_input(source: &str) -> (r: Option<DeriveInput>)
    ensures
        match r {
            Some(ast) => is_parsed_input(source@, ast),
            None => forall|ast: DeriveInput| !is_parsed_input(source@, ast),
        },
{
    if !parsable_text(source) {
        return None;
    }
    let shape = match parse_derive_shape(source) {
        Some(shape) => shape,
        None => {
            return None;
        },
    };
    let attrs = match read_attrs(&shape.attrs) {
        Some(attrs) => attrs,
        None => {
            return None;
        },
    };
    let body = match &shape.variants {
        None => Body::Struct,
        Some(vs) => {
            let mut variants: Vec<Variant> = Vec::new();
            let mut i: usize = 0;
            while i < vs.len()
                invariant
                    shape.variants == Some(*vs),
                    is_parsable_text(source@),
                    parsed_derive_shape(source@) == Some(shape),
                    attr_texts_parse(shape.attrs@),
                    attrs_read_from(attrs@, shape.attrs@),
                    0 <= i <= vs@.len(),
                    variants@.len() == i,
                    forall|j: int|
                        0 <= j < i ==> (#[trigger] variants@[j]).ident@ == vs@[j].ident@
                            && attrs_read_from(variants@[j].attrs@, vs@[j].attrs@),
                    forall|j: int| 0 <= j < i ==> attr_texts_parse(#[trigger] vs@[j].attrs@),
                decreases vs@.len() - i,
            {
                let v = &vs[i];
                match read_attrs(&v.attrs) {
                    Some(attrs) => variants.push(Variant { ident: v.ident.clone(), attrs }),
                    None => {
                        assert(!attr_texts_parse(vs@[i as int].attrs@));
                        assert(shape.variants->0 == *vs);
                        assert(!shape_attrs_parse(shape));
                        return None;
                    },
                }
                i = i + 1;
            }
            Body::Enum(variants)
        },
    };
    Some(DeriveInput { ident: shape.ident.clone(), attrs, body })
}

/// Attributes read from the same texts are the same attributes.
proof fn lemma_attrs_read_unique(texts: Seq<String>, a: Seq<Attribute>, b: Seq<Attribute>)
    requires
        attrs_read_from(a, texts),
        attrs_read_from(b, texts),
    ensures
        a == b,
{
    assert forall|i: int| 0 <= i < a.len() implies a[i] == b[i] by {
        assert(parsed_outer_attr(texts[i]@) == Some(a[i]));
        assert(parsed_outer_attr(texts[i]@) == Some(b[i]));
    }
    assert(a =~= b);
}

/// Two derive inputs parsed from the same text are wrapped alike.
proof fn lemma_parsed_input_unique(source: Seq<char>, a: DeriveInput, b: DeriveInput)
    requires
        is_parsed_input(source, a),
        is_parsed_input(source, b),
    ensures
        is_wrappable(a) == is_wrappable(b),
{
    let shape = parsed_derive_shape(source).unwrap();
    lemma_attrs_read_unique(shape.attrs@, a.attrs@, b.attrs@);
    match (a.body, b.body, shape.variants) {
        (Body::Enum(avs), Body::Enum(bvs), Some(vs)) => {
            assert forall|i: int|
                #![trigger avs@[i]]
                #![trigger bvs@[i]]
                0 <= i < avs@.len() implies has_c_variant(avs@[i]) == has_c_variant(bvs@[i]) by {
                assert(avs@[i].ident@ == vs@[i].ident@);
                assert(bvs@[i].ident@ == vs@[i].ident@);
                lemma_attrs_read_unique(vs@[i].attrs@, avs@[i].attrs@, bvs@[i].attrs@);
            }
        },
        _ => {},
    }
}

/// Expands `#[derive(EnumWrapper)]` on the source text of an item: parses it,
/// then decides the impl, or `None` where the derive refuses the text (it does
/// not parse, or the item cannot be wrapped).
pub fn expand_enum_wrapper(source: &str) -> (r: Option<GeneratedImpl>)
    ensures
        match r {
            Some(g) => exists|ast: DeriveInput|
                #[trigger] is_parsed_input(source@, ast) && is_wrappable(ast) && is_generated_for(g, ast),
            None => forall|ast: DeriveInput| #[trigger] is_parsed_input(source@, ast) ==> !is_wrappable(ast),
        },
{
    match parse_derive_input(source) {
        None => None,
        Some(ast) => {
            let r = try_wrap_enum(&ast);
            proof {
                if r is None {
                    assert forall|other: DeriveInput| #[trigger] is_parsed_input(source@, other) implies !is_wrappable(other) by {
                        lemma_parsed_input_unique(source@, ast, other);
                    }
                }
            }
            r
        },
    }
}

/// The C variant that the generated `into_c` maps a Rust variant to: that of
/// the first arm naming the variant.
pub open spec fn generated_into_c(arms: Seq<VariantInfo>, rust_variant: Seq<char>) -> Option<Seq<char>>
    decreases arms.len(),
{
    if arms.len() == 0 {
        None
    } else if arms[0].rust_variant@ == rust_variant {
        Some(arms[0].c_variant@)
    } else {
        generated_into_c(arms.drop_first(), rust_variant)
    }
}

/// The Rust variant that the generated `try_from` (or `From`) maps a C variant
/// to: that of the first arm naming the C variant; `None` where no variant arm
/// names it (`try_from` then reaches its count arm).
pub open spec fn generated_from_c(arms: Seq<VariantInfo>, c_variant: Seq<char>) -> Option<Seq<char>>
    decreases arms.len(),
{
    if arms.len() == 0 {
        None
    } else if arms[0].c_variant@ == c_variant {
        Some(arms[0].rust_variant@)
    } else {
        generated_from_c(arms.drop_first(), c_variant)
    }
}

/// Whether no two arms name the same Rust variant or the same C variant.
pub open spec fn has_distinct_arms(arms: Seq<VariantInfo>) -> bool {
    forall|i: int, j: int|
        0 <= i < j < arms.len() ==> arms[i].rust_variant@ != arms[j].rust_variant@
            && arms[i].c_variant@ != arms[j].c_variant@
}

proof fn lemma_arm_is_first_match(arms: Seq<VariantInfo>, i: int)
    requires
        has_distinct_arms(arms),
        0 <= i < arms.len(),
    ensures
        generated_into_c(arms, arms[i].rust_variant@) == Some(arms[i].c_variant@),
        generated_from_c(arms, arms[i].c_variant@) == Some(arms[i].rust_variant@),
    decreases i,
{
    if i > 0 {
        let rest = arms.drop_first();
        assert forall|a: int, b: int| 0 <= a < b < rest.len() implies rest[a].rust_variant@
            != rest[b].rust_variant@ && rest[a].c_variant@ != rest[b].c_variant@ by {
            assert(rest[a] == arms[a + 1] && rest[b] == arms[b + 1]);
        }
        assert(rest[i - 1] == arms[i]);
        lemma_arm_is_first_match(rest, i - 1);
    }
}

/// In the impl generated for an enum whose variants name pairwise different C
/// variants, the generated conversion from C undoes `into_c` for every variant
/// (`try_from` gives `Ok` of it, `From` gives it), and `into_c` maps different
/// variants to different C variants.
pub proof fn lemma_generated_conversions_invert(g: GeneratedImpl, i: int, j: int)
    requires
        has_distinct_arms(g.arms@),
        0 <= i < g.arms@.len(),
        0 <= j < g.arms@.len(),
    ensures
        generated_into_c(g.arms@, g.arms@[i].rust_variant@) == Some(g.arms@[i].c_variant@),
        generated_from_c(g.arms@, g.arms@[i].c_variant@) == Some(g.arms@[i].rust_variant@),
        i != j ==> generated_into_c(g.arms@, g.arms@[i].rust_variant@) != generated_into_c(
            g.arms@,
            g.arms@[j].rust_variant@,
        ),
{
    lemma_arm_is_first_match(g.arms@, i);
    lemma_arm_is_first_match(g.arms@, j);
}

} // verus!
