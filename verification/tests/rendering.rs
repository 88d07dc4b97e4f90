use noir_exec::ast::{
    render_constraints, render_impl_items, render_items, render_parameters, NoirTrait, Span,
    TraitBound, TraitConstraint, TraitImpl, TraitImplItem, TraitItem, TypeImpl,
};
use noir_exec::text::{indent_all, indent_lines};

fn s(text: &str) -> String {
    text.to_string()
}

fn bound(name: &str, generics: &[&str]) -> TraitBound {
    TraitBound { trait_name: s(name), trait_generics: generics.iter().map(|g| s(g)).collect() }
}

fn constraint(typ: &str, name: &str, generics: &[&str]) -> TraitConstraint {
    TraitConstraint { typ: s(typ), trait_bound: bound(name, generics) }
}

#[test]
fn bound_without_generics_is_its_name() {
    assert_eq!(bound("TraitX", &[]).to_text(), "TraitX");
}

#[test]
fn bound_with_generics_lists_them() {
    assert_eq!(bound("TraitY", &["U", "V"]).to_text(), "TraitY<U, V>");
    assert_eq!(bound("Into", &["Field"]).to_text(), "Into<Field>");
}

#[test]
fn constraint_is_type_colon_bound() {
    assert_eq!(constraint("Foo", "TraitY", &["U", "V"]).to_text(), "Foo: TraitY<U, V>");
    assert_eq!(constraint("T", "Eq", &[]).to_text(), "T: Eq");
}

#[test]
fn constraints_and_parameters_render_in_order() {
    let constraints = vec![constraint("T", "Eq", &[]), constraint("U", "Into", &["T"])];
    assert_eq!(render_constraints(&constraints), vec![s("T: Eq"), s("U: Into<T>")]);
    let parameters = vec![(s("self"), s("Self")), (s("x"), s("Field"))];
    assert_eq!(render_parameters(&parameters), vec![s("self: Self"), s("x: Field")]);
}

#[test]
fn trait_function_without_body_ends_in_semicolon() {
    let item = TraitItem::Function {
        name: s("eq"),
        generics: vec![s("T"), s("U")],
        parameters: vec![(s("self"), s("Self")), (s("other"), s("T"))],
        return_type: s("bool"),
        where_clause: vec![constraint("T", "Eq", &[]), constraint("U", "Into", &["T"])],
        body: None,
    };
    assert_eq!(item.to_text(), "fn eq<T, U>(self: Self, other: T) -> bool where T: Eq, U: Into<T>;");
}

#[test]
fn trait_function_with_body_appends_it() {
    let item = TraitItem::Function {
        name: s("zero"),
        generics: vec![],
        parameters: vec![],
        return_type: s("Field"),
        where_clause: vec![],
        body: Some(s("{ 0 }")),
    };
    assert_eq!(item.to_text(), "fn zero<>() -> Field where { 0 }");
}

#[test]
fn trait_constant_with_and_without_default() {
    let bare = TraitItem::Constant { name: s("N"), typ: s("Field"), default_value: None };
    assert_eq!(bare.to_text(), "let N: Field;");
    let with_default =
        TraitItem::Constant { name: s("N"), typ: s("Field"), default_value: Some(s("3")) };
    assert_eq!(with_default.to_text(), "let N: Field3;");
}

#[test]
fn trait_type_item() {
    assert_eq!(TraitItem::Type { name: s("Output") }.to_text(), "type Output;");
}

#[test]
fn impl_items_render() {
    assert_eq!(TraitImplItem::Function(s("fn f() {}")).to_text(), "fn f() {}");
    assert_eq!(
        TraitImplItem::Type { name: s("Output"), alias: s("Field") }.to_text(),
        "type Output = Field;"
    );
    assert_eq!(
        TraitImplItem::Constant(s("N"), s("u32"), s("7")).to_text(),
        "let N: u32 = 7;"
    );
}

fn span() -> Span {
    Span { start: 0, end: 0 }
}

#[test]
fn indenting_handles_every_kind_of_line_end() {
    assert_eq!(indent_lines(""), "");
    assert_eq!(indent_lines("a"), "    a\n");
    assert_eq!(indent_lines("a\n"), "    a\n");
    assert_eq!(indent_lines("a\nb"), "    a\n    b\n");
    assert_eq!(indent_lines("a\n\nb"), "    a\n    \n    b\n");
    assert_eq!(indent_lines("\n"), "    \n");
    assert_eq!(indent_lines("a\r\nb\r\n"), "    a\n    b\n");
    assert_eq!(indent_lines("a\r"), "    a\r\n");
    assert_eq!(indent_lines("a\rb\n"), "    a\rb\n");
    assert_eq!(indent_lines("\r\n"), "    \n");
    assert_eq!(indent_lines("a\r\r\n"), "    a\r\n");
}

#[test]
fn indenting_agrees_with_line_splitting() {
    let samples = ["", "x", "x\ny", "x\r\ny\n", "\n\n", "é\nü\r\n", "a\r", "\r", "a\n\rb"];
    for sample in samples {
        let mut expected = String::new();
        for line in sample.lines() {
            expected.push_str(&format!("    {line}\n"));
        }
        assert_eq!(indent_lines(sample), expected);
    }
}

#[test]
fn indenting_several_texts_concatenates() {
    assert_eq!(indent_all(&vec![s("a\nb"), s(""), s("c")]), "    a\n    b\n    c\n");
    assert_eq!(indent_all(&Vec::new()), "");
}

#[test]
fn items_render_in_order() {
    let items = vec![TraitItem::Type { name: s("A") }, TraitItem::Type { name: s("B") }];
    assert_eq!(render_items(&items), vec![s("type A;"), s("type B;")]);
    let impl_items = vec![TraitImplItem::Function(s("fn f() {}"))];
    assert_eq!(render_impl_items(&impl_items), vec![s("fn f() {}")]);
}

#[test]
fn trait_definition_renders() {
    let definition = NoirTrait {
        name: s("Shape"),
        generics: vec![s("T"), s("U")],
        where_clause: vec![],
        span: span(),
        items: vec![
            TraitItem::Type { name: s("Output") },
            TraitItem::Constant { name: s("N"), typ: s("Field"), default_value: None },
        ],
    };
    assert_eq!(definition.to_text(), "trait ShapeT, U {\n    type Output;\n    let N: Field;\n}");
}

#[test]
fn trait_definition_without_items_renders() {
    let definition = NoirTrait {
        name: s("Empty"),
        generics: vec![],
        where_clause: vec![],
        span: span(),
        items: vec![],
    };
    assert_eq!(definition.to_text(), "trait Empty {\n}");
}

#[test]
fn type_impl_renders() {
    let implementation = TypeImpl {
        object_type: s("Foo"),
        type_span: span(),
        generics: vec![s("T")],
        methods: vec![s("fn a() {\n    1\n}"), s("fn b() {}")],
    };
    assert_eq!(
        implementation.to_text(),
        "implT Foo {\n    fn a() {\n        1\n    }\n    fn b() {}\n}"
    );
    let bare =
        TypeImpl { object_type: s("Foo"), type_span: span(), generics: vec![], methods: vec![] };
    assert_eq!(bare.to_text(), "impl Foo {\n}");
}

#[test]
fn trait_impl_renders() {
    let implementation = TraitImpl {
        impl_generics: vec![],
        trait_name: s("Into"),
        trait_generics: vec![s("Field"), s("u8")],
        object_type: s("Foo"),
        object_type_span: span(),
        where_clause: vec![],
        items: vec![
            TraitImplItem::Type { name: s("Output"), alias: s("Field") },
            TraitImplItem::Function(s("fn into(self) -> Field {\n    self.x\n}")),
        ],
    };
    assert_eq!(
        implementation.to_text(),
        "impl Into<Field, u8> for Foo {\n    type Output = Field;\n    fn into(self) -> Field {\n        self.x\n    }\n}"
    );
}
