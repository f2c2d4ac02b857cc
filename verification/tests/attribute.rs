use webapi_gen::members::attribute::{Attribute, AttributeMember, ReadOnly};
use webapi_gen::types::TypeReference;

fn type_of(text: &str) -> TypeReference {
    TypeReference { text: text.to_string() }
}

fn member(readonly: Option<ReadOnly>, identifier: &str, type_: &str) -> AttributeMember {
    AttributeMember { readonly, identifier: identifier.to_string(), type_: type_of(type_) }
}

fn attribute(
    is_global: bool,
    interface: &str,
    readonly: bool,
    identifier: &str,
    type_: &str,
) -> Attribute {
    Attribute {
        is_global,
        interface: interface.to_string(),
        readonly,
        identifier: identifier.to_string(),
        type_: type_of(type_),
    }
}

fn bindings(attribute: &Attribute) -> String {
    let mut buf = String::new();
    attribute.write_bindings(&mut buf);
    buf
}

#[test]
fn scrape_gives_nothing_for_a_type_that_is_not_defined() {
    let from = member(None, "width", "u32");
    assert_eq!(Attribute::scrape(&from, false, "Image", |_| false), None);
    let from = member(Some(ReadOnly), "width", "u32");
    assert_eq!(Attribute::scrape(&from, true, "Window", |_| false), None);
}

#[test]
fn scrape_copies_the_member_of_a_defined_type() {
    let from = member(Some(ReadOnly), "innerWidth", "i32");
    let scraped = Attribute::scrape(&from, true, "Window", |_| true);
    assert_eq!(scraped, Some(attribute(true, "Window", true, "innerWidth", "i32")));
}

#[test]
fn scrape_without_the_marker_is_not_readonly() {
    let from = member(None, "value", "String");
    let scraped = Attribute::scrape(&from, false, "HtmlInputElement", |_| true);
    assert_eq!(scraped, Some(attribute(false, "HtmlInputElement", false, "value", "String")));
}

#[test]
fn scrape_keeps_the_identifier_as_it_is_written() {
    let from = member(None, "innerHTML", "String");
    let scraped = Attribute::scrape(&from, false, "Element", |_| true).unwrap();
    assert_eq!(scraped.identifier, "innerHTML");
    assert_eq!(from.identifier, "innerHTML");
}

#[test]
fn scrape_asks_the_registry_about_the_type_of_the_member() {
    let known = |type_: &TypeReference| type_.text == "Node";
    let node = member(None, "parentNode", "Node");
    let other = member(None, "parentNode", "Gadget");
    assert!(Attribute::scrape(&node, false, "Node", known).is_some());
    assert!(Attribute::scrape(&other, false, "Node", known).is_none());
}

#[test]
fn from_member_follows_the_answer() {
    let from = member(Some(ReadOnly), "length", "u32");
    assert_eq!(Attribute::from_member(&from, false, "NodeList", false), None);
    assert_eq!(
        Attribute::from_member(&from, false, "NodeList", true),
        Some(attribute(false, "NodeList", true, "length", "u32"))
    );
}

#[test]
fn unsafe_name_writes_nothing() {
    for is_global in [false, true] {
        for readonly in [false, true] {
            let a = attribute(is_global, "Event", readonly, "type", "String");
            assert_eq!(bindings(&a), "");
        }
    }
}

#[test]
fn unsafe_name_leaves_the_buffer_as_it_was() {
    let a = attribute(false, "HtmlSelectElement", false, "type", "String");
    let mut buf = String::from("// before\n");
    a.write_bindings(&mut buf);
    assert_eq!(buf, "// before\n");
}

#[test]
fn every_reserved_identifier_is_skipped() {
    for word in ["as", "self", "Self", "static", "where", "async", "final", "try", "in", "ref"] {
        let a = attribute(false, "Thing", false, word, "u8");
        assert_eq!(bindings(&a), "", "{}", word);
    }
}

#[test]
fn global_readonly_attribute_is_one_static() {
    let a = attribute(true, "Window", true, "name", "String");
    assert_eq!(bindings(&a), "pub static name: String;\n\n");
}

#[test]
fn global_attribute_never_has_a_setter() {
    let readonly = attribute(true, "Window", true, "name", "String");
    let assignable = attribute(true, "Window", false, "name", "String");
    assert_eq!(bindings(&assignable), bindings(&readonly));
    assert_eq!(bindings(&assignable), "pub static name: String;\n\n");

    let readonly = attribute(true, "Window", true, "innerWidth", "i32");
    let assignable = attribute(true, "Window", false, "innerWidth", "i32");
    assert_eq!(bindings(&assignable), bindings(&readonly));
}

#[test]
fn global_attribute_in_another_case_names_its_identifier() {
    let a = attribute(true, "Window", true, "innerWidth", "i32");
    assert_eq!(
        bindings(&a),
        "#[wasm_bindgen(js_name = innerWidth)]\npub static inner_width: i32;\n\n"
    );
}

#[test]
fn instance_attribute_inner_html() {
    let a = attribute(false, "Element", false, "innerHTML", "String");
    assert_eq!(
        bindings(&a),
        "#[wasm_bindgen(method, getter = innerHTML, structural)]\n\
         pub fn inner_html(this: &Element) -> String;\n\
         \n\
         #[wasm_bindgen(method, setter = innerHTML, structural)]\n\
         pub fn set_inner_html(this: &Element, val: String);\n\
         \n"
    );
}

#[test]
fn instance_attribute_in_snake_case_has_plain_markers() {
    let a = attribute(false, "HtmlInputElement", false, "value", "String");
    assert_eq!(
        bindings(&a),
        "#[wasm_bindgen(method, getter, structural)]\n\
         pub fn value(this: &HtmlInputElement) -> String;\n\
         \n\
         #[wasm_bindgen(method, setter, structural)]\n\
         pub fn set_value(this: &HtmlInputElement, val: String);\n\
         \n"
    );
}

#[test]
fn readonly_instance_attribute_has_a_getter_alone() {
    let a = attribute(false, "Element", true, "tagName", "String");
    assert_eq!(
        bindings(&a),
        "#[wasm_bindgen(method, getter = tagName, structural)]\n\
         pub fn tag_name(this: &Element) -> String;\n\
         \n"
    );
    let a = attribute(false, "NodeList", true, "length", "u32");
    assert_eq!(
        bindings(&a),
        "#[wasm_bindgen(method, getter, structural)]\npub fn length(this: &NodeList) -> u32;\n\n"
    );
}

#[test]
fn snake_name_that_is_reserved_is_declared_under_its_safe_name() {
    let a = attribute(false, "Gadget", false, "Type", "u8");
    assert_eq!(
        bindings(&a),
        "#[wasm_bindgen(method, getter = Type, structural)]\n\
         pub fn type_(this: &Gadget) -> u8;\n\
         \n\
         #[wasm_bindgen(method, setter = Type, structural)]\n\
         pub fn set_type(this: &Gadget, val: u8);\n\
         \n"
    );
    let a = attribute(true, "Gadget", false, "Type", "u8");
    assert_eq!(bindings(&a), "#[wasm_bindgen(js_name = Type)]\npub static type_: u8;\n\n");
}

#[test]
fn getter_goes_by_the_safe_name_and_setter_by_the_snake_name() {
    // The identifier is its own safe name, and is not its snake case form.
    let a = attribute(false, "Gadget", false, "type_", "u8");
    assert_eq!(
        bindings(&a),
        "#[wasm_bindgen(method, getter, structural)]\n\
         pub fn type_(this: &Gadget) -> u8;\n\
         \n\
         #[wasm_bindgen(method, setter = type_, structural)]\n\
         pub fn set_type(this: &Gadget, val: u8);\n\
         \n"
    );
    let a = attribute(true, "Gadget", true, "type_", "u8");
    assert_eq!(bindings(&a), "pub static type_: u8;\n\n");
}

#[test]
fn writing_twice_gives_the_same_text() {
    let attributes = [
        attribute(false, "Element", false, "innerHTML", "String"),
        attribute(false, "Element", true, "tagName", "String"),
        attribute(true, "Window", false, "innerWidth", "i32"),
        attribute(true, "Window", true, "type", "String"),
    ];
    for a in attributes.iter() {
        assert_eq!(bindings(a), bindings(a));
    }
}

#[test]
fn writing_adds_to_the_end_of_the_buffer() {
    let a = attribute(true, "Window", true, "name", "String");
    let b = attribute(false, "Element", true, "id", "String");
    let mut buf = String::from("extern {\n");
    a.write_bindings(&mut buf);
    b.write_bindings(&mut buf);
    assert_eq!(
        buf,
        "extern {\n\
         pub static name: String;\n\
         \n\
         #[wasm_bindgen(method, getter, structural)]\n\
         pub fn id(this: &Element) -> String;\n\
         \n"
    );
    a.write_bindings(&mut buf);
    assert!(buf.ends_with("-> String;\n\npub static name: String;\n\n"));
}

#[test]
fn write_declarations_takes_the_snake_name_as_given() {
    let a = attribute(false, "Element", false, "innerHTML", "String");
    let mut buf = String::new();
    a.write_declarations("inner_html", &mut buf);
    assert_eq!(buf, bindings(&a));

    let mut buf = String::new();
    a.write_declarations("innerHTML", &mut buf);
    assert_eq!(
        buf,
        "#[wasm_bindgen(method, getter, structural)]\n\
         pub fn innerHTML(this: &Element) -> String;\n\
         \n\
         #[wasm_bindgen(method, setter, structural)]\n\
         pub fn set_innerHTML(this: &Element, val: String);\n\
         \n"
    );

    let unsafe_name = attribute(false, "Event", false, "type", "String");
    let mut buf = String::from("x");
    unsafe_name.write_declarations("type", &mut buf);
    assert_eq!(buf, "x");
}

#[test]
fn declarations_one_by_one() {
    let a = attribute(false, "Element", false, "className", "String");
    assert_eq!(
        a.declare_static("class_name"),
        "#[wasm_bindgen(js_name = className)]\npub static class_name: String;\n\n"
    );
    assert_eq!(a.declare_static("className"), "pub static className: String;\n\n");
    assert_eq!(
        a.declare_getter("class_name"),
        "#[wasm_bindgen(method, getter = className, structural)]\n\
         pub fn class_name(this: &Element) -> String;\n\n"
    );
    assert_eq!(
        a.declare_getter("className"),
        "#[wasm_bindgen(method, getter, structural)]\n\
         pub fn className(this: &Element) -> String;\n\n"
    );
    assert_eq!(
        a.declare_setter("class_name"),
        "#[wasm_bindgen(method, setter = className, structural)]\n\
         pub fn set_class_name(this: &Element, val: String);\n\n"
    );
    assert_eq!(
        a.declare_setter("className"),
        "#[wasm_bindgen(method, setter, structural)]\n\
         pub fn set_className(this: &Element, val: String);\n\n"
    );
}

#[test]
fn member_clone_is_equal() {
    let from = member(Some(ReadOnly), "length", "u32");
    assert_eq!(from.clone(), from);
    let from = member(None, "value", "String");
    assert_eq!(from.clone(), from);
}

#[test]
fn attributes_are_ordered_by_their_fields() {
    let mut attributes = vec![
        attribute(true, "Window", true, "name", "String"),
        attribute(false, "Element", false, "id", "String"),
        attribute(false, "Element", false, "className", "String"),
        attribute(false, "Document", true, "title", "String"),
    ];
    attributes.sort();
    let names: Vec<&str> = attributes.iter().map(|a| a.identifier.as_str()).collect();
    assert_eq!(names, vec!["title", "className", "id", "name"]);
}
