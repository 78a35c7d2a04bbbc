//! The SOAP envelope builder.
//!
//! An action is sent as an `s:Envelope` root, in the SOAP envelope namespace
//! and with its encoding style, holding an `s:Body` that holds the action
//! element `u:<action>` in the service's namespace; each argument becomes a
//! child element of the action, named by its key and holding its value.
use vstd::prelude::*;
use xml_builder::XMLError as XmlBuildError;
use crate::errors::XMLError;
use crate::services::{service_name, Service};
use crate::text::replace_all;

verus! {

/// An element under construction in `xml_builder`.
#[verifier::external_type_specification]
#[verifier::external_body]
pub struct ExXmlElement(xml_builder::XMLElement);

/// What an element holds: its name, its attributes in the order they were
/// added (values as written out), its own attribute-sorting setting (`None`
/// where it follows the document's), and its content.
pub struct ElementView {
    pub name: Seq<char>,
    pub attributes: Seq<(Seq<char>, Seq<char>)>,
    pub sorts_attributes: Option<bool>,
    pub content: ContentView,
}

/// The content of an element: nothing, child elements in order, or text.
pub enum ContentView {
    Empty,
    Elements(Seq<ElementView>),
    Text(Seq<char>),
}

/// What the `xml_builder` element `e` holds: its name, attributes, sorting
/// setting and content.
pub uninterp spec fn element_view(e: xml_builder::XMLElement) -> ElementView;

/// An attribute value as `xml_builder` stores it: `&`, `"`, `'`, `<` and `>` escaped, in that order.
pub open spec fn escaped(v: Seq<char>) -> Seq<char> {
    replace_all(
        replace_all(
            replace_all(replace_all(replace_all(v, "&"@, "&amp;"@), "\""@, "&quot;"@), "'"@, "&apos;"@),
            "<"@,
            "&lt;"@,
        ),
        ">"@,
        "&gt;"@,
    )
}

/// Relies on xml_builder's `XMLElement::new`: a new element has the given
/// name, no attributes and no content.
pub assume_specification[ xml_builder::XMLElement::new ](name: &str) -> (r: xml_builder::XMLElement)
    ensures
        element_view(r) == (ElementView {
            name: name@,
            attributes: seq![],
            sorts_attributes: None,
            content: ContentView::Empty,
        }),
;

/// Relies on xml_builder's `XMLElement::add_attribute`: the attribute is
/// appended, its value escaped by the crate's `escape_str`.
pub assume_specification[ xml_builder::XMLElement::add_attribute ](
    e: &mut xml_builder::XMLElement,
    name: &str,
    value: &str,
)
    ensures
        element_view(*final(e)) == (ElementView {
            name: element_view(*old(e)).name,
            attributes: element_view(*old(e)).attributes.push((name@, escaped(value@))),
            sorts_attributes: element_view(*old(e)).sorts_attributes,
            content: element_view(*old(e)).content,
        }),
;

/// Relies on xml_builder's `XMLElement::add_text`: text goes into an element
/// without content; any other element refuses it and is left as it was.
pub assume_specification[ xml_builder::XMLElement::add_text ](
    e: &mut xml_builder::XMLElement,
    text: String,
) -> (r: Result<(), XmlBuildError>)
    ensures
        element_view(*old(e)).content is Empty ==> r is Ok && element_view(*final(e)) == (
        ElementView {
            name: element_view(*old(e)).name,
            attributes: element_view(*old(e)).attributes,
            sorts_attributes: element_view(*old(e)).sorts_attributes,
            content: ContentView::Text(text@),
        }),
        !(element_view(*old(e)).content is Empty) ==> r is Err && element_view(*final(e))
            == element_view(*old(e)),
;

/// Relies on xml_builder's `XMLElement::add_child`: a child is appended to an
/// element without text; an element with text refuses it and is left as it was.
pub assume_specification[ xml_builder::XMLElement::add_child ](
    e: &mut xml_builder::XMLElement,
    element: xml_builder::XMLElement,
) -> (r: Result<(), XmlBuildError>)
    ensures
        match element_view(*old(e)).content {
            ContentView::Empty => r is Ok && element_view(*final(e)) == (ElementView {
                name: element_view(*old(e)).name,
                attributes: element_view(*old(e)).attributes,
                sorts_attributes: element_view(*old(e)).sorts_attributes,
                content: ContentView::Elements(seq![element_view(element)]),
            }),
            ContentView::Elements(children) => r is Ok && element_view(*final(e)) == (
            ElementView {
                name: element_view(*old(e)).name,
                attributes: element_view(*old(e)).attributes,
                sorts_attributes: element_view(*old(e)).sorts_attributes,
                content: ContentView::Elements(children.push(element_view(element))),
            }),
            ContentView::Text(_) => r is Err && element_view(*final(e)) == element_view(*old(e)),
        },
;

/// The bytes of a document whose root element holds `root`, declared as XML
/// 1.1 (or else 1.0) with the given encoding, as `xml_builder` writes it with
/// its default layout (tab indents, line breaks, attributes in the order
/// added, unless an element's own sorting setting says otherwise).
pub uninterp spec fn rendered_document(root: ElementView, version_1_1: bool, encoding: Seq<char>) -> Seq<u8>;

/// Relies on xml_builder's `XMLBuilder` (with its default layout) and
/// `XML::generate`: the bytes of the document with the given root, version and
/// encoding. `generate` fails only where its writer fails, and writing into a
/// `Vec<u8>` does not fail.
#[verifier::external_body]
fn render_document(root: xml_builder::XMLElement, version_1_1: bool, encoding: String) -> (r: Result<
    Vec<u8>,
    XmlBuildError,
>)
    ensures
        r is Ok,
        r matches Ok(bytes) ==> bytes@ == rendered_document(element_view(root), version_1_1, encoding@),
{
    let version = if version_1_1 { xml_builder::XMLVersion::XML1_1 } else { xml_builder::XMLVersion::XML1_0 };
    let mut xml = xml_builder::XMLBuilder::new().version(version).encoding(encoding).build();
    xml.set_root_element(root);
    let mut writer: Vec<u8> = Vec::new();
    xml.generate(&mut writer)?;
    Ok(writer)
}

/// The element of one argument: named by its key, holding its value as text.
pub open spec fn argument_element(arg: (Seq<char>, Seq<char>)) -> ElementView {
    ElementView {
        name: arg.0,
        attributes: seq![],
        sorts_attributes: None,
        content: ContentView::Text(arg.1),
    }
}

/// The action element: `u:<action>` in the service's namespace, with one child per argument.
pub open spec fn action_element(action: Seq<char>, service: Seq<char>, args: Seq<(Seq<char>, Seq<char>)>) -> ElementView {
    ElementView {
        name: "u:"@ + action,
        attributes: seq![("xmlns:u"@, escaped("urn:schemas-upnp-org:service:"@ + service))],
        sorts_attributes: None,
        content: if args.len() == 0 {
            ContentView::Empty
        } else {
            ContentView::Elements(args.map_values(|a: (Seq<char>, Seq<char>)| argument_element(a)))
        },
    }
}

/// The envelope of an action call.
pub open spec fn soap_envelope(action: Seq<char>, service: Seq<char>, args: Seq<(Seq<char>, Seq<char>)>) -> ElementView {
    ElementView {
        name: "s:Envelope"@,
        attributes: seq![
            ("xmlns:s"@, escaped("http://schemas.xmlsoap.org/soap/envelope/"@)),
            ("s:encodingStyle"@, escaped("http://schemas.xmlsoap.org/soap/encoding/"@)),
        ],
        sorts_attributes: None,
        content: ContentView::Elements(
            seq![
                ElementView {
                    name: "s:Body"@,
                    attributes: seq![],
                    sorts_attributes: None,
                    content: ContentView::Elements(seq![action_element(action, service, args)]),
                },
            ],
        ),
    }
}

/// The arguments, as pairs of texts.
pub open spec fn arguments_view(args: Seq<(String, String)>) -> Seq<(Seq<char>, Seq<char>)> {
    args.map_values(|a: (String, String)| (a.0@, a.1@))
}

/// The bytes of the request document for `action_name` on `service` with
/// `arguments`, in their order: UTF-8, declared XML 1.1. It always succeeds.
pub fn generate_xml(action_name: &str, service: &Service, arguments: &Vec<(String, String)>) -> (r: Result<
    Vec<u8>,
    XMLError,
>)
    ensures
        r matches Ok(bytes) && bytes@ == rendered_document(
            soap_envelope(action_name@, service_name(*service), arguments_view(arguments@)),
            true,
            "UTF-8"@,
        ),
{
    let ghost args = arguments_view(arguments@);
    let mut envelope = xml_builder::XMLElement::new("s:Envelope");
    envelope.add_attribute("xmlns:s", "http://schemas.xmlsoap.org/soap/envelope/");
    envelope.add_attribute("s:encodingStyle", "http://schemas.xmlsoap.org/soap/encoding/");
    let mut body = xml_builder::XMLElement::new("s:Body");
    let action_tag = String::from_str("u:").concat(action_name);
    let mut action = xml_builder::XMLElement::new(action_tag.as_str());
    let namespace = String::from_str("urn:schemas-upnp-org:service:").concat(service.get_name());
    action.add_attribute("xmlns:u", namespace.as_str());
    let mut i: usize = 0;
    while i < arguments.len()
        invariant
            i <= arguments@.len(),
            args == arguments_view(arguments@),
            element_view(action).name == "u:"@ + action_name@,
            element_view(action).sorts_attributes is None,
            element_view(action).attributes == action_element(
                action_name@,
                service_name(*service),
                args,
            ).attributes,
            element_view(action).content == if i == 0 {
                ContentView::Empty
            } else {
                ContentView::Elements(
                    args.subrange(0, i as int).map_values(
                        |a: (Seq<char>, Seq<char>)| argument_element(a),
                    ),
                )
            },
        decreases arguments.len() - i,
    {
        let mut child = xml_builder::XMLElement::new(arguments[i].0.as_str());
        if let Err(e) = child.add_text(arguments[i].1.clone()) {
            return Err(XMLError::XMLBuilderError(e));
        }
        assert(args[i as int] == (arguments@[i as int].0@, arguments@[i as int].1@));
        assert(element_view(child) == argument_element(args[i as int]));
        if let Err(e) = action.add_child(child) {
            return Err(XMLError::XMLBuilderError(e));
        }
        assert(args.subrange(0, 1).map_values(|a: (Seq<char>, Seq<char>)| argument_element(a))
            =~= seq![argument_element(args[0])]);
        assert(args.subrange(0, i + 1).map_values(|a: (Seq<char>, Seq<char>)| argument_element(a))
            =~= args.subrange(0, i as int).map_values(
            |a: (Seq<char>, Seq<char>)| argument_element(a),
        ).push(argument_element(args[i as int])));
        i += 1;
    }
    assert(args.subrange(0, i as int) =~= args);
    assert(element_view(action) == action_element(action_name@, service_name(*service), args));
    if let Err(e) = body.add_child(action) {
        return Err(XMLError::XMLBuilderError(e));
    }
    if let Err(e) = envelope.add_child(body) {
        return Err(XMLError::XMLBuilderError(e));
    }
    assert(element_view(envelope).attributes =~= soap_envelope(
        action_name@,
        service_name(*service),
        args,
    ).attributes);
    assert(element_view(envelope) == soap_envelope(action_name@, service_name(*service), args));
    match render_document(envelope, true, "UTF-8".to_owned()) {
        Ok(bytes) => Ok(bytes),
        Err(e) => Err(XMLError::XMLBuilderError(e)),
    }
}

} // verus!
