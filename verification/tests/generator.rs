use iox2_ffi_gen::error::MacroError;
use iox2_ffi_gen::generator::{
    has_repr_c,
    iceoryx2_ffi, parse_attribute_args, ArgToken, AttrMeta, AttributeModel, TypeDefinition,
};
use iox2_ffi_gen::naming::{storage_type_name, strip_handle_name};

fn chars(s: &str) -> Vec<char> {
    s.chars().collect()
}

fn text(v: &[char]) -> String {
    v.iter().collect()
}

fn repr_c_attr() -> AttributeModel {
    AttributeModel {
        name: chars("repr"),
        metas: vec![AttrMeta::Path(chars("C"))],
    }
}

fn widget_input() -> TypeDefinition {
    TypeDefinition {
        ident: chars("iox2_widget_t"),
        attrs: vec![repr_c_attr()],
    }
}

#[test]
fn strip_accepts_well_formed_name() {
    let core = strip_handle_name(&chars("iox2_widget_t")).unwrap();
    assert_eq!(text(&core), "widget");
}

#[test]
fn strip_rejects_missing_prefix() {
    let e = strip_handle_name(&chars("widget_t")).unwrap_err();
    assert_eq!(e, MacroError::MissingPrefix);
    assert_eq!(text(&e.message()), "The struct must have an 'iox2_' prefix");
}

#[test]
fn strip_rejects_missing_suffix() {
    let e = strip_handle_name(&chars("iox2_widget")).unwrap_err();
    assert_eq!(e, MacroError::MissingSuffix);
    assert_eq!(text(&e.message()), "The struct must have a '_t' suffix");
}

#[test]
fn strip_rejects_overlapping_prefix_and_suffix() {
    // The two tokens are peeled in turn: after the prefix leaves "iox2_t",
    // only "t" remains, which does not end in "_t".
    let e = strip_handle_name(&chars("iox2_t")).unwrap_err();
    assert_eq!(e, MacroError::MissingSuffix);
}

#[test]
fn prefix_and_suffix_diagnostics_differ() {
    let p = strip_handle_name(&chars("widget_t")).unwrap_err();
    let s = strip_handle_name(&chars("iox2_widget")).unwrap_err();
    assert_ne!(text(&p.message()), text(&s.message()));
}

#[test]
fn args_accept_exactly_one_identifier() {
    let t = parse_attribute_args(&vec![ArgToken::Ident(chars("Widget"))]).unwrap();
    assert_eq!(text(&t), "Widget");
}

#[test]
fn args_reject_zero_tokens() {
    let e = parse_attribute_args(&vec![]).unwrap_err();
    assert_eq!(e, MacroError::InvalidArgumentCount);
    assert_eq!(
        text(&e.message()),
        "Invalid attribute definition! Format must be '#[iceoryx2_ffi(Type)]'"
    );
}

#[test]
fn args_reject_two_tokens() {
    let e = parse_attribute_args(&vec![
        ArgToken::Ident(chars("Widget")),
        ArgToken::Ident(chars("Gadget")),
    ])
    .unwrap_err();
    assert_eq!(e, MacroError::InvalidArgumentCount);
}

#[test]
fn args_reject_non_identifier_token() {
    let e = parse_attribute_args(&vec![ArgToken::Other]).unwrap_err();
    assert_eq!(e, MacroError::InvalidArgumentToken);
    assert_eq!(
        text(&e.message()),
        "Invalid type argument! Format must be '#[iceoryx2_ffi(Type)]'"
    );
}

#[test]
fn argument_diagnostics_differ() {
    let count = parse_attribute_args(&vec![]).unwrap_err();
    let token = parse_attribute_args(&vec![ArgToken::Other]).unwrap_err();
    assert_ne!(text(&count.message()), text(&token.message()));
}

#[test]
fn storage_name_follows_convention() {
    let name = storage_type_name(&chars("widget"));
    assert_eq!(text(&name), "iox2_widget_storage_t");
}

#[test]
fn driver_accepts_widget_scenario() {
    let args = vec![ArgToken::Ident(chars("Widget"))];
    let e = iceoryx2_ffi(&args, widget_input()).unwrap();
    assert_eq!(text(&e.wrapped_type), "Widget");
    assert_eq!(text(&e.stripped_name), "widget");
    assert_eq!(text(&e.storage_name), "iox2_widget_storage_t");
    assert_eq!(text(&e.type_definition.ident), "iox2_widget_t");
    assert_eq!(e.type_definition.attrs.len(), 1);
}

#[test]
fn driver_rejects_missing_repr_c() {
    let args = vec![ArgToken::Ident(chars("Widget"))];
    let input = TypeDefinition {
        ident: chars("iox2_widget_t"),
        attrs: vec![],
    };
    let e = iceoryx2_ffi(&args, input).unwrap_err();
    assert_eq!(e, MacroError::MissingReprC(chars("iox2_widget_t")));
    assert_eq!(
        text(&e.message()),
        "The 'repr(C)' attribute is missing from 'iox2_widget_t'!"
    );
}

#[test]
fn driver_rejects_repr_without_c() {
    let args = vec![ArgToken::Ident(chars("Widget"))];
    let input = TypeDefinition {
        ident: chars("iox2_widget_t"),
        attrs: vec![AttributeModel {
            name: chars("repr"),
            metas: vec![AttrMeta::Path(chars("packed")), AttrMeta::Other],
        }],
    };
    let e = iceoryx2_ffi(&args, input).unwrap_err();
    assert_eq!(e, MacroError::MissingReprC(chars("iox2_widget_t")));
}

#[test]
fn driver_checks_layout_declaration_before_naming() {
    // A definition failing both gates reports the layout declaration first:
    // the naming convention is never reached.
    let args = vec![ArgToken::Ident(chars("Widget"))];
    let input = TypeDefinition {
        ident: chars("widget"),
        attrs: vec![],
    };
    let e = iceoryx2_ffi(&args, input).unwrap_err();
    assert_eq!(e, MacroError::MissingReprC(chars("widget")));
    assert_eq!(
        text(&e.message()),
        "The 'repr(C)' attribute is missing from 'widget'!"
    );
}

#[test]
fn driver_checks_arguments_before_everything() {
    let input = TypeDefinition {
        ident: chars("widget"),
        attrs: vec![],
    };
    let e = iceoryx2_ffi(&vec![], input).unwrap_err();
    assert_eq!(e, MacroError::InvalidArgumentCount);
}

#[test]
fn driver_reports_naming_violations_last() {
    let args = vec![ArgToken::Ident(chars("Widget"))];
    let no_prefix = TypeDefinition {
        ident: chars("widget_t"),
        attrs: vec![repr_c_attr()],
    };
    assert_eq!(
        iceoryx2_ffi(&args, no_prefix).unwrap_err(),
        MacroError::MissingPrefix
    );
    let no_suffix = TypeDefinition {
        ident: chars("iox2_widget"),
        attrs: vec![repr_c_attr()],
    };
    assert_eq!(
        iceoryx2_ffi(&args, no_suffix).unwrap_err(),
        MacroError::MissingSuffix
    );
}

#[test]
fn repr_c_found_among_other_attributes_and_metas() {
    let attrs = vec![
        AttributeModel {
            name: chars("derive"),
            metas: vec![],
        },
        AttributeModel {
            name: chars("repr"),
            metas: vec![AttrMeta::Path(chars("align")), AttrMeta::Path(chars("C"))],
        },
    ];
    assert!(has_repr_c(&attrs));
}

#[test]
fn c_meta_under_another_attribute_name_does_not_count() {
    let attrs = vec![AttributeModel {
        name: chars("derive"),
        metas: vec![AttrMeta::Path(chars("C"))],
    }];
    assert!(!has_repr_c(&attrs));
}
