//! The generator's front end and driver. The attribute's argument list is
//! checked to be exactly one identifier naming the wrapped type; the
//! annotated definition is checked to declare a C-compatible layout and to
//! obey the naming convention; and from the stripped name the companion
//! identifiers are synthesized. The annotated definition itself passes
//! through unchanged.

use vstd::prelude::*;
use crate::error::MacroError;
use crate::naming::{
    handle_prefix, handle_suffix, is_well_formed_handle_name, storage_suffix, storage_type_name,
    strip_handle_name, stripped_of,
};
use crate::text::{chars_equal, copy_chars};

verus! {

/// One token of the attribute's argument list, as the front end saw it: a
/// bare identifier, or any other token shape.
#[derive(Debug)]
pub enum ArgToken {
    Ident(Vec<char>),
    Other,
}

/// One meta item inside an attribute's parenthesized argument list: a bare
/// path rendered to its identifier, or any more complex shape.
#[derive(Debug)]
pub enum AttrMeta {
    Path(Vec<char>),
    Other,
}

/// One attribute of the annotated type definition: the identifier of its
/// path, and the meta items of its argument list.
#[derive(Debug)]
pub struct AttributeModel {
    pub name: Vec<char>,
    pub metas: Vec<AttrMeta>,
}

/// The facts of an annotated type definition that the generator reads: its
/// identifier and its attributes.
#[derive(Debug)]
pub struct TypeDefinition {
    pub ident: Vec<char>,
    pub attrs: Vec<AttributeModel>,
}

/// The attribute path that declares a type's memory representation.
pub open spec fn repr_name() -> Seq<char> {
    seq!['r', 'e', 'p', 'r']
}

/// The meta item that selects the C-compatible representation.
pub open spec fn c_meta_name() -> Seq<char> {
    seq!['C']
}

/// This meta item is the bare path `C`.
pub open spec fn meta_is_c(m: AttrMeta) -> bool {
    m matches AttrMeta::Path(p) && p@ == c_meta_name()
}

/// This attribute is a `repr` declaration that names `C` among its metas.
pub open spec fn attr_declares_repr_c(a: AttributeModel) -> bool {
    a.name@ == repr_name() && exists|i: int| 0 <= i < a.metas@.len() && meta_is_c(#[trigger] a.metas@[i])
}

/// Some attribute of the definition declares the C-compatible layout.
pub open spec fn has_c_layout(attrs: Seq<AttributeModel>) -> bool {
    exists|i: int| 0 <= i < attrs.len() && attr_declares_repr_c(#[trigger] attrs[i])
}

/// The `repr` attribute path as a character vector.
fn repr_name_chars() -> (r: Vec<char>)
    ensures
        r@ == repr_name(),
{
    let mut v: Vec<char> = Vec::new();
    v.push('r');
    v.push('e');
    v.push('p');
    v.push('r');
    proof {
        assert(v@ =~= repr_name());
    }
    v
}

/// Is this meta item the bare path `C`?
fn is_c_meta(m: &AttrMeta) -> (r: bool)
    ensures
        r == meta_is_c(*m),
{
    match m {
        AttrMeta::Path(p) => {
            if p.len() == 1 && p[0] == 'C' {
                proof {
                    assert(p@ =~= c_meta_name());
                }
                true
            } else {
                proof {
                    if p@ == c_meta_name() {
                        assert(p@.len() == 1 && p@[0] == 'C');
                    }
                }
                false
            }
        },
        AttrMeta::Other => false,
    }
}

/// Scans the attributes of the annotated definition for a `repr` declaration
/// that names the C-compatible representation.
pub fn has_repr_c(attrs: &Vec<AttributeModel>) -> (r: bool)
    ensures
        r == has_c_layout(attrs@),
{
    let repr = repr_name_chars();
    let mut i: usize = 0;
    while i < attrs.len()
        invariant
            i <= attrs@.len(),
            repr@ == repr_name(),
            forall|j: int| 0 <= j < i ==> !attr_declares_repr_c(#[trigger] attrs@[j]),
        decreases attrs@.len() - i,
    {
        if chars_equal(&attrs[i].name, &repr) {
            let metas = &attrs[i].metas;
            let mut k: usize = 0;
            while k < metas.len()
                invariant
                    k <= metas@.len(),
                    metas == &attrs@[i as int].metas,
                    i < attrs@.len(),
                    attrs@[i as int].name@ == repr_name(),
                    forall|j: int| 0 <= j < k ==> !meta_is_c(#[trigger] metas@[j]),
                decreases metas@.len() - k,
            {
                if is_c_meta(&metas[k]) {
                    return true;
                }
                k += 1;
            }
        }
        i += 1;
    }
    false
}

/// Checks the attribute's argument list: it must hold exactly one token, and
/// that token must be a bare identifier naming the wrapped type. Each of the
/// two failure shapes aborts with its own diagnostic.
pub fn parse_attribute_args(args: &Vec<ArgToken>) -> (r: Result<Vec<char>, MacroError>)
    ensures
        r is Ok <==> args@.len() == 1 && args@[0] is Ident,
        r matches Ok(t) ==> args@[0] matches ArgToken::Ident(name) && t@ == name@,
        r matches Err(e) ==> (e == MacroError::InvalidArgumentCount <==> args@.len() != 1),
        r matches Err(e) ==> e == MacroError::InvalidArgumentCount || e
            == MacroError::InvalidArgumentToken,
{
    if args.len() != 1 {
        return Err(MacroError::InvalidArgumentCount);
    }
    match &args[0] {
        ArgToken::Ident(name) => Ok(copy_chars(name)),
        ArgToken::Other => Err(MacroError::InvalidArgumentToken),
    }
}

/// Everything the generator decides about one accepted input: the wrapped
/// type's name, the stripped name, the synthesized storage type identifier,
/// and the annotated definition, which is re-emitted unchanged.
#[derive(Debug)]
pub struct Expansion {
    pub type_definition: TypeDefinition,
    pub wrapped_type: Vec<char>,
    pub stripped_name: Vec<char>,
    pub storage_name: Vec<char>,
}

/// All gates an input must pass for generation to succeed.
pub open spec fn input_accepted(args: Seq<ArgToken>, input: TypeDefinition) -> bool {
    &&& args.len() == 1
    &&& args[0] is Ident
    &&& has_c_layout(input.attrs@)
    &&& is_well_formed_handle_name(input.ident@)
}

/// The generator's driver: checks the argument list, the layout declaration
/// and the naming convention, in that order, and on success synthesizes the
/// companion identifiers. Exactly one diagnostic is produced for each way an
/// input can fail, and the checks earlier in the order mask the later ones.
pub fn iceoryx2_ffi(args: &Vec<ArgToken>, input: TypeDefinition) -> (r: Result<
    Expansion,
    MacroError,
>)
    ensures
        r is Ok <==> input_accepted(args@, input),
        r matches Ok(e) ==> {
            &&& e.type_definition == input
            &&& args@[0] matches ArgToken::Ident(name) && e.wrapped_type@ == name@
            &&& e.stripped_name@ == stripped_of(input.ident@)
            &&& input.ident@ == handle_prefix() + e.stripped_name@ + handle_suffix()
            &&& e.storage_name@ == handle_prefix() + e.stripped_name@ + storage_suffix()
        },
        r matches Err(e) ==> {
            &&& (e == MacroError::InvalidArgumentCount <==> args@.len() != 1)
            &&& (e == MacroError::InvalidArgumentToken <==> args@.len() == 1 && !(args@[0]
                is Ident))
            &&& (e is MissingReprC <==> args@.len() == 1 && args@[0] is Ident
                && !has_c_layout(input.attrs@))
            &&& (e matches MacroError::MissingReprC(name) ==> name@ == input.ident@)
            &&& (e == MacroError::MissingPrefix <==> args@.len() == 1 && args@[0] is Ident
                && has_c_layout(input.attrs@) && !crate::text::is_prefix_of(
                handle_prefix(),
                input.ident@,
            ))
            &&& (e == MacroError::MissingSuffix <==> args@.len() == 1 && args@[0] is Ident
                && has_c_layout(input.attrs@) && crate::text::is_prefix_of(
                handle_prefix(),
                input.ident@,
            ) && !is_well_formed_handle_name(input.ident@))
        },
{
    let wrapped_type = match parse_attribute_args(args) {
        Ok(t) => t,
        Err(e) => {
            return Err(e);
        },
    };
    if !has_repr_c(&input.attrs) {
        return Err(MacroError::MissingReprC(copy_chars(&input.ident)));
    }
    let stripped_name = match strip_handle_name(&input.ident) {
        Ok(core) => core,
        Err(e) => {
            return Err(e);
        },
    };
    let storage_name = storage_type_name(&stripped_name);
    Ok(Expansion { type_definition: input, wrapped_type, stripped_name, storage_name })
}

} // verus!
