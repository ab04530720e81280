//! The naming convention of the C-visible surface. An annotated handle type
//! is named `iox2_<name>_t`; from the stripped `<name>` the generator
//! synthesizes the sibling storage type identifier `iox2_<name>_storage_t`.
//! Both the leading domain token and the trailing `_t` token are mandatory,
//! and the absence of either aborts the build with its own diagnostic.

use vstd::prelude::*;
use crate::text::{append_chars, copy_chars, ends_with, is_prefix_of, is_suffix_of, starts_with};
use crate::error::MacroError;

verus! {

/// The mandatory leading token of every handle identifier: `iox2_`.
pub open spec fn handle_prefix() -> Seq<char> {
    seq!['i', 'o', 'x', '2', '_']
}

/// The mandatory trailing token of every handle identifier: `_t`.
pub open spec fn handle_suffix() -> Seq<char> {
    seq!['_', 't']
}

/// The trailing token of the sibling storage type identifier: `_storage_t`.
pub open spec fn storage_suffix() -> Seq<char> {
    seq!['_', 's', 't', 'o', 'r', 'a', 'g', 'e', '_', 't']
}

/// The leading domain token as a character vector.
pub fn handle_prefix_chars() -> (r: Vec<char>)
    ensures
        r@ == handle_prefix(),
{
    let mut v: Vec<char> = Vec::new();
    v.push('i');
    v.push('o');
    v.push('x');
    v.push('2');
    v.push('_');
    proof {
        assert(v@ =~= handle_prefix());
    }
    v
}

/// The trailing handle token as a character vector.
pub fn handle_suffix_chars() -> (r: Vec<char>)
    ensures
        r@ == handle_suffix(),
{
    let mut v: Vec<char> = Vec::new();
    v.push('_');
    v.push('t');
    proof {
        assert(v@ =~= handle_suffix());
    }
    v
}

/// The trailing storage token as a character vector.
pub fn storage_suffix_chars() -> (r: Vec<char>)
    ensures
        r@ == storage_suffix(),
{
    let mut v: Vec<char> = Vec::new();
    v.push('_');
    v.push('s');
    v.push('t');
    v.push('o');
    v.push('r');
    v.push('a');
    v.push('g');
    v.push('e');
    v.push('_');
    v.push('t');
    proof {
        assert(v@ =~= storage_suffix());
    }
    v
}

/// A handle identifier is well formed when it starts with the domain prefix
/// and what remains after the prefix ends with the handle suffix.
pub open spec fn is_well_formed_handle_name(ident: Seq<char>) -> bool {
    &&& is_prefix_of(handle_prefix(), ident)
    &&& is_suffix_of(handle_suffix(), ident.skip(handle_prefix().len() as int))
}

/// The stripped name: what stands between the domain prefix and the handle
/// suffix of a well-formed handle identifier.
pub open spec fn stripped_of(ident: Seq<char>) -> Seq<char> {
    ident.subrange(handle_prefix().len() as int, ident.len() - handle_suffix().len())
}

/// Strips the domain prefix and the handle suffix from an annotated
/// identifier, yielding the canonical name from which every companion
/// identifier is synthesized. The prefix is checked first, exactly as the
/// two tokens are peeled in turn.
pub fn strip_handle_name(ident: &Vec<char>) -> (r: Result<Vec<char>, MacroError>)
    ensures
        r is Ok <==> is_well_formed_handle_name(ident@),
        r matches Ok(core) ==> core@ == stripped_of(ident@),
        r matches Ok(core) ==> ident@ == handle_prefix() + core@ + handle_suffix(),
        r matches Err(e) ==> (e == MacroError::MissingPrefix <==> !is_prefix_of(
            handle_prefix(),
            ident@,
        )),
        r matches Err(e) ==> e == MacroError::MissingPrefix || e == MacroError::MissingSuffix,
{
    let prefix = handle_prefix_chars();
    let suffix = handle_suffix_chars();
    if !starts_with(ident, &prefix) {
        return Err(MacroError::MissingPrefix);
    }
    let ghost rest = ident@.skip(handle_prefix().len() as int);
    if ident.len() < prefix.len() + suffix.len() || !ends_with(ident, &suffix) {
        proof {
            if is_suffix_of(handle_suffix(), rest) {
                assert(rest.subrange(rest.len() - handle_suffix().len(), rest.len() as int)
                    =~= ident@.subrange(
                    ident@.len() - handle_suffix().len(),
                    ident@.len() as int,
                ));
            }
        }
        return Err(MacroError::MissingSuffix);
    }
    proof {
        assert(rest.subrange(rest.len() - handle_suffix().len(), rest.len() as int)
            =~= ident@.subrange(ident@.len() - handle_suffix().len(), ident@.len() as int));
    }
    let end: usize = ident.len() - suffix.len();
    let start: usize = prefix.len();
    let mut core_name: Vec<char> = Vec::new();
    let mut i: usize = start;
    while i < end
        invariant
            start <= i <= end <= ident@.len() <= usize::MAX,
            start == handle_prefix().len(),
            end == ident@.len() - handle_suffix().len(),
            core_name@ == ident@.subrange(start as int, i as int),
        decreases end - i,
    {
        core_name.push(ident[i]);
        proof {
            assert(core_name@ =~= ident@.subrange(start as int, i + 1 as int));
        }
        i += 1;
    }
    proof {
        assert(core_name@ == stripped_of(ident@));
        assert(ident@ =~= handle_prefix() + core_name@ + handle_suffix());
    }
    Ok(core_name)
}

/// Synthesizes the sibling storage type identifier `iox2_<core>_storage_t`
/// from a stripped name.
pub fn storage_type_name(core: &Vec<char>) -> (r: Vec<char>)
    ensures
        r@ == handle_prefix() + core@ + storage_suffix(),
{
    let mut r = handle_prefix_chars();
    append_chars(&mut r, &copy_chars(core));
    let tail = storage_suffix_chars();
    append_chars(&mut r, &tail);
    r
}

} // verus!
