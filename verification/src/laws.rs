//! What holds of every expansion, proved from the definitions in
//! [`crate::conversion`], [`crate::declaration`] and the crate root.

use crate::conversion::{dispatch, paired_by_name, Direction};
use crate::declaration::{first_with_fields, DeclarationView, Shape, VariantView};
use crate::error::Error;
use crate::syntax::item_syntax;
use crate::{expands, expansion_text};
use vstd::prelude::*;

verus! {

/// The names of `variants`, in order.
pub open spec fn names(variants: Seq<VariantView>) -> Seq<Seq<char>> {
    Seq::new(variants.len(), |i: int| variants[i].name)
}

/// Arms that pair each name with itself yield `tag` for `tag` where it is one
/// of the names, and nothing where it is not.
proof fn lemma_dispatch_by_name(variants: Seq<VariantView>, tag: Seq<char>)
    ensures
        dispatch(paired_by_name(variants), tag) == if names(variants).contains(tag) {
            Some(tag)
        } else {
            None
        },
    decreases variants.len(),
{
    let arms = paired_by_name(variants);
    if variants.len() == 0 {
    } else if variants[0].name == tag {
        assert(names(variants)[0] == tag);
    } else {
        let rest = variants.drop_first();
        assert(arms.drop_first() =~= paired_by_name(rest));
        lemma_dispatch_by_name(rest, tag);
        if names(rest).contains(tag) {
            let i = choose|i: int| 0 <= i < names(rest).len() && names(rest)[i] == tag;
            assert(names(variants)[i + 1] == tag);
        }
        if names(variants).contains(tag) {
            let i = choose|i: int| 0 <= i < names(variants).len() && names(variants)[i] == tag;
            assert(names(rest)[i - 1] == tag);
        }
    }
}

/// For enumerations `annotated` and `target` with the same bare tags in the
/// same order, [`crate::from`] on `annotated` with `target` as its target
/// emits the code of a conversion that consumes `target`, produces
/// `annotated`, and takes every tag of `target` to the tag of the same name.
pub proof fn from_takes_each_tag_to_its_namesake(
    annotated: DeclarationView,
    target: DeclarationView,
    text: Seq<char>,
    emitted: Result<String, Error>,
    tag: Seq<char>,
)
    requires
        annotated.is_plain_enumeration(),
        target.is_plain_enumeration(),
        names(annotated.variants->0) == names(target.variants->0),
        names(target.variants->0).contains(tag),
        expands(Some(target.name), Some(annotated), text, Direction::FromTarget, emitted),
    ensures
        emitted is Ok,
        emitted->Ok_0@ == expansion_text(
            text,
            annotated.conversion(target.name, Direction::FromTarget),
        ),
        annotated.conversion(target.name, Direction::FromTarget).consumes == target.name,
        annotated.conversion(target.name, Direction::FromTarget).produces == annotated.name,
        annotated.conversion(target.name, Direction::FromTarget).apply(tag) == Some(tag),
{
    lemma_dispatch_by_name(annotated.variants->0, tag);
}

/// For enumerations `annotated` and `target` with the same bare tags in the
/// same order, [`crate::to`] on `annotated` with `target` as its target emits
/// the code of a conversion that consumes `annotated`, produces `target`, and
/// takes every tag of `annotated` to the tag of the same name.
pub proof fn to_takes_each_tag_to_its_namesake(
    annotated: DeclarationView,
    target: DeclarationView,
    text: Seq<char>,
    emitted: Result<String, Error>,
    tag: Seq<char>,
)
    requires
        annotated.is_plain_enumeration(),
        target.is_plain_enumeration(),
        names(annotated.variants->0) == names(target.variants->0),
        names(annotated.variants->0).contains(tag),
        expands(Some(target.name), Some(annotated), text, Direction::ToTarget, emitted),
    ensures
        emitted is Ok,
        emitted->Ok_0@ == expansion_text(
            text,
            annotated.conversion(target.name, Direction::ToTarget),
        ),
        annotated.conversion(target.name, Direction::ToTarget).consumes == annotated.name,
        annotated.conversion(target.name, Direction::ToTarget).produces == target.name,
        annotated.conversion(target.name, Direction::ToTarget).apply(tag) == Some(tag),
{
    lemma_dispatch_by_name(annotated.variants->0, tag);
}

/// A conversion has no arm for a tag that the declaration lacks: it is
/// partial nowhere on the declared tags and defined nowhere else.
pub proof fn conversion_has_no_default_arm(
    declaration: DeclarationView,
    target: Seq<char>,
    direction: Direction,
    tag: Seq<char>,
)
    requires
        declaration.variants is Some,
    ensures
        declaration.conversion(target, direction).apply(tag) is Some <==> names(
            declaration.variants->0,
        ).contains(tag),
{
    lemma_dispatch_by_name(declaration.variants->0, tag);
}

/// The arms of a conversion follow the variants of the declaration: as many,
/// in the same order, under the same names.
pub proof fn arms_follow_the_variants(
    declaration: DeclarationView,
    target: Seq<char>,
    direction: Direction,
)
    requires
        declaration.variants is Some,
    ensures
        declaration.conversion(target, direction).arms.len() == declaration.variants->0.len(),
        forall|i: int|
            0 <= i < declaration.variants->0.len() ==> {
                &&& (#[trigger] declaration.conversion(target, direction).arms[i]).pattern
                    == declaration.variants->0[i].name
                &&& declaration.conversion(target, direction).arms[i].result
                    == declaration.variants->0[i].name
            },
{
}

/// What is emitted begins with the annotated text, unchanged, so the
/// declaration read from that part of the output is the one that was
/// annotated.
pub proof fn declaration_is_emitted_unchanged(
    target: Option<Seq<char>>,
    text: Seq<char>,
    direction: Direction,
    emitted: Result<String, Error>,
)
    requires
        expands(target, item_syntax(text), text, direction, emitted),
        emitted is Ok,
    ensures
        text.len() <= emitted->Ok_0@.len(),
        emitted->Ok_0@.subrange(0, text.len() as int) == text,
        item_syntax(emitted->Ok_0@.subrange(0, text.len() as int)) == item_syntax(text),
{
}

/// A declaration with a variant that carries positional or named fields is
/// refused in either direction, whatever the target: nothing is emitted.
/// Where the target is well formed the error names the first such variant.
pub proof fn fields_are_refused(
    target: Option<Seq<char>>,
    declaration: DeclarationView,
    text: Seq<char>,
    direction: Direction,
    emitted: Result<String, Error>,
    index: int,
)
    requires
        expands(target, Some(declaration), text, direction, emitted),
        declaration.variants is Some,
        0 <= index < declaration.variants->0.len(),
        declaration.variants->0[index].shape != Shape::Bare,
    ensures
        emitted is Err,
        target is Some ==> emitted->Err_0 is NonBareVariant && first_with_fields(
            declaration.variants->0,
            emitted->Err_0->index as int,
        ),
{
}

/// What is not an enumeration is refused in either direction, whatever the
/// target: nothing is emitted.
pub proof fn other_kinds_are_refused(
    target: Option<Seq<char>>,
    item: Option<DeclarationView>,
    text: Seq<char>,
    direction: Direction,
    emitted: Result<String, Error>,
)
    requires
        expands(target, item, text, direction, emitted),
        item matches Some(declaration) ==> declaration.variants is None,
    ensures
        emitted is Err,
        target is Some && item is Some ==> emitted == Err::<String, Error>(Error::NotAnEnumeration),
{
}

/// An expansion has one outcome: two that [`expands`] admits for the same
/// readings of the same text are the same error, or the same code.
pub proof fn expansion_is_determined(
    target: Option<Seq<char>>,
    item: Option<DeclarationView>,
    text: Seq<char>,
    direction: Direction,
    first: Result<String, Error>,
    second: Result<String, Error>,
)
    requires
        expands(target, item, text, direction, first),
        expands(target, item, text, direction, second),
    ensures
        first is Ok <==> second is Ok,
        first is Ok ==> first->Ok_0@ == second->Ok_0@,
        first is Err ==> first->Err_0 == second->Err_0,
{
}

} // verus!
