//! # Same Enum
//!
//! `same_enum` writes the `From` implementation that converts between two
//! enumerations with the same unit variants.
//!
//! [`from`] and [`to`] take the path of the other enumeration and the text of
//! the declaration they are attached to. They hand back that text, unchanged,
//! followed by the implementation: [`from`] converts the other enumeration
//! into the declared one, [`to`] the declared one into the other.
//!
//! Both reject anything but an enumeration of bare tags, and neither looks at
//! the other enumeration: a tag it lacks shows when the emitted code is
//! compiled.

pub mod conversion;
pub mod declaration;
pub mod error;
pub mod laws;
pub mod syntax;
pub mod target;

pub use conversion::{synthesize, Arm, ArmView, Conversion, ConversionView, Direction};
pub use declaration::{Declaration, DeclarationView, Shape, Variant, VariantView};
pub use error::Error;
pub use target::parse_target;

use crate::syntax::{item_syntax, path_syntax};
use vstd::prelude::*;
use vstd::string::*;

verus! {

/// The emitted text: the declaration as it was given, and below it the code
/// of the conversion.
pub open spec fn expansion_text(declaration: Seq<char>, conversion: ConversionView) -> Seq<char> {
    declaration + "\n"@ + conversion.text()
}

/// `emitted` is the outcome of an expansion, where `target` is what the
/// argument of the attribute was read as, `item` what the annotated text
/// `text` was read as, and `None` stands for text that could not be read.
///
/// Of the reasons to refuse, a malformed target comes before a malformed
/// declaration, and that before what [`Declaration::validate`] finds.
pub open spec fn expands(
    target: Option<Seq<char>>,
    item: Option<DeclarationView>,
    text: Seq<char>,
    direction: Direction,
    emitted: Result<String, Error>,
) -> bool {
    match emitted {
        Ok(code) => {
            &&& target is Some
            &&& item is Some
            &&& item->0.is_plain_enumeration()
            &&& code@ == expansion_text(text, item->0.conversion(target->0, direction))
        },
        Err(Error::MalformedTarget) => target is None,
        Err(Error::MalformedDeclaration) => target is Some && item is None,
        Err(error) => target is Some && item is Some && item->0.refused_with(error),
    }
}

/// Reads both texts and, where they are accepted, emits the declaration
/// followed by the conversion in the given direction.
fn expand(
    input: &str,
    annotated_item: &str,
    direction: Direction,
) -> (emitted: Result<String, Error>)
    ensures
        expands(
            path_syntax(input@),
            item_syntax(annotated_item@),
            annotated_item@,
            direction,
            emitted,
        ),
{
    let target = match parse_target(input) {
        Ok(target) => target,
        Err(error) => {
            return Err(error);
        },
    };
    let declaration = match Declaration::parse(annotated_item) {
        Ok(declaration) => declaration,
        Err(error) => {
            return Err(error);
        },
    };
    match synthesize(&declaration, target.as_str(), direction) {
        Err(error) => Err(error),
        Ok(conversion) => {
            let mut code = annotated_item.to_owned();
            code.append("\n");
            code.append(conversion.render().as_str());
            Ok(code)
        },
    }
}

/// Generates an implementation of the `From` trait to convert from a target
/// enum to the annotated enum.
///
/// `input` is the path of the target enum and `annotated_item` the
/// declaration of the annotated one. The text handed back is
/// `annotated_item` followed by the implementation.
///
/// # Examples
///
/// ```
/// let emitted = same_enum::from("TargetEnum", "enum SourceEnum { One, Two }").unwrap();
///
/// assert!(emitted.starts_with("enum SourceEnum { One, Two }\n"));
/// assert!(emitted.contains("impl From<TargetEnum> for SourceEnum {"));
/// assert!(emitted.contains("TargetEnum::One => SourceEnum::One,"));
/// ```
///
/// # Errors
///
/// Nothing is emitted unless `input` is a type path and `annotated_item` an
/// enum with unit variants only.
///
/// An example of an enum **with** unit variants would be:
/// ```
/// enum BinaryNumbers {
///     Zero,
///     One,
/// }
/// ```
pub fn from(input: &str, annotated_item: &str) -> (emitted: Result<String, Error>)
    ensures
        expands(
            path_syntax(input@),
            item_syntax(annotated_item@),
            annotated_item@,
            Direction::FromTarget,
            emitted,
        ),
{
    expand(input, annotated_item, Direction::FromTarget)
}

/// Generates an implementation of the `From` trait to convert from the
/// annotated enum to a target enum.
///
/// `input` is the path of the target enum and `annotated_item` the
/// declaration of the annotated one. The text handed back is
/// `annotated_item` followed by the implementation.
///
/// # Examples
///
/// ```
/// let emitted = same_enum::to("TargetEnum", "enum SourceEnum { One, Two }").unwrap();
///
/// assert!(emitted.starts_with("enum SourceEnum { One, Two }\n"));
/// assert!(emitted.contains("impl From<SourceEnum> for TargetEnum {"));
/// assert!(emitted.contains("SourceEnum::One => TargetEnum::One,"));
/// ```
///
/// # Errors
///
/// Nothing is emitted unless `input` is a type path and `annotated_item` an
/// enum with unit variants only.
pub fn to(input: &str, annotated_item: &str) -> (emitted: Result<String, Error>)
    ensures
        expands(
            path_syntax(input@),
            item_syntax(annotated_item@),
            annotated_item@,
            Direction::ToTarget,
            emitted,
        ),
{
    expand(input, annotated_item, Direction::ToTarget)
}

} // verus!
