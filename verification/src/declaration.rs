//! The annotated declaration, reduced to what an expansion reads of it.

use crate::error::Error;
use crate::syntax::{
    enum_variants, item_syntax, parse_item, variant_count, variant_name, variant_shape,
};
use vstd::prelude::*;

verus! {

/// What a variant carries besides its tag.
#[derive(Clone, Copy, Debug, PartialEq, Eq, Structural)]
pub enum Shape {
    /// Nothing: the variant is a bare tag, such as `None`.
    Bare,
    /// An ordered tuple of fields, such as `Some(T)`.
    Positional,
    /// A set of named fields, such as `Point { x: f64, y: f64 }`.
    Named,
}

/// One variant of an enumeration.
#[derive(Clone, Debug, PartialEq, Eq)]
pub struct Variant {
    pub name: String,
    pub shape: Shape,
}

/// The mathematical value of a [`Variant`].
pub struct VariantView {
    pub name: Seq<char>,
    pub shape: Shape,
}

impl View for Variant {
    type V = VariantView;

    open spec fn view(&self) -> VariantView {
        VariantView { name: self.name@, shape: self.shape }
    }
}

/// A declaration of a struct, an enum or a union.
#[derive(Clone, Debug, PartialEq, Eq)]
pub struct Declaration {
    /// The declared name.
    pub name: String,
    /// The variants in declared order; `None` where the declaration is not an
    /// enumeration.
    pub variants: Option<Vec<Variant>>,
}

/// The mathematical value of a [`Declaration`].
pub struct DeclarationView {
    pub name: Seq<char>,
    pub variants: Option<Seq<VariantView>>,
}

/// The values of the variants in `variants`, in the same order.
pub open spec fn variant_views(variants: Seq<Variant>) -> Seq<VariantView> {
    Seq::new(variants.len(), |i: int| variants[i]@)
}

impl View for Declaration {
    type V = DeclarationView;

    open spec fn view(&self) -> DeclarationView {
        DeclarationView {
            name: self.name@,
            variants: match self.variants {
                Some(variants) => Some(variant_views(variants@)),
                None => None,
            },
        }
    }
}

/// Every variant in `variants` is a bare tag.
pub open spec fn all_bare(variants: Seq<VariantView>) -> bool {
    forall|i: int| 0 <= i < variants.len() ==> (#[trigger] variants[i]).shape == Shape::Bare
}

/// `index` is the position of the first variant in `variants` that carries
/// fields.
pub open spec fn first_with_fields(variants: Seq<VariantView>, index: int) -> bool {
    &&& 0 <= index < variants.len()
    &&& variants[index].shape != Shape::Bare
    &&& forall|i: int| 0 <= i < index ==> (#[trigger] variants[i]).shape == Shape::Bare
}

impl DeclarationView {
    /// The declaration is an enumeration, and each of its variants is a bare
    /// tag.
    pub open spec fn is_plain_enumeration(self) -> bool {
        self.variants matches Some(variants) && all_bare(variants)
    }

    /// `error` is the reason for which the declaration is refused.
    pub open spec fn refused_with(self, error: Error) -> bool {
        match error {
            Error::NotAnEnumeration => self.variants is None,
            Error::NonBareVariant { index } => self.variants matches Some(variants)
                && first_with_fields(variants, index as int),
            _ => false,
        }
    }
}

/// Copies the variants out of a parsed enum body, in order.
fn read_variants(body: &syn::DataEnum) -> (variants: Vec<Variant>)
    ensures
        variant_views(variants@) == enum_variants(*body),
{
    let count = variant_count(body);
    let mut variants: Vec<Variant> = Vec::new();
    let mut index: usize = 0;
    while index < count
        invariant
            index <= count,
            count == enum_variants(*body).len(),
            variants.len() == index,
            forall|i: int| 0 <= i < index ==> (#[trigger] variants[i])@ == enum_variants(*body)[i],
        decreases count - index,
    {
        let name = variant_name(body, index);
        let shape = variant_shape(body, index);
        variants.push(Variant { name, shape });
        index += 1;
    }
    variants
}

impl Declaration {
    /// Reads a declaration from its text.
    ///
    /// The text is accepted where it is the declaration of a struct, an enum
    /// or a union, with its attributes and visibility, and nothing else.
    pub fn parse(text: &str) -> (parsed: Result<Declaration, Error>)
        ensures
            match parsed {
                Ok(declaration) => item_syntax(text@) == Some(declaration@),
                Err(error) => error == Error::MalformedDeclaration && item_syntax(text@) is None,
            },
    {
        match parse_item(text) {
            None => Err(Error::MalformedDeclaration),
            Some((name, None)) => Ok(Declaration { name, variants: None }),
            Some((name, Some(body))) => {
                let variants = read_variants(&body);
                Ok(Declaration { name, variants: Some(variants) })
            },
        }
    }

    /// Checks that the declaration is an enumeration of bare tags, and hands
    /// out its variants.
    ///
    /// A declaration of another kind is refused before its variants are
    /// looked at; of several variants with fields the first is reported.
    pub fn validate(&self) -> (checked: Result<&Vec<Variant>, Error>)
        ensures
            match checked {
                Ok(variants) => self.variants == Some(*variants) && self@.is_plain_enumeration(),
                Err(error) => self@.refused_with(error),
            },
    {
        match &self.variants {
            None => Err(Error::NotAnEnumeration),
            Some(variants) => {
                let mut index: usize = 0;
                while index < variants.len()
                    invariant
                        self.variants == Some(*variants),
                        index <= variants.len(),
                        forall|i: int|
                            0 <= i < index ==> (#[trigger] variant_views(variants@)[i]).shape
                                == Shape::Bare,
                    decreases variants.len() - index,
                {
                    match variants[index].shape {
                        Shape::Bare => {},
                        _ => {
                            return Err(Error::NonBareVariant { index });
                        },
                    }
                    index += 1;
                }
                Ok(variants)
            },
        }
    }
}

} // verus!
