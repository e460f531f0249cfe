//! Declarations written down as values, and the conversions built from them.

use same_enum::{synthesize, Arm, Conversion, Declaration, Direction, Error, Shape, Variant};

fn tag(name: &str) -> Variant {
    Variant { name: name.to_string(), shape: Shape::Bare }
}

fn arm(name: &str) -> Arm {
    Arm { pattern: name.to_string(), result: name.to_string() }
}

fn enumeration(name: &str, variants: Vec<Variant>) -> Declaration {
    Declaration { name: name.to_string(), variants: Some(variants) }
}

fn source() -> Declaration {
    enumeration("Source", vec![tag("One"), tag("Two")])
}

#[test]
fn validate_accepts_bare_tags() {
    let declaration = source();
    assert_eq!(declaration.validate(), Ok(&vec![tag("One"), tag("Two")]));
    let empty = enumeration("Never", vec![]);
    assert_eq!(empty.validate(), Ok(&vec![]));
}

#[test]
fn validate_refuses_what_is_not_an_enumeration() {
    let record = Declaration { name: "Point".to_string(), variants: None };
    assert_eq!(record.validate(), Err(Error::NotAnEnumeration));
}

#[test]
fn validate_reports_the_first_variant_with_fields() {
    let positional = Variant { name: "Some".to_string(), shape: Shape::Positional };
    let named = Variant { name: "Point".to_string(), shape: Shape::Named };
    let last = enumeration("E", vec![tag("A"), tag("B"), positional.clone()]);
    assert_eq!(last.validate(), Err(Error::NonBareVariant { index: 2 }));
    let first = enumeration("E", vec![named.clone(), tag("A"), positional.clone()]);
    assert_eq!(first.validate(), Err(Error::NonBareVariant { index: 0 }));
    let middle = enumeration("E", vec![tag("A"), positional, tag("B"), named]);
    assert_eq!(middle.validate(), Err(Error::NonBareVariant { index: 1 }));
}

#[test]
fn synthesize_from_target_consumes_the_target() {
    let conversion = synthesize(&source(), "Target", Direction::FromTarget);
    let expected = Conversion {
        consumes: "Target".to_string(),
        produces: "Source".to_string(),
        arms: vec![arm("One"), arm("Two")],
    };
    assert_eq!(conversion, Ok(expected));
}

#[test]
fn synthesize_to_target_produces_the_target() {
    let conversion = synthesize(&source(), "Target", Direction::ToTarget);
    let expected = Conversion {
        consumes: "Source".to_string(),
        produces: "Target".to_string(),
        arms: vec![arm("One"), arm("Two")],
    };
    assert_eq!(conversion, Ok(expected));
}

#[test]
fn synthesize_builds_nothing_for_a_refused_declaration() {
    let record = Declaration { name: "Point".to_string(), variants: None };
    let fields = enumeration("E", vec![tag("A"), Variant { name: "B".to_string(), shape: Shape::Named }]);
    for direction in [Direction::FromTarget, Direction::ToTarget] {
        assert_eq!(synthesize(&record, "Target", direction), Err(Error::NotAnEnumeration));
        assert_eq!(synthesize(&fields, "Target", direction), Err(Error::NonBareVariant { index: 1 }));
    }
}

#[test]
fn synthesize_leaves_the_declaration_as_it_was() {
    let declaration = enumeration("Source", vec![tag("B"), tag("A"), tag("C")]);
    let before = declaration.clone();
    let conversion = synthesize(&declaration, "Target", Direction::FromTarget).unwrap();
    assert_eq!(declaration, before);
    let patterns: Vec<&str> = conversion.arms.iter().map(|arm| arm.pattern.as_str()).collect();
    assert_eq!(patterns, vec!["B", "A", "C"]);
}

#[test]
fn every_tag_goes_to_its_namesake_from_the_target() {
    let annotated = enumeration("A", vec![tag("X"), tag("Y"), tag("Z")]);
    let target = enumeration("B", vec![tag("X"), tag("Y"), tag("Z")]);
    let conversion = synthesize(&annotated, &target.name, Direction::FromTarget).unwrap();
    assert_eq!(conversion.consumes, "B");
    assert_eq!(conversion.produces, "A");
    for variant in target.variants.unwrap() {
        assert_eq!(conversion.apply(&variant.name), Some(variant.name));
    }
}

#[test]
fn every_tag_goes_to_its_namesake_to_the_target() {
    let annotated = enumeration("A", vec![tag("X"), tag("Y"), tag("Z")]);
    let target = enumeration("B", vec![tag("X"), tag("Y"), tag("Z")]);
    let conversion = synthesize(&annotated, &target.name, Direction::ToTarget).unwrap();
    assert_eq!(conversion.consumes, "A");
    assert_eq!(conversion.produces, "B");
    for variant in annotated.variants.unwrap() {
        assert_eq!(conversion.apply(&variant.name), Some(variant.name));
    }
}

#[test]
fn apply_yields_nothing_for_an_unknown_tag() {
    let conversion = synthesize(&source(), "Target", Direction::ToTarget).unwrap();
    assert_eq!(conversion.apply("Three"), None);
    assert_eq!(conversion.apply(""), None);
    assert_eq!(conversion.apply("one"), None);
    let empty = synthesize(&enumeration("Never", vec![]), "Void", Direction::ToTarget).unwrap();
    assert_eq!(empty.apply("One"), None);
}

#[test]
fn apply_takes_the_first_arm_that_matches() {
    let conversion = Conversion {
        consumes: "A".to_string(),
        produces: "B".to_string(),
        arms: vec![
            Arm { pattern: "X".to_string(), result: "First".to_string() },
            Arm { pattern: "Y".to_string(), result: "Second".to_string() },
            Arm { pattern: "X".to_string(), result: "Third".to_string() },
        ],
    };
    assert_eq!(conversion.apply("X"), Some("First".to_string()));
    assert_eq!(conversion.apply("Y"), Some("Second".to_string()));
}

#[test]
fn render_writes_one_arm_a_line() {
    let conversion = synthesize(&source(), "Target", Direction::FromTarget).unwrap();
    let expected = "impl From<Target> for Source {\n    \
                        fn from(value: Target) -> Self {\n        \
                            match value {\n            \
                                Target::One => Source::One,\n            \
                                Target::Two => Source::Two,\n        \
                            }\n    \
                        }\n\
                    }\n";
    assert_eq!(conversion.render(), expected);
}

#[test]
fn render_writes_an_empty_match_for_no_arms() {
    let conversion = synthesize(&enumeration("Never", vec![]), "Void", Direction::ToTarget).unwrap();
    let expected = "impl From<Never> for Void {\n    \
                        fn from(value: Never) -> Self {\n        \
                            match value {\n        \
                            }\n    \
                        }\n\
                    }\n";
    assert_eq!(conversion.render(), expected);
}

#[test]
fn render_writes_each_arm_as_it_is() {
    let conversion = Conversion {
        consumes: "a :: A".to_string(),
        produces: "B".to_string(),
        arms: vec![Arm { pattern: "X".to_string(), result: "Y".to_string() }],
    };
    let expected = "impl From<a :: A> for B {\n    \
                        fn from(value: a :: A) -> Self {\n        \
                            match value {\n            \
                                a :: A::X => B::Y,\n        \
                            }\n    \
                        }\n\
                    }\n";
    assert_eq!(conversion.render(), expected);
}
