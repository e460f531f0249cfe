//! The conversion between two enumerations: its arms, what it does to a tag,
//! and the `From` implementation that is emitted for it.

use crate::declaration::{Declaration, DeclarationView, VariantView};
use crate::error::Error;
use vstd::prelude::*;
use vstd::string::*;

verus! {

/// Which way a conversion goes.
#[derive(Clone, Copy, Debug, PartialEq, Eq, Structural)]
pub enum Direction {
    /// From the target enumeration into the annotated one.
    FromTarget,
    /// From the annotated enumeration into the target one.
    ToTarget,
}

/// One arm of the dispatch: the tag it matches on the consumed side and the
/// tag it yields on the produced side.
#[derive(Clone, Debug, PartialEq, Eq)]
pub struct Arm {
    pub pattern: String,
    pub result: String,
}

/// The mathematical value of an [`Arm`].
pub struct ArmView {
    pub pattern: Seq<char>,
    pub result: Seq<char>,
}

impl View for Arm {
    type V = ArmView;

    open spec fn view(&self) -> ArmView {
        ArmView { pattern: self.pattern@, result: self.result@ }
    }
}

/// A conversion from the enumeration `consumes` into the enumeration
/// `produces`: a dispatch over `arms`, tried in order.
#[derive(Clone, Debug, PartialEq, Eq)]
pub struct Conversion {
    pub consumes: String,
    pub produces: String,
    pub arms: Vec<Arm>,
}

/// The mathematical value of a [`Conversion`].
pub struct ConversionView {
    pub consumes: Seq<char>,
    pub produces: Seq<char>,
    pub arms: Seq<ArmView>,
}

/// The values of the arms in `arms`, in the same order.
pub open spec fn arm_views(arms: Seq<Arm>) -> Seq<ArmView> {
    Seq::new(arms.len(), |i: int| arms[i]@)
}

impl View for Conversion {
    type V = ConversionView;

    open spec fn view(&self) -> ConversionView {
        ConversionView {
            consumes: self.consumes@,
            produces: self.produces@,
            arms: arm_views(self.arms@),
        }
    }
}

/// One arm for each variant, in declared order, that pairs the variant's name
/// with the same name on the other side.
pub open spec fn paired_by_name(variants: Seq<VariantView>) -> Seq<ArmView> {
    Seq::new(
        variants.len(),
        |i: int| ArmView { pattern: variants[i].name, result: variants[i].name },
    )
}

/// What the first arm of `arms` that matches `tag` yields, if any arm does.
pub open spec fn dispatch(arms: Seq<ArmView>, tag: Seq<char>) -> Option<Seq<char>>
    decreases arms.len(),
{
    if arms.len() == 0 {
        None
    } else if arms[0].pattern == tag {
        Some(arms[0].result)
    } else {
        dispatch(arms.drop_first(), tag)
    }
}

impl DeclarationView {
    /// The conversion between this enumeration and `target`.
    pub open spec fn conversion(self, target: Seq<char>, direction: Direction) -> ConversionView
        recommends
            self.variants is Some,
    {
        ConversionView {
            consumes: match direction {
                Direction::FromTarget => target,
                Direction::ToTarget => self.name,
            },
            produces: match direction {
                Direction::FromTarget => self.name,
                Direction::ToTarget => target,
            },
            arms: paired_by_name(self.variants->0),
        }
    }
}

impl ConversionView {
    /// The tag that the conversion yields for `tag`; `None` where no arm
    /// matches it.
    pub open spec fn apply(self, tag: Seq<char>) -> Option<Seq<char>> {
        dispatch(self.arms, tag)
    }

    /// The line of the emitted code that holds `arm`.
    pub open spec fn arm_text(self, arm: ArmView) -> Seq<char> {
        "            "@ + self.consumes + "::"@ + arm.pattern + " => "@ + self.produces
            + "::"@ + arm.result + ",\n"@
    }

    /// The lines of the first `count` arms.
    pub open spec fn arms_text(self, count: nat) -> Seq<char>
        decreases count,
    {
        if count == 0 {
            Seq::empty()
        } else {
            self.arms_text((count - 1) as nat) + self.arm_text(self.arms[count - 1])
        }
    }

    /// The emitted code: an implementation of `From<consumes>` for
    /// `produces` whose `from` matches on its argument, one arm a line.
    pub open spec fn text(self) -> Seq<char> {
        "impl From<"@ + self.consumes + "> for "@ + self.produces
            + " {\n    fn from(value: "@ + self.consumes
            + ") -> Self {\n        match value {\n"@ + self.arms_text(self.arms.len())
            + "        }\n    }\n}\n"@
    }
}

/// Builds the conversion between `declaration` and the enumeration at
/// `target`.
///
/// The arms follow the variants of `declaration` in declared order and pair
/// each name with itself. The enumeration at `target` is not looked at.
/// Nothing is built for a declaration that [`Declaration::validate`] refuses.
pub fn synthesize(
    declaration: &Declaration,
    target: &str,
    direction: Direction,
) -> (built: Result<Conversion, Error>)
    ensures
        match built {
            Ok(conversion) => {
                &&& declaration@.is_plain_enumeration()
                &&& conversion@ == declaration@.conversion(target@, direction)
            },
            Err(error) => declaration@.refused_with(error),
        },
{
    match declaration.validate() {
        Err(error) => Err(error),
        Ok(variants) => {
            let mut arms: Vec<Arm> = Vec::new();
            let mut index: usize = 0;
            while index < variants.len()
                invariant
                    index <= variants.len(),
                    arms.len() == index,
                    forall|i: int|
                        0 <= i < index ==> (#[trigger] arms[i])@ == (ArmView {
                            pattern: variants[i].name@,
                            result: variants[i].name@,
                        }),
                decreases variants.len() - index,
            {
                let pattern = variants[index].name.clone();
                let result = variants[index].name.clone();
                arms.push(Arm { pattern, result });
                index += 1;
            }
            assert(arm_views(arms@) =~= paired_by_name(declaration@.variants->0));
            let name = declaration.name.clone();
            let path = target.to_owned();
            match direction {
                Direction::FromTarget => Ok(Conversion { consumes: path, produces: name, arms }),
                Direction::ToTarget => Ok(Conversion { consumes: name, produces: path, arms }),
            }
        },
    }
}

impl Conversion {
    /// Converts one tag: tries the arms in order and yields the result of the
    /// first whose pattern is `tag`.
    pub fn apply(&self, tag: &str) -> (converted: Option<String>)
        ensures
            match converted {
                Some(result) => self@.apply(tag@) == Some(result@),
                None => self@.apply(tag@) is None,
            },
    {
        let wanted = tag.to_owned();
        let mut index: usize = 0;
        assert(arm_views(self.arms@).skip(0) =~= arm_views(self.arms@));
        while index < self.arms.len()
            invariant
                index <= self.arms.len(),
                wanted@ == tag@,
                dispatch(arm_views(self.arms@), tag@) == dispatch(
                    arm_views(self.arms@).skip(index as int),
                    tag@,
                ),
            decreases self.arms.len() - index,
        {
            let ghost rest = arm_views(self.arms@).skip(index as int);
            assert(rest.drop_first() =~= arm_views(self.arms@).skip(index + 1));
            if self.arms[index].pattern == wanted {
                return Some(self.arms[index].result.clone());
            }
            index += 1;
        }
        None
    }

    /// Writes the conversion as Rust code.
    pub fn render(&self) -> (code: String)
        ensures
            code@ == self@.text(),
    {
        let mut code = "impl From<".to_owned();
        code.append(self.consumes.as_str());
        code.append("> for ");
        code.append(self.produces.as_str());
        code.append(" {\n    fn from(value: ");
        code.append(self.consumes.as_str());
        code.append(") -> Self {\n        match value {\n");
        let ghost head = code@;
        let mut index: usize = 0;
        while index < self.arms.len()
            invariant
                index <= self.arms.len(),
                code@ == head + self@.arms_text(index as nat),
            decreases self.arms.len() - index,
        {
            let arm = &self.arms[index];
            code.append("            ");
            code.append(self.consumes.as_str());
            code.append("::");
            code.append(arm.pattern.as_str());
            code.append(" => ");
            code.append(self.produces.as_str());
            code.append("::");
            code.append(arm.result.as_str());
            code.append(",\n");
            index += 1;
        }
        code.append("        }\n    }\n}\n");
        code
    }
}

} // verus!
