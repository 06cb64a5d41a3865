//! Variant descriptor of an item: rank, variant label and star counts.

use vstd::prelude::*;
use vstd::string::StringExecFns;
use crate::text::{decimal, push_decimal};

verus! {

/// Sub-classification of an item. Two listings of the same item trade as the
/// same good only when all four components agree.
#[derive(Debug, PartialEq, Eq)]
pub struct SubType {
    pub rank: Option<i64>,
    pub variant: Option<String>,
    pub amber_stars: Option<i64>,
    pub cyan_stars: Option<i64>,
}

/// Mathematical content of a [`SubType`].
pub struct SubTypeView {
    pub rank: Option<int>,
    pub variant: Option<Seq<char>>,
    pub amber_stars: Option<int>,
    pub cyan_stars: Option<int>,
}

/// An optional machine integer as an optional mathematical integer.
pub open spec fn opt_int(v: Option<i64>) -> Option<int> {
    match v {
        Some(x) => Some(x as int),
        None => None,
    }
}

/// An optional string as an optional sequence of characters.
pub open spec fn opt_text(v: Option<String>) -> Option<Seq<char>> {
    match v {
        Some(s) => Some(s@),
        None => None,
    }
}

impl View for SubType {
    type V = SubTypeView;

    open spec fn view(&self) -> SubTypeView {
        SubTypeView {
            rank: opt_int(self.rank),
            variant: opt_text(self.variant),
            amber_stars: opt_int(self.amber_stars),
            cyan_stars: opt_int(self.cyan_stars),
        }
    }
}

impl Clone for SubType {
    fn clone(&self) -> (r: Self)
        ensures
            r == *self,
    {
        let variant = match &self.variant {
            Some(v) => Some(v.clone()),
            None => None,
        };
        SubType {
            rank: self.rank,
            variant,
            amber_stars: self.amber_stars,
            cyan_stars: self.cyan_stars,
        }
    }
}

impl SubType {
    /// Builds a descriptor from its four components.
    pub fn new(
        rank: Option<i64>,
        variant: Option<String>,
        amber_stars: Option<i64>,
        cyan_stars: Option<i64>,
    ) -> (r: Self)
        ensures
            r.rank == rank,
            r.variant == variant,
            r.amber_stars == amber_stars,
            r.cyan_stars == cyan_stars,
    {
        Self { rank, variant, amber_stars, cyan_stars }
    }

    /// The descriptor with no component set.
    pub fn new_empty() -> (r: Self)
        ensures
            r.rank is None,
            r.variant is None,
            r.amber_stars is None,
            r.cyan_stars is None,
    {
        Self { rank: None, variant: None, amber_stars: None, cyan_stars: None }
    }

    /// What [`SubType::display`] writes: one `Label: value ` piece for every
    /// component that is set, in the order rank, variant, amber stars, cyan
    /// stars, each piece ending in a single space.
    pub open spec fn display_spec(&self) -> Seq<char> {
        number_piece("Rank: "@, self.rank) + text_piece("Variant: "@, self.variant) + number_piece(
            "Amber Stars: "@,
            self.amber_stars,
        ) + number_piece("Cyan Stars: "@, self.cyan_stars)
    }

    /// Human-readable summary of the components that are set.
    pub fn display(&self) -> (r: String)
        ensures
            r@ == self.display_spec(),
    {
        let mut display = String::new();
        if let Some(rank) = self.rank {
            display.append("Rank: ");
            push_decimal(&mut display, rank);
            display.append(" ");
        }
        if let Some(variant) = &self.variant {
            display.append("Variant: ");
            display.append(variant.as_str());
            display.append(" ");
        }
        if let Some(amber_stars) = self.amber_stars {
            display.append("Amber Stars: ");
            push_decimal(&mut display, amber_stars);
            display.append(" ");
        }
        if let Some(cyan_stars) = self.cyan_stars {
            display.append("Cyan Stars: ");
            push_decimal(&mut display, cyan_stars);
            display.append(" ");
        }
        display
    }

    /// Whether two descriptors agree in every component.
    pub fn same_as(&self, other: &SubType) -> (r: bool)
        ensures
            r == (self@ == other@),
    {
        let variants_agree = match &self.variant {
            Some(a) => match &other.variant {
                Some(b) => *a == *b,
                None => false,
            },
            None => other.variant.is_none(),
        };
        same_number(self.rank, other.rank) && variants_agree && same_number(
            self.amber_stars,
            other.amber_stars,
        ) && same_number(self.cyan_stars, other.cyan_stars)
    }
}

/// Whether two optional numbers are both absent or both present and equal.
pub fn same_number(a: Option<i64>, b: Option<i64>) -> (r: bool)
    ensures
        r == (a == b),
{
    match (a, b) {
        (Some(x), Some(y)) => x == y,
        (None, None) => true,
        _ => false,
    }
}

/// The piece written for a numeric component: nothing when it is unset,
/// otherwise the label, the number in decimal and one space.
pub open spec fn number_piece(label: Seq<char>, value: Option<i64>) -> Seq<char> {
    match value {
        Some(v) => label + decimal(v as int) + " "@,
        None => Seq::empty(),
    }
}

/// The piece written for a textual component: nothing when it is unset,
/// otherwise the label, the text and one space.
pub open spec fn text_piece(label: Seq<char>, value: Option<String>) -> Seq<char> {
    match value {
        Some(v) => label + v@ + " "@,
        None => Seq::empty(),
    }
}

/// Content of an optional variant descriptor.
pub open spec fn opt_sub_type(v: Option<SubType>) -> Option<SubTypeView> {
    match v {
        Some(s) => Some(s@),
        None => None,
    }
}

/// Whether two optional descriptors denote the same variant: both absent, or
/// both present and equal in every component.
pub open spec fn same_variant(a: Option<SubType>, b: Option<SubType>) -> bool {
    opt_sub_type(a) == opt_sub_type(b)
}

/// Decides [`same_variant`].
pub fn variants_match(a: &Option<SubType>, b: &Option<SubType>) -> (r: bool)
    ensures
        r == same_variant(*a, *b),
{
    match (a, b) {
        (Some(x), Some(y)) => x.same_as(y),
        (None, None) => true,
        _ => false,
    }
}

} // verus!
