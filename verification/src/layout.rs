use vstd::prelude::*;
use ratatui::layout::{Constraint, Direction, Layout, Rect};

verus! {

/// A rectangle of terminal cells.
#[derive(Clone, Copy, Debug, PartialEq, Eq)]
pub struct ScreenArea {
    pub x: u16,
    pub y: u16,
    pub width: u16,
    pub height: u16,
}

/// How much room one part of a split asks for.
#[derive(Clone, Copy, Debug, PartialEq, Eq)]
pub enum SizeConstraint {
    /// Exactly this many cells.
    Length(u16),
    /// At least this many cells.
    Min(u16),
    /// This share of the whole, in percent.
    Percentage(u16),
}

/// The areas that ratatui's constraint solver assigns to `constraints` when
/// it splits `area` top to bottom (`vertical`) or left to right.
pub uninterp spec fn layout_split(
    vertical: bool,
    area: ScreenArea,
    constraints: Seq<SizeConstraint>,
) -> Seq<ScreenArea>;

/// Splits `area` into one part per constraint.
///
/// Calls ratatui's `Layout::split` with the given direction and
/// constraints, and claims that the result is `layout_split` of the same
/// arguments, one area per constraint. Where the parts lie is left to that
/// name, but for one shape: a vertical split into a fixed-height top, a
/// part of at least some height and a fixed-height bottom, in an area tall
/// enough for all three (and whose bottom edge fits in 16 bits). There the
/// solver, whose length constraints outweigh the growth of the `Min` part,
/// gives the top and bottom exactly their lengths and the middle all the
/// rest, each as wide as the area.
#[verifier::external_body]
pub(crate) fn solve_layout(vertical: bool, area: ScreenArea, constraints: &Vec<SizeConstraint>) -> (r: Vec<
    ScreenArea,
>)
    ensures
        r@ == layout_split(vertical, area, constraints@),
        r@.len() == constraints@.len(),
        (vertical && constraints@.len() == 3) ==> match (
            constraints@[0],
            constraints@[1],
            constraints@[2],
        ) {
            (SizeConstraint::Length(a), SizeConstraint::Min(b), SizeConstraint::Length(c)) => (a
                + b + c <= area.height && area.y + area.height <= u16::MAX) ==> {
                &&& r@[0] == (ScreenArea { x: area.x, y: area.y, width: area.width, height: a })
                &&& r@[1] == (ScreenArea {
                    x: area.x,
                    y: (area.y + a) as u16,
                    width: area.width,
                    height: (area.height - a - c) as u16,
                })
                &&& r@[2] == (ScreenArea {
                    x: area.x,
                    y: (area.y + area.height - c) as u16,
                    width: area.width,
                    height: c,
                })
            },
            _ => true,
        },
{
    let direction = if vertical { Direction::Vertical } else { Direction::Horizontal };
    let constraints = constraints.iter().map(|c| match *c {
        SizeConstraint::Length(n) => Constraint::Length(n),
        SizeConstraint::Min(n) => Constraint::Min(n),
        SizeConstraint::Percentage(n) => Constraint::Percentage(n),
    });
    let rect = Rect { x: area.x, y: area.y, width: area.width, height: area.height };
    let parts = Layout::default().direction(direction).constraints(constraints).split(rect);
    parts.iter().map(|p| ScreenArea { x: p.x, y: p.y, width: p.width, height: p.height }).collect()
}

} // verus!
