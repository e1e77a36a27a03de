//! Types of the `iced` toolkit that the engine carries without looking inside.
//!
//! The engine remembers where the cursor is and hands editing actions on to
//! the open buffer. It never reads a coordinate or interprets an action, so
//! both types are declared opaque: a value can be stored, moved and compared
//! for equality in contracts, and nothing else.

use vstd::prelude::*;

verus! {

/// `iced::Point`: a position on the surface, as the toolkit reports it.
/// Nothing is claimed of its coordinates.
#[verifier::external_type_specification]
#[verifier::external_body]
#[verifier::reject_recursive_types(T)]
pub struct ExPoint<T>(iced::Point<T>);

/// `Clone` for `iced::Point`, which the toolkit derives. The actions and the
/// menu state that hold a position derive `Clone` through it. Nothing is
/// claimed of the copy.
pub assume_specification<T>[ <iced::Point<T> as Clone>::clone ](p: &iced::Point<T>) -> (r:
    iced::Point<T>)
    where T: Clone
;

/// `iced::widget::text_editor::Action`: one editing step, as the editor
/// widget reports it. Nothing is claimed of what it holds.
#[verifier::external_type_specification]
#[verifier::external_body]
pub struct ExAction(iced::widget::text_editor::Action);

/// `Clone` for `iced::widget::text_editor::Action`, which the toolkit
/// derives. The actions and commands that hold an editing step derive `Clone`
/// through it. Nothing is claimed of the copy.
pub assume_specification[ <iced::widget::text_editor::Action as Clone>::clone ](
    a: &iced::widget::text_editor::Action,
) -> (r: iced::widget::text_editor::Action)
;

} // verus!
