//! What this library assumes of `tui::widgets::ListState`, the cell in which a
//! list widget keeps its highlighted row.

use tui::widgets::ListState;
use vstd::prelude::*;

verus! {

/// `tui::widgets::ListState`, taken as it is: nothing inside it is read but
/// through the functions below.
#[verifier::external_type_specification]
#[verifier::external_body]
pub struct ExListState(ListState);

/// The row that a `ListState` marks as highlighted, if any.
pub uninterp spec fn highlighted(state: ListState) -> Option<usize>;

/// `ListState::default` hands out a state in which no row is highlighted.
pub assume_specification[ <ListState as Default>::default ]() -> (state: ListState)
    ensures
        highlighted(state) == None::<usize>,
;

/// `ListState::selected` reads the highlighted row back.
pub assume_specification[ ListState::selected ](state: &ListState) -> (index: Option<usize>)
    ensures
        index == highlighted(*state),
;

/// `ListState::select` stores `index` as the highlighted row.
pub assume_specification[ ListState::select ](state: &mut ListState, index: Option<usize>)
    ensures
        highlighted(*final(state)) == index,
;

} // verus!
