//! Small bookkeeping records: a per-visitor visit counter and a plain data
//! cell.

use vstd::prelude::*;

verus! {

/// How many times a visitor has come by, and the bump of its record.
#[derive(Clone, Copy, Debug)]
pub struct VisitorState {
    pub visit_count: u64,
    pub bump: u8,
}

/// A cell holding one number.
#[derive(Clone, Copy, Debug)]
pub struct MyAccount {
    pub data: u64,
}

/// Records a first visit.
pub fn introduce_yourself(visitor_state: &mut VisitorState, visitor_bump: u8)
    ensures
        final(visitor_state).visit_count == 1,
        final(visitor_state).bump == visitor_bump,
{
    visitor_state.visit_count = 1;
    visitor_state.bump = visitor_bump;
}

/// Counts one more visit.
pub fn visit(visitor_state: &mut VisitorState)
    requires
        old(visitor_state).visit_count < u64::MAX,
    ensures
        final(visitor_state).visit_count == old(visitor_state).visit_count + 1,
        final(visitor_state).bump == old(visitor_state).bump,
{
    visitor_state.visit_count = visitor_state.visit_count + 1;
}

/// Sets the cell of a new account.
pub fn initialize(my_account: &mut MyAccount, data: u64)
    ensures
        final(my_account).data == data,
{
    my_account.data = data;
}

/// Overwrites the cell.
pub fn update(my_account: &mut MyAccount, data: u64)
    ensures
        final(my_account).data == data,
{
    my_account.data = data;
}

} // verus!
