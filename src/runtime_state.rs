//! State the process keeps between commands.

use vstd::prelude::*;

verus! {

#[derive(Debug, Default)]
pub struct RuntimeState {
    last_routine_id: Option<String>,
}

impl View for RuntimeState {
    type V = Option<Seq<char>>;

    closed spec fn view(&self) -> Option<Seq<char>> {
        match self.last_routine_id {
            Some(id) => Some(id@),
            None => None,
        }
    }
}

impl RuntimeState {
    pub fn new() -> (r: Self)
        ensures
            r@ is None,
    {
        RuntimeState { last_routine_id: None }
    }

    /// The routine started last, if any.
    pub fn last_routine_id(&self) -> (r: Option<&str>)
        ensures
            r is Some <==> self@ is Some,
            r matches Some(id) ==> id@ == self@->0,
    {
        match &self.last_routine_id {
            Some(id) => Some(id.as_str()),
            None => None,
        }
    }

    pub fn set_last_routine_id(&mut self, routine_id: String)
        ensures
            final(self)@ == Some(routine_id@),
    {
        self.last_routine_id = Some(routine_id);
    }
}

} // verus!
