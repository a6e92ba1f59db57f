//! What a caller may ask of a request once it is decoded.
//!
//! Decoding accepts every document of the right shape. It does not ask that
//! the functions of a chat have names of their own: a caller that relies on
//! that asks here.

use crate::schema::{views, Chat, ChatView, Function, FunctionView};
use vstd::prelude::*;

verus! {

/// Whether no two functions share a name.
pub open spec fn names_distinct(functions: Seq<FunctionView>) -> bool {
    forall|i: int, j: int|
        0 <= i < j < functions.len() ==> (#[trigger] functions[i]).name != (
        #[trigger] functions[j]).name
}

/// Whether the functions that a chat declares, if any, have distinct names.
pub open spec fn function_names_distinct(chat: ChatView) -> bool {
    match chat.functions {
        Some(functions) => names_distinct(functions),
        None => true,
    }
}

/// Whether the function at `index` shares its name with an earlier one.
fn repeats_earlier_name(functions: &Vec<Function>, index: usize) -> (repeats: bool)
    requires
        index < functions.len(),
    ensures
        repeats == exists|i: int|
            0 <= i < index && (#[trigger] functions@[i]).name@ == functions@[index as int].name@,
{
    let mut i: usize = 0;
    while i < index
        invariant
            i <= index,
            index < functions.len(),
            forall|k: int|
                0 <= k < i ==> (#[trigger] functions@[k]).name@ != functions@[index as int].name@,
        decreases index - i,
    {
        if functions[i].name == functions[index].name {
            return true;
        }
        i = i + 1;
    }
    false
}

impl Chat {
    /// Tells whether the functions of this chat have distinct names. A chat
    /// that declares no functions passes.
    pub fn has_distinct_function_names(&self) -> (distinct: bool)
        ensures
            distinct == function_names_distinct(self@),
    {
        match &self.functions {
            None => true,
            Some(functions) => {
                let ghost shown = views(functions@);
                let mut j: usize = 0;
                while j < functions.len()
                    invariant
                        j <= functions.len(),
                        shown == views(functions@),
                        self@.functions == Some(shown),
                        forall|a: int, b: int|
                            0 <= a < b < j ==> (#[trigger] shown[a]).name != (
                            #[trigger] shown[b]).name,
                    decreases functions.len() - j,
                {
                    if repeats_earlier_name(functions, j) {
                        proof {
                            let i = choose|i: int|
                                0 <= i < j && (#[trigger] functions@[i]).name@
                                    == functions@[j as int].name@;
                            assert(shown[i].name == shown[j as int].name);
                        }
                        return false;
                    }
                    assert forall|a: int, b: int| 0 <= a < b < j + 1 implies (
                    #[trigger] shown[a]).name != (#[trigger] shown[b]).name by {
                        if b == j {
                            assert(functions@[a].name@ != functions@[j as int].name@);
                        }
                    }
                    j = j + 1;
                }
                true
            },
        }
    }
}

} // verus!
