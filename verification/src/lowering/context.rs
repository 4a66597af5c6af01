//! What lowering keeps for the length of a compilation.

use vstd::prelude::*;

verus! {

/// The state of one compilation that lowering reads: the options of the active
/// pass, if they were set.
#[derive(Debug)]
pub struct LoweringContext<O> {
    pub options: Option<O>,
}

impl<O: Copy + Default> LoweringContext<O> {
    /// A compilation without options.
    pub fn new() -> (ctx: Self)
        ensures
            ctx.options is None,
    {
        LoweringContext { options: None }
    }

    /// Sets the options of the active pass, in place of those that were set
    /// before.
    pub fn set_lowering_options(&mut self, options: O)
        ensures
            final(self).options == Some(options),
    {
        self.options = Some(options);
    }

    /// The options of the active pass, the default ones where none were set.
    pub fn lowering_options(&self) -> (options: O)
        ensures
            match self.options {
                Some(set) => options == set,
                None => call_ensures(O::default, (), options),
            },
    {
        match self.options {
            Some(set) => set,
            None => O::default(),
        }
    }
}

} // verus!
