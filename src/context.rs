use vstd::prelude::*;

verus! {

/// The engine's implicit, process-wide state. Objects built against it stay
/// on the thread that made them: the type is neither `Send` nor `Sync`.
#[derive(Debug)]
pub struct GlobalContext {
    _not_thread_safe: core::marker::PhantomData<std::rc::Rc<()>>,
}

/// A scope of engine state that profiles and transforms are built against.
/// Objects built against different kinds of context never meet in one
/// transform, as each is generic over the kind it was built with.
pub trait Context {
}

impl Context for GlobalContext {
}

impl<'a> Context for &'a GlobalContext {
}

impl GlobalContext {
    /// The global context. Every value stands for the same engine state.
    pub fn new() -> GlobalContext {
        GlobalContext { _not_thread_safe: core::marker::PhantomData }
    }
}

impl AsRef<GlobalContext> for GlobalContext {
    fn as_ref(&self) -> (r: &GlobalContext)
        ensures
            r == self,
    {
        self
    }
}

impl Default for GlobalContext {
    fn default() -> GlobalContext {
        GlobalContext::new()
    }
}

} // verus!
