//! The fixture protocol: an optional `setup`/`teardown` capability pair the
//! runner invokes around a group of tests. Each implementation exposes, as
//! the spec functions `setup_count` and `teardown_count`, how often each
//! side has run, so that the runner's contract can state that a run under a
//! fixture performs exactly one `setup` and exactly one `teardown`.

use vstd::prelude::*;

verus! {

/// Shared setup and teardown wrapped around one or more test cases. The
/// runner calls `setup` once before the group and `teardown` once after it,
/// on every exit path.
pub trait Fixture: Sized {
    /// How many times `setup` has run on this fixture. An implementation
    /// that does not track it leaves the protocol's bookkeeping
    /// meaningless for itself.
    open spec fn setup_count(&self) -> nat {
        0
    }

    /// How many times `teardown` has run on this fixture.
    open spec fn teardown_count(&self) -> nat {
        0
    }

    /// Prepare the shared state the wrapped tests rely on.
    fn setup(&mut self)
        ensures
            final(self).setup_count() == old(self).setup_count() + 1,
            final(self).teardown_count() == old(self).teardown_count(),
    ;

    /// Release whatever `setup` acquired.
    fn teardown(&mut self)
        ensures
            final(self).teardown_count() == old(self).teardown_count() + 1,
            final(self).setup_count() == old(self).setup_count(),
    ;
}

/// The no-op fixture: prepares nothing and releases nothing, but still
/// counts its invocations, so a run under it exercises the full fixture
/// protocol.
pub struct NullFixture {
    setups: Ghost<nat>,
    teardowns: Ghost<nat>,
}

impl NullFixture {
    /// A fresh no-op fixture on which neither side has run yet.
    pub fn new() -> (fixture: Self)
        ensures
            fixture.setup_count() == 0,
            fixture.teardown_count() == 0,
    {
        NullFixture { setups: Ghost(0), teardowns: Ghost(0) }
    }
}

impl Fixture for NullFixture {
    closed spec fn setup_count(&self) -> nat {
        self.setups@
    }

    closed spec fn teardown_count(&self) -> nat {
        self.teardowns@
    }

    fn setup(&mut self) {
        self.setups = Ghost(self.setups@ + 1);
    }

    fn teardown(&mut self) {
        self.teardowns = Ghost(self.teardowns@ + 1);
    }
}

} // verus!
