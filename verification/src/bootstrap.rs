use vstd::prelude::*;

use crate::capability::Capability;

verus! {

/// The declared registration sequence: logging first (so later registrations
/// can emit diagnostics), then embedded SQL, then outbound HTTP (the plugin
/// that must be initialized at builder time).
pub open spec fn registration_plan() -> Seq<Capability> {
    seq![Capability::Logging, Capability::Sql, Capability::Http]
}

/// Model of the host framework's builder: the mutable accumulator that
/// collects capability registrations, oldest first, and is consumed by the
/// terminal run.
pub struct HostBuilder {
    capabilities: Vec<Capability>,
}

impl View for HostBuilder {
    type V = Seq<Capability>;

    closed spec fn view(&self) -> Seq<Capability> {
        self.capabilities@
    }
}

impl HostBuilder {
    /// Whether `c` has been registered on this builder.
    pub open spec fn is_registered(self, c: Capability) -> bool {
        self@.contains(c)
    }

    /// Each capability is registered at most once.
    pub open spec fn wf(self) -> bool {
        forall|i: int, j: int| 0 <= i < j < self@.len() ==> self@[i] != self@[j]
    }

    /// A fresh builder with no registrations.
    pub fn new() -> (b: Self)
        ensures
            b@ =~= Seq::<Capability>::empty(),
            b.wf(),
    {
        HostBuilder { capabilities: Vec::new() }
    }

    /// Register one capability; consumes the builder and returns it with the
    /// registration appended, as the host framework's builder does.
    pub fn plugin(self, c: Capability) -> (b: Self)
        requires
            self.wf(),
            !self.is_registered(c),
        ensures
            b@ == self@.push(c),
            b.wf(),
    {
        let mut capabilities = self.capabilities;
        capabilities.push(c);
        HostBuilder { capabilities }
    }

    /// How many capabilities have been registered.
    pub fn len(&self) -> (n: usize)
        ensures
            n == self@.len(),
    {
        self.capabilities.len()
    }

    /// The registered capabilities, oldest first.
    pub fn capabilities(&self) -> (v: &Vec<Capability>)
        ensures
            v@ == self@,
    {
        &self.capabilities
    }

    /// Whether `c` has been registered (runs the check that
    /// `is_registered` states).
    pub fn registered(&self, c: Capability) -> (r: bool)
        ensures
            r == self.is_registered(c),
    {
        let mut i: usize = 0;
        while i < self.capabilities.len()
            invariant
                0 <= i <= self.capabilities.len(),
                forall|k: int| 0 <= k < i ==> self.capabilities@[k] != c,
            decreases self.capabilities.len() - i,
        {
            if self.capabilities[i] == c {
                return true;
            }
            i = i + 1;
        }
        false
    }
}

/// The bootstrap composition: a default builder with the three declared
/// capabilities registered in the declared order, and nothing else.
pub fn bootstrap_builder() -> (b: HostBuilder)
    ensures
        b@ =~= registration_plan(),
        b.wf(),
{
    let b = HostBuilder::new();
    let b = b.plugin(Capability::Logging);
    let b = b.plugin(Capability::Sql);
    let b = b.plugin(Capability::Http);
    b
}

/// Law: a builder that holds the declared plan has registered exactly the
/// three declared capabilities — each is present, nothing else is, and none
/// is registered twice.
pub proof fn lemma_exactly_three_capabilities(b: HostBuilder)
    requires
        b@ =~= registration_plan(),
    ensures
        b@.len() == 3,
        b.is_registered(Capability::Logging),
        b.is_registered(Capability::Sql),
        b.is_registered(Capability::Http),
        forall|c: Capability|
            b.is_registered(c) ==> (c == Capability::Logging || c == Capability::Sql
                || c == Capability::Http),
        b.wf(),
{
    assert(b@[0] == Capability::Logging);
    assert(b@[1] == Capability::Sql);
    assert(b@[2] == Capability::Http);
    assert forall|c: Capability|
        b.is_registered(c) implies (c == Capability::Logging || c == Capability::Sql
        || c == Capability::Http) by {
        let k = choose|k: int| 0 <= k < b@.len() && b@[k] == c;
        assert(k == 0 || k == 1 || k == 2);
    }
}

/// Law: the registration order is logging, then SQL, then HTTP.
pub proof fn lemma_registration_order(b: HostBuilder)
    requires
        b@ =~= registration_plan(),
    ensures
        b@.len() == 3,
        b@[0] == Capability::Logging,
        b@[1] == Capability::Sql,
        b@[2] == Capability::Http,
{
}

} // verus!
