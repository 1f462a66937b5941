//! Wallet provisioning: create a named wallet, or fall back to loading it
//! when it already exists. The node's wallet directory is modelled here as
//! a set of names, so that the provisioning protocol — try create, on
//! failure try load — can be shown never to fail the workflow.

use vstd::prelude::*;

verus! {

/// How a provisioning request was satisfied. There is no failure variant:
/// provisioning always succeeds (the law `lemma_provision_idempotent` and
/// the contract of `provision` make that precise).
#[derive(Clone, Copy, Debug, PartialEq, Eq, Structural)]
pub enum ProvisionOutcome {
    /// The wallet did not exist and was created.
    Created,
    /// The wallet already existed and was loaded instead.
    Loaded,
}

/// A model of the node's wallet directory: the names of the wallets that
/// exist. Creating a name that exists fails on the node; loading a name
/// that does not exist fails on the node; the provisioning protocol
/// composes the two so that neither failure surfaces.
pub struct WalletDirectory {
    /// Names of the wallets that exist, in creation order.
    pub names: Vec<String>,
}

impl WalletDirectory {
    /// Whether a wallet with the given name exists.
    pub open spec fn spec_has(self, name: Seq<char>) -> bool {
        exists|i: int| 0 <= i < self.names@.len() && self.names@[i]@ == name
    }

    /// An empty directory: no wallet exists yet.
    pub fn new() -> (d: WalletDirectory)
        ensures
            forall|n: Seq<char>| !d.spec_has(n),
    {
        WalletDirectory { names: Vec::new() }
    }

    /// Membership test backing the create/load decisions.
    pub fn has(&self, name: &String) -> (r: bool)
        ensures
            r == self.spec_has(name@),
    {
        let mut i: usize = 0;
        while i < self.names.len()
            invariant
                i <= self.names@.len(),
                forall|j: int| 0 <= j < i ==> self.names@[j]@ != name@,
            decreases self.names@.len() - i,
        {
            if self.names[i].eq(name) {
                return true;
            }
            i = i + 1;
        }
        false
    }

    /// Create a named wallet: fails exactly when the name already exists.
    pub fn try_create(&mut self, name: &String) -> (r: Result<(), ()>)
        ensures
            r is Ok <==> !old(self).spec_has(name@),
            final(self).spec_has(name@),
            forall|n: Seq<char>| n != name@ ==> final(self).spec_has(n) == old(self).spec_has(n),
    {
        if self.has(name) {
            return Err(());
        }
        let ghost older = *self;
        self.names.push(name.clone());
        proof {
            assert(self.names@.last()@ == name@);
            assert(forall|n: Seq<char>|
                older.spec_has(n) ==> #[trigger] self.spec_has(n)) by {
                assert(forall|i: int|
                    0 <= i < older.names@.len() ==> self.names@[i] == older.names@[i]);
            }
            assert(forall|n: Seq<char>|
                n != name@ && #[trigger] self.spec_has(n) ==> older.spec_has(n)) by {
                assert(forall|i: int|
                    0 <= i < self.names@.len() - 1 ==> self.names@[i] == older.names@[i]);
            }
        }
        Ok(())
    }

    /// Load a named wallet: fails exactly when the name does not exist.
    /// The directory itself is unchanged.
    pub fn try_load(&self, name: &String) -> (r: Result<(), ()>)
        ensures
            r is Ok <==> self.spec_has(name@),
    {
        if self.has(name) {
            Ok(())
        } else {
            Err(())
        }
    }

    /// The outcome provisioning has on a given directory: a fresh name is
    /// created, an existing one is loaded. Never a failure.
    pub open spec fn spec_provision_outcome(self, name: Seq<char>) -> ProvisionOutcome {
        if self.spec_has(name) {
            ProvisionOutcome::Loaded
        } else {
            ProvisionOutcome::Created
        }
    }

    /// Provision a named wallet: try to create it, and where creation fails
    /// because the name exists, degrade to loading it. This never fails:
    /// exactly one of the two steps succeeds on any directory.
    pub fn provision(&mut self, name: &String) -> (o: ProvisionOutcome)
        ensures
            final(self).spec_has(name@),
            o == old(self).spec_provision_outcome(name@),
            o == ProvisionOutcome::Created <==> !old(self).spec_has(name@),
            o == ProvisionOutcome::Loaded <==> old(self).spec_has(name@),
            forall|n: Seq<char>| n != name@ ==> final(self).spec_has(n) == old(self).spec_has(n),
    {
        match self.try_create(name) {
            Ok(_) => ProvisionOutcome::Created,
            Err(_) => {
                let loaded = self.try_load(name);
                proof {
                    assert(loaded is Ok);
                }
                ProvisionOutcome::Loaded
            },
        }
    }
}

/// Law (idempotent provisioning): provisioning the same name twice never
/// errors the workflow. `between` is any directory a first provisioning of
/// `name` can leave behind — by the contract of `provision` the name then
/// exists — and on such a directory a second provisioning of the same name
/// degrades to load semantics: it returns `Loaded`, never a failure.
pub proof fn lemma_provision_idempotent(between: WalletDirectory, name: Seq<char>)
    requires
        between.spec_has(name),
    ensures
        between.spec_provision_outcome(name) == ProvisionOutcome::Loaded,
{
}

} // verus!
