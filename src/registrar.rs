use vstd::prelude::*;

verus! {

/// The four calls of the registration handshake, in the order they are made.
#[derive(PartialEq, Eq, Structural, Clone, Copy, Debug)]
pub enum RegistrationStep {
    /// Build a registry client for the cluster name and registry address.
    BuildClient,
    /// Declare the cluster's service entry in the registry.
    RegisterCluster,
    /// Read this node's identity from storage, or make and store one.
    ResolveIdentity,
    /// Set the identity on the client and register this node under it.
    RegisterNode,
}

/// How far the handshake has come.
#[derive(PartialEq, Eq, Structural, Clone, Copy, Debug)]
pub enum RegistrationStage {
    Unregistered,
    ClientBuilt,
    ServiceDeclared,
    IdentityAssigned,
    NodeRegistered,
}

/// The number of calls that succeeded to reach a stage.
pub open spec fn stage_rank(s: RegistrationStage) -> nat {
    match s {
        RegistrationStage::Unregistered => 0,
        RegistrationStage::ClientBuilt => 1,
        RegistrationStage::ServiceDeclared => 2,
        RegistrationStage::IdentityAssigned => 3,
        RegistrationStage::NodeRegistered => 4,
    }
}

/// The handshake's calls in order.
pub open spec fn handshake_order() -> Seq<RegistrationStep> {
    seq![
        RegistrationStep::BuildClient,
        RegistrationStep::RegisterCluster,
        RegistrationStep::ResolveIdentity,
        RegistrationStep::RegisterNode,
    ]
}

/// The call that leads on from a stage, if any is left.
pub open spec fn step_from(s: RegistrationStage) -> Option<RegistrationStep> {
    if stage_rank(s) < 4 {
        Some(handshake_order()[stage_rank(s) as int])
    } else {
        None
    }
}

/// The stage that a successful call leads to.
pub open spec fn stage_after(s: RegistrationStage) -> RegistrationStage {
    match s {
        RegistrationStage::Unregistered => RegistrationStage::ClientBuilt,
        RegistrationStage::ClientBuilt => RegistrationStage::ServiceDeclared,
        RegistrationStage::ServiceDeclared => RegistrationStage::IdentityAssigned,
        _ => RegistrationStage::NodeRegistered,
    }
}

/// Drives the registration handshake: names the next call to make, and takes in whether it
/// succeeded. A failed call abandons the handshake at the stage it had reached; it is not
/// retried, and the node goes on unregistered.
pub struct Registrar {
    stage: RegistrationStage,
    abandoned: bool,
}

/// The model of a registrar: its stage, and whether the handshake was abandoned.
pub struct RegistrarView {
    pub stage: RegistrationStage,
    pub abandoned: bool,
}

/// Whether the handshake is over, by success or by abandonment.
pub open spec fn finished(v: RegistrarView) -> bool {
    v.abandoned || v.stage == RegistrationStage::NodeRegistered
}

/// The call a registrar in this state asks for.
pub open spec fn next_of(v: RegistrarView) -> Option<RegistrationStep> {
    if finished(v) { None } else { step_from(v.stage) }
}

/// The state after the outcome of the next call is taken in.
pub open spec fn recorded(v: RegistrarView, succeeded: bool) -> RegistrarView {
    if finished(v) {
        v
    } else if succeeded {
        RegistrarView { stage: stage_after(v.stage), abandoned: false }
    } else {
        RegistrarView { stage: v.stage, abandoned: true }
    }
}

/// The calls made, in order, when they have the given outcomes in turn.
pub open spec fn calls_made(v: RegistrarView, outcomes: Seq<bool>) -> Seq<RegistrationStep>
    decreases outcomes.len(),
{
    if finished(v) || outcomes.len() == 0 {
        Seq::empty()
    } else {
        seq![step_from(v.stage).unwrap()] + calls_made(recorded(v, outcomes[0]), outcomes.drop_first())
    }
}

impl View for Registrar {
    type V = RegistrarView;

    closed spec fn view(&self) -> RegistrarView {
        RegistrarView { stage: self.stage, abandoned: self.abandoned }
    }
}

impl Registrar {
    /// A registrar that has made no call yet.
    pub fn new() -> (r: Self)
        ensures
            r@ == (RegistrarView { stage: RegistrationStage::Unregistered, abandoned: false }),
    {
        Registrar { stage: RegistrationStage::Unregistered, abandoned: false }
    }

    /// The stage reached.
    pub fn stage(&self) -> (r: RegistrationStage)
        ensures
            r == self@.stage,
    {
        self.stage
    }

    /// Whether a call failed and the handshake was given up.
    pub fn is_abandoned(&self) -> (r: bool)
        ensures
            r == self@.abandoned,
    {
        self.abandoned
    }

    /// The next call to make, or `None` once the handshake is over.
    pub fn next_step(&self) -> (r: Option<RegistrationStep>)
        ensures
            r == next_of(self@),
    {
        if self.abandoned {
            return None;
        }
        match self.stage {
            RegistrationStage::Unregistered => Some(RegistrationStep::BuildClient),
            RegistrationStage::ClientBuilt => Some(RegistrationStep::RegisterCluster),
            RegistrationStage::ServiceDeclared => Some(RegistrationStep::ResolveIdentity),
            RegistrationStage::IdentityAssigned => Some(RegistrationStep::RegisterNode),
            RegistrationStage::NodeRegistered => None,
        }
    }

    /// Takes in whether the call that `next_step` named succeeded. Once the handshake is
    /// over, nothing changes.
    pub fn record(&mut self, succeeded: bool)
        ensures
            final(self)@ == recorded(old(self)@, succeeded),
    {
        if self.abandoned || self.stage == RegistrationStage::NodeRegistered {
            return;
        }
        if succeeded {
            self.stage = match self.stage {
                RegistrationStage::Unregistered => RegistrationStage::ClientBuilt,
                RegistrationStage::ClientBuilt => RegistrationStage::ServiceDeclared,
                RegistrationStage::ServiceDeclared => RegistrationStage::IdentityAssigned,
                _ => RegistrationStage::NodeRegistered,
            };
        } else {
            self.abandoned = true;
        }
    }
}

/// Whatever the outcomes, the handshake makes its calls in their fixed order, at most four,
/// each after the one before it succeeded: the calls made from the start are the first `n`
/// of the handshake, where every outcome but the last of those `n` was a success.
pub proof fn lemma_calls_in_order(outcomes: Seq<bool>)
    ensures
        ({
            let c = calls_made(RegistrarView { stage: RegistrationStage::Unregistered, abandoned: false }, outcomes);
            &&& c.len() <= 4
            &&& c.len() <= outcomes.len()
            &&& c == handshake_order().take(c.len() as int)
            &&& forall|k: int| 0 <= k < c.len() - 1 ==> #[trigger] outcomes[k]
            &&& c.len() < 4 && c.len() < outcomes.len() ==> c.len() > 0 && !outcomes[c.len() - 1]
        }),
{
    lemma_calls_from(RegistrationStage::Unregistered, outcomes);
}

proof fn lemma_calls_from(st: RegistrationStage, outcomes: Seq<bool>)
    ensures
        ({
            let v = RegistrarView { stage: st, abandoned: false };
            let c = calls_made(v, outcomes);
            let r = stage_rank(st) as int;
            &&& c.len() <= 4 - r
            &&& c.len() <= outcomes.len()
            &&& c == handshake_order().subrange(r, r + c.len())
            &&& forall|k: int| 0 <= k < c.len() - 1 ==> #[trigger] outcomes[k]
            &&& c.len() < 4 - r && c.len() < outcomes.len() ==> c.len() > 0 && !outcomes[c.len() - 1]
        }),
    decreases outcomes.len(),
{
    let v = RegistrarView { stage: st, abandoned: false };
    let r = stage_rank(st) as int;
    if finished(v) || outcomes.len() == 0 {
        assert(calls_made(v, outcomes) =~= handshake_order().subrange(r, r));
    } else {
        let rest = outcomes.drop_first();
        let c = calls_made(v, outcomes);
        if outcomes[0] {
            let st2 = stage_after(st);
            lemma_calls_from(st2, rest);
            let c2 = calls_made(recorded(v, true), rest);
            assert(c =~= seq![handshake_order()[r]] + c2);
            assert(c =~= handshake_order().subrange(r, r + c.len()));
            assert forall|k: int| 0 <= k < c.len() - 1 implies #[trigger] outcomes[k] by {
                if k > 0 {
                    assert(outcomes[k] == rest[k - 1]);
                }
            }
            if c.len() < 4 - r && c.len() < outcomes.len() {
                assert(outcomes[c.len() - 1] == rest[c2.len() - 1]);
            }
        } else {
            let v2 = recorded(v, false);
            assert(calls_made(v2, rest) =~= Seq::<RegistrationStep>::empty());
            assert(c =~= handshake_order().subrange(r, r + 1));
        }
    }
}

} // verus!
