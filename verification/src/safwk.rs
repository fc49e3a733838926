//! The small form of the binding: a service with a start and a stop
//! callback, which publishes its dispatch targets under an id.

use vstd::prelude::*;
use crate::wrapper::AbilityStub;

verus! {

/// The callbacks of a service.
pub trait ISystemAbility {
    /// The service starts.
    fn on_start(&mut self);

    /// The service stops.
    fn on_stop(&mut self);
}

/// What a service can do with its registration.
pub trait IMethod {
    /// Whether the service is registered.
    spec fn is_registered(&self) -> bool;

    /// The dispatch targets published so far, each with the id under which
    /// it was published, in the order of publishing.
    spec fn published(&self) -> Seq<(i32, AbilityStub)>;

    /// Registers the service.
    fn register(&mut self)
        ensures
            final(self).is_registered(),
            final(self).published() == old(self).published(),
    ;

    /// Publishes `service` under the id `said`.
    fn publish(&mut self, service: AbilityStub, said: i32)
        ensures
            final(self).is_registered() == old(self).is_registered(),
            final(self).published() == old(self).published().push((said, service)),
    ;
}

/// The start and the stop behaviour of a service, handed over when the
/// service is defined. Each receives the registration to publish through.
pub trait Callbacks {
    /// Whether the start callback, as the callbacks are, may publish the
    /// dispatch targets `added`, in this order, and register the service if
    /// `registers` says so. Each service says for itself what its start
    /// may do.
    spec fn may_start(&self, added: Seq<(i32, AbilityStub)>, registers: bool) -> bool;

    /// Whether the stop callback may publish `added` and register the
    /// service if `registers` says so.
    spec fn may_stop(&self, added: Seq<(i32, AbilityStub)>, registers: bool) -> bool;

    /// The service `ability` starts. All that a callback can do to the
    /// registration is to publish through it and to register it.
    fn on_start<T: IMethod>(&mut self, ability: &mut T)
        ensures
            exists|added: Seq<(i32, AbilityStub)>, registers: bool|
                #[trigger] old(self).may_start(added, registers) && final(ability).published()
                    == old(ability).published() + added && final(ability).is_registered() == (old(ability).is_registered() || registers),
    ;

    /// The service `ability` stops.
    fn on_stop<T: IMethod>(&mut self, ability: &mut T)
        ensures
            exists|added: Seq<(i32, AbilityStub)>, registers: bool|
                #[trigger] old(self).may_stop(added, registers) && final(ability).published()
                    == old(ability).published() + added && final(ability).is_registered() == (old(ability).is_registered() || registers),
    ;
}

/// What the runtime holds of a service: its id and whether it is to be
/// started as soon as it is created.
pub struct CSystemAbility {
    said: i32,
    run_on_create: bool,
}

impl CSystemAbility {
    /// The id of the service.
    pub closed spec fn spec_said(&self) -> i32 {
        self.said
    }

    /// Whether the service is to be started as soon as it is created.
    pub closed spec fn spec_run_on_create(&self) -> bool {
        self.run_on_create
    }

    /// The id of the service.
    #[verifier::when_used_as_spec(spec_said)]
    pub fn said(&self) -> (r: i32)
        ensures
            r == self.spec_said(),
    {
        self.said
    }

    /// Whether the service is to be started as soon as it is created.
    #[verifier::when_used_as_spec(spec_run_on_create)]
    pub fn run_on_create(&self) -> (r: bool)
        ensures
            r == self.spec_run_on_create(),
    {
        self.run_on_create
    }
}

/// The registration of a service.
pub struct RSystemAbility {
    c_system_ability: CSystemAbility,
    registered: bool,
    published: Vec<(i32, AbilityStub)>,
}

impl RSystemAbility {
    /// What the runtime holds of the service.
    pub closed spec fn native(&self) -> CSystemAbility {
        self.c_system_ability
    }

    /// Makes the registration of the service `said`. `created` is the
    /// answer of the runtime to the creation: where it refused there is no
    /// registration.
    pub fn new(said: i32, run_on_create: bool, created: bool) -> (r: Option<RSystemAbility>)
        ensures
            r is Some <==> created,
            r matches Some(sa) ==> sa.native().spec_said() == said
                && sa.native().spec_run_on_create() == run_on_create && !sa.is_registered()
                && sa.published() == Seq::<(i32, AbilityStub)>::empty(),
    {
        if created {
            Some(
                RSystemAbility {
                    c_system_ability: CSystemAbility { said, run_on_create },
                    registered: false,
                    published: Vec::new(),
                },
            )
        } else {
            None
        }
    }

    /// What the runtime holds of the service.
    pub fn c_system_ability(&self) -> (r: &CSystemAbility)
        ensures
            *r == self.native(),
    {
        &self.c_system_ability
    }

    /// Registers the service, so that its start callback can be called.
    pub fn register_ability(&mut self)
        ensures
            final(self).is_registered(),
            final(self).published() == old(self).published(),
            final(self).native() == old(self).native(),
    {
        self.registered = true;
    }

    /// Publishes `service` under the id `said`.
    pub fn publish(&mut self, service: AbilityStub, said: i32)
        ensures
            final(self).is_registered() == old(self).is_registered(),
            final(self).published() == old(self).published().push((said, service)),
            final(self).native() == old(self).native(),
    {
        self.published.push((said, service));
    }

    /// The number of dispatch targets published so far.
    pub fn published_count(&self) -> (n: usize)
        ensures
            n == self.published().len(),
    {
        self.published.len()
    }

    /// The id under which the dispatch target `i` was published; `None`
    /// where fewer were published.
    pub fn published_said(&self, i: usize) -> (said: Option<i32>)
        ensures
            said == (if i < self.published().len() {
                Some(self.published()[i as int].0)
            } else {
                None
            }),
    {
        if i < self.published.len() {
            Some(self.published[i].0)
        } else {
            None
        }
    }

    /// Whether the service is registered.
    pub fn registered(&self) -> (r: bool)
        ensures
            r == self.is_registered(),
    {
        self.registered
    }
}

impl IMethod for RSystemAbility {
    closed spec fn is_registered(&self) -> bool {
        self.registered
    }

    closed spec fn published(&self) -> Seq<(i32, AbilityStub)> {
        self.published@
    }

    fn register(&mut self) {
        self.register_ability();
    }

    fn publish(&mut self, service: AbilityStub, said: i32) {
        RSystemAbility::publish(self, service, said);
    }
}

/// A service made of a registration and its two callbacks.
pub struct DefinedSystemAbility<C: Callbacks> {
    r_system_ability: RSystemAbility,
    callbacks: C,
}

impl<C: Callbacks> DefinedSystemAbility<C> {
    /// The registration of the service.
    pub closed spec fn registration(&self) -> RSystemAbility {
        self.r_system_ability
    }

    /// The callbacks of the service.
    pub closed spec fn callbacks(&self) -> C {
        self.callbacks
    }

    /// Defines the service `said` with the given callbacks. `created` is the
    /// answer of the runtime to the creation: where it refused there is no
    /// service.
    pub fn new_system_ability(callbacks: C, said: i32, run_on_create: bool, created: bool) -> (r:
        Option<Self>)
        ensures
            r is Some <==> created,
            r matches Some(sa) ==> sa.callbacks() == callbacks
                && sa.registration().native().spec_said() == said
                && sa.registration().native().spec_run_on_create() == run_on_create
                && !sa.is_registered() && sa.published() == Seq::<(i32, AbilityStub)>::empty(),
    {
        match RSystemAbility::new(said, run_on_create, created) {
            Some(r_system_ability) => Some(DefinedSystemAbility { r_system_ability, callbacks }),
            None => None,
        }
    }

    /// The registration of the service.
    pub fn r_system_ability(&self) -> (r: &RSystemAbility)
        ensures
            *r == self.registration(),
    {
        &self.r_system_ability
    }
}

impl<C: Callbacks> ISystemAbility for DefinedSystemAbility<C> {
    /// Runs the start callback on the registration of the service: what
    /// is published afterwards is what was published before followed by
    /// what the callback may publish, and the service is registered if it
    /// was or the callback registered it.
    fn on_start(&mut self)
        ensures
            exists|added: Seq<(i32, AbilityStub)>, registers: bool|
                #[trigger] old(self).callbacks().may_start(added, registers) && final(self).published() == old(self).published() + added && final(self).is_registered() == (
                old(self).is_registered() || registers),
    {
        self.callbacks.on_start(&mut self.r_system_ability);
        proof {
            let (added, registers) = choose|added: Seq<(i32, AbilityStub)>, registers: bool|
                #[trigger] old(self).callbacks.may_start(added, registers)
                    && self.r_system_ability.published() == old(self).r_system_ability.published()
                    + added && self.r_system_ability.is_registered() == (old(self).r_system_ability.is_registered() || registers);
            assert(old(self).callbacks().may_start(added, registers));
        }
    }

    /// Runs the stop callback on the registration of the service: what is
    /// published afterwards is what was published before followed by what
    /// the callback may publish, and the service is registered if it was
    /// or the callback registered it.
    fn on_stop(&mut self)
        ensures
            exists|added: Seq<(i32, AbilityStub)>, registers: bool|
                #[trigger] old(self).callbacks().may_stop(added, registers) && final(self).published() == old(self).published() + added && final(self).is_registered() == (
                old(self).is_registered() || registers),
    {
        self.callbacks.on_stop(&mut self.r_system_ability);
        proof {
            let (added, registers) = choose|added: Seq<(i32, AbilityStub)>, registers: bool|
                #[trigger] old(self).callbacks.may_stop(added, registers)
                    && self.r_system_ability.published() == old(self).r_system_ability.published()
                    + added && self.r_system_ability.is_registered() == (old(self).r_system_ability.is_registered() || registers);
            assert(old(self).callbacks().may_stop(added, registers));
        }
    }
}

impl<C: Callbacks> IMethod for DefinedSystemAbility<C> {
    closed spec fn is_registered(&self) -> bool {
        self.r_system_ability.is_registered()
    }

    closed spec fn published(&self) -> Seq<(i32, AbilityStub)> {
        self.r_system_ability.published()
    }

    fn register(&mut self) {
        self.r_system_ability.register_ability();
    }

    fn publish(&mut self, service: AbilityStub, said: i32) {
        self.r_system_ability.publish(service, said);
    }
}

} // verus!
