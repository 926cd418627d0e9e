//! The events that systems exchange, and the bus that queues them, remembers the recent
//! ones and knows which system listens to which kind.
use vstd::prelude::*;
use std::collections::VecDeque;
use crate::types::{
    BuildingType, CombatOutcome, FactionId, PlanetId, ResourceBundle, ResourceType, ShipClass,
    ShipId, VictoryType, WorkerAllocation,
};

verus! {

/// Something that happens in a game. `V` is a point in space and `F` a game speed: the
/// rules here only carry them along.
#[derive(Debug, Clone)]
pub enum GameEvent<V, F> {
    PlayerCommand(PlayerCommand<V, F>),
    SimulationEvent(SimulationEvent<V>),
    StateChanged(StateChange),
}

/// What the player asks for.
#[derive(Debug, Clone, Copy)]
pub enum PlayerCommand<V, F> {
    SelectPlanet(PlanetId),
    SelectShip(ShipId),
    BuildStructure { planet: PlanetId, building_type: BuildingType },
    MoveShip { ship: ShipId, target: V },
    TransferResources { from: PlanetId, to: PlanetId, resources: ResourceBundle },
    AllocateWorkers { planet: PlanetId, allocation: WorkerAllocation },
    ConstructShip { planet: PlanetId, ship_class: ShipClass },
    AttackTarget { attacker: ShipId, target: ShipId },
    ColonizePlanet { ship: ShipId, planet: PlanetId },
    LoadShipCargo { ship: ShipId, planet: PlanetId, resources: ResourceBundle },
    UnloadShipCargo { ship: ShipId, planet: PlanetId },
    SetGameSpeed(F),
    PauseGame(bool),
    SaveGame,
    LoadGame,
    NewGame,
    ExitGame,
    BackToMenu,
}

/// What the simulation reports.
#[derive(Debug, Clone)]
pub enum SimulationEvent<V> {
    TickCompleted(u64),
    ResourcesProduced { planet: PlanetId, resources: ResourceBundle },
    PopulationGrowth { planet: PlanetId, amount: i32 },
    ConstructionCompleted { planet: PlanetId, building: BuildingType },
    ShipCompleted { planet: PlanetId, ship: ShipId },
    ShipArrived { ship: ShipId, destination: V },
    CombatResolved { attacker: ShipId, defender: ShipId, outcome: CombatOutcome },
    PlanetConquered { planet: PlanetId, new_owner: FactionId },
    ResourceShortage { planet: PlanetId, resource: ResourceType },
    TransferWindowOpen { from: PlanetId, to: PlanetId },
}

/// A change of state that other systems may want to look at.
#[derive(Debug, Clone, Copy, PartialEq, Eq, Structural)]
pub enum StateChange {
    PlanetUpdated(PlanetId),
    ShipUpdated(ShipId),
    FactionUpdated(FactionId),
    VictoryConditionMet(VictoryType),
    GameOver(FactionId),
    GameLoaded,
}

/// The three kinds of event a system can listen to.
#[derive(Debug, Clone, Copy, PartialEq, Eq, Hash, Structural)]
pub enum EventType {
    PlayerCommand,
    SimulationEvent,
    StateChanged,
}

/// The systems of a game.
#[derive(Debug, Clone, Copy, PartialEq, Eq, Hash, Structural)]
pub enum SystemId {
    PlanetManager,
    ShipManager,
    FactionManager,
    TimeManager,
    ResourceSystem,
    PopulationSystem,
    ConstructionSystem,
    PhysicsEngine,
    CombatResolver,
    SaveSystem,
    UIRenderer,
}

/// The two events are equal, a battle outcome compared loss by loss.
pub open spec fn same_event<V, F>(a: GameEvent<V, F>, b: GameEvent<V, F>) -> bool {
    match (a, b) {
        (
            GameEvent::SimulationEvent(SimulationEvent::CombatResolved { attacker: a1, defender: d1, outcome: o1 }),
            GameEvent::SimulationEvent(SimulationEvent::CombatResolved { attacker: a2, defender: d2, outcome: o2 }),
        ) => a1 == a2 && d1 == d2 && o1.same_as(o2),
        _ => a == b,
    }
}

/// The kind of an event.
pub open spec fn kind_of<V, F>(e: GameEvent<V, F>) -> EventType {
    match e {
        GameEvent::PlayerCommand(_) => EventType::PlayerCommand,
        GameEvent::SimulationEvent(_) => EventType::SimulationEvent,
        GameEvent::StateChanged(_) => EventType::StateChanged,
    }
}

impl<V, F> GameEvent<V, F> {
    /// The kind of this event.
    pub fn event_type(&self) -> (r: EventType)
        ensures
            r == kind_of(*self),
    {
        match self {
            GameEvent::PlayerCommand(_) => EventType::PlayerCommand,
            GameEvent::SimulationEvent(_) => EventType::SimulationEvent,
            GameEvent::StateChanged(_) => EventType::StateChanged,
        }
    }
}

impl<V: Copy, F: Copy> GameEvent<V, F> {
    /// A copy of the event holding the same values.
    pub fn duplicate(&self) -> (r: GameEvent<V, F>)
        ensures
            same_event(r, *self),
    {
        match self {
            GameEvent::PlayerCommand(c) => GameEvent::PlayerCommand(*c),
            GameEvent::StateChanged(c) => GameEvent::StateChanged(*c),
            GameEvent::SimulationEvent(e) => GameEvent::SimulationEvent(
                match e {
                    SimulationEvent::TickCompleted(t) => SimulationEvent::TickCompleted(*t),
                    SimulationEvent::ResourcesProduced { planet, resources } => {
                        SimulationEvent::ResourcesProduced { planet: *planet, resources: *resources }
                    },
                    SimulationEvent::PopulationGrowth { planet, amount } => {
                        SimulationEvent::PopulationGrowth { planet: *planet, amount: *amount }
                    },
                    SimulationEvent::ConstructionCompleted { planet, building } => {
                        SimulationEvent::ConstructionCompleted { planet: *planet, building: *building }
                    },
                    SimulationEvent::ShipCompleted { planet, ship } => {
                        SimulationEvent::ShipCompleted { planet: *planet, ship: *ship }
                    },
                    SimulationEvent::ShipArrived { ship, destination } => {
                        SimulationEvent::ShipArrived { ship: *ship, destination: *destination }
                    },
                    SimulationEvent::CombatResolved { attacker, defender, outcome } => {
                        SimulationEvent::CombatResolved {
                            attacker: *attacker,
                            defender: *defender,
                            outcome: outcome.duplicate(),
                        }
                    },
                    SimulationEvent::PlanetConquered { planet, new_owner } => {
                        SimulationEvent::PlanetConquered { planet: *planet, new_owner: *new_owner }
                    },
                    SimulationEvent::ResourceShortage { planet, resource } => {
                        SimulationEvent::ResourceShortage { planet: *planet, resource: *resource }
                    },
                    SimulationEvent::TransferWindowOpen { from, to } => {
                        SimulationEvent::TransferWindowOpen { from: *from, to: *to }
                    },
                },
            ),
        }
    }
}

/// The two sequences hold the same events, position by position.
pub open spec fn same_events<V, F>(a: Seq<GameEvent<V, F>>, b: Seq<GameEvent<V, F>>) -> bool {
    &&& a.len() == b.len()
    &&& forall|i: int| 0 <= i < a.len() ==> same_event(#[trigger] a[i], b[i])
}

/// The recent events after `e` happens: `e` is added at the back and, past `limit`, the
/// oldest is forgotten.
pub open spec fn recent_after<V, F>(h: Seq<GameEvent<V, F>>, e: GameEvent<V, F>, limit: int) -> Seq<
    GameEvent<V, F>,
> {
    if h.len() + 1 > limit {
        h.push(e).drop_first()
    } else {
        h.push(e)
    }
}

/// The recent events after each of `es` happens in turn.
pub open spec fn recent_after_all<V, F>(
    h: Seq<GameEvent<V, F>>,
    es: Seq<GameEvent<V, F>>,
    limit: int,
) -> Seq<GameEvent<V, F>>
    decreases es.len(),
{
    if es.len() == 0 {
        h
    } else {
        recent_after(recent_after_all(h, es.drop_last(), limit), es.last(), limit)
    }
}

/// Remembering the same event after the same events gives the same events.
pub proof fn lemma_recent_after_same<V, F>(
    a: Seq<GameEvent<V, F>>,
    b: Seq<GameEvent<V, F>>,
    e: GameEvent<V, F>,
    limit: int,
)
    requires
        same_events(a, b),
    ensures
        same_events(recent_after(a, e, limit), recent_after(b, e, limit)),
{
    let ra = recent_after(a, e, limit);
    let rb = recent_after(b, e, limit);
    assert forall|i: int| 0 <= i < ra.len() implies same_event(#[trigger] ra[i], rb[i]) by {
        if let GameEvent::SimulationEvent(SimulationEvent::CombatResolved { outcome, .. }) = e {
            assert(outcome.same_as(outcome));
        }
        if a.len() + 1 > limit {
            assert(ra[i] == a.push(e)[i + 1]);
            assert(rb[i] == b.push(e)[i + 1]);
        }
    }
}

/// Remembering the same events after the same events gives the same events.
pub proof fn lemma_recent_after_all_same<V, F>(
    a: Seq<GameEvent<V, F>>,
    b: Seq<GameEvent<V, F>>,
    es: Seq<GameEvent<V, F>>,
    limit: int,
)
    requires
        same_events(a, b),
    ensures
        same_events(recent_after_all(a, es, limit), recent_after_all(b, es, limit)),
    decreases es.len(),
{
    if es.len() > 0 {
        lemma_recent_after_all_same(a, b, es.drop_last(), limit);
        lemma_recent_after_same(
            recent_after_all(a, es.drop_last(), limit),
            recent_after_all(b, es.drop_last(), limit),
            es.last(),
            limit,
        );
    }
}

/// Remembering `xs` and then `ys` is remembering `xs + ys`.
pub proof fn lemma_recent_after_all_append<V, F>(
    h: Seq<GameEvent<V, F>>,
    xs: Seq<GameEvent<V, F>>,
    ys: Seq<GameEvent<V, F>>,
    limit: int,
)
    ensures
        recent_after_all(recent_after_all(h, xs, limit), ys, limit) == recent_after_all(
            h,
            xs + ys,
            limit,
        ),
    decreases ys.len(),
{
    if ys.len() == 0 {
        assert(xs + ys =~= xs);
    } else {
        lemma_recent_after_all_append(h, xs, ys.drop_last(), limit);
        assert((xs + ys).drop_last() =~= xs + ys.drop_last());
        assert((xs + ys).last() == ys.last());
    }
}

/// The event kinds `system` listens to according to `subs` (none if it is not listed).
pub open spec fn listened_by(subs: Seq<(SystemId, Seq<EventType>)>, system: SystemId) -> Seq<EventType> {
    if exists|i: int| 0 <= i < subs.len() && (#[trigger] subs[i]).0 == system {
        subs[choose|i: int| 0 <= i < subs.len() && (#[trigger] subs[i]).0 == system].1
    } else {
        Seq::empty()
    }
}

/// The systems of `systems` that listen to `kind` and are not among `skip`, in order.
pub open spec fn listeners(
    systems: Seq<SystemId>,
    subs: Seq<(SystemId, Seq<EventType>)>,
    kind: EventType,
    skip: Seq<SystemId>,
) -> Seq<SystemId>
    decreases systems.len(),
{
    if systems.len() == 0 {
        Seq::empty()
    } else {
        let prev = listeners(systems.drop_last(), subs, kind, skip);
        let s = systems.last();
        if listened_by(subs, s).contains(kind) && !skip.contains(s) {
            prev.push(s)
        } else {
            prev
        }
    }
}

/// The order in which systems are updated each frame.
pub open spec fn default_update_order() -> Seq<SystemId> {
    seq![
        SystemId::UIRenderer,
        SystemId::PhysicsEngine,
        SystemId::ResourceSystem,
        SystemId::PopulationSystem,
        SystemId::ConstructionSystem,
        SystemId::CombatResolver,
        SystemId::TimeManager,
    ]
}

/// The subscriptions after `system` subscribes to `kind`: its list gets `kind` at the back,
/// or, if it was not listed, it is listed last with just `kind`.
pub open spec fn subscribed_after(
    subs: Seq<(SystemId, Seq<EventType>)>,
    system: SystemId,
    kind: EventType,
) -> Seq<(SystemId, Seq<EventType>)> {
    if exists|i: int| 0 <= i < subs.len() && (#[trigger] subs[i]).0 == system {
        let i = choose|i: int| 0 <= i < subs.len() && (#[trigger] subs[i]).0 == system;
        subs.update(i, (system, subs[i].1.push(kind)))
    } else {
        subs.push((system, seq![kind]))
    }
}

/// The subscriptions after each of `items` subscribes in turn.
pub open spec fn subscribed_all(
    subs: Seq<(SystemId, Seq<EventType>)>,
    items: Seq<(SystemId, EventType)>,
) -> Seq<(SystemId, Seq<EventType>)>
    decreases items.len(),
{
    if items.len() == 0 {
        subs
    } else {
        subscribed_after(subscribed_all(subs, items.drop_last()), items.last().0, items.last().1)
    }
}

/// The kinds of event the systems of a game listen to, in the order in which they are
/// subscribed when a game is set up.
pub open spec fn game_subscriptions() -> Seq<(SystemId, EventType)> {
    seq![
        (SystemId::PlanetManager, EventType::PlayerCommand),
        (SystemId::PlanetManager, EventType::SimulationEvent),
        (SystemId::PlanetManager, EventType::StateChanged),
        (SystemId::ShipManager, EventType::PlayerCommand),
        (SystemId::PhysicsEngine, EventType::SimulationEvent),
        (SystemId::PhysicsEngine, EventType::PlayerCommand),
        (SystemId::TimeManager, EventType::PlayerCommand),
        (SystemId::ResourceSystem, EventType::SimulationEvent),
        (SystemId::ResourceSystem, EventType::PlayerCommand),
        (SystemId::PopulationSystem, EventType::SimulationEvent),
        (SystemId::PopulationSystem, EventType::PlayerCommand),
        (SystemId::CombatResolver, EventType::PlayerCommand),
        (SystemId::CombatResolver, EventType::SimulationEvent),
        (SystemId::SaveSystem, EventType::PlayerCommand),
        (SystemId::UIRenderer, EventType::StateChanged),
    ]
}

/// Events waiting to be handled, the most recent events seen, the kinds each system
/// listens to, and the order in which systems are updated.
pub struct EventBus<V, F> {
    queued_events: VecDeque<GameEvent<V, F>>,
    subscribers: Vec<(SystemId, Vec<EventType>)>,
    event_history: VecDeque<GameEvent<V, F>>,
    history_limit: usize,
    update_order: Vec<SystemId>,
}

impl<V, F> EventBus<V, F> {
    /// The events waiting, oldest first.
    pub closed spec fn queued(&self) -> Seq<GameEvent<V, F>> {
        self.queued_events@
    }

    /// The most recent events, oldest first.
    pub closed spec fn history(&self) -> Seq<GameEvent<V, F>> {
        self.event_history@
    }

    /// How many recent events are remembered.
    pub closed spec fn limit(&self) -> int {
        self.history_limit as int
    }

    /// The order in which systems are updated.
    pub closed spec fn order(&self) -> Seq<SystemId> {
        self.update_order@
    }

    /// Each subscribed system with the kinds it listens to, in order of first
    /// subscription.
    pub closed spec fn subscriptions(&self) -> Seq<(SystemId, Seq<EventType>)> {
        self.subscribers@.map_values(|p: (SystemId, Vec<EventType>)| (p.0, p.1@))
    }

    /// No more events are remembered than the limit, and no system is listed twice.
    pub closed spec fn wf(&self) -> bool {
        &&& self.event_history@.len() <= self.history_limit
        &&& forall|i: int, j: int|
            0 <= i < j < self.subscribers@.len() ==> (#[trigger] self.subscribers@[i]).0
                != (#[trigger] self.subscribers@[j]).0
    }

    /// The event kinds `system` listens to.
    pub open spec fn listened(&self, system: SystemId) -> Seq<EventType> {
        listened_by(self.subscriptions(), system)
    }

    /// An empty bus remembering up to 100 events, updating systems in the usual order.
    pub fn new() -> (r: Self)
        ensures
            r.wf(),
            r.queued() == Seq::<GameEvent<V, F>>::empty(),
            r.history() == Seq::<GameEvent<V, F>>::empty(),
            r.limit() == 100,
            r.order() == default_update_order(),
            r.subscriptions() == Seq::<(SystemId, Seq<EventType>)>::empty(),
    {
        let mut update_order: Vec<SystemId> = Vec::new();
        update_order.push(SystemId::UIRenderer);
        update_order.push(SystemId::PhysicsEngine);
        update_order.push(SystemId::ResourceSystem);
        update_order.push(SystemId::PopulationSystem);
        update_order.push(SystemId::ConstructionSystem);
        update_order.push(SystemId::CombatResolver);
        update_order.push(SystemId::TimeManager);
        let r = EventBus {
            queued_events: VecDeque::new(),
            subscribers: Vec::new(),
            event_history: VecDeque::new(),
            history_limit: 100,
            update_order,
        };
        assert(r.update_order@ =~= default_update_order());
        assert(r.subscriptions() =~= Seq::<(SystemId, Seq<EventType>)>::empty());
        r
    }

    /// Makes `system` listen to events of kind `kind` as well.
    pub fn subscribe(&mut self, system: SystemId, event_type: EventType)
        requires
            old(self).wf(),
        ensures
            final(self).wf(),
            final(self).queued() == old(self).queued(),
            final(self).history() == old(self).history(),
            final(self).limit() == old(self).limit(),
            final(self).order() == old(self).order(),
            final(self).subscriptions() == subscribed_after(
                old(self).subscriptions(),
                system,
                event_type,
            ),
    {
        let ghost subs0 = self.subscriptions();
        let mut i: usize = 0;
        while i < self.subscribers.len()
            invariant_except_break
                forall|j: int| 0 <= j < i ==> (#[trigger] self.subscribers@[j]).0 != system,
            invariant
                i <= self.subscribers@.len(),
            ensures
                i < self.subscribers@.len() ==> self.subscribers@[i as int].0 == system,
                forall|j: int| 0 <= j < i ==> (#[trigger] self.subscribers@[j]).0 != system,
            decreases self.subscribers@.len() - i,
        {
            if self.subscribers[i].0 == system {
                break;
            }
            i = i + 1;
        }
        if i < self.subscribers.len() {
            proof {
                assert(subs0[i as int].0 == system);
                let c = choose|k: int| 0 <= k < subs0.len() && (#[trigger] subs0[k]).0 == system;
                assert(c == i) by {
                    if c != i {
                        if c < i {
                            assert(self.subscribers@[c].0 != system);
                        } else {
                            assert(self.subscribers@[i as int].0 != self.subscribers@[c].0);
                        }
                    }
                }
            }
            self.subscribers[i].1.push(event_type);
            proof {
                assert(self.subscriptions() =~= subscribed_after(subs0, system, event_type));
            }
        } else {
            let mut list: Vec<EventType> = Vec::new();
            list.push(event_type);
            self.subscribers.push((system, list));
            proof {
                assert(!exists|k: int| 0 <= k < subs0.len() && (#[trigger] subs0[k]).0 == system);
                assert(self.subscriptions() =~= subscribed_after(subs0, system, event_type));
            }
        }
    }

    /// Subscribes the systems of a game to the kinds of event they listen to, in the
    /// order of `game_subscriptions`.
    pub fn subscribe_game_systems(&mut self)
        requires
            old(self).wf(),
        ensures
            final(self).wf(),
            final(self).queued() == old(self).queued(),
            final(self).history() == old(self).history(),
            final(self).limit() == old(self).limit(),
            final(self).order() == old(self).order(),
            final(self).subscriptions() == subscribed_all(old(self).subscriptions(), game_subscriptions()),
    {
        let mut table: Vec<(SystemId, EventType)> = Vec::new();
        table.push((SystemId::PlanetManager, EventType::PlayerCommand));
        table.push((SystemId::PlanetManager, EventType::SimulationEvent));
        table.push((SystemId::PlanetManager, EventType::StateChanged));
        table.push((SystemId::ShipManager, EventType::PlayerCommand));
        table.push((SystemId::PhysicsEngine, EventType::SimulationEvent));
        table.push((SystemId::PhysicsEngine, EventType::PlayerCommand));
        table.push((SystemId::TimeManager, EventType::PlayerCommand));
        table.push((SystemId::ResourceSystem, EventType::SimulationEvent));
        table.push((SystemId::ResourceSystem, EventType::PlayerCommand));
        table.push((SystemId::PopulationSystem, EventType::SimulationEvent));
        table.push((SystemId::PopulationSystem, EventType::PlayerCommand));
        table.push((SystemId::CombatResolver, EventType::PlayerCommand));
        table.push((SystemId::CombatResolver, EventType::SimulationEvent));
        table.push((SystemId::SaveSystem, EventType::PlayerCommand));
        table.push((SystemId::UIRenderer, EventType::StateChanged));
        assert(table@ =~= game_subscriptions());
        let ghost subs0 = self.subscriptions();
        let mut i: usize = 0;
        while i < table.len()
            invariant
                i <= table@.len(),
                table@ == game_subscriptions(),
                self.wf(),
                self.queued() == old(self).queued(),
                self.history() == old(self).history(),
                self.limit() == old(self).limit(),
                self.order() == old(self).order(),
                self.subscriptions() == subscribed_all(subs0, table@.take(i as int)),
            decreases table@.len() - i,
        {
            let (system, kind) = table[i];
            self.subscribe(system, kind);
            assert(table@.take(i + 1).drop_last() =~= table@.take(i as int));
            i = i + 1;
        }
        assert(table@.take(table@.len() as int) =~= table@);
    }

    /// Drops the waiting events; the recent ones stay remembered.
    pub fn clear(&mut self)
        requires
            old(self).wf(),
        ensures
            final(self).wf(),
            final(self).queued() == Seq::<GameEvent<V, F>>::empty(),
            final(self).history() == old(self).history(),
            final(self).limit() == old(self).limit(),
            final(self).order() == old(self).order(),
            final(self).subscriptions() == old(self).subscriptions(),
    {
        self.queued_events.clear();
    }

    /// Hands out the waiting events, oldest first, leaving none waiting.
    pub fn take_queued_events(&mut self) -> (r: Vec<GameEvent<V, F>>)
        requires
            old(self).wf(),
        ensures
            final(self).wf(),
            r@ == old(self).queued(),
            final(self).queued() == Seq::<GameEvent<V, F>>::empty(),
            final(self).history() == old(self).history(),
            final(self).limit() == old(self).limit(),
            final(self).order() == old(self).order(),
            final(self).subscriptions() == old(self).subscriptions(),
    {
        let ghost q0 = self.queued_events@;
        let mut out: Vec<GameEvent<V, F>> = Vec::new();
        while self.queued_events.len() > 0
            invariant
                out@ + self.queued_events@ == q0,
                self.wf(),
                self.event_history@ == old(self).event_history@,
                self.history_limit == old(self).history_limit,
                self.update_order@ == old(self).update_order@,
                self.subscribers@ == old(self).subscribers@,
            decreases self.queued_events@.len(),
        {
            let ghost before = self.queued_events@;
            match self.queued_events.pop_front() {
                Some(e) => {
                    out.push(e);
                    assert(out@ + self.queued_events@ =~= q0) by {
                        assert(before =~= seq![e] + self.queued_events@);
                    }
                },
                None => {},
            }
        }
        assert(out@ =~= q0);
        out
    }

    /// The order in which systems are updated.
    pub fn update_order(&self) -> (r: &Vec<SystemId>)
        ensures
            r@ == self.order(),
    {
        &self.update_order
    }

    /// The most recent events, oldest first.
    pub fn event_history(&self) -> (r: &VecDeque<GameEvent<V, F>>)
        ensures
            r@ == self.history(),
    {
        &self.event_history
    }

    /// The events waiting, oldest first.
    pub fn queued_events(&self) -> (r: &VecDeque<GameEvent<V, F>>)
        ensures
            r@ == self.queued(),
    {
        &self.queued_events
    }

    fn listens(&self, system: SystemId, event_type: EventType) -> (r: bool)
        requires
            self.wf(),
        ensures
            r == self.listened(system).contains(event_type),
    {
        let ghost subs = self.subscriptions();
        let mut i: usize = 0;
        while i < self.subscribers.len()
            invariant
                i <= self.subscribers@.len(),
                subs == self.subscriptions(),
                self.wf(),
                forall|j: int| 0 <= j < i ==> (#[trigger] self.subscribers@[j]).0 != system,
            decreases self.subscribers@.len() - i,
        {
            if self.subscribers[i].0 == system {
                proof {
                    assert(subs[i as int].0 == system);
                    let c = choose|k: int| 0 <= k < subs.len() && (#[trigger] subs[k]).0 == system;
                    assert(c == i) by {
                        if c != i {
                            if c < i {
                                assert(self.subscribers@[c].0 != system);
                            } else {
                                assert(self.subscribers@[i as int].0 != self.subscribers@[c].0);
                            }
                        }
                    }
                }
                let list = &self.subscribers[i].1;
                assert(self.listened(system) == list@);
                let mut k: usize = 0;
                while k < list.len()
                    invariant
                        k <= list@.len(),
                        self.listened(system) == list@,
                        forall|m: int| 0 <= m < k ==> list@[m] != event_type,
                    decreases list@.len() - k,
                {
                    if list[k] == event_type {
                        assert(list@[k as int] == event_type);
                        return true;
                    }
                    k = k + 1;
                }
                return false;
            }
            i = i + 1;
        }
        proof {
            assert(!exists|k: int| 0 <= k < subs.len() && (#[trigger] subs[k]).0 == system);
        }
        false
    }

    /// The systems to hand an event of kind `event_type` to: first those of the update
    /// order that listen to it, in that order, then the other listeners, in order of first
    /// subscription.
    pub fn systems_to_notify(&self, event_type: EventType) -> (r: Vec<SystemId>)
        requires
            self.wf(),
        ensures
            r@ == listeners(self.order(), self.subscriptions(), event_type, Seq::empty())
                + listeners(
                self.subscriptions().map_values(|p: (SystemId, Seq<EventType>)| p.0),
                self.subscriptions(),
                event_type,
                self.order(),
            ),
    {
        let ghost subs = self.subscriptions();
        let ghost keys = subs.map_values(|p: (SystemId, Seq<EventType>)| p.0);
        let ghost order = self.order();
        let mut out: Vec<SystemId> = Vec::new();
        let mut i: usize = 0;
        while i < self.update_order.len()
            invariant
                i <= order.len(),
                order == self.update_order@,
                subs == self.subscriptions(),
                self.wf(),
                out@ == listeners(order.take(i as int), subs, event_type, Seq::empty()),
            decreases order.len() - i,
        {
            let s = self.update_order[i];
            proof {
                assert(order.take(i + 1).drop_last() =~= order.take(i as int));
            }
            if self.listens(s, event_type) {
                out.push(s);
            }
            i = i + 1;
        }
        let ghost first = out@;
        proof {
            assert(order.take(order.len() as int) =~= order);
        }
        let mut j: usize = 0;
        while j < self.subscribers.len()
            invariant
                j <= subs.len(),
                subs == self.subscriptions(),
                keys == subs.map_values(|p: (SystemId, Seq<EventType>)| p.0),
                order == self.update_order@,
                self.wf(),
                out@ == first + listeners(keys.take(j as int), subs, event_type, order),
            decreases subs.len() - j,
        {
            let s = self.subscribers[j].0;
            proof {
                assert(keys.take(j + 1).drop_last() =~= keys.take(j as int));
                assert(keys.take(j + 1).last() == s);
            }
            let mut in_order = false;
            let mut k: usize = 0;
            while k < self.update_order.len()
                invariant
                    k <= order.len(),
                    order == self.update_order@,
                    in_order <==> exists|m: int| 0 <= m < k && order[m] == s,
                decreases order.len() - k,
            {
                if self.update_order[k] == s {
                    in_order = true;
                }
                k = k + 1;
            }
            if !in_order && self.listens(s, event_type) {
                out.push(s);
            }
            proof {
                assert(out@ =~= first + listeners(keys.take(j + 1), subs, event_type, order));
            }
            j = j + 1;
        }
        proof {
            assert(keys.take(keys.len() as int) =~= keys);
        }
        out
    }
}

impl<V: Copy, F: Copy> EventBus<V, F> {
    /// Queues `event` and remembers it among the recent events, forgetting the oldest one
    /// past the limit.
    pub fn queue_event(&mut self, event: GameEvent<V, F>)
        requires
            old(self).wf(),
        ensures
            final(self).wf(),
            final(self).queued() == old(self).queued().push(event),
            same_events(
                final(self).history(),
                recent_after(old(self).history(), event, old(self).limit()),
            ),
            final(self).limit() == old(self).limit(),
            final(self).order() == old(self).order(),
            final(self).subscriptions() == old(self).subscriptions(),
    {
        let ghost h0 = self.event_history@;
        let copy = event.duplicate();
        self.event_history.push_back(copy);
        if self.event_history.len() > self.history_limit {
            self.event_history.pop_front();
        }
        self.queued_events.push_back(event);
        proof {
            let want = recent_after(h0, event, self.history_limit as int);
            let have = self.event_history@;
            assert(have.len() == want.len());
            assert forall|i: int| 0 <= i < have.len() implies same_event(#[trigger] have[i], want[i]) by {
                let e = have[i];
                if let GameEvent::SimulationEvent(SimulationEvent::CombatResolved { outcome, .. }) = e {
                    assert(outcome.same_as(outcome));
                }
            }
        }
    }

    /// Queues each of `events` in turn, as `queue_event` does.
    pub fn queue_events(&mut self, events: Vec<GameEvent<V, F>>)
        requires
            old(self).wf(),
        ensures
            final(self).wf(),
            final(self).queued() == old(self).queued() + events@,
            same_events(
                final(self).history(),
                recent_after_all(old(self).history(), events@, old(self).limit()),
            ),
            final(self).limit() == old(self).limit(),
            final(self).order() == old(self).order(),
            final(self).subscriptions() == old(self).subscriptions(),
    {
        let ghost es = events@;
        let ghost q0 = self.queued();
        let ghost h0 = self.history();
        let n: usize = events.len();
        let mut events = events;
        let mut rest: Vec<GameEvent<V, F>> = Vec::new();
        while events.len() > 0
            invariant
                rest@ + events@.reverse() == es.reverse(),
            decreases events@.len(),
        {
            let ghost before = events@;
            match events.pop() {
                Some(e) => {
                    rest.push(e);
                    assert(rest@ + events@.reverse() =~= es.reverse()) by {
                        assert(before =~= events@.push(e));
                        assert(before.reverse() =~= seq![e] + events@.reverse());
                    }
                },
                None => {},
            }
        }
        assert(rest@ =~= es.reverse());
        let mut i: usize = 0;
        while rest.len() > 0
            invariant
                i <= es.len(),
                es.len() == rest@.len() + i,
                es.len() == n,
                rest@.len() == es.len() - i,
                forall|k: int| 0 <= k < rest@.len() ==> #[trigger] rest@[k] == es[es.len() - 1 - k],
                self.wf(),
                self.queued() == q0 + es.take(i as int),
                same_events(self.history(), recent_after_all(h0, es.take(i as int), self.limit())),
                self.limit() == old(self).limit(),
                self.order() == old(self).order(),
                self.subscriptions() == old(self).subscriptions(),
                h0 == old(self).history(),
                q0 == old(self).queued(),
            decreases rest@.len(),
        {
            let ghost before_h = self.history();
            let e = match rest.pop() {
                Some(e) => e,
                None => {
                    assert(false);
                    return;
                },
            };
            assert(e == es[i as int]);
            self.queue_event(e);
            proof {
                assert(es.take(i + 1).drop_last() =~= es.take(i as int));
                lemma_recent_after_same(
                    before_h,
                    recent_after_all(h0, es.take(i as int), self.limit()),
                    e,
                    self.limit(),
                );
                assert(self.queued() =~= q0 + es.take(i + 1));
                lemma_same_events_trans(
                    self.history(),
                    recent_after(before_h, e, self.limit()),
                    recent_after_all(h0, es.take(i + 1), self.limit()),
                );
            }
            i = i + 1;
        }
        assert(es.take(i as int) =~= es);
    }
}

/// Equal events in turn are equal.
pub proof fn lemma_same_events_trans<V, F>(
    a: Seq<GameEvent<V, F>>,
    b: Seq<GameEvent<V, F>>,
    c: Seq<GameEvent<V, F>>,
)
    requires
        same_events(a, b),
        same_events(b, c),
    ensures
        same_events(a, c),
{
    assert forall|i: int| 0 <= i < a.len() implies same_event(#[trigger] a[i], c[i]) by {
        assert(same_event(a[i], b[i]));
        assert(same_event(b[i], c[i]));
    }
}

} // verus!
