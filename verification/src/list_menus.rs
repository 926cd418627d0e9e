//! The planet and ship lists of the toolbar: which entries they list, in which order, how
//! an entry names its owner and cargo, and what choosing an entry does. The program around
//! the library draws the lists and keeps their scroll position (`S`).
use vstd::prelude::*;
use crate::events::{EventBus, GameEvent, PlayerCommand};
use crate::planet_panel::queued_one;
use crate::text::{decimal, signed_decimal};
use crate::types::{CargoHold, FactionId, Planet, PlanetId, Ship, ShipClass, ShipId};

verus! {

/// Whether the planet list shows `p`: every planet, or only the player's (faction 0).
pub open spec fn planet_listed<O>(p: Planet<O>, owned_only: bool) -> bool {
    !owned_only || p.controller == Some(0u8)
}

/// The ids of the planets of `ps` the planet list shows, in order.
pub open spec fn listed_planet_ids<O>(ps: Seq<Planet<O>>, owned_only: bool) -> Seq<PlanetId>
    decreases ps.len(),
{
    if ps.len() == 0 {
        Seq::empty()
    } else {
        let prev = listed_planet_ids(ps.drop_last(), owned_only);
        if planet_listed(ps.last(), owned_only) {
            prev.push(ps.last().id)
        } else {
            prev
        }
    }
}

/// Whether the ship list shows `s` among the ships of class `c` (`None`: of any class):
/// every ship, or only the player's (faction 0).
pub open spec fn ship_listed<M>(s: Ship<M>, owned_only: bool, c: Option<ShipClass>) -> bool {
    &&& !owned_only || s.owner == 0
    &&& c matches Some(k) ==> s.ship_class == k
}

/// The ids of the ships of `ss` the ship list shows among those of class `c` (`None`: of
/// any class), in order.
pub open spec fn listed_ship_ids<M>(ss: Seq<Ship<M>>, owned_only: bool, c: Option<ShipClass>) -> Seq<ShipId>
    decreases ss.len(),
{
    if ss.len() == 0 {
        Seq::empty()
    } else {
        let prev = listed_ship_ids(ss.drop_last(), owned_only, c);
        if ship_listed(ss.last(), owned_only, c) {
            prev.push(ss.last().id)
        } else {
            prev
        }
    }
}

/// The ids the ship list shows, in order: grouped by class (scouts, transports, warships,
/// then colony ships, each group in the order of `ss`), or in the order of `ss`.
pub open spec fn ship_list_order<M>(ss: Seq<Ship<M>>, owned_only: bool, group_by_class: bool) -> Seq<ShipId> {
    if group_by_class {
        listed_ship_ids(ss, owned_only, Some(ShipClass::Scout))
            + listed_ship_ids(ss, owned_only, Some(ShipClass::Transport))
            + listed_ship_ids(ss, owned_only, Some(ShipClass::Warship))
            + listed_ship_ids(ss, owned_only, Some(ShipClass::Colony))
    } else {
        listed_ship_ids(ss, owned_only, None)
    }
}

/// How the planet list names the holder of a planet.
pub open spec fn planet_owner_name(controller: Option<FactionId>) -> Seq<char> {
    match controller {
        Some(f) => if f == 0 {
            "Player"@
        } else {
            "Faction "@ + decimal(f as nat)
        },
        None => "Neutral"@,
    }
}

/// How the ship list names the owner of a ship.
pub open spec fn ship_owner_name(owner: FactionId) -> Seq<char> {
    if owner == 0 {
        "Player"@
    } else {
        "Enemy "@ + decimal(owner as nat)
    }
}

/// How the ship list names a class.
pub open spec fn listed_class_name(c: ShipClass) -> Seq<char> {
    match c {
        ShipClass::Scout => "Scout"@,
        ShipClass::Transport => "Transport"@,
        ShipClass::Warship => "Warship"@,
        ShipClass::Colony => "Colony"@,
    }
}

/// The cargo note of a ship list entry: the people aboard if any, else the minerals if
/// any, else no note.
pub open spec fn cargo_note(cargo: CargoHold) -> Option<Seq<char>> {
    if cargo.population > 0 {
        Some("Cargo: "@ + signed_decimal(cargo.population as int) + "pop"@)
    } else if cargo.resources.minerals > 0 {
        Some("Cargo: "@ + signed_decimal(cargo.resources.minerals as int) + "min"@)
    } else {
        None
    }
}

/// The list of planets.
pub struct PlanetListMenu<S> {
    pub open: bool,
    pub selected_planet: Option<PlanetId>,
    pub scroll_offset: S,
    pub filter_owned_only: bool,
    pub mouse_over: bool,
}

/// The list of ships.
pub struct ShipListMenu<S> {
    pub open: bool,
    pub selected_ship: Option<ShipId>,
    pub scroll_offset: S,
    pub filter_owned_only: bool,
    pub group_by_class: bool,
    pub mouse_over: bool,
}

impl<S> PlanetListMenu<S> {
    /// A closed list showing every planet, with nothing chosen, scrolled to `scroll_offset`.
    pub fn new(scroll_offset: S) -> (r: Self)
        ensures
            !r.open,
            r.selected_planet is None,
            r.scroll_offset == scroll_offset,
            !r.filter_owned_only,
            !r.mouse_over,
    {
        PlanetListMenu { open: false, selected_planet: None, scroll_offset, filter_owned_only: false, mouse_over: false }
    }

    /// Whether the pointer was over the list when it was last drawn.
    pub fn is_mouse_over(&self) -> (r: bool)
        ensures
            r == self.mouse_over,
    {
        self.mouse_over
    }

    /// Closes the list.
    pub fn close(&mut self)
        ensures
            *final(self) == (PlanetListMenu { open: false, ..*old(self) }),
    {
        self.open = false;
    }

    /// The "Player Only" box: shows only the player's planets, or every planet again.
    pub fn toggle_filter(&mut self)
        ensures
            *final(self) == (PlanetListMenu { filter_owned_only: !old(self).filter_owned_only, ..*old(self) }),
    {
        self.filter_owned_only = !self.filter_owned_only;
    }

    /// The ids of the planets the list shows, in the order of `planets`.
    pub fn visible_planets<O>(&self, planets: &Vec<Planet<O>>) -> (r: Vec<PlanetId>)
        ensures
            r@ == listed_planet_ids(planets@, self.filter_owned_only),
    {
        let mut out: Vec<PlanetId> = Vec::new();
        let mut i: usize = 0;
        while i < planets.len()
            invariant
                i <= planets@.len(),
                out@ == listed_planet_ids(planets@.take(i as int), self.filter_owned_only),
            decreases planets@.len() - i,
        {
            assert(planets@.take(i + 1).drop_last() =~= planets@.take(i as int));
            if !self.filter_owned_only || planets[i].controller == Some(0u8) {
                out.push(planets[i].id);
            }
            i = i + 1;
        }
        assert(planets@.take(planets@.len() as int) =~= planets@);
        out
    }

    /// Choosing planet `planet_id` in the list selects it and announces the choice.
    pub fn select<V: Copy, F: Copy>(&mut self, planet_id: PlanetId, events: &mut EventBus<V, F>)
        requires
            old(events).wf(),
        ensures
            *final(self) == (PlanetListMenu { selected_planet: Some(planet_id), ..*old(self) }),
            final(events).wf(),
            final(events).limit() == old(events).limit(),
            final(events).order() == old(events).order(),
            final(events).subscriptions() == old(events).subscriptions(),
            queued_one(*old(events), *final(events), GameEvent::PlayerCommand(PlayerCommand::SelectPlanet(planet_id))),
    {
        self.selected_planet = Some(planet_id);
        events.queue_event(GameEvent::PlayerCommand(PlayerCommand::SelectPlanet(planet_id)));
    }
}

impl<S> ShipListMenu<S> {
    /// A closed list showing every ship ungrouped, with nothing chosen, scrolled to
    /// `scroll_offset`.
    pub fn new(scroll_offset: S) -> (r: Self)
        ensures
            !r.open,
            r.selected_ship is None,
            r.scroll_offset == scroll_offset,
            !r.filter_owned_only,
            !r.group_by_class,
            !r.mouse_over,
    {
        ShipListMenu {
            open: false,
            selected_ship: None,
            scroll_offset,
            filter_owned_only: false,
            group_by_class: false,
            mouse_over: false,
        }
    }

    /// Whether the pointer was over the list when it was last drawn.
    pub fn is_mouse_over(&self) -> (r: bool)
        ensures
            r == self.mouse_over,
    {
        self.mouse_over
    }

    /// Closes the list.
    pub fn close(&mut self)
        ensures
            *final(self) == (ShipListMenu { open: false, ..*old(self) }),
    {
        self.open = false;
    }

    /// The "Player Only" box: shows only the player's ships, or every ship again.
    pub fn toggle_filter(&mut self)
        ensures
            *final(self) == (ShipListMenu { filter_owned_only: !old(self).filter_owned_only, ..*old(self) }),
    {
        self.filter_owned_only = !self.filter_owned_only;
    }

    /// The "Group" box: groups the ships by class, or lists them in order again.
    pub fn toggle_grouping(&mut self)
        ensures
            *final(self) == (ShipListMenu { group_by_class: !old(self).group_by_class, ..*old(self) }),
    {
        self.group_by_class = !self.group_by_class;
    }

    /// The ids of the ships the list shows, in the order of `ship_list_order`.
    pub fn visible_ships<M>(&self, ships: &Vec<Ship<M>>) -> (r: Vec<ShipId>)
        ensures
            r@ == ship_list_order(ships@, self.filter_owned_only, self.group_by_class),
    {
        if self.group_by_class {
            let mut out = collect_ships(ships, self.filter_owned_only, Some(ShipClass::Scout));
            let mut t = collect_ships(ships, self.filter_owned_only, Some(ShipClass::Transport));
            out.append(&mut t);
            let mut w = collect_ships(ships, self.filter_owned_only, Some(ShipClass::Warship));
            out.append(&mut w);
            let mut c = collect_ships(ships, self.filter_owned_only, Some(ShipClass::Colony));
            out.append(&mut c);
            out
        } else {
            collect_ships(ships, self.filter_owned_only, None)
        }
    }

    /// Choosing ship `ship_id` in the list selects it and announces the choice.
    pub fn select<V: Copy, F: Copy>(&mut self, ship_id: ShipId, events: &mut EventBus<V, F>)
        requires
            old(events).wf(),
        ensures
            *final(self) == (ShipListMenu { selected_ship: Some(ship_id), ..*old(self) }),
            final(events).wf(),
            final(events).limit() == old(events).limit(),
            final(events).order() == old(events).order(),
            final(events).subscriptions() == old(events).subscriptions(),
            queued_one(*old(events), *final(events), GameEvent::PlayerCommand(PlayerCommand::SelectShip(ship_id))),
    {
        self.selected_ship = Some(ship_id);
        events.queue_event(GameEvent::PlayerCommand(PlayerCommand::SelectShip(ship_id)));
    }
}

/// The ids of the ships of `ships` listed among those of class `class` (`None`: any).
fn collect_ships<M>(ships: &Vec<Ship<M>>, owned_only: bool, class: Option<ShipClass>) -> (r: Vec<ShipId>)
    ensures
        r@ == listed_ship_ids(ships@, owned_only, class),
{
    let mut out: Vec<ShipId> = Vec::new();
    let mut i: usize = 0;
    while i < ships.len()
        invariant
            i <= ships@.len(),
            out@ == listed_ship_ids(ships@.take(i as int), owned_only, class),
        decreases ships@.len() - i,
    {
        assert(ships@.take(i + 1).drop_last() =~= ships@.take(i as int));
        let s = &ships[i];
        let class_ok = match class {
            Some(k) => s.ship_class == k,
            None => true,
        };
        if (!owned_only || s.owner == 0) && class_ok {
            out.push(s.id);
        }
        i = i + 1;
    }
    assert(ships@.take(ships@.len() as int) =~= ships@);
    out
}

/// How the planet list names the holder of a planet: "Player" for faction 0, "Faction"
/// and the id for another faction, "Neutral" for none.
pub fn planet_owner_text(controller: Option<FactionId>) -> (r: String)
    ensures
        r@ == planet_owner_name(controller),
{
    proof {
        reveal_strlit("Player");
        reveal_strlit("Neutral");
    }
    match controller {
        Some(f) => if f == 0 {
            "Player".to_string()
        } else {
            let mut s = String::from_str("Faction ");
            crate::text::append_decimal(&mut s, f as u64);
            s
        },
        None => "Neutral".to_string(),
    }
}

/// How the ship list names the owner of a ship: "Player" for faction 0, "Enemy" and the
/// id for another faction.
pub fn ship_owner_text(owner: FactionId) -> (r: String)
    ensures
        r@ == ship_owner_name(owner),
{
    if owner == 0 {
        "Player".to_string()
    } else {
        let mut s = String::from_str("Enemy ");
        crate::text::append_decimal(&mut s, owner as u64);
        s
    }
}

/// How the ship list names a class.
pub fn list_class_name(c: ShipClass) -> (r: &'static str)
    ensures
        r@ == listed_class_name(c),
{
    match c {
        ShipClass::Scout => "Scout",
        ShipClass::Transport => "Transport",
        ShipClass::Warship => "Warship",
        ShipClass::Colony => "Colony",
    }
}

/// The cargo note of a ship list entry, as `cargo_note` gives it.
pub fn cargo_text(cargo: &CargoHold) -> (r: Option<String>)
    ensures
        match (r, cargo_note(*cargo)) {
            (Some(s), Some(n)) => s@ == n,
            (None, None) => true,
            _ => false,
        },
{
    if cargo.population > 0 {
        Some(crate::text::text_with_number("Cargo: ", cargo.population as i64, "pop"))
    } else if cargo.resources.minerals > 0 {
        Some(crate::text::text_with_number("Cargo: ", cargo.resources.minerals as i64, "min"))
    } else {
        None
    }
}

} // verus!
