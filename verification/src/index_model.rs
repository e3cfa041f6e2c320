//! The mathematical model of the relational index: what its maps, relations
//! and sets hold, which states are consistent, and what each operation does.

use vstd::prelude::*;

verus! {

/// The string of an identifier.
pub type Name = Seq<char>;

/// `map` with `key` sent to `value`, unless `key` is mapped already.
pub open spec fn set_once(map: Map<Name, Name>, key: Name, value: Name) -> Map<Name, Name> {
    if map.contains_key(key) {
        map
    } else {
        map.insert(key, value)
    }
}

/// `set` with the membership of `item` flipped.
pub open spec fn toggled(set: Set<Name>, item: Name) -> Set<Name> {
    if set.contains(item) {
        set.remove(item)
    } else {
        set.insert(item)
    }
}

/// Every right-hand member of `relation` is in `umbrella`.
pub open spec fn rights_within(relation: Set<(Name, Name)>, umbrella: Set<Name>) -> bool {
    forall|a: Name, b: Name| #[trigger] relation.contains((a, b)) ==> umbrella.contains(b)
}

/// Every left-hand member of `relation` is in `umbrella`.
pub open spec fn lefts_within(relation: Set<(Name, Name)>, umbrella: Set<Name>) -> bool {
    forall|a: Name, b: Name| #[trigger] relation.contains((a, b)) ==> umbrella.contains(a)
}

/// Every key of `map` is in `umbrella`.
pub open spec fn keys_within(map: Map<Name, Name>, umbrella: Set<Name>) -> bool {
    forall|k: Name| #[trigger] map.contains_key(k) ==> umbrella.contains(k)
}

/// Every value of `map` is in `umbrella`.
pub open spec fn values_within(map: Map<Name, Name>, umbrella: Set<Name>) -> bool {
    forall|k: Name| #[trigger] map.contains_key(k) ==> umbrella.contains(map[k])
}

/// `relation` links `a` to `b` exactly when `map` sends `b` to `a`: the two
/// are one link, indexed in both directions.
pub open spec fn mirrors(relation: Set<(Name, Name)>, map: Map<Name, Name>) -> bool {
    forall|a: Name, b: Name| #[trigger]
        relation.contains((a, b)) <==> (map.contains_key(b) && map[b] == a)
}

/// What the index holds.
pub struct IndexView {
    /// The current account of each venue.
    pub venue_account: Map<Name, Name>,
    /// Venue to its orders.
    pub venue_orders: Set<(Name, Name)>,
    /// Venue to its positions.
    pub venue_positions: Set<(Name, Name)>,
    /// Venue order id to client order id.
    pub order_ids: Map<Name, Name>,
    /// Order to its position.
    pub order_position: Map<Name, Name>,
    /// Order to its strategy.
    pub order_strategy: Map<Name, Name>,
    /// Order to its client.
    pub order_client: Map<Name, Name>,
    /// Position to its strategy.
    pub position_strategy: Map<Name, Name>,
    /// Position to its orders.
    pub position_orders: Set<(Name, Name)>,
    /// Instrument to its orders.
    pub instrument_orders: Set<(Name, Name)>,
    /// Instrument to its positions.
    pub instrument_positions: Set<(Name, Name)>,
    /// Strategy to its orders.
    pub strategy_orders: Set<(Name, Name)>,
    /// Strategy to its positions.
    pub strategy_positions: Set<(Name, Name)>,
    /// Execution algorithm to the orders it manages.
    pub exec_algorithm_orders: Set<(Name, Name)>,
    /// Execution algorithm to the orders it spawned.
    pub exec_spawn_orders: Set<(Name, Name)>,
    /// Every order.
    pub orders: Set<Name>,
    pub orders_open: Set<Name>,
    pub orders_closed: Set<Name>,
    pub orders_emulated: Set<Name>,
    pub orders_inflight: Set<Name>,
    pub orders_pending_cancel: Set<Name>,
    /// Every position.
    pub positions: Set<Name>,
    pub positions_open: Set<Name>,
    pub positions_closed: Set<Name>,
    pub actors: Set<Name>,
    pub strategies: Set<Name>,
    pub exec_algorithms: Set<Name>,
}

impl IndexView {
    /// The index that holds nothing.
    pub open spec fn empty() -> IndexView {
        IndexView {
            venue_account: Map::empty(),
            venue_orders: Set::empty(),
            venue_positions: Set::empty(),
            order_ids: Map::empty(),
            order_position: Map::empty(),
            order_strategy: Map::empty(),
            order_client: Map::empty(),
            position_strategy: Map::empty(),
            position_orders: Set::empty(),
            instrument_orders: Set::empty(),
            instrument_positions: Set::empty(),
            strategy_orders: Set::empty(),
            strategy_positions: Set::empty(),
            exec_algorithm_orders: Set::empty(),
            exec_spawn_orders: Set::empty(),
            orders: Set::empty(),
            orders_open: Set::empty(),
            orders_closed: Set::empty(),
            orders_emulated: Set::empty(),
            orders_inflight: Set::empty(),
            orders_pending_cancel: Set::empty(),
            positions: Set::empty(),
            positions_open: Set::empty(),
            positions_closed: Set::empty(),
            actors: Set::empty(),
            strategies: Set::empty(),
            exec_algorithms: Set::empty(),
        }
    }

    /// Every order that a map, a relation or a status set names is a member
    /// of `orders`.
    pub open spec fn orders_registered(self) -> bool {
        &&& values_within(self.order_ids, self.orders)
        &&& keys_within(self.order_position, self.orders)
        &&& keys_within(self.order_strategy, self.orders)
        &&& keys_within(self.order_client, self.orders)
        &&& rights_within(self.venue_orders, self.orders)
        &&& rights_within(self.position_orders, self.orders)
        &&& rights_within(self.instrument_orders, self.orders)
        &&& rights_within(self.strategy_orders, self.orders)
        &&& rights_within(self.exec_algorithm_orders, self.orders)
        &&& rights_within(self.exec_spawn_orders, self.orders)
        &&& self.orders_open.subset_of(self.orders)
        &&& self.orders_closed.subset_of(self.orders)
        &&& self.orders_emulated.subset_of(self.orders)
        &&& self.orders_inflight.subset_of(self.orders)
        &&& self.orders_pending_cancel.subset_of(self.orders)
    }

    /// Every position that a map, a relation or a status set names is a
    /// member of `positions`.
    pub open spec fn positions_registered(self) -> bool {
        &&& values_within(self.order_position, self.positions)
        &&& keys_within(self.position_strategy, self.positions)
        &&& lefts_within(self.position_orders, self.positions)
        &&& rights_within(self.venue_positions, self.positions)
        &&& rights_within(self.instrument_positions, self.positions)
        &&& rights_within(self.strategy_positions, self.positions)
        &&& self.positions_open.subset_of(self.positions)
        &&& self.positions_closed.subset_of(self.positions)
    }

    /// The links that are kept in both directions agree, and the spawned
    /// orders of an execution algorithm are among those it manages.
    pub open spec fn links_agree(self) -> bool {
        &&& mirrors(self.strategy_orders, self.order_strategy)
        &&& mirrors(self.position_orders, self.order_position)
        &&& mirrors(self.strategy_positions, self.position_strategy)
        &&& self.exec_spawn_orders.subset_of(self.exec_algorithm_orders)
    }

    /// Every order is open or closed and never both, and so is every
    /// position.
    pub open spec fn open_closed_partition(self) -> bool {
        &&& self.orders_open.disjoint(self.orders_closed)
        &&& self.positions_open.disjoint(self.positions_closed)
        &&& forall|order: Name| #[trigger]
            self.orders.contains(order) ==> self.orders_open.contains(order)
                || self.orders_closed.contains(order)
        &&& forall|position: Name| #[trigger]
            self.positions.contains(position) ==> self.positions_open.contains(position)
                || self.positions_closed.contains(position)
    }

    /// The invariant of the index.
    pub open spec fn consistent(self) -> bool {
        &&& self.orders_registered()
        &&& self.positions_registered()
        &&& self.links_agree()
        &&& self.open_closed_partition()
    }

    /// The strategy that `order` has once it was linked with `strategy`: the
    /// one it had, or else `strategy`.
    pub open spec fn strategy_after_link(self, order: Name, strategy: Name) -> Name {
        set_once(self.order_strategy, order, strategy)[order]
    }

    /// The position that `order` has once it was linked with `position`.
    pub open spec fn position_after_link(self, order: Name, position: Name) -> Name {
        set_once(self.order_position, order, position)[order]
    }

    /// The strategy that `position` has once it was linked with `strategy`.
    pub open spec fn position_strategy_after_link(self, position: Name, strategy: Name) -> Name {
        set_once(self.position_strategy, position, strategy)[position]
    }

    /// The index after `order` was seen: an order that the index did not
    /// know is registered and counts as open; a known order stays as it is.
    pub open spec fn with_order_seen(self, order: Name) -> IndexView {
        if self.orders.contains(order) {
            self
        } else {
            IndexView {
                orders: self.orders.insert(order),
                orders_open: self.orders_open.insert(order),
                ..self
            }
        }
    }

    /// The index after `position` was seen: a position that the index did
    /// not know is registered and counts as open; a known position stays as
    /// it is.
    pub open spec fn with_position_seen(self, position: Name) -> IndexView {
        if self.positions.contains(position) {
            self
        } else {
            IndexView {
                positions: self.positions.insert(position),
                positions_open: self.positions_open.insert(position),
                ..self
            }
        }
    }

    /// The index after `order` was linked to a strategy, a client and an
    /// instrument, and to a position and an execution algorithm where given.
    /// The order is seen, and so is its position. Its strategy, client and
    /// position are set once: a link that exists is kept, and the relations
    /// follow the link that holds afterwards.
    pub open spec fn with_order(
        self,
        order: Name,
        strategy: Name,
        client: Name,
        instrument: Name,
        position: Option<Name>,
        exec_algorithm: Option<Name>,
    ) -> IndexView {
        let linked = IndexView {
            order_strategy: set_once(self.order_strategy, order, strategy),
            strategy_orders: self.strategy_orders.insert(
                (self.strategy_after_link(order, strategy), order),
            ),
            order_client: set_once(self.order_client, order, client),
            instrument_orders: self.instrument_orders.insert((instrument, order)),
            ..self.with_order_seen(order)
        };
        let placed = match position {
            Some(p) => IndexView {
                order_position: set_once(self.order_position, order, p),
                position_orders: self.position_orders.insert(
                    (self.position_after_link(order, p), order),
                ),
                ..linked.with_position_seen(self.position_after_link(order, p))
            },
            None => linked,
        };
        match exec_algorithm {
            Some(e) => IndexView {
                exec_algorithm_orders: self.exec_algorithm_orders.insert((e, order)),
                ..placed
            },
            None => placed,
        }
    }

    /// The index after `position` was linked to a strategy and an
    /// instrument. The position is seen, and its strategy is set once.
    pub open spec fn with_position(self, position: Name, strategy: Name, instrument: Name)
        -> IndexView {
        IndexView {
            position_strategy: set_once(self.position_strategy, position, strategy),
            strategy_positions: self.strategy_positions.insert(
                (self.position_strategy_after_link(position, strategy), position),
            ),
            instrument_positions: self.instrument_positions.insert((instrument, position)),
            ..self.with_position_seen(position)
        }
    }

    /// The index after `order` was recorded as spawned by `exec_algorithm`,
    /// which then also manages it. The order is seen.
    pub open spec fn with_spawned_order(self, exec_algorithm: Name, order: Name) -> IndexView {
        IndexView {
            exec_algorithm_orders: self.exec_algorithm_orders.insert((exec_algorithm, order)),
            exec_spawn_orders: self.exec_spawn_orders.insert((exec_algorithm, order)),
            ..self.with_order_seen(order)
        }
    }

    /// The index after `order` was linked to `venue`. The order is seen.
    pub open spec fn with_venue_order(self, venue: Name, order: Name) -> IndexView {
        IndexView {
            venue_orders: self.venue_orders.insert((venue, order)),
            ..self.with_order_seen(order)
        }
    }

    /// The index after `position` was linked to `venue`. The position is
    /// seen.
    pub open spec fn with_venue_position(self, venue: Name, position: Name) -> IndexView {
        IndexView {
            venue_positions: self.venue_positions.insert((venue, position)),
            ..self.with_position_seen(position)
        }
    }

    /// The index after `account` became the account of `venue`: the last
    /// write wins.
    pub open spec fn with_venue_account(self, venue: Name, account: Name) -> IndexView {
        IndexView { venue_account: self.venue_account.insert(venue, account), ..self }
    }

    /// The index after the venue's id `venue_order` was tied to `order`.
    /// The order is seen.
    pub open spec fn with_venue_order_id(self, venue_order: Name, order: Name) -> IndexView {
        IndexView {
            order_ids: self.order_ids.insert(venue_order, order),
            ..self.with_order_seen(order)
        }
    }

    /// The index after `order` became open: registered, open, not closed.
    pub open spec fn with_order_open(self, order: Name) -> IndexView {
        IndexView {
            orders: self.orders.insert(order),
            orders_open: self.orders_open.insert(order),
            orders_closed: self.orders_closed.remove(order),
            ..self
        }
    }

    /// The index after `order` became closed: registered, closed, not open.
    pub open spec fn with_order_closed(self, order: Name) -> IndexView {
        IndexView {
            orders: self.orders.insert(order),
            orders_open: self.orders_open.remove(order),
            orders_closed: self.orders_closed.insert(order),
            ..self
        }
    }

    /// The index after the emulated tag of `order` was flipped. The order is
    /// seen.
    pub open spec fn with_order_emulated(self, order: Name) -> IndexView {
        IndexView {
            orders_emulated: toggled(self.orders_emulated, order),
            ..self.with_order_seen(order)
        }
    }

    /// The index after the in-flight tag of `order` was flipped. The order
    /// is seen.
    pub open spec fn with_order_inflight(self, order: Name) -> IndexView {
        IndexView {
            orders_inflight: toggled(self.orders_inflight, order),
            ..self.with_order_seen(order)
        }
    }

    /// The index after the pending-cancel tag of `order` was flipped. The
    /// order is seen.
    pub open spec fn with_order_pending_cancel(self, order: Name) -> IndexView {
        IndexView {
            orders_pending_cancel: toggled(self.orders_pending_cancel, order),
            ..self.with_order_seen(order)
        }
    }

    /// The index after `position` became open.
    pub open spec fn with_position_open(self, position: Name) -> IndexView {
        IndexView {
            positions: self.positions.insert(position),
            positions_open: self.positions_open.insert(position),
            positions_closed: self.positions_closed.remove(position),
            ..self
        }
    }

    /// The index after `position` became closed.
    pub open spec fn with_position_closed(self, position: Name) -> IndexView {
        IndexView {
            positions: self.positions.insert(position),
            positions_open: self.positions_open.remove(position),
            positions_closed: self.positions_closed.insert(position),
            ..self
        }
    }
}

/// The empty index knows no key: every map lacks it, no relation links it
/// to anything, and no set holds it.
pub proof fn lemma_empty_knows_nothing(key: Name, other: Name)
    ensures
        !IndexView::empty().venue_account.contains_key(key),
        !IndexView::empty().order_ids.contains_key(key),
        !IndexView::empty().order_position.contains_key(key),
        !IndexView::empty().order_strategy.contains_key(key),
        !IndexView::empty().order_client.contains_key(key),
        !IndexView::empty().position_strategy.contains_key(key),
        !IndexView::empty().venue_orders.contains((key, other)),
        !IndexView::empty().venue_positions.contains((key, other)),
        !IndexView::empty().position_orders.contains((key, other)),
        !IndexView::empty().instrument_orders.contains((key, other)),
        !IndexView::empty().instrument_positions.contains((key, other)),
        !IndexView::empty().strategy_orders.contains((key, other)),
        !IndexView::empty().strategy_positions.contains((key, other)),
        !IndexView::empty().exec_algorithm_orders.contains((key, other)),
        !IndexView::empty().exec_spawn_orders.contains((key, other)),
        !IndexView::empty().orders.contains(key),
        !IndexView::empty().orders_open.contains(key),
        !IndexView::empty().orders_closed.contains(key),
        !IndexView::empty().orders_emulated.contains(key),
        !IndexView::empty().orders_inflight.contains(key),
        !IndexView::empty().orders_pending_cancel.contains(key),
        !IndexView::empty().positions.contains(key),
        !IndexView::empty().positions_open.contains(key),
        !IndexView::empty().positions_closed.contains(key),
        !IndexView::empty().actors.contains(key),
        !IndexView::empty().strategies.contains(key),
        !IndexView::empty().exec_algorithms.contains(key),
{
}

/// The empty index is consistent.
pub proof fn lemma_empty_consistent()
    ensures
        IndexView::empty().consistent(),
{
}

/// Linking an order keeps the index consistent.
pub proof fn lemma_with_order_consistent(
    v: IndexView,
    order: Name,
    strategy: Name,
    client: Name,
    instrument: Name,
    position: Option<Name>,
    exec_algorithm: Option<Name>,
)
    requires
        v.consistent(),
    ensures
        v.with_order(order, strategy, client, instrument, position, exec_algorithm).consistent(),
{
}

/// Linking a position keeps the index consistent.
pub proof fn lemma_with_position_consistent(
    v: IndexView,
    position: Name,
    strategy: Name,
    instrument: Name,
)
    requires
        v.consistent(),
    ensures
        v.with_position(position, strategy, instrument).consistent(),
{
}

/// Seeing an order or a position keeps the index consistent.
pub proof fn lemma_seen_consistent(v: IndexView, id: Name)
    requires
        v.consistent(),
    ensures
        v.with_order_seen(id).consistent(),
        v.with_position_seen(id).consistent(),
{
}

/// The links to venues and to execution algorithms keep the index consistent.
pub proof fn lemma_side_links_consistent(v: IndexView, left: Name, right: Name)
    requires
        v.consistent(),
    ensures
        v.with_spawned_order(left, right).consistent(),
        v.with_venue_order(left, right).consistent(),
        v.with_venue_position(left, right).consistent(),
        v.with_venue_account(left, right).consistent(),
        v.with_venue_order_id(left, right).consistent(),
{
}

/// Every status transition keeps the index consistent.
pub proof fn lemma_marks_consistent(v: IndexView, id: Name)
    requires
        v.consistent(),
    ensures
        v.with_order_open(id).consistent(),
        v.with_order_closed(id).consistent(),
        v.with_order_emulated(id).consistent(),
        v.with_order_inflight(id).consistent(),
        v.with_order_pending_cancel(id).consistent(),
        v.with_position_open(id).consistent(),
        v.with_position_closed(id).consistent(),
{
}

/// `after` holds every entry of `before`.
pub open spec fn map_extends(after: Map<Name, Name>, before: Map<Name, Name>) -> bool {
    forall|k: Name| #[trigger] before.contains_key(k) ==> after.contains_key(k) && after[k] == before[k]
}

/// `after` holds every link, every registration and every status of
/// `before`: nothing was removed.
pub open spec fn keeps_all(after: IndexView, before: IndexView) -> bool {
    &&& map_extends(after.venue_account, before.venue_account)
    &&& map_extends(after.order_ids, before.order_ids)
    &&& map_extends(after.order_position, before.order_position)
    &&& map_extends(after.order_strategy, before.order_strategy)
    &&& map_extends(after.order_client, before.order_client)
    &&& map_extends(after.position_strategy, before.position_strategy)
    &&& before.venue_orders.subset_of(after.venue_orders)
    &&& before.venue_positions.subset_of(after.venue_positions)
    &&& before.position_orders.subset_of(after.position_orders)
    &&& before.instrument_orders.subset_of(after.instrument_orders)
    &&& before.instrument_positions.subset_of(after.instrument_positions)
    &&& before.strategy_orders.subset_of(after.strategy_orders)
    &&& before.strategy_positions.subset_of(after.strategy_positions)
    &&& before.exec_algorithm_orders.subset_of(after.exec_algorithm_orders)
    &&& before.exec_spawn_orders.subset_of(after.exec_spawn_orders)
    &&& before.orders.subset_of(after.orders)
    &&& before.orders_open.subset_of(after.orders_open)
    &&& before.orders_closed.subset_of(after.orders_closed)
    &&& before.orders_emulated.subset_of(after.orders_emulated)
    &&& before.orders_inflight.subset_of(after.orders_inflight)
    &&& before.orders_pending_cancel.subset_of(after.orders_pending_cancel)
    &&& before.positions.subset_of(after.positions)
    &&& before.positions_open.subset_of(after.positions_open)
    &&& before.positions_closed.subset_of(after.positions_closed)
    &&& before.actors.subset_of(after.actors)
    &&& before.strategies.subset_of(after.strategies)
    &&& before.exec_algorithms.subset_of(after.exec_algorithms)
}

/// Linking only adds: whatever the index held before an order or a position
/// was linked, it holds after.
pub proof fn lemma_linking_only_adds(
    v: IndexView,
    order: Name,
    position: Name,
    strategy: Name,
    client: Name,
    instrument: Name,
    linked_position: Option<Name>,
    exec_algorithm: Option<Name>,
)
    ensures
        keeps_all(
            v.with_order(order, strategy, client, instrument, linked_position, exec_algorithm),
            v,
        ),
        keeps_all(v.with_position(position, strategy, instrument), v),
{
}

/// Linking an order twice with the same arguments is linking it once.
pub proof fn lemma_with_order_idempotent(
    v: IndexView,
    order: Name,
    strategy: Name,
    client: Name,
    instrument: Name,
    position: Option<Name>,
    exec_algorithm: Option<Name>,
)
    ensures
        v.with_order(order, strategy, client, instrument, position, exec_algorithm).with_order(
            order,
            strategy,
            client,
            instrument,
            position,
            exec_algorithm,
        ) == v.with_order(order, strategy, client, instrument, position, exec_algorithm),
{
    let once = v.with_order(order, strategy, client, instrument, position, exec_algorithm);
    let twice = once.with_order(order, strategy, client, instrument, position, exec_algorithm);
    assert(twice.orders =~= once.orders);
    assert(twice.orders_open =~= once.orders_open);
    assert(twice.positions_open =~= once.positions_open);
    assert(twice.order_strategy =~= once.order_strategy);
    assert(twice.strategy_orders =~= once.strategy_orders);
    assert(twice.order_client =~= once.order_client);
    assert(twice.instrument_orders =~= once.instrument_orders);
    assert(twice.order_position =~= once.order_position);
    assert(twice.position_orders =~= once.position_orders);
    assert(twice.positions =~= once.positions);
    assert(twice.exec_algorithm_orders =~= once.exec_algorithm_orders);
}

/// Linking a position twice with the same arguments is linking it once.
pub proof fn lemma_with_position_idempotent(
    v: IndexView,
    position: Name,
    strategy: Name,
    instrument: Name,
)
    ensures
        v.with_position(position, strategy, instrument).with_position(
            position,
            strategy,
            instrument,
        ) == v.with_position(position, strategy, instrument),
{
    let once = v.with_position(position, strategy, instrument);
    let twice = once.with_position(position, strategy, instrument);
    assert(twice.positions =~= once.positions);
    assert(twice.positions_open =~= once.positions_open);
    assert(twice.position_strategy =~= once.position_strategy);
    assert(twice.strategy_positions =~= once.strategy_positions);
    assert(twice.instrument_positions =~= once.instrument_positions);
}

} // verus!
