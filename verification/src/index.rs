//! The relational index: which orders and positions exist, what state they
//! are in, and how they are tied to venues, accounts, strategies, execution
//! algorithms, instruments and clients.

use crate::identifiers::{
    AccountId, AccountKind, ClientId, ClientKind, ClientOrderId, ClientOrderKind, ComponentId,
    ExecAlgorithmId, Id, InstrumentId, PositionId, PositionKind, StrategyId, StrategyKind, Venue,
    VenueOrderId,
};
use crate::index_model::{
    lemma_empty_consistent, lemma_marks_consistent, lemma_seen_consistent,
    lemma_side_links_consistent, lemma_with_order_consistent, lemma_with_position_consistent,
    IndexView, Name,
};
use crate::relation::{IdMap, Relation};
use vstd::hash_set::StringHashSet;
use vstd::prelude::*;

verus! {

/// The string of an identifier that may be absent.
pub open spec fn name_of<K>(id: Option<&Id<K>>) -> Option<Name> {
    match id {
        Some(id) => Some(id@),
        None => None,
    }
}

/// The index. Its view is an [`IndexView`]; every index handed out here is
/// well formed, which includes that its view is consistent.
pub struct CacheIndex {
    venue_account: IdMap<AccountKind>,
    venue_orders: Relation,
    venue_positions: Relation,
    order_ids: IdMap<ClientOrderKind>,
    order_position: IdMap<PositionKind>,
    order_strategy: IdMap<StrategyKind>,
    order_client: IdMap<ClientKind>,
    position_strategy: IdMap<StrategyKind>,
    position_orders: Relation,
    instrument_orders: Relation,
    instrument_positions: Relation,
    strategy_orders: Relation,
    strategy_positions: Relation,
    exec_algorithm_orders: Relation,
    exec_spawn_orders: Relation,
    orders: StringHashSet,
    orders_open: StringHashSet,
    orders_closed: StringHashSet,
    orders_emulated: StringHashSet,
    orders_inflight: StringHashSet,
    orders_pending_cancel: StringHashSet,
    positions: StringHashSet,
    positions_open: StringHashSet,
    positions_closed: StringHashSet,
    actors: StringHashSet,
    strategies: StringHashSet,
    exec_algorithms: StringHashSet,
}

impl View for CacheIndex {
    type V = IndexView;

    closed spec fn view(&self) -> IndexView {
        IndexView {
            venue_account: self.venue_account@,
            venue_orders: self.venue_orders@,
            venue_positions: self.venue_positions@,
            order_ids: self.order_ids@,
            order_position: self.order_position@,
            order_strategy: self.order_strategy@,
            order_client: self.order_client@,
            position_strategy: self.position_strategy@,
            position_orders: self.position_orders@,
            instrument_orders: self.instrument_orders@,
            instrument_positions: self.instrument_positions@,
            strategy_orders: self.strategy_orders@,
            strategy_positions: self.strategy_positions@,
            exec_algorithm_orders: self.exec_algorithm_orders@,
            exec_spawn_orders: self.exec_spawn_orders@,
            orders: self.orders@,
            orders_open: self.orders_open@,
            orders_closed: self.orders_closed@,
            orders_emulated: self.orders_emulated@,
            orders_inflight: self.orders_inflight@,
            orders_pending_cancel: self.orders_pending_cancel@,
            positions: self.positions@,
            positions_open: self.positions_open@,
            positions_closed: self.positions_closed@,
            actors: self.actors@,
            strategies: self.strategies@,
            exec_algorithms: self.exec_algorithms@,
        }
    }
}

impl CacheIndex {
    /// The relations are in order and the view is consistent.
    pub closed spec fn wf(&self) -> bool {
        &&& self.venue_orders.wf()
        &&& self.venue_positions.wf()
        &&& self.position_orders.wf()
        &&& self.instrument_orders.wf()
        &&& self.instrument_positions.wf()
        &&& self.strategy_orders.wf()
        &&& self.strategy_positions.wf()
        &&& self.exec_algorithm_orders.wf()
        &&& self.exec_spawn_orders.wf()
        &&& self@.consistent()
    }

    /// A well-formed index is consistent: every order is either open or
    /// closed, and so is every position; every order and position that is
    /// named anywhere is registered; and the links kept in both directions
    /// agree.
    pub proof fn lemma_consistent(self)
        requires
            self.wf(),
        ensures
            self@.consistent(),
    {
    }

    /// The index that holds nothing.
    pub fn new() -> (index: Self)
        ensures
            index.wf(),
            index@ == IndexView::empty(),
    {
        let index = CacheIndex {
            venue_account: IdMap::new(),
            venue_orders: Relation::new(),
            venue_positions: Relation::new(),
            order_ids: IdMap::new(),
            order_position: IdMap::new(),
            order_strategy: IdMap::new(),
            order_client: IdMap::new(),
            position_strategy: IdMap::new(),
            position_orders: Relation::new(),
            instrument_orders: Relation::new(),
            instrument_positions: Relation::new(),
            strategy_orders: Relation::new(),
            strategy_positions: Relation::new(),
            exec_algorithm_orders: Relation::new(),
            exec_spawn_orders: Relation::new(),
            orders: StringHashSet::new(),
            orders_open: StringHashSet::new(),
            orders_closed: StringHashSet::new(),
            orders_emulated: StringHashSet::new(),
            orders_inflight: StringHashSet::new(),
            orders_pending_cancel: StringHashSet::new(),
            positions: StringHashSet::new(),
            positions_open: StringHashSet::new(),
            positions_closed: StringHashSet::new(),
            actors: StringHashSet::new(),
            strategies: StringHashSet::new(),
            exec_algorithms: StringHashSet::new(),
        };
        proof {
            lemma_empty_consistent();
        }
        index
    }

    /// Clear the index which will clear/reset all internal state.
    pub fn clear(&mut self)
        requires
            old(self).wf(),
        ensures
            final(self).wf(),
            final(self)@ == IndexView::empty(),
    {
        self.venue_account.clear();
        self.venue_orders.clear();
        self.venue_positions.clear();
        self.order_ids.clear();
        self.order_position.clear();
        self.order_strategy.clear();
        self.order_client.clear();
        self.position_strategy.clear();
        self.position_orders.clear();
        self.instrument_orders.clear();
        self.instrument_positions.clear();
        self.strategy_orders.clear();
        self.strategy_positions.clear();
        self.exec_algorithm_orders.clear();
        self.exec_spawn_orders.clear();
        self.orders.clear();
        self.orders_open.clear();
        self.orders_closed.clear();
        self.orders_emulated.clear();
        self.orders_inflight.clear();
        self.orders_pending_cancel.clear();
        self.positions.clear();
        self.positions_open.clear();
        self.positions_closed.clear();
        self.actors.clear();
        self.strategies.clear();
        self.exec_algorithms.clear();
        proof {
            lemma_empty_consistent();
        }
    }

    /// Sees an order: one that the index did not know is registered and
    /// counts as open.
    fn see_order(&mut self, order_id: &ClientOrderId)
        requires
            old(self).wf(),
        ensures
            final(self).wf(),
            final(self)@ == old(self)@.with_order_seen(order_id@),
    {
        if self.orders.insert(order_id.as_str().to_owned()) {
            self.orders_open.insert(order_id.as_str().to_owned());
        }
        proof {
            lemma_seen_consistent(old(self)@, order_id@);
            assert(self@.orders =~= old(self)@.with_order_seen(order_id@).orders);
        }
    }

    /// Sees a position: one that the index did not know is registered and
    /// counts as open.
    fn see_position(&mut self, position_id: &str)
        requires
            old(self).wf(),
        ensures
            final(self).wf(),
            final(self)@ == old(self)@.with_position_seen(position_id@),
    {
        if self.positions.insert(position_id.to_owned()) {
            self.positions_open.insert(position_id.to_owned());
        }
        proof {
            lemma_seen_consistent(old(self)@, position_id@);
            assert(self@.positions =~= old(self)@.with_position_seen(position_id@).positions);
        }
    }

    /// Links an order to its strategy, client and instrument, and to a
    /// position and an execution algorithm where given. An order or a
    /// position that is new to the index counts as open. Nothing is
    /// removed, and a second call with the same arguments changes nothing.
    pub fn link_order(
        &mut self,
        order_id: &ClientOrderId,
        strategy_id: &StrategyId,
        client_id: &ClientId,
        instrument_id: &InstrumentId,
        position_id: Option<&PositionId>,
        exec_algorithm_id: Option<&ExecAlgorithmId>,
    )
        requires
            old(self).wf(),
        ensures
            final(self).wf(),
            final(self)@ == old(self)@.with_order(
                order_id@,
                strategy_id@,
                client_id@,
                instrument_id@,
                name_of(position_id),
                name_of(exec_algorithm_id),
            ),
    {
        let order = order_id.as_str();
        self.see_order(order_id);
        self.order_strategy.set_once(order, strategy_id.duplicate());
        if let Some(strategy) = self.order_strategy.get(order) {
            self.strategy_orders.link(strategy.as_str(), order);
        }
        self.order_client.set_once(order, client_id.duplicate());
        self.instrument_orders.link(instrument_id.as_str(), order);
        if let Some(position_id) = position_id {
            self.order_position.set_once(order, position_id.duplicate());
            if let Some(position) = self.order_position.get(order) {
                self.position_orders.link(position.as_str(), order);
                if self.positions.insert(position.as_str().to_owned()) {
                    self.positions_open.insert(position.as_str().to_owned());
                }
            }
        }
        if let Some(exec_algorithm_id) = exec_algorithm_id {
            self.exec_algorithm_orders.link(exec_algorithm_id.as_str(), order);
        }
        proof {
            let expected = old(self)@.with_order(
                order_id@,
                strategy_id@,
                client_id@,
                instrument_id@,
                name_of(position_id),
                name_of(exec_algorithm_id),
            );
            lemma_with_order_consistent(
                old(self)@,
                order_id@,
                strategy_id@,
                client_id@,
                instrument_id@,
                name_of(position_id),
                name_of(exec_algorithm_id),
            );
            assert(self@.positions =~= expected.positions);
            assert(self@.positions_open =~= expected.positions_open);
            assert(self@.orders =~= expected.orders);
            assert(self@.orders_open =~= expected.orders_open);
        }
    }

    /// Links a position to its strategy and instrument. A position that is
    /// new to the index counts as open. Nothing is removed, and a second
    /// call with the same arguments changes nothing.
    pub fn link_position(
        &mut self,
        position_id: &PositionId,
        strategy_id: &StrategyId,
        instrument_id: &InstrumentId,
    )
        requires
            old(self).wf(),
        ensures
            final(self).wf(),
            final(self)@ == old(self)@.with_position(position_id@, strategy_id@, instrument_id@),
    {
        let position = position_id.as_str();
        self.see_position(position);
        self.position_strategy.set_once(position, strategy_id.duplicate());
        if let Some(strategy) = self.position_strategy.get(position) {
            self.strategy_positions.link(strategy.as_str(), position);
        }
        self.instrument_positions.link(instrument_id.as_str(), position);
        proof {
            lemma_with_position_consistent(old(self)@, position_id@, strategy_id@, instrument_id@);
        }
    }

    /// Records that `exec_algorithm_id` spawned the order, which it then
    /// also manages.
    pub fn link_spawned_order(
        &mut self,
        exec_algorithm_id: &ExecAlgorithmId,
        order_id: &ClientOrderId,
    )
        requires
            old(self).wf(),
        ensures
            final(self).wf(),
            final(self)@ == old(self)@.with_spawned_order(exec_algorithm_id@, order_id@),
    {
        self.see_order(order_id);
        self.exec_algorithm_orders.link(exec_algorithm_id.as_str(), order_id.as_str());
        self.exec_spawn_orders.link(exec_algorithm_id.as_str(), order_id.as_str());
        proof {
            lemma_side_links_consistent(old(self)@, exec_algorithm_id@, order_id@);
        }
    }

    /// Links an order to the venue it trades on.
    pub fn link_venue_order(&mut self, venue: &Venue, order_id: &ClientOrderId)
        requires
            old(self).wf(),
        ensures
            final(self).wf(),
            final(self)@ == old(self)@.with_venue_order(venue@, order_id@),
    {
        self.see_order(order_id);
        self.venue_orders.link(venue.as_str(), order_id.as_str());
        proof {
            lemma_side_links_consistent(old(self)@, venue@, order_id@);
        }
    }

    /// Links a position to the venue it is held on.
    pub fn link_venue_position(&mut self, venue: &Venue, position_id: &PositionId)
        requires
            old(self).wf(),
        ensures
            final(self).wf(),
            final(self)@ == old(self)@.with_venue_position(venue@, position_id@),
    {
        self.see_position(position_id.as_str());
        self.venue_positions.link(venue.as_str(), position_id.as_str());
        proof {
            lemma_side_links_consistent(old(self)@, venue@, position_id@);
        }
    }

    /// Makes `account_id` the account of `venue`, in place of the one before.
    pub fn set_venue_account(&mut self, venue: &Venue, account_id: &AccountId)
        requires
            old(self).wf(),
        ensures
            final(self).wf(),
            final(self)@ == old(self)@.with_venue_account(venue@, account_id@),
    {
        self.venue_account.set(venue.as_str(), account_id.duplicate());
        proof {
            lemma_side_links_consistent(old(self)@, venue@, account_id@);
        }
    }

    /// Ties the id that a venue gave an order to the order's own id.
    pub fn link_venue_order_id(&mut self, venue_order_id: &VenueOrderId, order_id: &ClientOrderId)
        requires
            old(self).wf(),
        ensures
            final(self).wf(),
            final(self)@ == old(self)@.with_venue_order_id(venue_order_id@, order_id@),
    {
        self.see_order(order_id);
        self.order_ids.set(venue_order_id.as_str(), order_id.duplicate());
        proof {
            lemma_side_links_consistent(old(self)@, venue_order_id@, order_id@);
        }
    }

    /// Registers an actor.
    pub fn register_actor(&mut self, actor_id: &ComponentId)
        requires
            old(self).wf(),
        ensures
            final(self).wf(),
            final(self)@ == (IndexView { actors: old(self)@.actors.insert(actor_id@), ..old(self)@ }),
    {
        self.actors.insert(actor_id.as_str().to_owned());
    }

    /// Registers a strategy.
    pub fn register_strategy(&mut self, strategy_id: &StrategyId)
        requires
            old(self).wf(),
        ensures
            final(self).wf(),
            final(self)@ == (IndexView {
                strategies: old(self)@.strategies.insert(strategy_id@),
                ..old(self)@
            }),
    {
        self.strategies.insert(strategy_id.as_str().to_owned());
    }

    /// Registers an execution algorithm.
    pub fn register_exec_algorithm(&mut self, exec_algorithm_id: &ExecAlgorithmId)
        requires
            old(self).wf(),
        ensures
            final(self).wf(),
            final(self)@ == (IndexView {
                exec_algorithms: old(self)@.exec_algorithms.insert(exec_algorithm_id@),
                ..old(self)@
            }),
    {
        self.exec_algorithms.insert(exec_algorithm_id.as_str().to_owned());
    }

    /// Moves an order to the open side: it is registered, open and no longer
    /// closed. Its tags are left alone.
    pub fn mark_order_open(&mut self, order_id: &ClientOrderId)
        requires
            old(self).wf(),
        ensures
            final(self).wf(),
            final(self)@ == old(self)@.with_order_open(order_id@),
    {
        self.orders.insert(order_id.as_str().to_owned());
        self.orders_closed.remove(order_id.as_str());
        self.orders_open.insert(order_id.as_str().to_owned());
        proof {
            lemma_marks_consistent(old(self)@, order_id@);
        }
    }

    /// Moves an order to the closed side: it is registered, closed and no
    /// longer open. Its tags are left alone.
    pub fn mark_order_closed(&mut self, order_id: &ClientOrderId)
        requires
            old(self).wf(),
        ensures
            final(self).wf(),
            final(self)@ == old(self)@.with_order_closed(order_id@),
    {
        self.orders.insert(order_id.as_str().to_owned());
        self.orders_open.remove(order_id.as_str());
        self.orders_closed.insert(order_id.as_str().to_owned());
        proof {
            lemma_marks_consistent(old(self)@, order_id@);
        }
    }

    /// Flips the emulated tag of an order and says whether it is set now.
    /// Open and closed are left alone, but for an order that is new to the
    /// index, which counts as open.
    pub fn mark_order_emulated(&mut self, order_id: &ClientOrderId) -> (tagged: bool)
        requires
            old(self).wf(),
        ensures
            final(self).wf(),
            final(self)@ == old(self)@.with_order_emulated(order_id@),
            tagged == !old(self)@.orders_emulated.contains(order_id@),
    {
        self.see_order(order_id);
        let tagged = !self.orders_emulated.contains(order_id.as_str());
        if tagged {
            self.orders_emulated.insert(order_id.as_str().to_owned());
        } else {
            self.orders_emulated.remove(order_id.as_str());
        }
        proof {
            lemma_marks_consistent(old(self)@, order_id@);
        }
        tagged
    }

    /// Flips the in-flight tag of an order and says whether it is set now.
    /// Open and closed are left alone, but for an order that is new to the
    /// index, which counts as open.
    pub fn mark_order_inflight(&mut self, order_id: &ClientOrderId) -> (tagged: bool)
        requires
            old(self).wf(),
        ensures
            final(self).wf(),
            final(self)@ == old(self)@.with_order_inflight(order_id@),
            tagged == !old(self)@.orders_inflight.contains(order_id@),
    {
        self.see_order(order_id);
        let tagged = !self.orders_inflight.contains(order_id.as_str());
        if tagged {
            self.orders_inflight.insert(order_id.as_str().to_owned());
        } else {
            self.orders_inflight.remove(order_id.as_str());
        }
        proof {
            lemma_marks_consistent(old(self)@, order_id@);
        }
        tagged
    }

    /// Flips the pending-cancel tag of an order and says whether it is set
    /// now. Open and closed are left alone, but for an order that is new to
    /// the index, which counts as open.
    pub fn mark_order_pending_cancel(&mut self, order_id: &ClientOrderId) -> (tagged: bool)
        requires
            old(self).wf(),
        ensures
            final(self).wf(),
            final(self)@ == old(self)@.with_order_pending_cancel(order_id@),
            tagged == !old(self)@.orders_pending_cancel.contains(order_id@),
    {
        self.see_order(order_id);
        let tagged = !self.orders_pending_cancel.contains(order_id.as_str());
        if tagged {
            self.orders_pending_cancel.insert(order_id.as_str().to_owned());
        } else {
            self.orders_pending_cancel.remove(order_id.as_str());
        }
        proof {
            lemma_marks_consistent(old(self)@, order_id@);
        }
        tagged
    }

    /// Moves a position to the open side.
    pub fn mark_position_open(&mut self, position_id: &PositionId)
        requires
            old(self).wf(),
        ensures
            final(self).wf(),
            final(self)@ == old(self)@.with_position_open(position_id@),
    {
        self.positions.insert(position_id.as_str().to_owned());
        self.positions_closed.remove(position_id.as_str());
        self.positions_open.insert(position_id.as_str().to_owned());
        proof {
            lemma_marks_consistent(old(self)@, position_id@);
        }
    }

    /// Moves a position to the closed side.
    pub fn mark_position_closed(&mut self, position_id: &PositionId)
        requires
            old(self).wf(),
        ensures
            final(self).wf(),
            final(self)@ == old(self)@.with_position_closed(position_id@),
    {
        self.positions.insert(position_id.as_str().to_owned());
        self.positions_open.remove(position_id.as_str());
        self.positions_closed.insert(position_id.as_str().to_owned());
        proof {
            lemma_marks_consistent(old(self)@, position_id@);
        }
    }

    /// Whether the order is registered.
    pub fn order_exists(&self, order_id: &ClientOrderId) -> (found: bool)
        ensures
            found == self@.orders.contains(order_id@),
    {
        self.orders.contains(order_id.as_str())
    }

    /// Whether the order is open.
    pub fn is_order_open(&self, order_id: &ClientOrderId) -> (found: bool)
        ensures
            found == self@.orders_open.contains(order_id@),
    {
        self.orders_open.contains(order_id.as_str())
    }

    /// Whether the order is closed.
    pub fn is_order_closed(&self, order_id: &ClientOrderId) -> (found: bool)
        ensures
            found == self@.orders_closed.contains(order_id@),
    {
        self.orders_closed.contains(order_id.as_str())
    }

    /// Whether the order carries the emulated tag.
    pub fn is_order_emulated(&self, order_id: &ClientOrderId) -> (found: bool)
        ensures
            found == self@.orders_emulated.contains(order_id@),
    {
        self.orders_emulated.contains(order_id.as_str())
    }

    /// Whether the order carries the in-flight tag.
    pub fn is_order_inflight(&self, order_id: &ClientOrderId) -> (found: bool)
        ensures
            found == self@.orders_inflight.contains(order_id@),
    {
        self.orders_inflight.contains(order_id.as_str())
    }

    /// Whether the order carries the pending-cancel tag.
    pub fn is_order_pending_cancel(&self, order_id: &ClientOrderId) -> (found: bool)
        ensures
            found == self@.orders_pending_cancel.contains(order_id@),
    {
        self.orders_pending_cancel.contains(order_id.as_str())
    }

    /// Whether the position is registered.
    pub fn position_exists(&self, position_id: &PositionId) -> (found: bool)
        ensures
            found == self@.positions.contains(position_id@),
    {
        self.positions.contains(position_id.as_str())
    }

    /// Whether the position is open.
    pub fn is_position_open(&self, position_id: &PositionId) -> (found: bool)
        ensures
            found == self@.positions_open.contains(position_id@),
    {
        self.positions_open.contains(position_id.as_str())
    }

    /// Whether the position is closed.
    pub fn is_position_closed(&self, position_id: &PositionId) -> (found: bool)
        ensures
            found == self@.positions_closed.contains(position_id@),
    {
        self.positions_closed.contains(position_id.as_str())
    }

    /// Whether the actor is registered.
    pub fn actor_exists(&self, actor_id: &ComponentId) -> (found: bool)
        ensures
            found == self@.actors.contains(actor_id@),
    {
        self.actors.contains(actor_id.as_str())
    }

    /// Whether the strategy is registered.
    pub fn strategy_exists(&self, strategy_id: &StrategyId) -> (found: bool)
        ensures
            found == self@.strategies.contains(strategy_id@),
    {
        self.strategies.contains(strategy_id.as_str())
    }

    /// Whether the execution algorithm is registered.
    pub fn exec_algorithm_exists(&self, exec_algorithm_id: &ExecAlgorithmId) -> (found: bool)
        ensures
            found == self@.exec_algorithms.contains(exec_algorithm_id@),
    {
        self.exec_algorithms.contains(exec_algorithm_id.as_str())
    }

    /// The current account of the venue, if one was set.
    pub fn account_for_venue(&self, venue: &Venue) -> (found: Option<&Id<AccountKind>>)
        ensures
            match found {
                Some(id) => self@.venue_account.contains_key(venue@) && id@ == self@.venue_account[venue@],
                None => !self@.venue_account.contains_key(venue@),
            },
    {
        self.venue_account.get(venue.as_str())
    }

    /// The order that the venue's id stands for, if it is known.
    pub fn client_order_id(&self, venue_order_id: &VenueOrderId) -> (found: Option<&Id<ClientOrderKind>>)
        ensures
            match found {
                Some(id) => self@.order_ids.contains_key(venue_order_id@) && id@ == self@.order_ids[venue_order_id@],
                None => !self@.order_ids.contains_key(venue_order_id@),
            },
    {
        self.order_ids.get(venue_order_id.as_str())
    }

    /// The position of the order, if it has one.
    pub fn position_for_order(&self, order_id: &ClientOrderId) -> (found: Option<&Id<PositionKind>>)
        ensures
            match found {
                Some(id) => self@.order_position.contains_key(order_id@) && id@ == self@.order_position[order_id@],
                None => !self@.order_position.contains_key(order_id@),
            },
    {
        self.order_position.get(order_id.as_str())
    }

    /// The strategy of the order, if it was linked.
    pub fn strategy_for_order(&self, order_id: &ClientOrderId) -> (found: Option<&Id<StrategyKind>>)
        ensures
            match found {
                Some(id) => self@.order_strategy.contains_key(order_id@) && id@ == self@.order_strategy[order_id@],
                None => !self@.order_strategy.contains_key(order_id@),
            },
    {
        self.order_strategy.get(order_id.as_str())
    }

    /// The client of the order, if it was linked.
    pub fn client_for_order(&self, order_id: &ClientOrderId) -> (found: Option<&Id<ClientKind>>)
        ensures
            match found {
                Some(id) => self@.order_client.contains_key(order_id@) && id@ == self@.order_client[order_id@],
                None => !self@.order_client.contains_key(order_id@),
            },
    {
        self.order_client.get(order_id.as_str())
    }

    /// The strategy of the position, if it was linked.
    pub fn strategy_for_position(&self, position_id: &PositionId) -> (found: Option<&Id<StrategyKind>>)
        ensures
            match found {
                Some(id) => self@.position_strategy.contains_key(position_id@) && id@ == self@.position_strategy[position_id@],
                None => !self@.position_strategy.contains_key(position_id@),
            },
    {
        self.position_strategy.get(position_id.as_str())
    }

    /// Whether the order is linked to the venue.
    pub fn venue_has_order(&self, venue: &Venue, order_id: &ClientOrderId) -> (linked: bool)
        requires
            self.wf(),
        ensures
            linked == self@.venue_orders.contains((venue@, order_id@)),
    {
        self.venue_orders.contains(venue.as_str(), order_id.as_str())
    }

    /// Whether the position is linked to the venue.
    pub fn venue_has_position(&self, venue: &Venue, position_id: &PositionId) -> (linked: bool)
        requires
            self.wf(),
        ensures
            linked == self@.venue_positions.contains((venue@, position_id@)),
    {
        self.venue_positions.contains(venue.as_str(), position_id.as_str())
    }

    /// Whether the order belongs to the position.
    pub fn position_has_order(&self, position_id: &PositionId, order_id: &ClientOrderId) -> (linked: bool)
        requires
            self.wf(),
        ensures
            linked == self@.position_orders.contains((position_id@, order_id@)),
    {
        self.position_orders.contains(position_id.as_str(), order_id.as_str())
    }

    /// Whether the order is for the instrument.
    pub fn instrument_has_order(&self, instrument_id: &InstrumentId, order_id: &ClientOrderId) -> (linked: bool)
        requires
            self.wf(),
        ensures
            linked == self@.instrument_orders.contains((instrument_id@, order_id@)),
    {
        self.instrument_orders.contains(instrument_id.as_str(), order_id.as_str())
    }

    /// Whether the position is in the instrument.
    pub fn instrument_has_position(&self, instrument_id: &InstrumentId, position_id: &PositionId) -> (linked: bool)
        requires
            self.wf(),
        ensures
            linked == self@.instrument_positions.contains((instrument_id@, position_id@)),
    {
        self.instrument_positions.contains(instrument_id.as_str(), position_id.as_str())
    }

    /// Whether the order belongs to the strategy.
    pub fn strategy_has_order(&self, strategy_id: &StrategyId, order_id: &ClientOrderId) -> (linked: bool)
        requires
            self.wf(),
        ensures
            linked == self@.strategy_orders.contains((strategy_id@, order_id@)),
    {
        self.strategy_orders.contains(strategy_id.as_str(), order_id.as_str())
    }

    /// Whether the position belongs to the strategy.
    pub fn strategy_has_position(&self, strategy_id: &StrategyId, position_id: &PositionId) -> (linked: bool)
        requires
            self.wf(),
        ensures
            linked == self@.strategy_positions.contains((strategy_id@, position_id@)),
    {
        self.strategy_positions.contains(strategy_id.as_str(), position_id.as_str())
    }

    /// Whether the execution algorithm manages the order.
    pub fn exec_algorithm_manages(&self, exec_algorithm_id: &ExecAlgorithmId, order_id: &ClientOrderId) -> (linked: bool)
        requires
            self.wf(),
        ensures
            linked == self@.exec_algorithm_orders.contains((exec_algorithm_id@, order_id@)),
    {
        self.exec_algorithm_orders.contains(exec_algorithm_id.as_str(), order_id.as_str())
    }

    /// Whether the execution algorithm spawned the order.
    pub fn exec_algorithm_spawned(&self, exec_algorithm_id: &ExecAlgorithmId, order_id: &ClientOrderId) -> (linked: bool)
        requires
            self.wf(),
        ensures
            linked == self@.exec_spawn_orders.contains((exec_algorithm_id@, order_id@)),
    {
        self.exec_spawn_orders.contains(exec_algorithm_id.as_str(), order_id.as_str())
    }

    /// The number of open orders.
    pub fn open_order_count(&self) -> (count: usize)
        ensures
            count == self@.orders_open.len(),
    {
        self.orders_open.len()
    }

    /// The number of open positions.
    pub fn open_position_count(&self) -> (count: usize)
        ensures
            count == self@.positions_open.len(),
    {
        self.positions_open.len()
    }
}

} // verus!
