//! The connections of one database that are at rest, waiting to be reused.
//!
//! A connection is checked out by removal and comes back by insertion under
//! its id. The pool has no size limit.

use vstd::prelude::*;
use crate::driver::Connection;
use crate::table::{distinct, position_of, lemma_position_of, Table};

verus! {

/// Connections at rest, keyed by the id their driver gave them.
pub struct ConnectionPool<C: Connection> {
    idle: Table<C>,
}

/// The ids of a row of connections, in order.
pub open spec fn idents<C: Connection>(connections: Seq<C>) -> Seq<Seq<char>> {
    connections.map_values(|c: C| c.ident()@)
}

/// What a checkout makes of the connections at rest.
///
/// The scan goes from the newest to the oldest and asks each connection
/// whether it is valid. What it leaves is the oldest connections, as they
/// were and unasked. A connection that is handed out is the one that stood
/// next to them, and it answered that it is valid; everything newer than it
/// answered that it is not, and is gone. When nothing is handed out, every
/// connection answered that it is not valid, and nothing is left.
pub open spec fn checkout_leaves<C: Connection>(
    before: Seq<C>,
    picked: Option<C>,
    after: Seq<C>,
) -> bool {
    &&& after.len() <= before.len()
    &&& after == before.subrange(0, after.len() as int)
    &&& match picked {
        Some(connection) => {
            &&& after.len() < before.len()
            &&& connection == before[after.len() as int]
            &&& connection.says_valid(true)
            &&& forall|i: int|
                after.len() < i < before.len() ==> (#[trigger] before[i]).says_valid(false)
        },
        None => {
            &&& after.len() == 0
            &&& forall|i: int| 0 <= i < before.len() ==> (#[trigger] before[i]).says_valid(false)
        },
    }
}

/// A connection that a checkout hands out is no longer at rest: no
/// connection that is left has its id.
pub proof fn lemma_checked_out_is_not_at_rest<C: Connection>(
    before: Seq<C>,
    connection: C,
    after: Seq<C>,
)
    requires
        distinct(idents(before)),
        checkout_leaves(before, Some(connection), after),
    ensures
        !idents(after).contains(connection.ident()@),
        distinct(idents(after)),
{
    let k = after.len() as int;
    assert(idents(before)[k] == connection.ident()@);
    if idents(after).contains(connection.ident()@) {
        let i = choose|i: int| 0 <= i < after.len() && idents(after)[i] == connection.ident()@;
        assert(idents(before)[i] == idents(after)[i]);
    }
    assert forall|i: int, j: int| 0 <= i < j < after.len() implies idents(after)[i] != idents(
        after,
    )[j] by {
        assert(idents(before)[i] == idents(after)[i]);
        assert(idents(before)[j] == idents(after)[j]);
    }
}

/// A connection that was checked out, or that was opened because the
/// checkout handed out nothing, and that comes back under the id it had,
/// goes to the end of what the checkout left: the pool then holds one
/// connection more than the checkout left, and exactly that one when the
/// checkout handed out nothing.
pub proof fn lemma_back_after_use<C: Connection>(
    before: Seq<C>,
    picked: Option<C>,
    rest: Seq<C>,
    used: C,
    back: C,
)
    requires
        distinct(idents(before)),
        checkout_leaves(before, picked, rest),
        picked is Some ==> picked == Some(used),
        back.ident()@ == used.ident()@,
    ensures
        with_returned(rest, back) == rest.push(back),
        with_returned(rest, back).len() == rest.len() + 1,
        with_returned(rest, back).len() <= before.len() + 1,
        picked is Some ==> with_returned(rest, back).len() <= before.len(),
        picked is None ==> with_returned(rest, back) == seq![back],
{
    lemma_position_of(idents(rest), back.ident()@);
    if picked is Some {
        lemma_checked_out_is_not_at_rest(before, used, rest);
    } else {
        assert(rest.push(back) =~= seq![back]);
    }
}

/// `connections` after `connection` came back: it takes the place of the one
/// with its id, or goes to the end.
pub open spec fn with_returned<C: Connection>(connections: Seq<C>, connection: C) -> Seq<C> {
    let p = position_of(idents(connections), connection.ident()@);
    if p < connections.len() {
        connections.update(p, connection)
    } else {
        connections.push(connection)
    }
}

/// One use of a pool.
pub enum PoolEvent<C> {
    /// A caller got a connection: the one the pool handed out, or, when the
    /// pool handed out none, a new one from the driver.
    Checkout(Option<C>),
    /// A caller got none: the pool handed out none and the driver opened
    /// none.
    Missed,
    /// A caller gave its connection back.
    Return(C),
}

/// The connections at rest, how many are out, and the most that were ever
/// out at once.
pub struct PoolBooks<C> {
    pub idle: Seq<C>,
    pub out: nat,
    pub peak: nat,
}

/// Whether `after` can be the books once `event` has happened to `before`.
/// Only a connection that is out can come back.
pub open spec fn follows<C: Connection>(
    before: PoolBooks<C>,
    event: PoolEvent<C>,
    after: PoolBooks<C>,
) -> bool {
    match event {
        PoolEvent::Checkout(picked) => {
            &&& checkout_leaves(before.idle, picked, after.idle)
            &&& after.out == before.out + 1
            &&& after.peak == if after.out > before.peak {
                after.out
            } else {
                before.peak
            }
        },
        PoolEvent::Missed => {
            &&& checkout_leaves(before.idle, None, after.idle)
            &&& after.out == before.out
            &&& after.peak == before.peak
        },
        PoolEvent::Return(connection) => {
            &&& before.out > 0
            &&& after.idle == with_returned(before.idle, connection)
            &&& after.out == before.out - 1
            &&& after.peak == before.peak
        },
    }
}

/// `trail` holds the books of a pool that started out empty with nothing
/// out, before the first of `events` and after each of them.
pub open spec fn history<C: Connection>(trail: Seq<PoolBooks<C>>, events: Seq<PoolEvent<C>>) -> bool {
    &&& trail.len() == events.len() + 1
    &&& trail[0].idle.len() == 0
    &&& trail[0].out == 0
    &&& trail[0].peak == 0
    &&& forall|i: int|
        0 <= i < events.len() ==> follows(#[trigger] trail[i], events[i], trail[i + 1])
}

/// A connection that comes back makes the pool grow by one at most.
pub proof fn lemma_return_grows_by_one<C: Connection>(connections: Seq<C>, connection: C)
    ensures
        connections.len() <= with_returned(connections, connection).len() <= connections.len() + 1,
{
    lemma_position_of(idents(connections), connection.ident()@);
}

/// A connection that came back is at rest exactly once, at the place
/// `position_of` names for its id; every other place holds what it held, and
/// the ids stay distinct. The pool has grown by one unless a connection was
/// at rest under the same id.
pub proof fn lemma_returned_once<C: Connection>(connections: Seq<C>, connection: C)
    requires
        distinct(idents(connections)),
    ensures
        distinct(idents(with_returned(connections, connection))),
        with_returned(connections, connection)[position_of(
            idents(connections),
            connection.ident()@,
        )] == connection,
        forall|i: int|
            0 <= i < with_returned(connections, connection).len() && i != position_of(
                idents(connections),
                connection.ident()@,
            ) ==> i < connections.len() && with_returned(connections, connection)[i]
                == connections[i] && (#[trigger] with_returned(
                connections,
                connection,
            )[i]).ident()@ != connection.ident()@,
        with_returned(connections, connection).len() == if idents(connections).contains(
            connection.ident()@,
        ) {
            connections.len()
        } else {
            connections.len() + 1
        },
{
    let ids = idents(connections);
    let id = connection.ident()@;
    let p = position_of(ids, id);
    let after = with_returned(connections, connection);
    lemma_position_of(ids, id);
    assert forall|i: int| 0 <= i < after.len() && i != p implies i < connections.len() && after[i]
        == connections[i] && (#[trigger] after[i]).ident()@ != id by {
        assert(ids[i] == connections[i].ident()@);
        if ids[i] == id {
            if p < i {
                assert(ids[p] != ids[i]);
            }
        }
    }
    assert forall|i: int, j: int| 0 <= i < j < after.len() implies idents(after)[i] != idents(
        after,
    )[j] by {
        if i != p && j != p {
            assert(ids[i] != ids[j]);
        }
    }
}

/// The pool never holds more connections than were out at once at some
/// time: at every point of a history of checkouts and returns, the
/// connections at rest and the connections out together are no more than
/// the peak of the connections out.
pub proof fn lemma_pool_within_peak<C: Connection>(
    trail: Seq<PoolBooks<C>>,
    events: Seq<PoolEvent<C>>,
    at: int,
)
    requires
        history(trail, events),
        0 <= at < trail.len(),
    ensures
        trail[at].idle.len() + trail[at].out <= trail[at].peak,
        trail[at].idle.len() <= trail[at].peak,
    decreases at,
{
    if at > 0 {
        lemma_pool_within_peak(trail, events, at - 1);
        assert(follows(trail[at - 1], events[at - 1], trail[at]));
        match events[at - 1] {
            PoolEvent::Return(connection) => {
                lemma_return_grows_by_one(trail[at - 1].idle, connection);
            },
            _ => {},
        }
    }
}

impl<C: Connection> View for ConnectionPool<C> {
    type V = Seq<C>;

    /// The connections at rest, oldest first.
    closed spec fn view(&self) -> Seq<C> {
        self.idle.values()
    }
}

impl<C: Connection> ConnectionPool<C> {
    /// Every connection sits under its own id, and no id occurs twice.
    pub closed spec fn wf(&self) -> bool {
        &&& self.idle.wf()
        &&& self.idle.keys() == idents(self.idle.values())
    }

    /// In a well-formed pool no two connections share an id.
    pub proof fn lemma_ids_distinct(&self)
        requires
            self.wf(),
        ensures
            distinct(idents(self@)),
    {
    }

    /// An empty pool.
    pub fn new() -> (pool: Self)
        ensures
            pool.wf(),
            pool@ == Seq::<C>::empty(),
    {
        let pool = ConnectionPool { idle: Table::new() };
        assert(pool.idle.keys() =~= idents(pool.idle.values()));
        pool
    }

    /// The number of connections at rest.
    pub fn len(&self) -> (n: usize)
        requires
            self.wf(),
        ensures
            n == self@.len(),
    {
        self.idle.len()
    }

    /// Takes the newest connection out, whatever its state.
    pub fn take_newest(&mut self) -> (newest: Option<C>)
        requires
            old(self).wf(),
        ensures
            final(self).wf(),
            match newest {
                Some(connection) => old(self)@.len() > 0 && connection == old(self)@.last()
                    && final(self)@ == old(self)@.drop_last(),
                None => old(self)@.len() == 0 && final(self)@ == old(self)@,
            },
    {
        match self.idle.pop() {
            Some((_, connection)) => {
                assert(self.idle.keys() =~= idents(self.idle.values()));
                Some(connection)
            },
            None => None,
        }
    }

    /// Takes a connection out that says it is valid. The connections are
    /// asked from the newest to the oldest; those that are not valid are
    /// removed and dropped on the way.
    pub fn checkout(&mut self) -> (picked: Option<C>)
        requires
            old(self).wf(),
        ensures
            final(self).wf(),
            checkout_leaves(old(self)@, picked, final(self)@),
    {
        loop
            invariant
                self.wf(),
                self@.len() <= old(self)@.len(),
                self@ == old(self)@.subrange(0, self@.len() as int),
                forall|i: int|
                    self@.len() <= i < old(self)@.len() ==> (#[trigger] old(self)@[i]).says_valid(
                        false,
                    ),
            decreases self@.len(),
        {
            match self.take_newest() {
                Some(connection) => {
                    assert(self@ =~= old(self)@.subrange(0, self@.len() as int));
                    if connection.is_valid() {
                        return Some(connection);
                    }
                },
                None => {
                    return None;
                },
            }
        }
    }

    /// Puts a connection back under its id. A connection already at rest
    /// under that id is replaced and dropped.
    pub fn give_back(&mut self, connection: C)
        requires
            old(self).wf(),
        ensures
            final(self).wf(),
            final(self)@ == with_returned(old(self)@, connection),
    {
        let id = connection.id().to_owned();
        proof {
            lemma_position_of(self.idle.keys(), id@);
        }
        let ghost before = self.idle;
        let _ = self.idle.insert(id, connection);
        proof {
            let p = position_of(before.keys(), id@);
            if p < before.keys().len() {
                assert(before.keys()[p] == connection.ident()@);
                assert(self.idle.keys() =~= idents(self.idle.values()));
            } else {
                assert(self.idle.keys() =~= idents(self.idle.values()));
            }
        }
    }
}

} // verus!
