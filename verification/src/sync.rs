//! Snapshot synchronization client: tick gating against an
//! authoritative tick stream, identity resolution among the snapshot's
//! client entries, and the overwrite of the local entities.

use vstd::prelude::*;
use crate::entity::Block;
use crate::wire::ClientRecv;
use crate::wire::GameRecv;
use crate::wire::mirrored;

verus! {

/// Why a session step failed. The first two come from the transport
/// and are fatal to the session; the last two are the library's own
/// verdicts on a received snapshot.
#[derive(Clone, Copy, Debug, PartialEq, Eq, Structural)]
pub enum SyncError {
    /// The payload does not parse as a snapshot.
    MalformedSnapshot,
    /// The connection closed or errored.
    ConnectionLost,
    /// No client entry carries the local address; the self paddle is
    /// left unmirrored.
    InvalidIdentityMatch,
    /// The snapshot's tick does not exceed the held one; re-read.
    StaleTick,
}

/// A snapshot is acted on exactly when its tick exceeds the held one.
pub open spec fn gate_accepts(held: u64, tick: u64) -> bool {
    tick > held
}

/// The held tick after an offer: adopted when accepted, kept when not.
pub open spec fn gate_after(held: u64, tick: u64) -> u64 {
    if gate_accepts(held, tick) {
        tick
    } else {
        held
    }
}

/// The tick gate: holds the last tick acted on, and admits a snapshot
/// only when its tick strictly exceeds it. The caller keeps reading
/// snapshots until one is admitted.
#[derive(Clone, Copy, Debug, PartialEq, Eq, Structural)]
pub struct TickGate {
    pub tick: u64,
}

impl TickGate {
    /// A gate that has acted on nothing beyond the given tick.
    pub fn new(start: u64) -> (g: TickGate)
        ensures
            g.tick == start,
    {
        TickGate { tick: start }
    }

    /// Offers a snapshot's tick. A strictly newer tick is adopted and
    /// returned; any other leaves the held tick unchanged and is
    /// reported stale, to be read past.
    pub fn offer(&mut self, tick: u64) -> (r: Result<u64, SyncError>)
        ensures
            final(self).tick == gate_after(old(self).tick, tick),
            gate_accepts(old(self).tick, tick) ==> r == Ok::<u64, SyncError>(tick),
            !gate_accepts(old(self).tick, tick) ==> r == Err::<u64, SyncError>(
                SyncError::StaleTick,
            ),
    {
        if tick > self.tick {
            self.tick = tick;
            Ok(tick)
        } else {
            Err(SyncError::StaleTick)
        }
    }
}

/// Gated consumption is monotone in tick order: the held tick never
/// decreases, an offer is adopted exactly when its tick exceeds the
/// held one, and the ticks of two successively adopted snapshots
/// strictly increase, so no frame is acted on twice or out of order.
pub proof fn lemma_gate_monotonic(held: u64, t1: u64, t2: u64)
    ensures
        gate_after(held, t1) >= held,
        gate_accepts(held, t1) ==> gate_after(held, t1) == t1,
        gate_accepts(held, t1) && gate_accepts(gate_after(held, t1), t2) ==> t2 > t1,
{
}

/// Some client entry carries the local address.
pub open spec fn has_self_entry(clients: Seq<ClientRecv>, addr: Seq<char>) -> bool {
    exists|i: int| 0 <= i < clients.len() && clients[i].addr@ == addr
}

/// The (self paddle, opponent paddle) pair after the client list is
/// applied in order: each entry carrying the local address overwrites
/// the self paddle, every other entry overwrites the opponent paddle.
pub open spec fn fold_clients(
    clients: Seq<ClientRecv>,
    addr: Seq<char>,
    player: Block,
    enemy: Block,
) -> (Block, Block)
    decreases clients.len(),
{
    if clients.len() == 0 {
        (player, enemy)
    } else if clients[0].addr@ == addr {
        fold_clients(clients.drop_first(), addr, mirrored(player, clients[0].block), enemy)
    } else {
        fold_clients(clients.drop_first(), addr, player, mirrored(enemy, clients[0].block))
    }
}

/// Applies one received snapshot to the local entities. The entry
/// whose address equals the local connection's own address overwrites
/// the self paddle, every other entry overwrites the opponent paddle,
/// and the ball is overwritten unconditionally. When no entry carries
/// the local address the self paddle is left unmirrored and the call
/// reports `InvalidIdentityMatch`.
pub fn apply_snapshot(
    game: &GameRecv,
    local_addr: &String,
    player: &mut Block,
    enemy: &mut Block,
    ball: &mut Block,
) -> (r: Result<(), SyncError>)
    ensures
        *final(player) == fold_clients(game.clients@, local_addr@, *old(player), *old(enemy)).0,
        *final(enemy) == fold_clients(game.clients@, local_addr@, *old(player), *old(enemy)).1,
        *final(ball) == mirrored(*old(ball), game.ball),
        has_self_entry(game.clients@, local_addr@) ==> r == Ok::<(), SyncError>(()),
        !has_self_entry(game.clients@, local_addr@) ==> r == Err::<(), SyncError>(
            SyncError::InvalidIdentityMatch,
        ),
{
    let ghost p0 = *player;
    let ghost e0 = *enemy;
    let mut p = *player;
    let mut e = *enemy;
    let mut matched = false;
    let mut i: usize = 0;
    let n = game.clients.len();
    proof {
        assert(game.clients@.skip(0) =~= game.clients@);
    }
    while i < n
        invariant
            n == game.clients@.len(),
            0 <= i <= n,
            fold_clients(game.clients@.skip(i as int), local_addr@, p, e) == fold_clients(
                game.clients@,
                local_addr@,
                p0,
                e0,
            ),
            matched == has_self_entry(game.clients@.take(i as int), local_addr@),
        decreases n - i,
    {
        let ghost rest = game.clients@.skip(i as int);
        let client = &game.clients[i];
        proof {
            assert(rest[0] == game.clients@[i as int]);
            assert(rest.drop_first() =~= game.clients@.skip(i + 1));
        }
        if client.addr == *local_addr {
            p.mirror_from(&client.block);
            matched = true;
        } else {
            e.mirror_from(&client.block);
        }
        i = i + 1;
        proof {
            assert(game.clients@.take(i as int).drop_last() =~= game.clients@.take(i - 1));
            assert(game.clients@.take(i as int).last() == game.clients@[i - 1]);
            if matched != has_self_entry(game.clients@.take(i as int), local_addr@) {
                lemma_has_self_entry_step(game.clients@.take(i as int), local_addr@);
                assert(false);
            }
        }
    }
    proof {
        assert(game.clients@.skip(n as int) =~= Seq::<ClientRecv>::empty());
        assert(game.clients@.take(n as int) =~= game.clients@);
    }
    *player = p;
    *enemy = e;
    ball.mirror_from(&game.ball);
    if matched {
        Ok(())
    } else {
        Err(SyncError::InvalidIdentityMatch)
    }
}

/// A non-empty list holds a self entry exactly when its last entry is
/// one or the rest of the list holds one.
proof fn lemma_has_self_entry_step(clients: Seq<ClientRecv>, addr: Seq<char>)
    requires
        clients.len() > 0,
    ensures
        has_self_entry(clients, addr) <==> (clients.last().addr@ == addr || has_self_entry(
            clients.drop_last(),
            addr,
        )),
{
    if has_self_entry(clients.drop_last(), addr) {
        let i = choose|i: int|
            0 <= i < clients.drop_last().len() && clients.drop_last()[i].addr@ == addr;
        assert(clients[i].addr@ == addr);
    }
    if has_self_entry(clients, addr) && clients.last().addr@ != addr {
        let i = choose|i: int| 0 <= i < clients.len() && clients[i].addr@ == addr;
        assert(clients.drop_last()[i].addr@ == addr);
    }
}

/// Identity resolution does not depend on list order: in a snapshot
/// with two client entries of which exactly one carries the local
/// address, the matching entry overwrites the self paddle and the
/// other entry overwrites the opponent paddle.
pub proof fn lemma_identity_two_clients(
    clients: Seq<ClientRecv>,
    addr: Seq<char>,
    player: Block,
    enemy: Block,
)
    requires
        clients.len() == 2,
        (clients[0].addr@ == addr) != (clients[1].addr@ == addr),
    ensures
        clients[0].addr@ == addr ==> fold_clients(clients, addr, player, enemy) == (
            mirrored(player, clients[0].block),
            mirrored(enemy, clients[1].block),
        ),
        clients[1].addr@ == addr ==> fold_clients(clients, addr, player, enemy) == (
            mirrored(player, clients[1].block),
            mirrored(enemy, clients[0].block),
        ),
{
    let rest = clients.drop_first();
    assert(rest[0] == clients[1]);
    assert(rest.drop_first() =~= Seq::<ClientRecv>::empty());
    if clients[0].addr@ == addr {
        let p1 = mirrored(player, clients[0].block);
        assert(fold_clients(clients, addr, player, enemy) == fold_clients(rest, addr, p1, enemy));
        assert(fold_clients(rest, addr, p1, enemy) == fold_clients(
            rest.drop_first(),
            addr,
            p1,
            mirrored(enemy, rest[0].block),
        ));
    } else {
        let e1 = mirrored(enemy, clients[0].block);
        assert(fold_clients(clients, addr, player, enemy) == fold_clients(rest, addr, player, e1));
        assert(fold_clients(rest, addr, player, e1) == fold_clients(
            rest.drop_first(),
            addr,
            mirrored(player, rest[0].block),
            e1,
        ));
    }
}

} // verus!
