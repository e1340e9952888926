//! Pairing of connections into a session.
//!
//! The session manager seats the connections that the acceptor hands over.
//! The first becomes player A, the second player B; with both seated the
//! session is paired and its two relay pumps run. The manager serves one
//! session at a time: while a session is paired, every further connection is
//! refused, and the seats are cleared only when both pumps have ended. A
//! session joins two connections: a name that is seated already is not
//! seated a second time.
//!
//! A manager is meant to live behind a lock. Every operation takes it by
//! exclusive reference, reads the seats, decides and writes them in one go,
//! and touches no socket, so the lock is never held across I/O.

use vstd::prelude::*;
use crate::gameplay::Team;

verus! {

/// Names one accepted connection. The owner of the sockets gives each
/// connection a name of its own and keeps the socket under that name.
#[derive(PartialEq, Eq, Clone, Copy, Debug, Hash, Structural)]
pub struct ConnectionId(pub u64);

/// Which relay directions of a paired session still run.
#[derive(PartialEq, Eq, Clone, Copy, Debug, Structural)]
pub enum Pumps {
    /// Both directions run.
    Both,
    /// Only the pump that reads from this side still runs.
    Only(Team),
}

/// The seats of the current session.
#[derive(PartialEq, Eq, Clone, Copy, Debug, Structural)]
pub enum Session {
    /// Nobody is seated.
    Open,
    /// Player A is seated and waits for an opponent. No relay runs.
    Waiting { player_a: ConnectionId },
    /// Both players are seated and at least one relay direction runs.
    Paired { player_a: ConnectionId, player_b: ConnectionId, pumps: Pumps },
}

/// Where a connection was seated.
#[derive(PartialEq, Eq, Clone, Copy, Debug, Structural)]
pub enum AssignmentResult {
    /// The connection is player A. It has no opponent yet and no relay starts.
    AssignedAsA,
    /// The connection is player B, paired with the given player A. Both
    /// relay directions are to be started now.
    AssignedAsB(ConnectionId),
}

/// Both seats are taken. The refused connection is to be closed at once,
/// before any byte is exchanged on it.
#[derive(PartialEq, Eq, Clone, Copy, Debug, Structural)]
pub struct SessionFullError {
    pub refused: ConnectionId,
}

/// Why a connection was not seated.
#[derive(PartialEq, Eq, Clone, Copy, Debug, Structural)]
pub enum AssignError {
    /// Both seats are taken.
    SessionFull(SessionFullError),
    /// The connection of this name holds seat A already, and no player is
    /// paired with itself. It stays in seat A.
    AlreadySeated(ConnectionId),
}

/// The two ends of one relay direction.
#[derive(PartialEq, Eq, Clone, Copy, Debug, Structural)]
pub struct Route {
    /// The connection that the pump reads from.
    pub from: ConnectionId,
    /// The connection that the pump writes to.
    pub to: ConnectionId,
}

/// A session after an assignment, with the answer given to the connection.
pub struct Assigned {
    pub session: Session,
    pub result: Result<AssignmentResult, AssignError>,
}

impl Session {
    /// The connection in seat A, if any.
    pub open spec fn player_a(self) -> Option<ConnectionId> {
        match self {
            Session::Open => None,
            Session::Waiting { player_a } => Some(player_a),
            Session::Paired { player_a, .. } => Some(player_a),
        }
    }

    /// The connection in seat B, if any.
    pub open spec fn player_b(self) -> Option<ConnectionId> {
        match self {
            Session::Paired { player_b, .. } => Some(player_b),
            _ => None,
        }
    }

    /// The connection seated on side `team`, if any.
    pub open spec fn seat(self, team: Team) -> Option<ConnectionId> {
        match team {
            Team::A => self.player_a(),
            Team::B => self.player_b(),
        }
    }

    /// Both seats are taken.
    pub open spec fn is_paired(self) -> bool {
        self.player_a() is Some && self.player_b() is Some
    }

    /// The pump that reads from `source` runs.
    pub open spec fn pump_runs(self, source: Team) -> bool {
        match self {
            Session::Paired { pumps, .. } => pumps == Pumps::Both || pumps == Pumps::Only(source),
            _ => false,
        }
    }

    /// The ends of the pump that reads from `source`, while that pump runs:
    /// it reads from the player seated on side `source` and writes to the
    /// player seated on the other side.
    pub open spec fn route(self, source: Team) -> Option<Route> {
        match self {
            Session::Paired { player_a, player_b, .. } => {
                if !self.pump_runs(source) {
                    None
                } else if source == Team::A {
                    Some(Route { from: player_a, to: player_b })
                } else {
                    Some(Route { from: player_b, to: player_a })
                }
            },
            _ => None,
        }
    }

    /// The seating rule. A free seat A is taken first, then a free seat B,
    /// which pairs the session and starts both pumps; with no seat free the
    /// connection is refused and nothing changes. Nor does anything change
    /// where the connection that asks for seat B is the one in seat A.
    pub open spec fn assign(self, conn: ConnectionId) -> Assigned {
        match self {
            Session::Open => Assigned {
                session: Session::Waiting { player_a: conn },
                result: Ok(AssignmentResult::AssignedAsA),
            },
            Session::Waiting { player_a } => {
                if player_a == conn {
                    Assigned { session: self, result: Err(AssignError::AlreadySeated(conn)) }
                } else {
                    Assigned {
                        session: Session::Paired { player_a, player_b: conn, pumps: Pumps::Both },
                        result: Ok(AssignmentResult::AssignedAsB(player_a)),
                    }
                }
            },
            Session::Paired { .. } => Assigned {
                session: self,
                result: Err(AssignError::SessionFull(SessionFullError { refused: conn })),
            },
        }
    }

    /// The session once the pump that reads from `source` has ended. When
    /// the other pump still runs the seats stay taken; when it has ended too
    /// the seats are cleared. A pump that does not run changes nothing.
    pub open spec fn pump_exit(self, source: Team) -> Session {
        match self {
            Session::Paired { player_a, player_b, pumps } => {
                if pumps == Pumps::Both {
                    Session::Paired { player_a, player_b, pumps: Pumps::Only(source.other()) }
                } else if pumps == Pumps::Only(source) {
                    Session::Open
                } else {
                    self
                }
            },
            _ => self,
        }
    }
}

/// Owner of the seats. The seats can be read, and changed only through
/// `assign` and `pump_finished`.
pub struct SessionManager {
    session: Session,
}

impl View for SessionManager {
    type V = Session;

    closed spec fn view(&self) -> Session {
        self.session
    }
}

impl SessionManager {
    /// A manager with both seats free.
    pub fn new() -> (manager: SessionManager)
        ensures
            manager@ == Session::Open,
    {
        SessionManager { session: Session::Open }
    }

    /// Seats `conn` by the seating rule and says where.
    ///
    /// * Seat A free: `conn` takes it; the answer is `AssignedAsA`.
    /// * Seat A taken by another connection, seat B free: `conn` takes seat
    ///   B; the answer is `AssignedAsB` with the connection in seat A, and
    ///   both pumps count as running from now on.
    /// * Both taken: the seats stay as they are; the answer is the error
    ///   `SessionFull`, with `conn` as the refused connection.
    /// * Seat A taken by `conn` itself, seat B free: the seats stay as they
    ///   are; the answer is the error `AlreadySeated`.
    pub fn assign(&mut self, conn: ConnectionId) -> (r: Result<AssignmentResult, AssignError>)
        ensures
            final(self)@ == old(self)@.assign(conn).session,
            r == old(self)@.assign(conn).result,
            r is Err <==> old(self)@.is_paired() || old(self)@.player_a() == Some(conn),
            r is Err ==> final(self)@ == old(self)@,
            r matches Err(AssignError::SessionFull(full)) ==> old(self)@.is_paired()
                && full.refused == conn,
    {
        match self.session {
            Session::Open => {
                self.session = Session::Waiting { player_a: conn };
                Ok(AssignmentResult::AssignedAsA)
            },
            Session::Waiting { player_a } => {
                if player_a == conn {
                    Err(AssignError::AlreadySeated(conn))
                } else {
                    self.session = Session::Paired { player_a, player_b: conn, pumps: Pumps::Both };
                    Ok(AssignmentResult::AssignedAsB(player_a))
                }
            },
            Session::Paired { .. } => Err(AssignError::SessionFull(SessionFullError { refused: conn })),
        }
    }

    /// Records that the pump reading from `source` has ended. Returns whether
    /// this ended the session, that is, whether the seats were cleared by it.
    pub fn pump_finished(&mut self, source: Team) -> (ended: bool)
        ensures
            final(self)@ == old(self)@.pump_exit(source),
            ended == (old(self)@.is_paired() && final(self)@ == Session::Open),
            ended == (old(self)@ matches Session::Paired { pumps, .. } && pumps == Pumps::Only(
                source,
            )),
    {
        match self.session {
            Session::Paired { player_a, player_b, pumps } => match pumps {
                Pumps::Both => {
                    self.session = Session::Paired {
                        player_a,
                        player_b,
                        pumps: Pumps::Only(source.opposite()),
                    };
                    false
                },
                Pumps::Only(running) => {
                    if running == source {
                        self.session = Session::Open;
                        true
                    } else {
                        false
                    }
                },
            },
            _ => false,
        }
    }

    /// The seats as they are now.
    pub fn session(&self) -> (session: Session)
        ensures
            session == self@,
    {
        self.session
    }

    /// The connection in seat A, if any.
    pub fn player_a(&self) -> (conn: Option<ConnectionId>)
        ensures
            conn == self@.player_a(),
    {
        match self.session {
            Session::Open => None,
            Session::Waiting { player_a } => Some(player_a),
            Session::Paired { player_a, .. } => Some(player_a),
        }
    }

    /// The connection in seat B, if any.
    pub fn player_b(&self) -> (conn: Option<ConnectionId>)
        ensures
            conn == self@.player_b(),
    {
        match self.session {
            Session::Paired { player_b, .. } => Some(player_b),
            _ => None,
        }
    }

    /// Whether both seats are taken.
    pub fn is_paired(&self) -> (paired: bool)
        ensures
            paired == self@.is_paired(),
    {
        match self.session {
            Session::Paired { .. } => true,
            _ => false,
        }
    }

    /// The ends of the pump that reads from `source`: where it reads and
    /// where it writes. `None` while that pump does not run.
    pub fn route(&self, source: Team) -> (route: Option<Route>)
        ensures
            route == self@.route(source),
            route is Some <==> self@.pump_runs(source),
            route matches Some(r) ==> self@.seat(source) == Some(r.from) && self@.seat(
                source.other(),
            ) == Some(r.to),
    {
        match self.session {
            Session::Paired { player_a, player_b, pumps } => {
                let runs = match pumps {
                    Pumps::Both => true,
                    Pumps::Only(running) => running == source,
                };
                if !runs {
                    None
                } else {
                    match source {
                        Team::A => Some(Route { from: player_a, to: player_b }),
                        Team::B => Some(Route { from: player_b, to: player_a }),
                    }
                }
            },
            _ => None,
        }
    }

    /// Whether the pump that reads from `source` runs.
    pub fn pump_runs(&self, source: Team) -> (runs: bool)
        ensures
            runs == self@.pump_runs(source),
    {
        match self.session {
            Session::Paired { pumps, .. } => match pumps {
                Pumps::Both => true,
                Pumps::Only(running) => running == source,
            },
            _ => false,
        }
    }
}

/// Assignment order is accept order: of two connections that arrive one
/// after the other at a manager with both seats free, the first is seated as
/// A and the second as B, paired with the first.
pub proof fn lemma_first_is_a_second_is_b(first: ConnectionId, second: ConnectionId)
    requires
        first != second,
    ensures
        Session::Open.assign(first).result == Ok::<AssignmentResult, AssignError>(
            AssignmentResult::AssignedAsA,
        ),
        Session::Open.assign(first).session.assign(second).result == Ok::<
            AssignmentResult,
            AssignError,
        >(AssignmentResult::AssignedAsB(first)),
        Session::Open.assign(first).session.assign(second).session == (Session::Paired {
            player_a: first,
            player_b: second,
            pumps: Pumps::Both,
        }),
{
}

/// In every session that is not yet paired, the next connection is seated
/// unless it is seated already; seat B is given only when seat A is taken,
/// and the seated player A never changes while the session lasts.
pub proof fn lemma_seats_fill_in_order(session: Session, conn: ConnectionId)
    requires
        !session.is_paired(),
        session.player_a() != Some(conn),
    ensures
        session.assign(conn).result is Ok,
        session.player_a() is None ==> session.assign(conn).result == Ok::<
            AssignmentResult,
            AssignError,
        >(AssignmentResult::AssignedAsA) && session.assign(conn).session.player_a() == Some(conn)
            && session.assign(conn).session.player_b() is None,
        session.player_a() matches Some(seated) ==> session.assign(conn).result == Ok::<
            AssignmentResult,
            AssignError,
        >(AssignmentResult::AssignedAsB(seated)) && session.assign(conn).session.player_a()
            == Some(seated) && session.assign(conn).session.player_b() == Some(conn),
{
}

/// A connection that arrives while a session is paired is refused and
/// leaves the session as it was, whichever of the pumps still run.
pub proof fn lemma_paired_session_refuses(session: Session, conn: ConnectionId)
    requires
        session.is_paired(),
    ensures
        session.assign(conn).result == Err::<AssignmentResult, AssignError>(
            AssignError::SessionFull(SessionFullError { refused: conn }),
        ),
        session.assign(conn).session == session,
{
}

/// A session joins two connections: however a session came to be paired by
/// the seating rule, the two seats hold different names, so that no route
/// leads from a connection back to itself.
pub proof fn lemma_pair_is_of_two(session: Session, conn: ConnectionId, source: Team)
    requires
        !session.is_paired(),
        session.assign(conn).session.is_paired(),
    ensures
        session.assign(conn).session.player_a() != session.assign(conn).session.player_b(),
        session.assign(conn).session.route(source) matches Some(route) && route.from != route.to,
{
}

/// A paired session lasts exactly until both of its pumps have ended: after
/// the first exit the seats are still taken, after the second they are free,
/// in whichever order the two pumps end.
pub proof fn lemma_session_ends_with_second_pump(session: Session, first: Team)
    requires
        session matches Session::Paired { pumps, .. } && pumps == Pumps::Both,
    ensures
        session.pump_exit(first).is_paired(),
        session.pump_exit(first).player_a() == session.player_a(),
        session.pump_exit(first).player_b() == session.player_b(),
        !session.pump_exit(first).pump_runs(first),
        session.pump_exit(first).pump_runs(first.other()),
        session.pump_exit(first).pump_exit(first) == session.pump_exit(first),
        session.pump_exit(first).pump_exit(first.other()) == Session::Open,
{
}

/// The two directions of a session mirror each other and stay within the
/// session: each pump reads from the player on its own side and writes to
/// the player on the other side, so what one pump reads from is what the
/// opposite pump writes to.
pub proof fn lemma_routes_mirror(session: Session, source: Team)
    requires
        session.route(source) is Some,
    ensures
        session.is_paired(),
        session.seat(source) == Some(session.route(source)->Some_0.from),
        session.seat(source.other()) == Some(session.route(source)->Some_0.to),
        session.route(source.other()) matches Some(back) ==> back.from == session.route(
            source,
        )->Some_0.to && back.to == session.route(source)->Some_0.from,
{
}

/// In every session, seat B is taken only if seat A is, and pumps run only
/// while both seats are taken; a paired session has a running pump.
pub proof fn lemma_session_shape(session: Session, side: Team)
    ensures
        session.player_b() is Some ==> session.player_a() is Some,
        session.pump_runs(side) ==> session.is_paired(),
        session.is_paired() ==> session.pump_runs(Team::A) || session.pump_runs(Team::B),
{
}

} // verus!
