//! The registry: which packet kind an id stands for in a direction and a
//! phase, and which kinds have a decoder.

use vstd::prelude::*;
use vstd::string::StringExecFns;
use crate::parsable::{Decoded, Parsable};
use crate::types::{Direction, State};

verus! {

/// The kinds of packet that are known.
#[derive(Hash, Eq, PartialEq, Debug, Clone, Copy, Structural)]
pub enum Func {
    Handshake,
    StatusResponse,
    StatusPong,
    StatusRequest,
    StatusPing,
    Disconnect,
    EncRequest,
    LoginSuccess,
    SetCompression,
    PluginRequest,
    LoginStart,
    EncResponse,
    PluginResponse,
    SpawnEntity,
    SpawnXpOrb,
    SpawnLivingEntity,
    SpawnPainting,
    SpawnPlayer,
    AckPlayerDigging,
}

impl Func {
    /// The name of the kind.
    pub open spec fn name(self) -> Seq<char> {
        match self {
            Func::Handshake => "Handshake"@,
            Func::StatusResponse => "StatusResponse"@,
            Func::StatusPong => "StatusPong"@,
            Func::StatusRequest => "StatusRequest"@,
            Func::StatusPing => "StatusPing"@,
            Func::Disconnect => "Disconnect"@,
            Func::EncRequest => "EncRequest"@,
            Func::LoginSuccess => "LoginSuccess"@,
            Func::SetCompression => "SetCompression"@,
            Func::PluginRequest => "PluginRequest"@,
            Func::LoginStart => "LoginStart"@,
            Func::EncResponse => "EncResponse"@,
            Func::PluginResponse => "PluginResponse"@,
            Func::SpawnEntity => "SpawnEntity"@,
            Func::SpawnXpOrb => "SpawnXpOrb"@,
            Func::SpawnLivingEntity => "SpawnLivingEntity"@,
            Func::SpawnPainting => "SpawnPainting"@,
            Func::SpawnPlayer => "SpawnPlayer"@,
            Func::AckPlayerDigging => "AckPlayerDigging"@,
        }
    }

    /// The name of the kind, as text.
    pub fn to_string(&self) -> (r: String)
        ensures
            r@ == self.name(),
    {
        match self {
            Func::Handshake => String::from_str("Handshake"),
            Func::StatusResponse => String::from_str("StatusResponse"),
            Func::StatusPong => String::from_str("StatusPong"),
            Func::StatusRequest => String::from_str("StatusRequest"),
            Func::StatusPing => String::from_str("StatusPing"),
            Func::Disconnect => String::from_str("Disconnect"),
            Func::EncRequest => String::from_str("EncRequest"),
            Func::LoginSuccess => String::from_str("LoginSuccess"),
            Func::SetCompression => String::from_str("SetCompression"),
            Func::PluginRequest => String::from_str("PluginRequest"),
            Func::LoginStart => String::from_str("LoginStart"),
            Func::EncResponse => String::from_str("EncResponse"),
            Func::PluginResponse => String::from_str("PluginResponse"),
            Func::SpawnEntity => String::from_str("SpawnEntity"),
            Func::SpawnXpOrb => String::from_str("SpawnXpOrb"),
            Func::SpawnLivingEntity => String::from_str("SpawnLivingEntity"),
            Func::SpawnPainting => String::from_str("SpawnPainting"),
            Func::SpawnPlayer => String::from_str("SpawnPlayer"),
            Func::AckPlayerDigging => String::from_str("AckPlayerDigging"),
        }
    }
}

/// One line of the table: in this direction and phase, this id is that kind.
#[derive(Clone, Copy, Debug, PartialEq, Eq, Structural)]
pub struct Route {
    pub direction: Direction,
    pub state: State,
    pub id: i32,
    pub kind: Func,
}

/// The kind that the first matching line of `routes` gives.
pub open spec fn find(routes: Seq<Route>, direction: Direction, state: State, pid: i32) -> Option<
    Func,
>
    decreases routes.len(),
{
    if routes.len() == 0 {
        None
    } else if routes[0].direction == direction && routes[0].state == state && routes[0].id
        == pid {
        Some(routes[0].kind)
    } else {
        find(routes.drop_first(), direction, state, pid)
    }
}

/// The table of the packets that are decoded.
pub open spec fn table() -> Seq<Route> {
    seq![
        Route { direction: Direction::Clientbound, state: State::Status, id: 0, kind: Func::StatusResponse },
        Route { direction: Direction::Clientbound, state: State::Status, id: 1, kind: Func::StatusPong },
        Route { direction: Direction::Clientbound, state: State::Login, id: 0, kind: Func::Disconnect },
        Route { direction: Direction::Clientbound, state: State::Login, id: 1, kind: Func::EncRequest },
        Route { direction: Direction::Clientbound, state: State::Login, id: 2, kind: Func::LoginSuccess },
        Route { direction: Direction::Clientbound, state: State::Login, id: 3, kind: Func::SetCompression },
        Route { direction: Direction::Clientbound, state: State::Login, id: 4, kind: Func::PluginRequest },
        Route { direction: Direction::Clientbound, state: State::Play, id: 0, kind: Func::SpawnEntity },
        Route { direction: Direction::Clientbound, state: State::Play, id: 1, kind: Func::SpawnXpOrb },
        Route { direction: Direction::Clientbound, state: State::Play, id: 2, kind: Func::SpawnLivingEntity },
        Route { direction: Direction::Clientbound, state: State::Play, id: 3, kind: Func::SpawnPainting },
        Route { direction: Direction::Clientbound, state: State::Play, id: 4, kind: Func::SpawnPlayer },
        Route { direction: Direction::Clientbound, state: State::Play, id: 7, kind: Func::AckPlayerDigging },
        Route { direction: Direction::Serverbound, state: State::Handshaking, id: 0, kind: Func::Handshake },
        Route { direction: Direction::Serverbound, state: State::Status, id: 0, kind: Func::StatusRequest },
        Route { direction: Direction::Serverbound, state: State::Status, id: 1, kind: Func::StatusPing },
        Route { direction: Direction::Serverbound, state: State::Login, id: 0, kind: Func::LoginStart },
        Route { direction: Direction::Serverbound, state: State::Login, id: 1, kind: Func::EncResponse },
        Route { direction: Direction::Serverbound, state: State::Login, id: 2, kind: Func::PluginResponse },
    ]
}

/// Every kind, in the order in which the registry learns of them.
pub open spec fn all_kinds() -> Seq<Func> {
    seq![
        Func::Handshake,
        Func::StatusResponse,
        Func::StatusPong,
        Func::StatusRequest,
        Func::StatusPing,
        Func::Disconnect,
        Func::EncRequest,
        Func::LoginSuccess,
        Func::SetCompression,
        Func::PluginRequest,
        Func::LoginStart,
        Func::EncResponse,
        Func::PluginResponse,
        Func::SpawnEntity,
        Func::SpawnXpOrb,
        Func::SpawnLivingEntity,
        Func::SpawnPainting,
        Func::SpawnPlayer,
        Func::AckPlayerDigging,
    ]
}

/// The registry. It is built once and only read afterwards.
pub struct Functions {
    map: Vec<Route>,
    list: Vec<Func>,
}

impl Functions {
    /// The lines of the table.
    pub closed spec fn routes(&self) -> Seq<Route> {
        self.map@
    }

    /// The kinds that have a decoder.
    pub closed spec fn kinds(&self) -> Seq<Func> {
        self.list@
    }

    /// The kind that an id stands for, if the table has it.
    pub open spec fn lookup(&self, direction: Direction, state: State, pid: i32) -> Option<Func> {
        find(self.routes(), direction, state, pid)
    }

    /// The fresh packet that the registry hands out for a kind, if the kind
    /// has a decoder.
    pub open spec fn prototype(&self, id: Func) -> Option<Decoded> {
        if self.kinds().contains(id) {
            Some(Decoded::zero(id))
        } else {
            None
        }
    }

    /// A registry with the table and no decoder.
    fn new() -> (r: Self)
        ensures
            r.routes() == table(),
            r.kinds() == Seq::<Func>::empty(),
    {
        let mut map: Vec<Route> = Vec::new();
        map.push(Route { direction: Direction::Clientbound, state: State::Status, id: 0, kind: Func::StatusResponse });
        map.push(Route { direction: Direction::Clientbound, state: State::Status, id: 1, kind: Func::StatusPong });
        map.push(Route { direction: Direction::Clientbound, state: State::Login, id: 0, kind: Func::Disconnect });
        map.push(Route { direction: Direction::Clientbound, state: State::Login, id: 1, kind: Func::EncRequest });
        map.push(Route { direction: Direction::Clientbound, state: State::Login, id: 2, kind: Func::LoginSuccess });
        map.push(Route { direction: Direction::Clientbound, state: State::Login, id: 3, kind: Func::SetCompression });
        map.push(Route { direction: Direction::Clientbound, state: State::Login, id: 4, kind: Func::PluginRequest });
        map.push(Route { direction: Direction::Clientbound, state: State::Play, id: 0, kind: Func::SpawnEntity });
        map.push(Route { direction: Direction::Clientbound, state: State::Play, id: 1, kind: Func::SpawnXpOrb });
        map.push(Route { direction: Direction::Clientbound, state: State::Play, id: 2, kind: Func::SpawnLivingEntity });
        map.push(Route { direction: Direction::Clientbound, state: State::Play, id: 3, kind: Func::SpawnPainting });
        map.push(Route { direction: Direction::Clientbound, state: State::Play, id: 4, kind: Func::SpawnPlayer });
        map.push(Route { direction: Direction::Clientbound, state: State::Play, id: 7, kind: Func::AckPlayerDigging });
        map.push(Route { direction: Direction::Serverbound, state: State::Handshaking, id: 0, kind: Func::Handshake });
        map.push(Route { direction: Direction::Serverbound, state: State::Status, id: 0, kind: Func::StatusRequest });
        map.push(Route { direction: Direction::Serverbound, state: State::Status, id: 1, kind: Func::StatusPing });
        map.push(Route { direction: Direction::Serverbound, state: State::Login, id: 0, kind: Func::LoginStart });
        map.push(Route { direction: Direction::Serverbound, state: State::Login, id: 1, kind: Func::EncResponse });
        map.push(Route { direction: Direction::Serverbound, state: State::Login, id: 2, kind: Func::PluginResponse });
        Self { map, list: Vec::new() }
    }

    /// Gives the kind `id` a decoder.
    fn add(&mut self, id: Func)
        ensures
            final(self).routes() == old(self).routes(),
            final(self).kinds() == old(self).kinds().push(id),
    {
        self.list.push(id);
    }

    /// The kind that the id `pid` stands for in a direction and a phase.
    pub fn get_name(&self, direction: &Direction, state: &State, pid: &i32) -> (r: Option<&Func>)
        ensures
            match self.lookup(*direction, *state, *pid) {
                Some(kind) => r matches Some(k) && *k == kind,
                None => r is None,
            },
    {
        let mut i: usize = 0;
        proof {
            assert(self.map@.skip(0) == self.map@);
        }
        while i < self.map.len()
            invariant
                i <= self.map@.len(),
                find(self.map@, *direction, *state, *pid) == find(
                    self.map@.skip(i as int),
                    *direction,
                    *state,
                    *pid,
                ),
            decreases self.map@.len() - i,
        {
            let route = &self.map[i];
            if route.direction == *direction && route.state == *state && route.id == *pid {
                return Some(&route.kind);
            }
            proof {
                assert(self.map@.skip(i as int).drop_first() == self.map@.skip(i + 1));
            }
            i = i + 1;
        }
        None
    }

    /// A fresh packet of the kind `id`, every field at its zero value, where
    /// the kind has a decoder.
    pub fn get(&self, id: &Func) -> (r: Option<Parsable>)
        ensures
            match self.prototype(*id) {
                Some(d) => r matches Some(p) && p@ == d && p@.kind() == *id,
                None => r is None,
            },
    {
        let mut i: usize = 0;
        while i < self.list.len()
            invariant
                i <= self.list@.len(),
                forall|j: int| 0 <= j < i ==> self.list@[j] != *id,
            decreases self.list@.len() - i,
        {
            if self.list[i] == *id {
                return Some(Parsable::empty(*id));
            }
            i = i + 1;
        }
        None
    }
}

/// The registry of every packet that is decoded.
pub fn get_functions() -> (r: Functions)
    ensures
        r.routes() == table(),
        r.kinds() == all_kinds(),
{
    let mut functions = Functions::new();
    functions.add(Func::Handshake);
    functions.add(Func::StatusResponse);
    functions.add(Func::StatusPong);
    functions.add(Func::StatusRequest);
    functions.add(Func::StatusPing);
    functions.add(Func::Disconnect);
    functions.add(Func::EncRequest);
    functions.add(Func::LoginSuccess);
    functions.add(Func::SetCompression);
    functions.add(Func::PluginRequest);
    functions.add(Func::LoginStart);
    functions.add(Func::EncResponse);
    functions.add(Func::PluginResponse);
    functions.add(Func::SpawnEntity);
    functions.add(Func::SpawnXpOrb);
    functions.add(Func::SpawnLivingEntity);
    functions.add(Func::SpawnPainting);
    functions.add(Func::SpawnPlayer);
    functions.add(Func::AckPlayerDigging);
    functions
}

/// In the registry of `get_functions` every kind has a decoder.
pub proof fn every_kind_decodes(kind: Func)
    ensures
        all_kinds().contains(kind),
{
    let i: int = match kind {
        Func::Handshake => 0,
        Func::StatusResponse => 1,
        Func::StatusPong => 2,
        Func::StatusRequest => 3,
        Func::StatusPing => 4,
        Func::Disconnect => 5,
        Func::EncRequest => 6,
        Func::LoginSuccess => 7,
        Func::SetCompression => 8,
        Func::PluginRequest => 9,
        Func::LoginStart => 10,
        Func::EncResponse => 11,
        Func::PluginResponse => 12,
        Func::SpawnEntity => 13,
        Func::SpawnXpOrb => 14,
        Func::SpawnLivingEntity => 15,
        Func::SpawnPainting => 16,
        Func::SpawnPlayer => 17,
        Func::AckPlayerDigging => 18,
    };
    assert(all_kinds()[i] == kind);
}

} // verus!
