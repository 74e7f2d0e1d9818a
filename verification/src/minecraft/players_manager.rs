//! The players on a Minecraft server, kept as a set by UUID, and the
//! player-change events that each change of the set gives rise to.
use vstd::prelude::*;
use vstd::string::*;

use crate::events::{CausedBy, Event, EventInner, InstanceEvent, InstanceEventInner};
use crate::minecraft::player::{MinecraftPlayer, MinecraftPlayerView};
use crate::player::{Player, PlayerView};
use crate::text::chars_eq;
use crate::types::{InstanceUuid, Snowflake};

verus! {

broadcast use vstd::seq_lib::group_seq_properties;

// ---------------------------------------------------------------------------
// The set of players, as a sequence without two players of one UUID
// ---------------------------------------------------------------------------

/// Whether no two players of `s` share a UUID.
pub open spec fn spec_unique_uuids(s: Seq<MinecraftPlayerView>) -> bool {
    forall|i: int, j: int| 0 <= i < s.len() && 0 <= j < s.len() && i != j ==> s[i].uuid != s[j].uuid
}

/// Whether a player with UUID `u` is in `s`.
pub open spec fn spec_has_uuid(s: Seq<MinecraftPlayerView>, u: Seq<char>) -> bool {
    exists|i: int| 0 <= i < s.len() && s[i].uuid == u
}

/// `s` with `p` added: unchanged when a player of the same UUID is there
/// already (that player keeps its name).
pub open spec fn spec_add(s: Seq<MinecraftPlayerView>, p: MinecraftPlayerView) -> Seq<
    MinecraftPlayerView,
> {
    if spec_has_uuid(s, p.uuid) {
        s
    } else {
        s.push(p)
    }
}

/// Whether a player's UUID is other than `u`.
pub open spec fn spec_other_uuid(u: Seq<char>) -> spec_fn(MinecraftPlayerView) -> bool {
    |q: MinecraftPlayerView| q.uuid != u
}

/// `s` without the player of UUID `u`.
pub open spec fn spec_remove(s: Seq<MinecraftPlayerView>, u: Seq<char>) -> Seq<MinecraftPlayerView> {
    s.filter(spec_other_uuid(u))
}

/// Removing a UUID that is not there changes nothing.
pub proof fn lemma_remove_absent(s: Seq<MinecraftPlayerView>, u: Seq<char>)
    requires
        !spec_has_uuid(s, u),
    ensures
        spec_remove(s, u) == s,
    decreases s.len(),
{
    reveal(Seq::filter);
    if s.len() > 0 {
        assert(!spec_has_uuid(s.drop_last(), u)) by {
            if spec_has_uuid(s.drop_last(), u) {
                let i = choose|i: int| 0 <= i < s.drop_last().len() && s.drop_last()[i].uuid == u;
                assert(s[i].uuid == u);
            }
        }
        lemma_remove_absent(s.drop_last(), u);
        assert(s.last().uuid != u) by {
            if s.last().uuid == u {
                assert(s[s.len() - 1].uuid == u);
            }
        }
        assert(s.drop_last().push(s.last()) =~= s);
    }
}

/// Whether `k` is the index of the first player of `s` named `n`.
pub open spec fn spec_first_named(s: Seq<MinecraftPlayerView>, n: Seq<char>, k: int) -> bool {
    &&& 0 <= k < s.len()
    &&& s[k].name == n
    &&& forall|j: int| 0 <= j < k ==> s[j].name != n
}

/// Whether a player of `s` is named `n`.
pub open spec fn spec_has_name(s: Seq<MinecraftPlayerView>, n: Seq<char>) -> bool {
    exists|k: int| 0 <= k < s.len() && s[k].name == n
}

/// The players of `s`, as players of any kind of instance.
pub open spec fn spec_as_players(s: Seq<MinecraftPlayerView>) -> Seq<PlayerView> {
    s.map_values(|p: MinecraftPlayerView| PlayerView::MinecraftPlayer(p))
}

/// Whether `e` is the player-change event of instance `instance` (named
/// `instance_name`) with the given list of players, players that joined and
/// players that left, caused by the instance.
pub open spec fn spec_is_player_change(
    e: Event,
    instance: Seq<char>,
    instance_name: Seq<char>,
    list: Seq<MinecraftPlayerView>,
    joined: Seq<MinecraftPlayerView>,
    left: Seq<MinecraftPlayerView>,
) -> bool {
    &&& e.details@ == Seq::<char>::empty()
    &&& match e.caused_by {
        CausedBy::Instance { instance_uuid } => instance_uuid@ == instance,
        _ => false,
    }
    &&& match e.event_inner {
        EventInner::InstanceEvent(ie) => {
            &&& ie.instance_uuid@ == instance
            &&& ie.instance_name@ == instance_name
            &&& match ie.instance_event_inner {
                InstanceEventInner::PlayerChange { player_list, players_joined, players_left } => {
                    &&& player_list.deep_view() == spec_as_players(list)
                    &&& players_joined.deep_view() == spec_as_players(joined)
                    &&& players_left.deep_view() == spec_as_players(left)
                },
                _ => false,
            }
        },
        _ => false,
    }
}

// ---------------------------------------------------------------------------
// The manager
// ---------------------------------------------------------------------------

/// The players of one instance.
pub struct PlayersManager {
    players: Vec<MinecraftPlayer>,
    instance_uuid: InstanceUuid,
}

pub struct PlayersManagerView {
    pub players: Seq<MinecraftPlayerView>,
    pub instance_uuid: Seq<char>,
}

impl View for PlayersManager {
    type V = PlayersManagerView;

    closed spec fn view(&self) -> PlayersManagerView {
        PlayersManagerView {
            players: self.players.deep_view(),
            instance_uuid: self.instance_uuid@,
        }
    }
}

fn as_players(v: &Vec<MinecraftPlayer>) -> (r: Vec<Player>)
    ensures
        r.deep_view() == spec_as_players(v.deep_view()),
{
    let mut r: Vec<Player> = Vec::new();
    let mut i: usize = 0;
    while i < v.len()
        invariant
            i <= v.len(),
            r.deep_view() == spec_as_players(v.deep_view().take(i as int)),
        decreases v.len() - i,
    {
        let ghost old_r = r.deep_view();
        let p = v[i].clone();
        assert(p@ == v.deep_view()[i as int]);
        r.push(Player::MinecraftPlayer(p));
        let ghost a = v.deep_view().take(i as int);
        assert(v.deep_view().take(i as int + 1) =~= a.push(v.deep_view()[i as int]));
        assert(r.deep_view() =~= old_r.push(PlayerView::MinecraftPlayer(v.deep_view()[i as int])));
        assert(spec_as_players(a.push(v.deep_view()[i as int])) =~= spec_as_players(a).push(
            PlayerView::MinecraftPlayer(v.deep_view()[i as int]),
        ));
        i = i + 1;
    }
    assert(v.deep_view().take(v.len() as int) =~= v.deep_view());
    r
}

fn single(p: &MinecraftPlayer) -> (r: Vec<Player>)
    ensures
        r.deep_view() == spec_as_players(seq![p@]),
{
    let mut r: Vec<Player> = Vec::new();
    r.push(Player::MinecraftPlayer(p.clone()));
    assert(r.deep_view() =~= spec_as_players(seq![p@]));
    r
}

fn no_players() -> (r: Vec<Player>)
    ensures
        r.deep_view() == spec_as_players(Seq::empty()),
{
    let r: Vec<Player> = Vec::new();
    assert(r.deep_view() =~= spec_as_players(Seq::empty()));
    r
}

impl PlayersManager {
    #[verifier::type_invariant]
    spec fn inv(self) -> bool {
        spec_unique_uuids(self.players.deep_view())
    }

    /// The player set of an instance, empty at first.
    pub fn new(instance_uuid: InstanceUuid) -> (m: PlayersManager)
        ensures
            m@.players == Seq::<MinecraftPlayerView>::empty(),
            m@.instance_uuid == instance_uuid@,
            spec_unique_uuids(m@.players),
    {
        let m = PlayersManager { players: Vec::new(), instance_uuid };
        assert(m.players.deep_view() =~= Seq::<MinecraftPlayerView>::empty());
        m
    }

    /// The players, in the order they joined.
    pub fn players(&self) -> (r: Vec<Player>)
        ensures
            r.deep_view() == spec_as_players(self@.players),
    {
        as_players(&self.players)
    }

    fn player_change(
        &self,
        instance_name: String,
        player_list: Vec<Player>,
        players_joined: Vec<Player>,
        players_left: Vec<Player>,
    ) -> (e: Event)
        ensures
            e.details@ == Seq::<char>::empty(),
            e.caused_by == (CausedBy::Instance { instance_uuid: self.instance_uuid }),
            e.event_inner == EventInner::InstanceEvent(
                InstanceEvent {
                    instance_uuid: self.instance_uuid,
                    instance_name,
                    instance_event_inner: InstanceEventInner::PlayerChange {
                        player_list,
                        players_joined,
                        players_left,
                    },
                },
            ),
    {
        Event {
            event_inner: EventInner::InstanceEvent(
                InstanceEvent {
                    instance_uuid: self.instance_uuid.clone(),
                    instance_name,
                    instance_event_inner: InstanceEventInner::PlayerChange {
                        player_list,
                        players_joined,
                        players_left,
                    },
                },
            ),
            details: String::new(),
            snowflake: Snowflake::default(),
            caused_by: CausedBy::Instance { instance_uuid: self.instance_uuid.clone() },
        }
    }

    fn index_of_uuid(&self, uuid: &String) -> (r: Option<usize>)
        ensures
            match r {
                Some(i) => i < self@.players.len() && self@.players[i as int].uuid == uuid@,
                None => !spec_has_uuid(self@.players, uuid@),
            },
    {
        let ghost s = self.players.deep_view();
        let u = crate::text::str_chars(uuid.as_str());
        let mut i: usize = 0;
        while i < self.players.len()
            invariant
                s == self.players.deep_view(),
                u@ == uuid@,
                i <= self.players.len(),
                forall|j: int| 0 <= j < i ==> s[j].uuid != uuid@,
            decreases self.players.len() - i,
        {
            let c = crate::text::str_chars(self.players[i].uuid.as_str());
            if chars_eq(c.as_slice(), u.as_slice()) {
                return Some(i);
            }
            i = i + 1;
        }
        proof {
            use_type_invariant(&*self);
        }
        None
    }

    /// Adds a player (a player of the same UUID stays as it is) and gives
    /// the player-change event: the players now, the player that joined, no
    /// player that left.
    pub fn add_player(&mut self, player: MinecraftPlayer, instance_name: String) -> (e: Event)
        ensures
            final(self)@.players == spec_add(old(self)@.players, player@),
            spec_unique_uuids(final(self)@.players),
            final(self)@.instance_uuid == old(self)@.instance_uuid,
            spec_is_player_change(
                e,
                old(self)@.instance_uuid,
                instance_name@,
                spec_add(old(self)@.players, player@),
                seq![player@],
                Seq::empty(),
            ),
    {
        proof {
            use_type_invariant(&*self);
        }
        let ghost old_players = self.players.deep_view();
        let found = self.index_of_uuid(&player.uuid);
        if found.is_none() {
            let mut v: Vec<MinecraftPlayer> = Vec::new();
            std::mem::swap(&mut v, &mut self.players);
            let ghost before = v.deep_view();
            v.push(player.clone());
            assert(v.deep_view() =~= before.push(player@));
            assert(spec_unique_uuids(v.deep_view())) by {
                assert forall|a: int, b: int|
                    0 <= a < v.deep_view().len() && 0 <= b < v.deep_view().len() && a
                        != b implies v.deep_view()[a].uuid != v.deep_view()[b].uuid by {
                    if a < before.len() && b < before.len() {
                        assert(v.deep_view()[a] == before[a]);
                        assert(v.deep_view()[b] == before[b]);
                    } else if a < before.len() {
                        assert(v.deep_view()[a] == before[a]);
                    } else if b < before.len() {
                        assert(v.deep_view()[b] == before[b]);
                    }
                }
            }
            self.players = v;
        }
        let joined = single(&player);
        let list = as_players(&self.players);
        let left = no_players();
        proof {
            use_type_invariant(&*self);
        }
        self.player_change(instance_name, list, joined, left)
    }

    fn remove_uuid(&mut self, uuid: &String)
        ensures
            final(self)@.players == spec_remove(old(self)@.players, uuid@),
            final(self)@.instance_uuid == old(self)@.instance_uuid,
    {
        proof {
            use_type_invariant(&*self);
        }
        let ghost s = self.players.deep_view();
        let u = crate::text::str_chars(uuid.as_str());
        let mut kept: Vec<MinecraftPlayer> = Vec::new();
        let mut i: usize = 0;
        while i < self.players.len()
            invariant
                s == self.players.deep_view(),
                spec_unique_uuids(s),
                u@ == uuid@,
                i <= self.players.len(),
                kept.deep_view() == spec_remove(s.take(i as int), uuid@),
                forall|j: int|
                    0 <= j < kept.deep_view().len() ==> exists|k: int|
                        0 <= k < i && #[trigger] kept.deep_view()[j] == s[k],
                spec_unique_uuids(kept.deep_view()),
            decreases self.players.len() - i,
        {
            let c = crate::text::str_chars(self.players[i].uuid.as_str());
            let ghost before = kept.deep_view();
            proof {
                assert(s.take(i as int + 1) =~= s.take(i as int).push(s[i as int]));
                s.take(i as int).lemma_filter_push(s[i as int], spec_other_uuid(uuid@));
            }
            if !chars_eq(c.as_slice(), u.as_slice()) {
                kept.push(self.players[i].clone());
                proof {
                    assert(kept.deep_view() =~= before.push(s[i as int]));
                    assert forall|j: int| 0 <= j < kept.deep_view().len() implies exists|k: int|
                        0 <= k < i + 1 && #[trigger] kept.deep_view()[j] == s[k] by {
                        if j < before.len() {
                            assert(kept.deep_view()[j] == before[j]);
                        } else {
                            assert(kept.deep_view()[j] == s[i as int]);
                        }
                    }
                    assert forall|a: int, b: int|
                        0 <= a < kept.deep_view().len() && 0 <= b < kept.deep_view().len() && a
                            != b implies kept.deep_view()[a].uuid != kept.deep_view()[b].uuid by {
                        if a < before.len() && b < before.len() {
                            assert(kept.deep_view()[a] == before[a]);
                            assert(kept.deep_view()[b] == before[b]);
                        } else if a < before.len() {
                            assert(kept.deep_view()[a] == before[a]);
                            let k = choose|k: int| 0 <= k < i && #[trigger] before[a] == s[k];
                            assert(kept.deep_view()[b] == s[i as int]);
                        } else if b < before.len() {
                            assert(kept.deep_view()[b] == before[b]);
                            let k = choose|k: int| 0 <= k < i && #[trigger] before[b] == s[k];
                            assert(kept.deep_view()[a] == s[i as int]);
                        }
                    }
                }
            }
            i = i + 1;
        }
        proof {
            assert(s.take(s.len() as int) =~= s);
        }
        self.players = kept;
    }

    /// Removes a player (found by UUID). When it was there, gives the
    /// player-change event: the players now, no player that joined, the given
    /// player as the one that left; else gives nothing.
    pub fn remove_player(&mut self, player: MinecraftPlayer, instance_name: String) -> (r: Option<
        Event,
    >)
        ensures
            final(self)@.players == spec_remove(old(self)@.players, player@.uuid),
            spec_unique_uuids(final(self)@.players),
            final(self)@.instance_uuid == old(self)@.instance_uuid,
            match r {
                Some(e) => spec_has_uuid(old(self)@.players, player@.uuid) && spec_is_player_change(
                    e,
                    old(self)@.instance_uuid,
                    instance_name@,
                    spec_remove(old(self)@.players, player@.uuid),
                    Seq::empty(),
                    seq![player@],
                ),
                None => !spec_has_uuid(old(self)@.players, player@.uuid),
            },
    {
        let found = self.index_of_uuid(&player.uuid);
        match found {
            Some(_) => {
                self.remove_uuid(&player.uuid);
                let joined = no_players();
                let list = as_players(&self.players);
                let left = single(&player);
                proof {
                    use_type_invariant(&*self);
                }
                Some(self.player_change(instance_name, list, joined, left))
            },
            None => {
                proof {
                    lemma_remove_absent(self@.players, player@.uuid);
                    use_type_invariant(&*self);
                }
                None
            },
        }
    }
    /// Removes the first player (in the order they joined) of the given name,
    /// as [`Self::remove_player`] does; nothing happens when no player has
    /// that name.
    pub fn remove_by_name(&mut self, player_name: &str, instance_name: String) -> (r: Option<
        Event,
    >)
        ensures
            spec_unique_uuids(final(self)@.players),
            final(self)@.instance_uuid == old(self)@.instance_uuid,
            spec_has_name(old(self)@.players, player_name@) ==> exists|k: int|
                #[trigger] spec_first_named(old(self)@.players, player_name@, k) && final(self)@.players
                    == spec_remove(old(self)@.players, old(self)@.players[k].uuid) && r is Some
                    && spec_is_player_change(
                    r->0,
                    old(self)@.instance_uuid,
                    instance_name@,
                    spec_remove(old(self)@.players, old(self)@.players[k].uuid),
                    Seq::empty(),
                    seq![old(self)@.players[k]],
                ),
            !spec_has_name(old(self)@.players, player_name@) ==> final(self)@.players == old(
                self,
            )@.players && r is None,
    {
        let ghost s = self@.players;
        let n = crate::text::str_chars(player_name);
        let mut i: usize = 0;
        while i < self.players.len()
            invariant
                s == self@.players,
                self@ == old(self)@,
                s == self.players.deep_view(),
                n@ == player_name@,
                i <= self.players.len(),
                forall|j: int| 0 <= j < i ==> s[j].name != player_name@,
            decreases self.players.len() - i,
        {
            let c = crate::text::str_chars(self.players[i].name.as_str());
            if chars_eq(c.as_slice(), n.as_slice()) {
                let player = self.players[i].clone();
                proof {
                    assert(spec_first_named(s, player_name@, i as int));
                    assert(spec_has_uuid(s, player@.uuid));
                }
                let r = self.remove_player(player, instance_name);
                return r;
            }
            i = i + 1;
        }
        proof {
            use_type_invariant(&*self);
        }
        None
    }

    /// The number of players (truncated to 32 bits).
    pub fn count(&self) -> (c: u32)
        ensures
            c == self@.players.len() as u32,
    {
        self.players.len() as u32
    }

    /// Removes every player and gives the player-change event: no players
    /// now, none that joined, all of them as the ones that left.
    pub fn clear(&mut self, instance_name: String) -> (e: Event)
        ensures
            final(self)@.players == Seq::<MinecraftPlayerView>::empty(),
            spec_unique_uuids(final(self)@.players),
            final(self)@.instance_uuid == old(self)@.instance_uuid,
            spec_is_player_change(
                e,
                old(self)@.instance_uuid,
                instance_name@,
                Seq::empty(),
                Seq::empty(),
                old(self)@.players,
            ),
    {
        let list = no_players();
        let joined = no_players();
        let left = as_players(&self.players);
        let e = self.player_change(instance_name, list, joined, left);
        self.players = Vec::new();
        assert(self.players.deep_view() =~= Seq::<MinecraftPlayerView>::empty());
        proof {
            use_type_invariant(&*self);
        }
        e
    }
}

// ---------------------------------------------------------------------------
// Laws
// ---------------------------------------------------------------------------

/// Adding a player keeps the UUIDs distinct.
pub proof fn lemma_add_keeps_unique(s: Seq<MinecraftPlayerView>, p: MinecraftPlayerView)
    requires
        spec_unique_uuids(s),
    ensures
        spec_unique_uuids(spec_add(s, p)),
{
    if !spec_has_uuid(s, p.uuid) {
        let t = s.push(p);
        assert forall|a: int, b: int|
            0 <= a < t.len() && 0 <= b < t.len() && a != b implies t[a].uuid != t[b].uuid by {
            if a < s.len() && b < s.len() {
            } else if a < s.len() {
                assert(t[a] == s[a]);
            } else if b < s.len() {
                assert(t[b] == s[b]);
            }
        }
    }
}

/// After an addition the player's UUID is there.
pub proof fn lemma_add_has(s: Seq<MinecraftPlayerView>, p: MinecraftPlayerView)
    ensures
        spec_has_uuid(spec_add(s, p), p.uuid),
        spec_add(s, p).len() == if spec_has_uuid(s, p.uuid) {
            s.len()
        } else {
            s.len() + 1
        },
{
    if !spec_has_uuid(s, p.uuid) {
        assert(s.push(p)[s.len() as int].uuid == p.uuid);
    }
}

/// Removing a UUID keeps the UUIDs distinct and leaves that UUID out.
pub proof fn lemma_remove_keeps_unique(s: Seq<MinecraftPlayerView>, u: Seq<char>)
    requires
        spec_unique_uuids(s),
    ensures
        spec_unique_uuids(spec_remove(s, u)),
        !spec_has_uuid(spec_remove(s, u), u),
    decreases s.len(),
{
    reveal(Seq::filter);
    if s.len() > 0 {
        let d = s.drop_last();
        assert forall|a: int, b: int|
            0 <= a < d.len() && 0 <= b < d.len() && a != b implies d[a].uuid != d[b].uuid by {
            assert(d[a] == s[a]);
            assert(d[b] == s[b]);
        }
        lemma_remove_keeps_unique(d, u);
        let r = spec_remove(d, u);
        if s.last().uuid != u {
            let t = r.push(s.last());
            r.lemma_filter_len(spec_other_uuid(u));
            assert forall|a: int, b: int|
                0 <= a < t.len() && 0 <= b < t.len() && a != b implies t[a].uuid != t[b].uuid by {
                if a < r.len() && b < r.len() {
                } else if a < r.len() {
                    assert(t[a] == r[a]);
                    d.lemma_filter_pred(spec_other_uuid(u), a);
                    lemma_filtered_from(d, u, a);
                } else if b < r.len() {
                    assert(t[b] == r[b]);
                    lemma_filtered_from(d, u, b);
                }
            }
            assert forall|i: int| 0 <= i < t.len() implies t[i].uuid != u by {
                if i < r.len() {
                    d.lemma_filter_pred(spec_other_uuid(u), i);
                }
            }
        }
    }
}

/// Every player left after a removal was in the sequence before, at an index
/// other than that of the last one when it is kept.
proof fn lemma_filtered_from(d: Seq<MinecraftPlayerView>, u: Seq<char>, a: int)
    requires
        0 <= a < spec_remove(d, u).len(),
    ensures
        exists|k: int| 0 <= k < d.len() && d[k] == spec_remove(d, u)[a],
{
    broadcast use Seq::lemma_filter_contains_rev;

    let r = spec_remove(d, u);
    assert(r.contains(r[a]));
}

/// Adding a player whose UUID is not there and then removing that UUID
/// gives back the players as they were.
pub proof fn lemma_add_then_remove(s: Seq<MinecraftPlayerView>, p: MinecraftPlayerView)
    requires
        !spec_has_uuid(s, p.uuid),
    ensures
        spec_remove(spec_add(s, p), p.uuid) == s,
{
    s.lemma_filter_push(p, spec_other_uuid(p.uuid));
    lemma_remove_absent(s, p.uuid);
}

} // verus!
