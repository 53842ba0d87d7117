//! Remote players known to the session: their names, spawned entities and
//! visual state.

use vstd::prelude::*;
use crate::text::{decimal, push_decimal};

use crate::assoc::{assoc_map, has_key, keys_distinct, lemma_assoc_empty, lemma_assoc_len, lemma_assoc_lookup, lemma_assoc_push, lemma_assoc_remove, lemma_assoc_update};

verus! {

/// Whole seconds without an update after which a remote player counts as
/// gone.
pub const STALE_PLAYER_SECS: u64 = 10;

/// Whether a remote player last heard from `elapsed_secs` whole seconds ago
/// is stale: more than [`STALE_PLAYER_SECS`] have passed.
pub fn is_stale_after(elapsed_secs: u64) -> (b: bool)
    ensures
        b == (elapsed_secs > STALE_PLAYER_SECS),
{
    elapsed_secs > STALE_PLAYER_SECS
}

/// What a player is doing, as shown on their avatar: the item type in hand,
/// how many items, crouching and sitting.
#[derive(Clone, Copy, PartialEq, Eq, Debug, Default, Structural)]
pub struct PlayerStateSnapshot {
    pub object_in_hand: u8,
    pub num_objects: u8,
    pub is_crouching: bool,
    pub is_sitting: bool,
}

impl PlayerStateSnapshot {
    /// Nothing in hand, standing.
    pub open spec fn spec_default() -> PlayerStateSnapshot {
        PlayerStateSnapshot { object_in_hand: 0, num_objects: 0, is_crouching: false, is_sitting: false }
    }

    /// Nothing in hand, standing.
    pub fn idle() -> (s: PlayerStateSnapshot)
        ensures
            s == Self::spec_default(),
    {
        PlayerStateSnapshot { object_in_hand: 0, num_objects: 0, is_crouching: false, is_sitting: false }
    }
}

/// One remote player: display name, spawned entity (if any) and visual state.
#[derive(Debug)]
pub struct PlayerRecord {
    pub name: String,
    pub entity_id: Option<u32>,
    pub player_state: PlayerStateSnapshot,
}

/// A remote player as seen by contracts: name, entity and visual state.
pub type PlayerView = (Seq<char>, Option<u32>, PlayerStateSnapshot);

/// The roster's pairs, records taken by their contents.
pub open spec fn player_pairs(s: Seq<(u64, PlayerRecord)>) -> Seq<(u64, PlayerView)> {
    s.map_values(|p: (u64, PlayerRecord)| (p.0, (p.1.name@, p.1.entity_id, p.1.player_state)))
}

/// `v` holds, in the order of `ids`, the entity of each player `ids` names,
/// and `ids` names every player that has an entity exactly once: `v` lists
/// each player's entity once.
pub open spec fn lists_entities(players: Map<u64, PlayerView>, v: Seq<u32>, ids: Seq<u64>) -> bool {
    &&& ids.no_duplicates()
    &&& v.len() == ids.len()
    &&& forall|id: u64| #[trigger] ids.contains(id) <==> players.contains_key(id) && players[id].1 is Some
    &&& forall|k: int| 0 <= k < ids.len() ==> players[ids[k]].1 == Some(#[trigger] v[k])
}

/// The remote players of the session, keyed by Steam identifier.
#[derive(Debug)]
pub struct PlayerTracker {
    players: Vec<(u64, PlayerRecord)>,
}

impl PlayerTracker {
    /// Steam identifier to player.
    pub closed spec fn players(&self) -> Map<u64, PlayerView> {
        assoc_map(player_pairs(self.players@))
    }

    /// No player appears twice.
    pub closed spec fn wf(&self) -> bool {
        keys_distinct(player_pairs(self.players@))
    }

    /// An empty roster.
    pub fn new() -> (r: PlayerTracker)
        ensures
            r.wf(),
            r.players() == Map::<u64, PlayerView>::empty(),
    {
        let r = PlayerTracker { players: Vec::new() };
        proof {
            lemma_assoc_empty(player_pairs(r.players@));
        }
        r
    }

    fn index_of(&self, steam_id: u64) -> (r: Option<usize>)
        ensures
            r matches Some(i) ==> i < self.players@.len() && self.players@[i as int].0 == steam_id,
            r is None ==> !has_key(player_pairs(self.players@), steam_id),
    {
        let mut i: usize = 0;
        while i < self.players.len()
            invariant
                i <= self.players@.len(),
                forall|j: int| 0 <= j < i ==> self.players@[j].0 != steam_id,
            decreases self.players@.len() - i,
        {
            if self.players[i].0 == steam_id {
                return Some(i);
            }
            i = i + 1;
        }
        proof {
            if has_key(player_pairs(self.players@), steam_id) {
                let j = choose|j: int|
                    0 <= j < player_pairs(self.players@).len() && player_pairs(self.players@)[j].0
                        == steam_id;
                assert(self.players@[j].0 == steam_id);
            }
        }
        None
    }

    /// Whether the player is known.
    pub fn has_player(&self, steam_id: u64) -> (b: bool)
        requires
            self.wf(),
        ensures
            b == self.players().contains_key(steam_id),
    {
        match self.index_of(steam_id) {
            Some(i) => {
                proof {
                    lemma_assoc_lookup(player_pairs(self.players@), i as int);
                }
                true
            },
            None => false,
        }
    }

    /// Number of known players.
    pub fn player_count(&self) -> (n: usize)
        requires
            self.wf(),
        ensures
            n == self.players().len(),
    {
        proof {
            lemma_assoc_len(player_pairs(self.players@));
        }
        self.players.len()
    }

    /// Adds a player with no entity and the idle state, or renames a known one.
    pub fn add_player(&mut self, steam_id: u64, name: String)
        requires
            old(self).wf(),
        ensures
            final(self).wf(),
            final(self).players() == old(self).players().insert(
                steam_id,
                if old(self).players().contains_key(steam_id) {
                    (name@, old(self).players()[steam_id].1, old(self).players()[steam_id].2)
                } else {
                    (name@, None, PlayerStateSnapshot::spec_default())
                },
            ),
    {
        let ghost s = player_pairs(self.players@);
        let ghost n = name@;
        match self.index_of(steam_id) {
            Some(i) => {
                proof {
                    lemma_assoc_lookup(s, i as int);
                }
                let entity_id = self.players[i].1.entity_id;
                let player_state = self.players[i].1.player_state;
                let ghost v = (n, entity_id, player_state);
                proof {
                    lemma_assoc_update(s, i as int, v);
                }
                self.players.set(i, (steam_id, PlayerRecord { name, entity_id, player_state }));
                proof {
                    assert(player_pairs(self.players@) =~= s.update(i as int, (steam_id, v)));
                }
            },
            None => {
                let ghost v = (n, None::<u32>, PlayerStateSnapshot::spec_default());
                proof {
                    lemma_assoc_push(s, steam_id, v);
                }
                self.players.push(
                    (steam_id, PlayerRecord { name, entity_id: None, player_state: PlayerStateSnapshot::idle() }),
                );
                proof {
                    assert(player_pairs(self.players@) =~= s.push((steam_id, v)));
                }
            },
        }
    }

    /// Removes the player, giving back the entity spawned for them, if any.
    pub fn remove_player_with_entity(&mut self, steam_id: u64) -> (r: Option<u32>)
        requires
            old(self).wf(),
        ensures
            final(self).wf(),
            final(self).players() == old(self).players().remove(steam_id),
            r == (if old(self).players().contains_key(steam_id) {
                old(self).players()[steam_id].1
            } else {
                None
            }),
    {
        let ghost s = player_pairs(self.players@);
        match self.index_of(steam_id) {
            Some(i) => {
                proof {
                    lemma_assoc_lookup(s, i as int);
                    lemma_assoc_remove(s, i as int);
                }
                let (_, rec) = self.players.remove(i);
                proof {
                    assert(player_pairs(self.players@) =~= s.remove(i as int));
                }
                rec.entity_id
            },
            None => {
                proof {
                    assert(self.players().remove(steam_id) =~= self.players());
                }
                None
            },
        }
    }

    /// Records the entity spawned for a known player; unknown players are ignored.
    pub fn set_entity_id(&mut self, steam_id: u64, entity_id: u32)
        requires
            old(self).wf(),
        ensures
            final(self).wf(),
            final(self).players() == if old(self).players().contains_key(steam_id) {
                old(self).players().insert(
                    steam_id,
                    (old(self).players()[steam_id].0, Some(entity_id), old(self).players()[steam_id].2),
                )
            } else {
                old(self).players()
            },
    {
        let ghost s = player_pairs(self.players@);
        if let Some(i) = self.index_of(steam_id) {
            proof {
                lemma_assoc_lookup(s, i as int);
            }
            let (id, rec) = self.players.remove(i);
            let rec2 = PlayerRecord { name: rec.name, entity_id: Some(entity_id), player_state: rec.player_state };
            let ghost v = (rec2.name@, Some(entity_id), rec2.player_state);
            self.players.insert(i, (id, rec2));
            proof {
                lemma_assoc_update(s, i as int, v);
                assert(player_pairs(self.players@) =~= s.update(i as int, (steam_id, v)));
            }
        }
    }

    /// The entity spawned for a player, if the player is known and has one.
    pub fn entity_of(&self, steam_id: u64) -> (r: Option<u32>)
        requires
            self.wf(),
        ensures
            r == if self.players().contains_key(steam_id) { self.players()[steam_id].1 } else { None },
    {
        match self.index_of(steam_id) {
            Some(i) => {
                proof {
                    lemma_assoc_lookup(player_pairs(self.players@), i as int);
                }
                self.players[i].1.entity_id
            },
            None => None,
        }
    }

    /// The display name of a known player.
    pub fn name_of(&self, steam_id: u64) -> (r: Option<String>)
        requires
            self.wf(),
        ensures
            r is Some <==> self.players().contains_key(steam_id),
            r matches Some(n) ==> n@ == self.players()[steam_id].0,
    {
        match self.index_of(steam_id) {
            Some(i) => {
                proof {
                    lemma_assoc_lookup(player_pairs(self.players@), i as int);
                }
                Some(self.players[i].1.name.clone())
            },
            None => None,
        }
    }

    /// Forgets the entity of a known player (its avatar is to be spawned
    /// again); unknown players are ignored.
    pub fn forget_entity(&mut self, steam_id: u64)
        requires
            old(self).wf(),
        ensures
            final(self).wf(),
            final(self).players() == if old(self).players().contains_key(steam_id) {
                old(self).players().insert(
                    steam_id,
                    (old(self).players()[steam_id].0, None::<u32>, old(self).players()[steam_id].2),
                )
            } else {
                old(self).players()
            },
    {
        let ghost s = player_pairs(self.players@);
        if let Some(i) = self.index_of(steam_id) {
            proof {
                lemma_assoc_lookup(s, i as int);
            }
            let (id, rec) = self.players.remove(i);
            let rec2 = PlayerRecord { name: rec.name, entity_id: None, player_state: rec.player_state };
            let ghost v = (rec2.name@, None::<u32>, rec2.player_state);
            self.players.insert(i, (id, rec2));
            proof {
                lemma_assoc_update(s, i as int, v);
                assert(player_pairs(self.players@) =~= s.update(i as int, (steam_id, v)));
            }
        }
    }

    /// Forgets every player's entity (the avatars of a scene that was left),
    /// keeping names and visual states.
    pub fn clear_entity_ids(&mut self)
        requires
            old(self).wf(),
        ensures
            final(self).wf(),
            final(self).players().dom() == old(self).players().dom(),
            forall|id: u64| #[trigger] final(self).players().contains_key(id) ==> final(self).players()[id]
                == (old(self).players()[id].0, None::<u32>, old(self).players()[id].2),
    {
        let ghost s0 = self.players@;
        let mut i: usize = 0;
        while i < self.players.len()
            invariant
                i <= self.players@.len(),
                self.players@.len() == s0.len(),
                keys_distinct(player_pairs(s0)),
                forall|j: int| 0 <= j < s0.len() ==> (#[trigger] self.players@[j]).0 == s0[j].0
                    && self.players@[j].1.name@ == s0[j].1.name@
                    && self.players@[j].1.player_state == s0[j].1.player_state
                    && self.players@[j].1.entity_id == if j < i { None } else { s0[j].1.entity_id },
            decreases self.players@.len() - i,
        {
            let id = self.players[i].0;
            let name = self.players[i].1.name.clone();
            let st = self.players[i].1.player_state;
            self.players.set(i, (id, PlayerRecord { name, entity_id: None, player_state: st }));
            i = i + 1;
        }
        proof {
            let t = player_pairs(self.players@);
            let t0 = player_pairs(s0);
            assert forall|a: int, b: int| 0 <= a < t.len() && 0 <= b < t.len() && a != b implies t[a].0 != t[b].0 by {
                assert(t[a].0 == t0[a].0 && t[b].0 == t0[b].0);
            }
            assert forall|id: u64| has_key(t, id) <==> has_key(t0, id) by {
                if has_key(t, id) {
                    let j = choose|j: int| 0 <= j < t.len() && t[j].0 == id;
                    assert(t0[j].0 == id);
                }
                if has_key(t0, id) {
                    let j = choose|j: int| 0 <= j < t0.len() && t0[j].0 == id;
                    assert(t[j].0 == id);
                }
            }
            assert(self.players().dom() =~= old(self).players().dom());
            assert forall|id: u64| #[trigger] self.players().contains_key(id) implies self.players()[id]
                == (old(self).players()[id].0, None::<u32>, old(self).players()[id].2) by {
                let j = choose|j: int| 0 <= j < t.len() && t[j].0 == id;
                lemma_assoc_lookup(t, j);
                lemma_assoc_lookup(t0, j);
            }
        }
    }

    /// Records the visual state a known player reported; unknown players are ignored.
    pub fn set_player_state(&mut self, steam_id: u64, player_state: PlayerStateSnapshot)
        requires
            old(self).wf(),
        ensures
            final(self).wf(),
            final(self).players() == if old(self).players().contains_key(steam_id) {
                old(self).players().insert(
                    steam_id,
                    (old(self).players()[steam_id].0, old(self).players()[steam_id].1, player_state),
                )
            } else {
                old(self).players()
            },
    {
        let ghost s = player_pairs(self.players@);
        if let Some(i) = self.index_of(steam_id) {
            proof {
                lemma_assoc_lookup(s, i as int);
            }
            let (id, rec) = self.players.remove(i);
            let rec2 = PlayerRecord { name: rec.name, entity_id: rec.entity_id, player_state };
            let ghost v = (rec2.name@, rec2.entity_id, player_state);
            self.players.insert(i, (id, rec2));
            proof {
                lemma_assoc_update(s, i as int, v);
                assert(player_pairs(self.players@) =~= s.update(i as int, (steam_id, v)));
            }
        }
    }

    /// The Steam identifiers of the players, each once, without `exclude`:
    /// the recipients of a message broadcast to the room (on behalf of
    /// `exclude`, who already has it).
    pub fn broadcast_targets(&self, exclude: Option<u64>) -> (v: Vec<u64>)
        requires
            self.wf(),
        ensures
            v@.no_duplicates(),
            forall|k: int|
                0 <= k < v@.len() ==> self.players().contains_key(#[trigger] v@[k]) && exclude != Some(v@[k]),
            forall|id: u64|
                #[trigger] self.players().contains_key(id) && exclude != Some(id) ==> v@.contains(id),
    {
        let ghost s = player_pairs(self.players@);
        let mut v: Vec<u64> = Vec::new();
        let mut i: usize = 0;
        while i < self.players.len()
            invariant
                i <= self.players@.len(),
                s == player_pairs(self.players@),
                keys_distinct(s),
                v@.no_duplicates(),
                forall|k: int|
                    #![trigger v@[k]]
                    0 <= k < v@.len() ==> exists|j: int| 0 <= j < i && #[trigger] s[j].0 == v@[k] && exclude != Some(v@[k]),
                forall|j: int| 0 <= j < i && exclude != Some((#[trigger] s[j]).0) ==> v@.contains(s[j].0),
            decreases self.players@.len() - i,
        {
            let id = self.players[i].0;
            let skip = match exclude {
                Some(x) => x == id,
                None => false,
            };
            let ghost old_v = v@;
            if !skip {
                proof {
                    assert(s[i as int].0 == id);
                    assert forall|k: int| 0 <= k < old_v.len() implies old_v[k] != id by {
                        let j = choose|j: int| 0 <= j < i && #[trigger] s[j].0 == old_v[k] && exclude != Some(old_v[k]);
                        assert(v@[k] == old_v[k]);
                        assert(s[j].0 != s[i as int].0);
                    }
                }
                v.push(id);
                proof {
                    assert forall|k: int| #![trigger v@[k]] 0 <= k < v@.len() implies exists|j: int| 0 <= j < i + 1 && #[trigger] s[j].0 == v@[k] && exclude != Some(v@[k]) by {
                        if k < old_v.len() {
                            assert(v@[k] == old_v[k]);
                        } else {
                            assert(s[i as int].0 == v@[k]);
                        }
                    }
                    assert forall|j: int| 0 <= j < i + 1 && exclude != Some((#[trigger] s[j]).0) implies v@.contains(s[j].0) by {
                        if j < i {
                            let k = choose|k: int| 0 <= k < old_v.len() && old_v[k] == s[j].0;
                            assert(v@[k] == old_v[k]);
                        } else {
                            assert(v@[old_v.len() as int] == id);
                        }
                    }
                }
            } else {
                proof {
                    assert(s[i as int].0 == id);
                }
            }
            i = i + 1;
        }
        proof {
            assert forall|k: int| 0 <= k < v@.len() implies self.players().contains_key(#[trigger] v@[k]) && exclude != Some(v@[k]) by {
                let j = choose|j: int| 0 <= j < self.players@.len() && #[trigger] s[j].0 == v@[k] && exclude != Some(v@[k]);
                lemma_assoc_lookup(s, j);
            }
            assert forall|id: u64| #[trigger] self.players().contains_key(id) && exclude != Some(id) implies v@.contains(id) by {
                let j = choose|j: int| 0 <= j < s.len() && s[j].0 == id;
                assert(s[j].0 == id);
            }
        }
        v
    }

    /// Some player has entity `e`.
    pub open spec fn has_entity(&self, e: u32) -> bool {
        exists|id: u64| self.players().contains_key(id) && self.players()[id].1 == Some(e)
    }

    /// The entities spawned for the players, one per player that has one:
    /// each player with an entity contributes its entity exactly once.
    pub fn get_all_entity_ids(&self) -> (v: Vec<u32>)
        requires
            self.wf(),
        ensures
            exists|ids: Seq<u64>| #[trigger] lists_entities(self.players(), v@, ids),
            forall|i: int| 0 <= i < v@.len() ==> self.has_entity(#[trigger] v@[i]),
            forall|id: u64| #[trigger]
                self.players().contains_key(id) && self.players()[id].1 is Some ==> v@.contains(
                    self.players()[id].1.unwrap(),
                ),
    {
        let ghost s = player_pairs(self.players@);
        let mut v: Vec<u32> = Vec::new();
        let ghost mut ids: Seq<u64> = Seq::empty();
        let ghost mut js: Seq<int> = Seq::empty();
        let mut i: usize = 0;
        while i < self.players.len()
            invariant
                i <= self.players@.len(),
                s == player_pairs(self.players@),
                keys_distinct(s),
                ids.no_duplicates(),
                v@.len() == ids.len(),
                js.len() == ids.len(),
                forall|k: int|
                    0 <= k < ids.len() ==> 0 <= #[trigger] js[k] < i && s[js[k]].0 == ids[k] && s[js[k]].1.1
                        == Some(v@[k]),
                forall|j: int| 0 <= j < i && (#[trigger] s[j]).1.1 is Some ==> ids.contains(s[j].0),
            decreases self.players@.len() - i,
        {
            if let Some(e) = self.players[i].1.entity_id {
                let ghost old_ids = ids;
                let ghost old_js = js;
                let ghost old_v = v@;
                let id = self.players[i].0;
                proof {
                    assert(s[i as int].0 == id && s[i as int].1.1 == Some(e));
                    assert forall|k: int| 0 <= k < old_ids.len() implies old_ids[k] != id by {
                        assert(old_js[k] != i as int);
                        assert(s[old_js[k]].0 == old_ids[k]);
                    }
                    ids = old_ids.push(id);
                    js = old_js.push(i as int);
                    assert forall|a: int, b: int| 0 <= a < ids.len() && 0 <= b < ids.len() && a != b
                        implies ids[a] != ids[b] by {
                        if a < old_ids.len() && b < old_ids.len() {
                            assert(old_ids[a] != old_ids[b]);
                        }
                    }
                }
                v.push(e);
                proof {
                    assert forall|k: int| 0 <= k < ids.len() implies 0 <= #[trigger] js[k] < i + 1
                        && s[js[k]].0 == ids[k] && s[js[k]].1.1 == Some(v@[k]) by {
                        if k < old_ids.len() {
                            assert(ids[k] == old_ids[k] && v@[k] == old_v[k] && js[k] == old_js[k]);
                        }
                    }
                    assert forall|j: int| 0 <= j < i + 1 && (#[trigger] s[j]).1.1 is Some implies ids.contains(s[j].0) by {
                        if j < i {
                            let k = choose|k: int| 0 <= k < old_ids.len() && old_ids[k] == s[j].0;
                            assert(ids[k] == s[j].0);
                        } else {
                            assert(ids[old_ids.len() as int] == s[j].0);
                        }
                    }
                }
            } else {
                proof {
                    assert(s[i as int].1.1 is None);
                }
            }
            i = i + 1;
        }
        proof {
            let p = self.players();
            assert forall|id: u64| #[trigger] ids.contains(id) <==> p.contains_key(id) && p[id].1 is Some by {
                if ids.contains(id) {
                    let k = choose|k: int| 0 <= k < ids.len() && ids[k] == id;
                    lemma_assoc_lookup(s, js[k]);
                }
                if p.contains_key(id) && p[id].1 is Some {
                    let j = choose|j: int| 0 <= j < s.len() && s[j].0 == id;
                    lemma_assoc_lookup(s, j);
                }
            }
            assert forall|k: int| 0 <= k < ids.len() implies p[ids[k]].1 == Some(#[trigger] v@[k]) by {
                assert(0 <= js[k] < s.len());
                lemma_assoc_lookup(s, js[k]);
            }
            assert(lists_entities(p, v@, ids));
            assert forall|k: int| 0 <= k < v@.len() implies self.has_entity(#[trigger] v@[k]) by {
                assert(ids.contains(ids[k]));
                assert(p.contains_key(ids[k]) && p[ids[k]].1 == Some(v@[k]));
            }
            assert forall|id: u64| #[trigger] p.contains_key(id) && p[id].1 is Some implies v@.contains(
                p[id].1.unwrap(),
            ) by {
                assert(ids.contains(id));
                let k = choose|k: int| 0 <= k < ids.len() && ids[k] == id;
                assert(v@[k] == p[id].1.unwrap());
            }
        }
        v
    }
}

/// The name shown for a player whose Steam name is unknown: `"Player_"`
/// followed by the last four decimal digits of the Steam identifier
/// (without leading zeros).
pub fn fallback_name(steam_id: u64) -> (name: String)
    ensures
        name@ == "Player_"@ + decimal((steam_id % 10000) as nat),
{
    let mut name = String::new();
    proof {
        reveal_strlit("Player_");
    }
    name.append("Player_");
    let tail = (steam_id % 10000) as u32;
    push_decimal(&mut name, tail);
    name
}

} // verus!
