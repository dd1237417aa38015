//! Login handling of the game server: the server list, the character list
//! and entering the world.
use vstd::prelude::*;
use crate::protocol::{
    AuthRequest, CharList, CharListView, CharacterInfo, CharacterInfoView, CharacterSlot,
    CharacterSlotView, EndpointDesc, EndpointDescView, EnterWorldRequest, EnterWorldResponse,
    ItemDesc, ItemDescView, ServerDesc, ServerDescView, ServerList, ServerListView,
    TimeSyncResponse,
};
use crate::rqode_binrw::{
    BodyParam, InvSlot, RBool, RBytes, RString, RVec, U8, U16, U32, U64, opt_view,
};
use crate::server_db::{CharacterBundle, CharacterBundleView, Database, mock_account, mock_character, default_body};
use crate::server_state::{random_session_key,
    ConnectionInfo, MessageForShard, State, StateError, chardata_view, sessions_view,
};
use crate::text::strip_nul;

verus! {

broadcast use vstd::std_specs::hash::group_hash_axioms;

/// An item of the starter pack: one of `id`, worn at equipment index
/// `idx`.
pub open spec fn starter_item(idx: u8, id: u32) -> ItemDescView {
    ItemDescView {
        slot: InvSlot { idx, unk1: 0, tab: 0, inv: 1 },
        id: U32(id),
        count: U16(1),
        flags: U32(0),
        unk5: None,
        unk6: None,
        ext: None,
    }
}

/// The starter pack: chest armor 5143, right-hand weapon 309 and left-hand
/// weapon 2244.
pub open spec fn starter_pack_model() -> Seq<ItemDescView> {
    seq![starter_item(3, 5143), starter_item(4, 309), starter_item(5, 2244)]
}

fn worn_item(idx: u8, id: u32) -> (r: ItemDesc)
    ensures
        r@ == starter_item(idx, id),
{
    ItemDesc {
        slot: InvSlot { idx, unk1: 0, tab: 0, inv: 1 },
        id: U32(id),
        count: U16(1),
        flags: U32(0),
        unk5: None,
        unk6: None,
        ext: None,
    }
}

/// The items a new character starts with.
pub fn starter_pack() -> (r: Vec<ItemDesc>)
    ensures
        r@.map_values(|i: ItemDesc| i@) == starter_pack_model(),
{
    let mut v: Vec<ItemDesc> = Vec::new();
    v.push(worn_item(3, 5143));
    v.push(worn_item(4, 309));
    v.push(worn_item(5, 2244));
    assert(v@.map_values(|i: ItemDesc| i@) =~= starter_pack_model());
    v
}

/// An empty character slot.
pub open spec fn empty_slot() -> CharacterSlotView {
    CharacterSlotView { id: U32(0), info: None }
}

/// The demo character list: character 34, a level 999 thief in location
/// 25565 wearing the starter pack, then three empty slots.
pub open spec fn demo_chars() -> Seq<CharacterSlotView> {
    seq![
        CharacterSlotView {
            id: U32(34),
            info: Some(
                CharacterInfoView {
                    class: U16(4),
                    sex: RBool(0),
                    level: U16(999),
                    unk3: U32(0),
                    hp: U32(100),
                    mp: U32(100),
                    location_id: U32(25565),
                    body: default_body(),
                    name: "Аве Эрис"@.push('\0'),
                    unk9: U8(0),
                    unk10: U64(0),
                    equip: starter_pack_model(),
                },
            ),
        },
        empty_slot(),
        empty_slot(),
        empty_slot(),
    ]
}

fn empty_character_slot() -> (r: CharacterSlot)
    ensures
        r@ == empty_slot(),
{
    CharacterSlot { id: U32(0), info: None }
}

/// A demo character list.
pub fn chars() -> (r: Vec<CharacterSlot>)
    ensures
        r@.map_values(|c: CharacterSlot| c@) == demo_chars(),
{
    let equip = starter_pack();
    let info = CharacterInfo {
        class: U16(4),
        sex: RBool(0),
        level: U16(999),
        unk3: U32(0),
        hp: U32(100),
        mp: U32(100),
        location_id: U32(25565),
        body: BodyParam { haircolor: 0, unk1: 0, skin: 0, unk3: 0, unk4: 0, face: 0, unk6: 0, unk7: 0 },
        name: RString::from_text("Аве Эрис"),
        unk9: U8(0),
        unk10: U64(0),
        equip: RVec { data: equip },
    };
    let mut v: Vec<CharacterSlot> = Vec::new();
    v.push(CharacterSlot { id: U32(34), info: Some(info) });
    v.push(empty_character_slot());
    v.push(empty_character_slot());
    v.push(empty_character_slot());
    assert(v@.map_values(|c: CharacterSlot| c@) =~= demo_chars());
    v
}

/// The server list sent in answer to a login: one server, 4 "Eris Order",
/// reachable at 224.53.9.37:4254, with the session key as `xkey1`, the
/// time of day and the client's counter echoed.
pub open spec fn auth_server_list(session: u64, unixtime: u64, rdtsc: U64) -> ServerListView {
    ServerListView {
        servers: seq![ServerDescView { id: U16(4), name: "Eris Order"@.push('\0'), unk1: U32(2) }],
        unk1: seq![U16(4), U16(6), U16(5), U16(0), U16(6), U16(0), U16(7), U16(0), U16(8), U16(0)],
        unk2: seq![U16(0), U16(10), U16(0), U16(11), U16(0), U16(12), U16(9), U16(51), U16(0)],
        endpoints: seq![
            EndpointDescView {
                server_id: U16(4),
                ip: U32(0xE035_0925),
                port: U16(4254),
                unk3: U16(18),
            },
        ],
        unk4: U32(0),
        unk5: RBool(0),
        unk6: U32(0),
        unixtime: U64(unixtime),
        unk8: U32(579773625),
        mb_selected_server_id: U16(4),
        unk10: U64(10800),
        unk11: seq![2u8],
        unk12: U32(328192),
        xkey0: U32(10055125),
        xkey1: U64(session),
        rdtsc_echo: rdtsc,
        unk16: seq!['\0'],
    }
}

fn u16_items(a: &[u16]) -> (r: RVec<U16>)
    ensures
        r@.len() == a@.len(),
        forall|k: int| 0 <= k < a@.len() ==> r@[k] == U16(#[trigger] a@[k]),
{
    let mut v: Vec<U16> = Vec::new();
    let mut k: usize = 0;
    while k < a.len()
        invariant
            k <= a@.len(),
            v@.len() == k,
            forall|m: int| 0 <= m < k ==> v@[m] == U16(a@[m]),
        decreases a@.len() - k,
    {
        v.push(U16(a[k]));
        k = k + 1;
    }
    RVec { data: v }
}

/// Builds the server list for a login.
fn build_server_list(session: u64, unixtime: u64, rdtsc: U64) -> (r: ServerList)
    ensures
        r@ == auth_server_list(session, unixtime, rdtsc),
{
    let mut servers: Vec<ServerDesc> = Vec::new();
    servers.push(ServerDesc { id: U16(4), name: RString::from_text("Eris Order"), unk1: U32(2) });
    let mut endpoints: Vec<EndpointDesc> = Vec::new();
    endpoints.push(EndpointDesc { server_id: U16(4), ip: U32(0xE035_0925), port: U16(4254), unk3: U16(18) });
    let a1: [u16; 10] = [4, 6, 5, 0, 6, 0, 7, 0, 8, 0];
    let a2: [u16; 9] = [0, 10, 0, 11, 0, 12, 9, 51, 0];
    let b: [u8; 1] = [2];
    let r = ServerList {
        servers: RVec { data: servers },
        unk1: u16_items(a1.as_slice()),
        unk2: u16_items(a2.as_slice()),
        endpoints: RVec { data: endpoints },
        unk4: U32(0),
        unk5: RBool(0),
        unk6: U32(0),
        unixtime: U64(unixtime),
        unk8: U32(579773625),
        mb_selected_server_id: U16(4),
        unk10: U64(10800),
        unk11: RBytes::from_slice(b.as_slice()),
        unk12: U32(328192),
        xkey0: U32(10055125),
        xkey1: U64(session),
        rdtsc_echo: rdtsc,
        unk16: RString::empty(),
    };
    let ghost m = auth_server_list(session, unixtime, rdtsc);
    assert(r@.servers =~= m.servers);
    assert(r@.unk1 =~= m.unk1);
    assert(r@.unk2 =~= m.unk2);
    assert(r@.endpoints =~= m.endpoints);
    assert(r@.unk11 =~= m.unk11);
    r
}

/// What logging in does: a session key is kept for the account name
/// (without its NUL terminator) and answered with the server list that
/// carries it.
pub open spec fn auth_outcome(s0: State, s1: State, i0: ConnectionInfo, i1: ConnectionInfo, p: AuthRequest, r: Result<ServerList, StateError>) -> bool {
    &&& (i1.character_id == i0.character_id)
    &&& (i1.shard_id == i0.shard_id)
    &&& (s1.chardata@ == s0.chardata@)
    &&& (s1.shards@ == s0.shards@)
    &&& (s1.players@ == s0.players@)
    &&& (s1.outbox@ == s0.outbox@)
    &&& (i1.session is Some)
    &&& sessions_view(s1.sessions@) == sessions_view(s0.sessions@).insert(
        i1.session.unwrap(),
        strip_nul(p.account_id@),
    )
    &&& (r matches Ok(list) && list@ == auth_server_list(i1.session.unwrap(), list@.unixtime.0, p.rdtsc))
}

/// What the time sync does: the client's `xkey1` becomes the session key;
/// the session's account lists its characters, which are loaded.
pub open spec fn charlist_outcome(s0: State, s1: State, i0: ConnectionInfo, i1: ConnectionInfo, req: TimeSyncResponse, r: Result<CharList, StateError>) -> bool {
    &&& (i1.session == Some(req.xkey1.0))
    &&& (i1.character_id == i0.character_id)
    &&& (i1.shard_id == i0.shard_id)
    &&& (s1.sessions@ == s0.sessions@)
    &&& (s1.shards@ == s0.shards@)
    &&& (s1.players@ == s0.players@)
    &&& (s1.outbox@ == s0.outbox@)
    &&& (match sessions_view(s0.sessions@).get(req.xkey1.0) {
        None => r matches Err(StateError::NoSession(s)) && s == req.xkey1.0
            && s1.chardata@ == s0.chardata@,
        Some(account) => match mock_account(account) {
            None => r matches Err(StateError::NoUser(a)) && a@ == account
                && s1.chardata@ == s0.chardata@,
            Some(ids) => {
                &&& r matches Ok(list) && list@ == char_list_of(req.xkey0, req.rdtsc, ids)
                &&& chardata_view(s1.chardata@) == load_all(
                    chardata_view(s0.chardata@),
                    ids,
                )
            },
        }
    })
}

/// What entering the world does: the chosen character of the session's
/// account gets a message channel, its location becomes the connection's,
/// and the location is told that the player enters; an empty slot is
/// answered with code 1.
pub open spec fn enter_world_outcome(s0: State, s1: State, i0: ConnectionInfo, i1: ConnectionInfo, p: EnterWorldRequest, r: Result<EnterWorldResponse, StateError>) -> bool {
    &&& (i1.session == i0.session)
    &&& (s1.sessions@ == s0.sessions@)
    &&& (s1.chardata@ == s0.chardata@)
    &&& (s1.shards@ == s0.shards@)
    &&& (match i0.session {
        None => r matches Err(StateError::NoSessionYet) && i1 == i0
            && s1.players@ == s0.players@
            && s1.outbox@ == s0.outbox@,
        Some(s) => match sessions_view(s0.sessions@).get(s) {
            None => r matches Err(StateError::NoSession(x)) && x == s && i1 == i0
                && s1.players@ == s0.players@
                && s1.outbox@ == s0.outbox@,
            Some(account) => match mock_account(account) {
                None => r matches Err(StateError::NoUser(a)) && a@ == account
                    && i1 == i0
                    && s1.players@ == s0.players@
                    && s1.outbox@ == s0.outbox@,
                Some(ids) => if p.char_idx.0 < ids.len() && ids[p.char_idx.0 as int] != 0 {
                    let id = ids[p.char_idx.0 as int];
                    &&& i1.character_id == Some(id)
                    &&& s1.players@.to_set() == s0.players@.to_set().insert(id)
                    &&& match chardata_view(s0.chardata@).get(id) {
                        None => r matches Err(StateError::CharacterNotLoaded(x)) && x == id
                            && i1.shard_id == i0.shard_id
                            && s1.outbox@ == s0.outbox@,
                        Some(c) => {
                            let shard = c.char.location;
                            &&& i1.shard_id == Some(shard)
                            &&& if s0.shards@.contains(shard) {
                                &&& r matches Ok(resp) && resp.unk == U16(0)
                                &&& s1.outbox@.drop_last() == s0.outbox@
                                &&& s1.outbox@.len() == s0.outbox@.len() + 1
                                &&& s1.outbox@.last().shard == shard
                                &&& s1.outbox@.last().msg matches MessageForShard::PlayerEnter { id: x }
                                &&& x == id
                            } else {
                                r matches Err(StateError::NoSuchShard(x)) && x == shard
                                    && s1.outbox@ == s0.outbox@
                            }
                        },
                    }
                } else {
                    r matches Ok(resp) && resp.unk == U16(1) && i1 == i0
                        && s1.players@ == s0.players@
                        && s1.outbox@ == s0.outbox@
                },
            },
        }
    })
}

impl State {
    /// Logs a client in: a fresh random session key is kept for the
    /// account and answered with the server list.
    pub fn handle_auth_request(&mut self, info: &mut ConnectionInfo, p: AuthRequest) -> (r: Result<ServerList, StateError>)
        ensures
            auth_outcome(*old(self), *final(self), *old(info), *final(info), p, r),

    {
        let session = random_session_key();
        info.session = Some(session);
        let account = p.account_id.into_string();
        let ghost acct = account@;
        self.sessions.insert(session, account);
        assert(sessions_view(self.sessions@) =~= sessions_view(old(self).sessions@).insert(session, acct));
        let unixtime = crate::server_state::unix_time();
        let list = build_server_list(session, unixtime, p.rdtsc);
        assert(list@ == auth_server_list(info.session.unwrap(), unixtime, p.rdtsc));
        Ok(list)
    }
}

/// The character-list entry of a loaded character: class, sex, level,
/// location, appearance and name, with zero hit points and mana and no
/// equipment shown.
pub open spec fn char_info_of(c: CharacterBundleView) -> CharacterInfoView {
    CharacterInfoView {
        class: U16(c.char.class),
        sex: RBool(if c.char.sex { 1 } else { 0 }),
        level: U16(c.char.level),
        unk3: U32(0),
        hp: U32(0),
        mp: U32(0),
        location_id: U32(c.char.location),
        body: c.char.body,
        name: c.char.name.push('\0'),
        unk9: U8(0),
        unk10: U64(0),
        equip: Seq::empty(),
    }
}

/// The 52 character slots of a list: the account's characters first (as
/// many as fit), then empty slots.
pub open spec fn listed_slots(ids: Seq<u32>) -> Seq<CharacterSlotView> {
    Seq::new(
        52,
        |k: int|
            if k < ids.len() {
                CharacterSlotView { id: U32(ids[k]), info: Some(char_info_of(mock_character(ids[k]).unwrap())) }
            } else {
                empty_slot()
            },
    )
}

/// The character list sent in answer to the time sync: the account's
/// characters, the client's key and counter echoed.
pub open spec fn char_list_of(xkey0: U32, rdtsc: U64, ids: Seq<u32>) -> CharListView {
    CharListView {
        xkey0,
        unk1: U64(10800),
        unk2: U32(0),
        some_flags: U32(512),
        unk4: U32(0),
        rdtsc_echo: rdtsc,
        unk5: seq!['\0'],
        unk6: U32(0),
        chars: listed_slots(ids),
    }
}

/// The loaded characters after loading each of `ids` in turn.
pub open spec fn load_all(m: Map<u32, CharacterBundleView>, ids: Seq<u32>) -> Map<u32, CharacterBundleView>
    decreases ids.len(),
{
    if ids.len() == 0 {
        m
    } else {
        load_all(m, ids.drop_last()).insert(ids.last(), mock_character(ids.last()).unwrap())
    }
}

/// Every character of every account is in the store.
pub proof fn lemma_account_characters_stored(account: Seq<char>, k: int)
    requires
        mock_account(account) is Some,
        0 <= k < mock_account(account).unwrap().len(),
    ensures
        mock_character(mock_account(account).unwrap()[k]) is Some,
{
}

fn slot_of(id: u32, c: &CharacterBundle) -> (r: CharacterSlot)
    ensures
        r@ == (CharacterSlotView { id: U32(id), info: Some(char_info_of(c@)) }),
{
    let name = RString::from_text(c.char.name.as_str());
    let equip: RVec<ItemDesc> = RVec { data: Vec::new() };
    assert(equip@ =~= Seq::<ItemDescView>::empty());
    let r = CharacterSlot {
        id: U32(id),
        info: Some(
            CharacterInfo {
                class: U16(c.char.class),
                sex: RBool(if c.char.sex { 1 } else { 0 }),
                level: U16(c.char.level),
                unk3: U32(0),
                hp: U32(0),
                mp: U32(0),
                location_id: U32(c.char.location),
                body: c.char.body,
                name,
                unk9: U8(0),
                unk10: U64(0),
                equip,
            },
        ),
    };
    assert(r@.info.unwrap() =~= char_info_of(c@));
    r
}

impl State {
    /// Answers the time sync with the character list of the session's
    /// account (the session key is the client's `xkey1`), loading each
    /// listed character.
    pub fn handle_charlist_req(&mut self, info: &mut ConnectionInfo, req: TimeSyncResponse) -> (r: Result<CharList, StateError>)
        ensures
            charlist_outcome(*old(self), *final(self), *old(info), *final(info), req, r),

    {
        let session = req.xkey1.0;
        info.session = Some(session);
        let account = match self.sessions.get(&session) {
            Some(a) => a.clone(),
            None => {
                return Err(StateError::NoSession(session));
            },
        };
        let ids = match self.db.get_characters(account.as_str()) {
            Ok(Some(ids)) => ids,
            Ok(None) => {
                return Err(StateError::NoUser(account));
            },
            Err(e) => {
                return Err(StateError::Db(e));
            },
        };
        let ghost acct = account@;
        let n: usize = if ids.len() < 52 {
            ids.len()
        } else {
            52
        };
        assert(ids@.len() <= 52);
        let mut chars: Vec<CharacterSlot> = Vec::new();
        let mut k: usize = 0;
        while k < n
            invariant
                k <= n,
                n == ids@.len(),
                mock_account(acct) == Some(ids@),
                chars@.len() == k,
                forall|m: int| 0 <= m < k ==> #[trigger] chars@[m]@ == listed_slots(ids@)[m],
                chardata_view(self.chardata@) == load_all(chardata_view(old(self).chardata@), ids@.subrange(0, k as int)),
                self.sessions@ == old(self).sessions@,
                self.shards@ == old(self).shards@,
                self.players@ == old(self).players@,
                self.outbox@ == old(self).outbox@,
            decreases n - k,
        {
            let id = ids[k];
            proof {
                lemma_account_characters_stored(acct, k as int);
            }
            match self.load_char_from_db(id) {
                Ok(()) => {},
                Err(e) => {
                    return Err(e);
                },
            }
            proof {
                assert(ids@.subrange(0, k + 1).drop_last() =~= ids@.subrange(0, k as int));
                assert(chardata_view(self.chardata@).dom().contains(id));
                assert(self.chardata@.dom().contains(id));
            }
            let slot = match self.chardata.get(&id) {
                Some(c) => slot_of(id, c),
                None => {
                    return Err(StateError::CharacterNotLoaded(id));
                },
            };
            proof {
                assert(chardata_view(self.chardata@)[id] == mock_character(id).unwrap());
                assert(self.chardata@[id]@ == mock_character(id).unwrap());
                assert(slot@ == listed_slots(ids@)[k as int]);
            }
            let ghost before = chars@;
            chars.push(slot);
            assert(forall|m: int| 0 <= m < k ==> chars@[m] == before[m]);
            k = k + 1;
        }
        while k < 52
            invariant
                n <= k <= 52,
                n == ids@.len(),
                chars@.len() == k,
                forall|m: int| 0 <= m < k ==> #[trigger] chars@[m]@ == listed_slots(ids@)[m],
            decreases 52 - k,
        {
            chars.push(empty_character_slot());
            k = k + 1;
        }
        let list = CharList {
            xkey0: req.xkey0,
            unk1: U64(10800),
            unk2: U32(0),
            some_flags: U32(512),
            unk4: U32(0),
            rdtsc_echo: req.rdtsc,
            unk5: RString::empty(),
            unk6: U32(0),
            chars: RVec { data: chars },
        };
        assert(list@.chars =~= listed_slots(ids@));
        assert(ids@.subrange(0, n as int) =~= ids@);
        Ok(list)
    }

    /// Enters the world with the chosen character of the session's account:
    /// the character gets a message channel, its location becomes the
    /// connection's, and the location is told that the player enters. A
    /// chosen slot without a character is answered with code 1.
    pub fn handle_enter_world_req(&mut self, info: &mut ConnectionInfo, p: EnterWorldRequest) -> (r: Result<EnterWorldResponse, StateError>)
        ensures
            enter_world_outcome(*old(self), *final(self), *old(info), *final(info), p, r),

    {
        let session = match info.session {
            Some(s) => s,
            None => {
                return Err(StateError::NoSessionYet);
            },
        };
        let account = match self.sessions.get(&session) {
            Some(a) => a.clone(),
            None => {
                return Err(StateError::NoSession(session));
            },
        };
        let ids = match self.db.get_characters(account.as_str()) {
            Ok(Some(ids)) => ids,
            Ok(None) => {
                return Err(StateError::NoUser(account));
            },
            Err(e) => {
                return Err(StateError::Db(e));
            },
        };
        let idx = p.char_idx.0 as usize;
        if idx < ids.len() && ids[idx] != 0 {
            let id = ids[idx];
            info.character_id = Some(id);
            if !crate::server_state::seq_has(&self.players, id) {
                self.players.push(id);
                assert forall|x: u32| #[trigger] self.players@.contains(x) <==> old(self).players@.contains(x) || x == id by {
                    if self.players@.contains(x) {
                        let j = choose|j: int| 0 <= j < self.players@.len() && self.players@[j] == x;
                        if j < old(self).players@.len() {
                            assert(old(self).players@[j] == x);
                        }
                    }
                    if old(self).players@.contains(x) {
                        let j = choose|j: int| 0 <= j < old(self).players@.len() && old(self).players@[j] == x;
                        assert(self.players@[j] == x);
                    }
                    if x == id {
                        assert(self.players@[self.players@.len() - 1] == id);
                    }
                }
            }
            assert(self.players@.to_set() =~= old(self).players@.to_set().insert(id));
            let shard = match self.chardata.get(&id) {
                Some(c) => c.char.location,
                None => {
                    return Err(StateError::CharacterNotLoaded(id));
                },
            };
            info.shard_id = Some(shard);
            self.send_msg_to_shard(info, shard, MessageForShard::PlayerEnter { id })?;
            Ok(EnterWorldResponse { unk: U16(0) })
        } else {
            Ok(EnterWorldResponse { unk: U16(1) })
        }
    }
}

} // verus!
