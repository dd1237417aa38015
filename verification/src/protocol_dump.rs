//! Readable text of the packet structures (see [`crate::dump`]).
use vstd::prelude::*;
use crate::dump::{
    Dump, GroupKind, deeper, deeper_level, dump_text, group_text, items_list, labelled, labelled_list, labelled_option,
    list_string, option_text, push_group, push_wrapped_one, strings_view, views_list, wrapped_one,
};
use crate::protocol::{
    AuthRequest,
    AuthRequestView,
    BattleLog,
    BattleLogView,
    BuyBack,
    BuyBackView,
    BuyItemRequest,
    BuyItemRequestView,
    CameraEffect,
    CameraEffectView,
    CharList,
    CharListView,
    CharacterInfo,
    CharacterInfoView,
    CharacterMove,
    CharacterMoveView,
    CharacterSlot,
    CharacterSlotView,
    ChatMessage,
    ChatMessageView,
    CompressedData,
    Connect,
    ConnectView,
    ConnectionError,
    ConnectionErrorView,
    Coords,
    CoordsView,
    DealtDamage,
    DealtDamageView,
    EndpointDesc,
    EndpointDescView,
    EnterWorldRequest,
    EnterWorldRequestView,
    EnterWorldResponse,
    EnterWorldResponseView,
    Entity,
    EntityAction,
    EntityActionPassive,
    EntityActionPassiveView,
    EntityActionView,
    EntityDeath,
    EntityDeathView,
    EntityKind,
    EntityKindView,
    EntityMove,
    EntityMoveView,
    EntityRemove,
    EntityRemoveView,
    EntityView,
    ExitRequest,
    ExitRequestView,
    ExitResponse,
    ExitResponseView,
    ExperienceAmount,
    ExperienceAmountView,
    Heartbeat2,
    Heartbeat2View,
    HeartbeatClient,
    HeartbeatClientView,
    HeartbeatServer,
    HeartbeatServerView,
    Inventory,
    InventoryView,
    ItemDesc,
    ItemDescExt,
    ItemDescExtView,
    ItemDescView,
    MobEntity,
    MobEntityView,
    MoveItem,
    MoveItemView,
    Packet,
    Packet04,
    Packet04View,
    Packet13,
    Packet13View,
    Packet16,
    Packet16View,
    PacketC5,
    PacketC5View,
    PacketModel,
    PickupRequest,
    PickupRequestView,
    PinResult,
    PinResultView,
    PlayerData,
    PlayerDataView,
    PlayerEntity,
    PlayerEntityView,
    PosCamera,
    PosCameraView,
    Prefixed,
    PrefixedValue,
    PrefixedValueView,
    ReceiveItem,
    ReceiveItemView,
    SellItemRequest,
    SellItemRequestView,
    SendChatMessage,
    SendChatMessageView,
    ServerDesc,
    ServerDescView,
    ServerList,
    ServerListView,
    ServerVars,
    ServerVarsView,
    ShowEmotion,
    ShowEmotionView,
    SkillCooldown,
    SkillCooldownView,
    StatUpdate,
    StatUpdateRequest,
    StatUpdateRequestView,
    StatUpdateView,
    SwitchLocation,
    SwitchLocationView,
    TimeSync,
    TimeSyncResponse,
    TimeSyncResponseView,
    TimeSyncView,
    UpdateBalance,
    UpdateBalanceView,
    UseAbility,
    UseAbilityView
};
use crate::rqode_binrw::{F32, U16, U32, U64, U8, RBool, RString, RVec, RZlib, RBytes, InvSlot, BodyParam, Op13, Op21, Op36, CurrencyData};

verus! {

/// The text of a tagged value.
pub open spec fn prefixed_value_text(v: PrefixedValueView, pretty: bool, level: nat) -> Seq<char> {
    match v {
        PrefixedValueView::Empty => "Empty"@,
        PrefixedValueView::U8(x) => wrapped_one("U8"@, U8::spec_dump(x, pretty, deeper(level)), pretty, level),
        PrefixedValueView::U16(x) => wrapped_one("U16"@, U16::spec_dump(x, pretty, deeper(level)), pretty, level),
        PrefixedValueView::F32(x) => wrapped_one("F32"@, F32::spec_dump(x, pretty, deeper(level)), pretty, level),
        PrefixedValueView::F32x2(x) => wrapped_one("F32x2"@, items_list::<F32>(x, pretty, deeper(level)), pretty, level),
    }
}

fn prefixed_value_string(v: &PrefixedValue, pretty: bool, level: usize) -> (r: String)
    ensures
        r@ == prefixed_value_text(v@, pretty, level as nat),
{
    let mut out = String::new();
    let dl = deeper_level(level);
    match v {
        PrefixedValue::Empty => out.append("Empty"),
        PrefixedValue::U8(x) => push_wrapped_one(&mut out, "U8", dump_text(x, pretty, dl), pretty, level),
        PrefixedValue::U16(x) => push_wrapped_one(&mut out, "U16", dump_text(x, pretty, dl), pretty, level),
        PrefixedValue::F32(x) => push_wrapped_one(&mut out, "F32", dump_text(x, pretty, dl), pretty, level),
        PrefixedValue::F32x2(x) => push_wrapped_one(&mut out, "F32x2", list_string(x.as_slice(), pretty, dl), pretty, level),
    }
    assert(out@ =~= prefixed_value_text(v@, pretty, level as nat));
    out
}

impl Dump for Prefixed {
    open spec fn spec_dump(v: PrefixedValueView, pretty: bool, level: nat) -> Seq<char> {
        group_text("Prefixed"@, GroupKind::Record, seq!["value: "@ + prefixed_value_text(v, pretty, deeper(level))], pretty, level)
    }

    fn dump(&self, out: &mut String, pretty: bool, level: usize) {
        let mut items: Vec<String> = Vec::new();
        let mut t = String::from_str("value: ");
        let inner = prefixed_value_string(&self.value, pretty, deeper_level(level));
        t.append(inner.as_str());
        items.push(t);
        assert(strings_view(items@) =~= seq!["value: "@ + prefixed_value_text(self@, pretty, deeper(level as nat))]);
        push_group(out, "Prefixed", GroupKind::Record, &items, pretty, level);
    }
}

/// The text of an entity's kind.
pub open spec fn entity_kind_text(v: EntityKindView, pretty: bool, level: nat) -> Seq<char> {
    match v {
        EntityKindView::Mob(x) => wrapped_one("Mob"@, MobEntity::spec_dump(x, pretty, deeper(level)), pretty, level),
        EntityKindView::Player(x) => wrapped_one("Player"@, PlayerEntity::spec_dump(x, pretty, deeper(level)), pretty, level),
        EntityKindView::UnknownOrFailed => "UnknownOrFailed"@,
    }
}

fn entity_kind_string(v: &EntityKind, pretty: bool, level: usize) -> (r: String)
    ensures
        r@ == entity_kind_text(v@, pretty, level as nat),
{
    let mut out = String::new();
    let dl = deeper_level(level);
    match v {
        EntityKind::Mob(x) => push_wrapped_one(&mut out, "Mob", dump_text(x, pretty, dl), pretty, level),
        EntityKind::Player(x) => push_wrapped_one(&mut out, "Player", dump_text(x, pretty, dl), pretty, level),
        EntityKind::UnknownOrFailed => out.append("UnknownOrFailed"),
    }
    assert(out@ =~= entity_kind_text(v@, pretty, level as nat));
    out
}

impl Dump for Entity {
    open spec fn spec_dump(v: EntityView, pretty: bool, level: nat) -> Seq<char> {
        group_text(
            "Entity"@,
            GroupKind::Record,
            seq![
                "tag: "@ + U8::spec_dump(v.tag, pretty, deeper(level)),
                "kind: "@ + entity_kind_text(v.kind, pretty, deeper(level)),
            ],
            pretty,
            level,
        )
    }

    fn dump(&self, out: &mut String, pretty: bool, level: usize) {
        let dl = deeper_level(level);
        let mut items: Vec<String> = Vec::new();
        items.push(labelled("tag: ", &self.tag, pretty, dl));
        let mut t = String::from_str("kind: ");
        let inner = entity_kind_string(&self.kind, pretty, dl);
        t.append(inner.as_str());
        items.push(t);
        assert(strings_view(items@) =~= seq![
            "tag: "@ + U8::spec_dump(self@.tag, pretty, deeper(level as nat)),
            "kind: "@ + entity_kind_text(self@.kind, pretty, deeper(level as nat)),
        ]);
        push_group(out, "Entity", GroupKind::Record, &items, pretty, level);
    }
}

impl Dump for CompressedData {
    open spec fn spec_dump(v: Seq<u8>, pretty: bool, level: nat) -> Seq<char> {
        group_text("CompressedData"@, GroupKind::Record, seq!["blob: "@ + items_list::<u8>(v, pretty, deeper(level))], pretty, level)
    }

    fn dump(&self, out: &mut String, pretty: bool, level: usize) {
        let mut items: Vec<String> = Vec::new();
        items.push(labelled_list("blob: ", self.blob.as_slice(), pretty, deeper_level(level)));
        assert(strings_view(items@) =~= seq!["blob: "@ + items_list::<u8>(self@, pretty, deeper(level as nat))]);
        push_group(out, "CompressedData", GroupKind::Record, &items, pretty, level);
    }
}

impl Dump for AuthRequest {
    open spec fn spec_dump(v: AuthRequestView, pretty: bool, level: nat) -> Seq<char> {
        group_text("AuthRequest"@, GroupKind::Record, seq!["pc_millis_shift: "@ + <U32 as Dump>::spec_dump(v.pc_millis_shift, pretty, deeper(level)), "pc_millis: "@ + <U32 as Dump>::spec_dump(v.pc_millis, pretty, deeper(level)), "auth_type: "@ + <U8 as Dump>::spec_dump(v.auth_type, pretty, deeper(level)), "account_id: "@ + <RString as Dump>::spec_dump(v.account_id, pretty, deeper(level)), "unk0: "@ + <RString as Dump>::spec_dump(v.unk0, pretty, deeper(level)), "rdtsc: "@ + <U64 as Dump>::spec_dump(v.rdtsc, pretty, deeper(level)), "sign_in_code: "@ + <RString as Dump>::spec_dump(v.sign_in_code, pretty, deeper(level)), "unk2: "@ + <RString as Dump>::spec_dump(v.unk2, pretty, deeper(level)), "unk3: "@ + <RBool as Dump>::spec_dump(v.unk3, pretty, deeper(level)), "unk4: "@ + <RBool as Dump>::spec_dump(v.unk4, pretty, deeper(level)), "unk5: "@ + <U32 as Dump>::spec_dump(v.unk5, pretty, deeper(level)), "unk6: "@ + <RVec<Op36> as Dump>::spec_dump(v.unk6, pretty, deeper(level)), "unk7: "@ + <U32 as Dump>::spec_dump(v.unk7, pretty, deeper(level)), "unk8: "@ + <U64 as Dump>::spec_dump(v.unk8, pretty, deeper(level)), "unk9: "@ + <U16 as Dump>::spec_dump(v.unk9, pretty, deeper(level)), "unk10: "@ + <RString as Dump>::spec_dump(v.unk10, pretty, deeper(level)), "unk11: "@ + <RString as Dump>::spec_dump(v.unk11, pretty, deeper(level)), "unk12: "@ + <RString as Dump>::spec_dump(v.unk12, pretty, deeper(level)), "gateway: "@ + <RString as Dump>::spec_dump(v.gateway, pretty, deeper(level))], pretty, level)
    }

    fn dump(&self, out: &mut String, pretty: bool, level: usize) {
        let dl = deeper_level(level);
        let mut items: Vec<String> = Vec::new();
        items.push(labelled("pc_millis_shift: ", &self.pc_millis_shift, pretty, dl));
        items.push(labelled("pc_millis: ", &self.pc_millis, pretty, dl));
        items.push(labelled("auth_type: ", &self.auth_type, pretty, dl));
        items.push(labelled("account_id: ", &self.account_id, pretty, dl));
        items.push(labelled("unk0: ", &self.unk0, pretty, dl));
        items.push(labelled("rdtsc: ", &self.rdtsc, pretty, dl));
        items.push(labelled("sign_in_code: ", &self.sign_in_code, pretty, dl));
        items.push(labelled("unk2: ", &self.unk2, pretty, dl));
        items.push(labelled("unk3: ", &self.unk3, pretty, dl));
        items.push(labelled("unk4: ", &self.unk4, pretty, dl));
        items.push(labelled("unk5: ", &self.unk5, pretty, dl));
        items.push(labelled("unk6: ", &self.unk6, pretty, dl));
        items.push(labelled("unk7: ", &self.unk7, pretty, dl));
        items.push(labelled("unk8: ", &self.unk8, pretty, dl));
        items.push(labelled("unk9: ", &self.unk9, pretty, dl));
        items.push(labelled("unk10: ", &self.unk10, pretty, dl));
        items.push(labelled("unk11: ", &self.unk11, pretty, dl));
        items.push(labelled("unk12: ", &self.unk12, pretty, dl));
        items.push(labelled("gateway: ", &self.gateway, pretty, dl));
        assert(strings_view(items@) =~= seq!["pc_millis_shift: "@ + <U32 as Dump>::spec_dump(self@.pc_millis_shift, pretty, deeper(level as nat)), "pc_millis: "@ + <U32 as Dump>::spec_dump(self@.pc_millis, pretty, deeper(level as nat)), "auth_type: "@ + <U8 as Dump>::spec_dump(self@.auth_type, pretty, deeper(level as nat)), "account_id: "@ + <RString as Dump>::spec_dump(self@.account_id, pretty, deeper(level as nat)), "unk0: "@ + <RString as Dump>::spec_dump(self@.unk0, pretty, deeper(level as nat)), "rdtsc: "@ + <U64 as Dump>::spec_dump(self@.rdtsc, pretty, deeper(level as nat)), "sign_in_code: "@ + <RString as Dump>::spec_dump(self@.sign_in_code, pretty, deeper(level as nat)), "unk2: "@ + <RString as Dump>::spec_dump(self@.unk2, pretty, deeper(level as nat)), "unk3: "@ + <RBool as Dump>::spec_dump(self@.unk3, pretty, deeper(level as nat)), "unk4: "@ + <RBool as Dump>::spec_dump(self@.unk4, pretty, deeper(level as nat)), "unk5: "@ + <U32 as Dump>::spec_dump(self@.unk5, pretty, deeper(level as nat)), "unk6: "@ + <RVec<Op36> as Dump>::spec_dump(self@.unk6, pretty, deeper(level as nat)), "unk7: "@ + <U32 as Dump>::spec_dump(self@.unk7, pretty, deeper(level as nat)), "unk8: "@ + <U64 as Dump>::spec_dump(self@.unk8, pretty, deeper(level as nat)), "unk9: "@ + <U16 as Dump>::spec_dump(self@.unk9, pretty, deeper(level as nat)), "unk10: "@ + <RString as Dump>::spec_dump(self@.unk10, pretty, deeper(level as nat)), "unk11: "@ + <RString as Dump>::spec_dump(self@.unk11, pretty, deeper(level as nat)), "unk12: "@ + <RString as Dump>::spec_dump(self@.unk12, pretty, deeper(level as nat)), "gateway: "@ + <RString as Dump>::spec_dump(self@.gateway, pretty, deeper(level as nat))]);
        push_group(out, "AuthRequest", GroupKind::Record, &items, pretty, level);
    }
}

impl Dump for ServerList {
    open spec fn spec_dump(v: ServerListView, pretty: bool, level: nat) -> Seq<char> {
        group_text("ServerList"@, GroupKind::Record, seq!["servers: "@ + <RVec<ServerDesc> as Dump>::spec_dump(v.servers, pretty, deeper(level)), "unk1: "@ + <RVec<U16> as Dump>::spec_dump(v.unk1, pretty, deeper(level)), "unk2: "@ + <RVec<U16> as Dump>::spec_dump(v.unk2, pretty, deeper(level)), "endpoints: "@ + <RVec<EndpointDesc> as Dump>::spec_dump(v.endpoints, pretty, deeper(level)), "unk4: "@ + <U32 as Dump>::spec_dump(v.unk4, pretty, deeper(level)), "unk5: "@ + <RBool as Dump>::spec_dump(v.unk5, pretty, deeper(level)), "unk6: "@ + <U32 as Dump>::spec_dump(v.unk6, pretty, deeper(level)), "unixtime: "@ + <U64 as Dump>::spec_dump(v.unixtime, pretty, deeper(level)), "unk8: "@ + <U32 as Dump>::spec_dump(v.unk8, pretty, deeper(level)), "mb_selected_server_id: "@ + <U16 as Dump>::spec_dump(v.mb_selected_server_id, pretty, deeper(level)), "unk10: "@ + <U64 as Dump>::spec_dump(v.unk10, pretty, deeper(level)), "unk11: "@ + <RBytes as Dump>::spec_dump(v.unk11, pretty, deeper(level)), "unk12: "@ + <U32 as Dump>::spec_dump(v.unk12, pretty, deeper(level)), "xkey0: "@ + <U32 as Dump>::spec_dump(v.xkey0, pretty, deeper(level)), "xkey1: "@ + <U64 as Dump>::spec_dump(v.xkey1, pretty, deeper(level)), "rdtsc_echo: "@ + <U64 as Dump>::spec_dump(v.rdtsc_echo, pretty, deeper(level)), "unk16: "@ + <RString as Dump>::spec_dump(v.unk16, pretty, deeper(level))], pretty, level)
    }

    fn dump(&self, out: &mut String, pretty: bool, level: usize) {
        let dl = deeper_level(level);
        let mut items: Vec<String> = Vec::new();
        items.push(labelled("servers: ", &self.servers, pretty, dl));
        items.push(labelled("unk1: ", &self.unk1, pretty, dl));
        items.push(labelled("unk2: ", &self.unk2, pretty, dl));
        items.push(labelled("endpoints: ", &self.endpoints, pretty, dl));
        items.push(labelled("unk4: ", &self.unk4, pretty, dl));
        items.push(labelled("unk5: ", &self.unk5, pretty, dl));
        items.push(labelled("unk6: ", &self.unk6, pretty, dl));
        items.push(labelled("unixtime: ", &self.unixtime, pretty, dl));
        items.push(labelled("unk8: ", &self.unk8, pretty, dl));
        items.push(labelled("mb_selected_server_id: ", &self.mb_selected_server_id, pretty, dl));
        items.push(labelled("unk10: ", &self.unk10, pretty, dl));
        items.push(labelled("unk11: ", &self.unk11, pretty, dl));
        items.push(labelled("unk12: ", &self.unk12, pretty, dl));
        items.push(labelled("xkey0: ", &self.xkey0, pretty, dl));
        items.push(labelled("xkey1: ", &self.xkey1, pretty, dl));
        items.push(labelled("rdtsc_echo: ", &self.rdtsc_echo, pretty, dl));
        items.push(labelled("unk16: ", &self.unk16, pretty, dl));
        assert(strings_view(items@) =~= seq!["servers: "@ + <RVec<ServerDesc> as Dump>::spec_dump(self@.servers, pretty, deeper(level as nat)), "unk1: "@ + <RVec<U16> as Dump>::spec_dump(self@.unk1, pretty, deeper(level as nat)), "unk2: "@ + <RVec<U16> as Dump>::spec_dump(self@.unk2, pretty, deeper(level as nat)), "endpoints: "@ + <RVec<EndpointDesc> as Dump>::spec_dump(self@.endpoints, pretty, deeper(level as nat)), "unk4: "@ + <U32 as Dump>::spec_dump(self@.unk4, pretty, deeper(level as nat)), "unk5: "@ + <RBool as Dump>::spec_dump(self@.unk5, pretty, deeper(level as nat)), "unk6: "@ + <U32 as Dump>::spec_dump(self@.unk6, pretty, deeper(level as nat)), "unixtime: "@ + <U64 as Dump>::spec_dump(self@.unixtime, pretty, deeper(level as nat)), "unk8: "@ + <U32 as Dump>::spec_dump(self@.unk8, pretty, deeper(level as nat)), "mb_selected_server_id: "@ + <U16 as Dump>::spec_dump(self@.mb_selected_server_id, pretty, deeper(level as nat)), "unk10: "@ + <U64 as Dump>::spec_dump(self@.unk10, pretty, deeper(level as nat)), "unk11: "@ + <RBytes as Dump>::spec_dump(self@.unk11, pretty, deeper(level as nat)), "unk12: "@ + <U32 as Dump>::spec_dump(self@.unk12, pretty, deeper(level as nat)), "xkey0: "@ + <U32 as Dump>::spec_dump(self@.xkey0, pretty, deeper(level as nat)), "xkey1: "@ + <U64 as Dump>::spec_dump(self@.xkey1, pretty, deeper(level as nat)), "rdtsc_echo: "@ + <U64 as Dump>::spec_dump(self@.rdtsc_echo, pretty, deeper(level as nat)), "unk16: "@ + <RString as Dump>::spec_dump(self@.unk16, pretty, deeper(level as nat))]);
        push_group(out, "ServerList", GroupKind::Record, &items, pretty, level);
    }
}

impl Dump for EndpointDesc {
    open spec fn spec_dump(v: EndpointDescView, pretty: bool, level: nat) -> Seq<char> {
        group_text("EndpointDesc"@, GroupKind::Record, seq!["server_id: "@ + <U16 as Dump>::spec_dump(v.server_id, pretty, deeper(level)), "ip: "@ + <U32 as Dump>::spec_dump(v.ip, pretty, deeper(level)), "port: "@ + <U16 as Dump>::spec_dump(v.port, pretty, deeper(level)), "unk3: "@ + <U16 as Dump>::spec_dump(v.unk3, pretty, deeper(level))], pretty, level)
    }

    fn dump(&self, out: &mut String, pretty: bool, level: usize) {
        let dl = deeper_level(level);
        let mut items: Vec<String> = Vec::new();
        items.push(labelled("server_id: ", &self.server_id, pretty, dl));
        items.push(labelled("ip: ", &self.ip, pretty, dl));
        items.push(labelled("port: ", &self.port, pretty, dl));
        items.push(labelled("unk3: ", &self.unk3, pretty, dl));
        assert(strings_view(items@) =~= seq!["server_id: "@ + <U16 as Dump>::spec_dump(self@.server_id, pretty, deeper(level as nat)), "ip: "@ + <U32 as Dump>::spec_dump(self@.ip, pretty, deeper(level as nat)), "port: "@ + <U16 as Dump>::spec_dump(self@.port, pretty, deeper(level as nat)), "unk3: "@ + <U16 as Dump>::spec_dump(self@.unk3, pretty, deeper(level as nat))]);
        push_group(out, "EndpointDesc", GroupKind::Record, &items, pretty, level);
    }
}

impl Dump for ServerDesc {
    open spec fn spec_dump(v: ServerDescView, pretty: bool, level: nat) -> Seq<char> {
        group_text("ServerDesc"@, GroupKind::Record, seq!["id: "@ + <U16 as Dump>::spec_dump(v.id, pretty, deeper(level)), "name: "@ + <RString as Dump>::spec_dump(v.name, pretty, deeper(level)), "unk1: "@ + <U32 as Dump>::spec_dump(v.unk1, pretty, deeper(level))], pretty, level)
    }

    fn dump(&self, out: &mut String, pretty: bool, level: usize) {
        let dl = deeper_level(level);
        let mut items: Vec<String> = Vec::new();
        items.push(labelled("id: ", &self.id, pretty, dl));
        items.push(labelled("name: ", &self.name, pretty, dl));
        items.push(labelled("unk1: ", &self.unk1, pretty, dl));
        assert(strings_view(items@) =~= seq!["id: "@ + <U16 as Dump>::spec_dump(self@.id, pretty, deeper(level as nat)), "name: "@ + <RString as Dump>::spec_dump(self@.name, pretty, deeper(level as nat)), "unk1: "@ + <U32 as Dump>::spec_dump(self@.unk1, pretty, deeper(level as nat))]);
        push_group(out, "ServerDesc", GroupKind::Record, &items, pretty, level);
    }
}

impl Dump for Packet04 {
    open spec fn spec_dump(v: Packet04View, pretty: bool, level: nat) -> Seq<char> {
        group_text("Packet04"@, GroupKind::Record, seq!["unk0: "@ + <U16 as Dump>::spec_dump(v.unk0, pretty, deeper(level)), "unk1: "@ + <U16 as Dump>::spec_dump(v.unk1, pretty, deeper(level))], pretty, level)
    }

    fn dump(&self, out: &mut String, pretty: bool, level: usize) {
        let dl = deeper_level(level);
        let mut items: Vec<String> = Vec::new();
        items.push(labelled("unk0: ", &self.unk0, pretty, dl));
        items.push(labelled("unk1: ", &self.unk1, pretty, dl));
        assert(strings_view(items@) =~= seq!["unk0: "@ + <U16 as Dump>::spec_dump(self@.unk0, pretty, deeper(level as nat)), "unk1: "@ + <U16 as Dump>::spec_dump(self@.unk1, pretty, deeper(level as nat))]);
        push_group(out, "Packet04", GroupKind::Record, &items, pretty, level);
    }
}

impl Dump for Connect {
    open spec fn spec_dump(v: ConnectView, pretty: bool, level: nat) -> Seq<char> {
        group_text("Connect"@, GroupKind::Record, seq!["pc_millis_shift: "@ + <U32 as Dump>::spec_dump(v.pc_millis_shift, pretty, deeper(level)), "pc_millis: "@ + <U32 as Dump>::spec_dump(v.pc_millis, pretty, deeper(level))], pretty, level)
    }

    fn dump(&self, out: &mut String, pretty: bool, level: usize) {
        let dl = deeper_level(level);
        let mut items: Vec<String> = Vec::new();
        items.push(labelled("pc_millis_shift: ", &self.pc_millis_shift, pretty, dl));
        items.push(labelled("pc_millis: ", &self.pc_millis, pretty, dl));
        assert(strings_view(items@) =~= seq!["pc_millis_shift: "@ + <U32 as Dump>::spec_dump(self@.pc_millis_shift, pretty, deeper(level as nat)), "pc_millis: "@ + <U32 as Dump>::spec_dump(self@.pc_millis, pretty, deeper(level as nat))]);
        push_group(out, "Connect", GroupKind::Record, &items, pretty, level);
    }
}

impl Dump for TimeSync {
    open spec fn spec_dump(v: TimeSyncView, pretty: bool, level: nat) -> Seq<char> {
        group_text("TimeSync"@, GroupKind::Record, seq!["unixtime: "@ + <U64 as Dump>::spec_dump(v.unixtime, pretty, deeper(level))], pretty, level)
    }

    fn dump(&self, out: &mut String, pretty: bool, level: usize) {
        let dl = deeper_level(level);
        let mut items: Vec<String> = Vec::new();
        items.push(labelled("unixtime: ", &self.unixtime, pretty, dl));
        assert(strings_view(items@) =~= seq!["unixtime: "@ + <U64 as Dump>::spec_dump(self@.unixtime, pretty, deeper(level as nat))]);
        push_group(out, "TimeSync", GroupKind::Record, &items, pretty, level);
    }
}

impl Dump for TimeSyncResponse {
    open spec fn spec_dump(v: TimeSyncResponseView, pretty: bool, level: nat) -> Seq<char> {
        group_text("TimeSyncResponse"@, GroupKind::Record, seq!["xkey0: "@ + <U32 as Dump>::spec_dump(v.xkey0, pretty, deeper(level)), "rdtsc: "@ + <U64 as Dump>::spec_dump(v.rdtsc, pretty, deeper(level)), "xkey1: "@ + <U64 as Dump>::spec_dump(v.xkey1, pretty, deeper(level))], pretty, level)
    }

    fn dump(&self, out: &mut String, pretty: bool, level: usize) {
        let dl = deeper_level(level);
        let mut items: Vec<String> = Vec::new();
        items.push(labelled("xkey0: ", &self.xkey0, pretty, dl));
        items.push(labelled("rdtsc: ", &self.rdtsc, pretty, dl));
        items.push(labelled("xkey1: ", &self.xkey1, pretty, dl));
        assert(strings_view(items@) =~= seq!["xkey0: "@ + <U32 as Dump>::spec_dump(self@.xkey0, pretty, deeper(level as nat)), "rdtsc: "@ + <U64 as Dump>::spec_dump(self@.rdtsc, pretty, deeper(level as nat)), "xkey1: "@ + <U64 as Dump>::spec_dump(self@.xkey1, pretty, deeper(level as nat))]);
        push_group(out, "TimeSyncResponse", GroupKind::Record, &items, pretty, level);
    }
}

impl Dump for CharList {
    open spec fn spec_dump(v: CharListView, pretty: bool, level: nat) -> Seq<char> {
        group_text("CharList"@, GroupKind::Record, seq!["xkey0: "@ + <U32 as Dump>::spec_dump(v.xkey0, pretty, deeper(level)), "unk1: "@ + <U64 as Dump>::spec_dump(v.unk1, pretty, deeper(level)), "unk2: "@ + <U32 as Dump>::spec_dump(v.unk2, pretty, deeper(level)), "some_flags: "@ + <U32 as Dump>::spec_dump(v.some_flags, pretty, deeper(level)), "unk4: "@ + <U32 as Dump>::spec_dump(v.unk4, pretty, deeper(level)), "rdtsc_echo: "@ + <U64 as Dump>::spec_dump(v.rdtsc_echo, pretty, deeper(level)), "unk5: "@ + <RString as Dump>::spec_dump(v.unk5, pretty, deeper(level)), "unk6: "@ + <U32 as Dump>::spec_dump(v.unk6, pretty, deeper(level)), "chars: "@ + <RVec<CharacterSlot> as Dump>::spec_dump(v.chars, pretty, deeper(level))], pretty, level)
    }

    fn dump(&self, out: &mut String, pretty: bool, level: usize) {
        let dl = deeper_level(level);
        let mut items: Vec<String> = Vec::new();
        items.push(labelled("xkey0: ", &self.xkey0, pretty, dl));
        items.push(labelled("unk1: ", &self.unk1, pretty, dl));
        items.push(labelled("unk2: ", &self.unk2, pretty, dl));
        items.push(labelled("some_flags: ", &self.some_flags, pretty, dl));
        items.push(labelled("unk4: ", &self.unk4, pretty, dl));
        items.push(labelled("rdtsc_echo: ", &self.rdtsc_echo, pretty, dl));
        items.push(labelled("unk5: ", &self.unk5, pretty, dl));
        items.push(labelled("unk6: ", &self.unk6, pretty, dl));
        items.push(labelled("chars: ", &self.chars, pretty, dl));
        assert(strings_view(items@) =~= seq!["xkey0: "@ + <U32 as Dump>::spec_dump(self@.xkey0, pretty, deeper(level as nat)), "unk1: "@ + <U64 as Dump>::spec_dump(self@.unk1, pretty, deeper(level as nat)), "unk2: "@ + <U32 as Dump>::spec_dump(self@.unk2, pretty, deeper(level as nat)), "some_flags: "@ + <U32 as Dump>::spec_dump(self@.some_flags, pretty, deeper(level as nat)), "unk4: "@ + <U32 as Dump>::spec_dump(self@.unk4, pretty, deeper(level as nat)), "rdtsc_echo: "@ + <U64 as Dump>::spec_dump(self@.rdtsc_echo, pretty, deeper(level as nat)), "unk5: "@ + <RString as Dump>::spec_dump(self@.unk5, pretty, deeper(level as nat)), "unk6: "@ + <U32 as Dump>::spec_dump(self@.unk6, pretty, deeper(level as nat)), "chars: "@ + <RVec<CharacterSlot> as Dump>::spec_dump(self@.chars, pretty, deeper(level as nat))]);
        push_group(out, "CharList", GroupKind::Record, &items, pretty, level);
    }
}

impl Dump for CharacterSlot {
    open spec fn spec_dump(v: CharacterSlotView, pretty: bool, level: nat) -> Seq<char> {
        group_text("CharacterSlot"@, GroupKind::Record, seq!["id: "@ + <U32 as Dump>::spec_dump(v.id, pretty, deeper(level)), "info: "@ + option_text::<CharacterInfo>(v.info, pretty, deeper(level))], pretty, level)
    }

    fn dump(&self, out: &mut String, pretty: bool, level: usize) {
        let dl = deeper_level(level);
        let mut items: Vec<String> = Vec::new();
        items.push(labelled("id: ", &self.id, pretty, dl));
        items.push(labelled_option("info: ", &self.info, pretty, dl));
        assert(strings_view(items@) =~= seq!["id: "@ + <U32 as Dump>::spec_dump(self@.id, pretty, deeper(level as nat)), "info: "@ + option_text::<CharacterInfo>(self@.info, pretty, deeper(level as nat))]);
        push_group(out, "CharacterSlot", GroupKind::Record, &items, pretty, level);
    }
}

impl Dump for CharacterInfo {
    open spec fn spec_dump(v: CharacterInfoView, pretty: bool, level: nat) -> Seq<char> {
        group_text("CharacterInfo"@, GroupKind::Record, seq!["class: "@ + <U16 as Dump>::spec_dump(v.class, pretty, deeper(level)), "sex: "@ + <RBool as Dump>::spec_dump(v.sex, pretty, deeper(level)), "level: "@ + <U16 as Dump>::spec_dump(v.level, pretty, deeper(level)), "unk3: "@ + <U32 as Dump>::spec_dump(v.unk3, pretty, deeper(level)), "hp: "@ + <U32 as Dump>::spec_dump(v.hp, pretty, deeper(level)), "mp: "@ + <U32 as Dump>::spec_dump(v.mp, pretty, deeper(level)), "location_id: "@ + <U32 as Dump>::spec_dump(v.location_id, pretty, deeper(level)), "body: "@ + <BodyParam as Dump>::spec_dump(v.body, pretty, deeper(level)), "name: "@ + <RString as Dump>::spec_dump(v.name, pretty, deeper(level)), "unk9: "@ + <U8 as Dump>::spec_dump(v.unk9, pretty, deeper(level)), "unk10: "@ + <U64 as Dump>::spec_dump(v.unk10, pretty, deeper(level)), "equip: "@ + <RVec<ItemDesc> as Dump>::spec_dump(v.equip, pretty, deeper(level))], pretty, level)
    }

    fn dump(&self, out: &mut String, pretty: bool, level: usize) {
        let dl = deeper_level(level);
        let mut items: Vec<String> = Vec::new();
        items.push(labelled("class: ", &self.class, pretty, dl));
        items.push(labelled("sex: ", &self.sex, pretty, dl));
        items.push(labelled("level: ", &self.level, pretty, dl));
        items.push(labelled("unk3: ", &self.unk3, pretty, dl));
        items.push(labelled("hp: ", &self.hp, pretty, dl));
        items.push(labelled("mp: ", &self.mp, pretty, dl));
        items.push(labelled("location_id: ", &self.location_id, pretty, dl));
        items.push(labelled("body: ", &self.body, pretty, dl));
        items.push(labelled("name: ", &self.name, pretty, dl));
        items.push(labelled("unk9: ", &self.unk9, pretty, dl));
        items.push(labelled("unk10: ", &self.unk10, pretty, dl));
        items.push(labelled("equip: ", &self.equip, pretty, dl));
        assert(strings_view(items@) =~= seq!["class: "@ + <U16 as Dump>::spec_dump(self@.class, pretty, deeper(level as nat)), "sex: "@ + <RBool as Dump>::spec_dump(self@.sex, pretty, deeper(level as nat)), "level: "@ + <U16 as Dump>::spec_dump(self@.level, pretty, deeper(level as nat)), "unk3: "@ + <U32 as Dump>::spec_dump(self@.unk3, pretty, deeper(level as nat)), "hp: "@ + <U32 as Dump>::spec_dump(self@.hp, pretty, deeper(level as nat)), "mp: "@ + <U32 as Dump>::spec_dump(self@.mp, pretty, deeper(level as nat)), "location_id: "@ + <U32 as Dump>::spec_dump(self@.location_id, pretty, deeper(level as nat)), "body: "@ + <BodyParam as Dump>::spec_dump(self@.body, pretty, deeper(level as nat)), "name: "@ + <RString as Dump>::spec_dump(self@.name, pretty, deeper(level as nat)), "unk9: "@ + <U8 as Dump>::spec_dump(self@.unk9, pretty, deeper(level as nat)), "unk10: "@ + <U64 as Dump>::spec_dump(self@.unk10, pretty, deeper(level as nat)), "equip: "@ + <RVec<ItemDesc> as Dump>::spec_dump(self@.equip, pretty, deeper(level as nat))]);
        push_group(out, "CharacterInfo", GroupKind::Record, &items, pretty, level);
    }
}

impl Dump for ServerVars {
    open spec fn spec_dump(v: ServerVarsView, pretty: bool, level: nat) -> Seq<char> {
        group_text("ServerVars"@, GroupKind::Record, seq!["event_info: "@ + <RZlib as Dump>::spec_dump(v.event_info, pretty, deeper(level)), "some_regex: "@ + <RZlib as Dump>::spec_dump(v.some_regex, pretty, deeper(level)), "mb_region: "@ + <RString as Dump>::spec_dump(v.mb_region, pretty, deeper(level))], pretty, level)
    }

    fn dump(&self, out: &mut String, pretty: bool, level: usize) {
        let dl = deeper_level(level);
        let mut items: Vec<String> = Vec::new();
        items.push(labelled("event_info: ", &self.event_info, pretty, dl));
        items.push(labelled("some_regex: ", &self.some_regex, pretty, dl));
        items.push(labelled("mb_region: ", &self.mb_region, pretty, dl));
        assert(strings_view(items@) =~= seq!["event_info: "@ + <RZlib as Dump>::spec_dump(self@.event_info, pretty, deeper(level as nat)), "some_regex: "@ + <RZlib as Dump>::spec_dump(self@.some_regex, pretty, deeper(level as nat)), "mb_region: "@ + <RString as Dump>::spec_dump(self@.mb_region, pretty, deeper(level as nat))]);
        push_group(out, "ServerVars", GroupKind::Record, &items, pretty, level);
    }
}

impl Dump for Packet13 {
    open spec fn spec_dump(v: Packet13View, pretty: bool, level: nat) -> Seq<char> {
        group_text("Packet13"@, GroupKind::Record, seq!["unk: "@ + <RZlib as Dump>::spec_dump(v.unk, pretty, deeper(level))], pretty, level)
    }

    fn dump(&self, out: &mut String, pretty: bool, level: usize) {
        let dl = deeper_level(level);
        let mut items: Vec<String> = Vec::new();
        items.push(labelled("unk: ", &self.unk, pretty, dl));
        assert(strings_view(items@) =~= seq!["unk: "@ + <RZlib as Dump>::spec_dump(self@.unk, pretty, deeper(level as nat))]);
        push_group(out, "Packet13", GroupKind::Record, &items, pretty, level);
    }
}

impl Dump for Packet16 {
    open spec fn spec_dump(v: Packet16View, pretty: bool, level: nat) -> Seq<char> {
        group_text("Packet16"@, GroupKind::Record, seq!["rdtsc0: "@ + <U64 as Dump>::spec_dump(v.rdtsc0, pretty, deeper(level)), "unk1: "@ + <U64 as Dump>::spec_dump(v.unk1, pretty, deeper(level)), "rdtsc1: "@ + <U64 as Dump>::spec_dump(v.rdtsc1, pretty, deeper(level)), "unk2: "@ + <U64 as Dump>::spec_dump(v.unk2, pretty, deeper(level)), "unk3: "@ + <RString as Dump>::spec_dump(v.unk3, pretty, deeper(level))], pretty, level)
    }

    fn dump(&self, out: &mut String, pretty: bool, level: usize) {
        let dl = deeper_level(level);
        let mut items: Vec<String> = Vec::new();
        items.push(labelled("rdtsc0: ", &self.rdtsc0, pretty, dl));
        items.push(labelled("unk1: ", &self.unk1, pretty, dl));
        items.push(labelled("rdtsc1: ", &self.rdtsc1, pretty, dl));
        items.push(labelled("unk2: ", &self.unk2, pretty, dl));
        items.push(labelled("unk3: ", &self.unk3, pretty, dl));
        assert(strings_view(items@) =~= seq!["rdtsc0: "@ + <U64 as Dump>::spec_dump(self@.rdtsc0, pretty, deeper(level as nat)), "unk1: "@ + <U64 as Dump>::spec_dump(self@.unk1, pretty, deeper(level as nat)), "rdtsc1: "@ + <U64 as Dump>::spec_dump(self@.rdtsc1, pretty, deeper(level as nat)), "unk2: "@ + <U64 as Dump>::spec_dump(self@.unk2, pretty, deeper(level as nat)), "unk3: "@ + <RString as Dump>::spec_dump(self@.unk3, pretty, deeper(level as nat))]);
        push_group(out, "Packet16", GroupKind::Record, &items, pretty, level);
    }
}

impl Dump for ConnectionError {
    open spec fn spec_dump(v: ConnectionErrorView, pretty: bool, level: nat) -> Seq<char> {
        group_text("ConnectionError"@, GroupKind::Record, seq!["code: "@ + <U32 as Dump>::spec_dump(v.code, pretty, deeper(level))], pretty, level)
    }

    fn dump(&self, out: &mut String, pretty: bool, level: usize) {
        let dl = deeper_level(level);
        let mut items: Vec<String> = Vec::new();
        items.push(labelled("code: ", &self.code, pretty, dl));
        assert(strings_view(items@) =~= seq!["code: "@ + <U32 as Dump>::spec_dump(self@.code, pretty, deeper(level as nat))]);
        push_group(out, "ConnectionError", GroupKind::Record, &items, pretty, level);
    }
}

impl Dump for PinResult {
    open spec fn spec_dump(v: PinResultView, pretty: bool, level: nat) -> Seq<char> {
        group_text("PinResult"@, GroupKind::Record, seq!["pin_hash: "@ + <RString as Dump>::spec_dump(v.pin_hash, pretty, deeper(level)), "bool0: "@ + <RBool as Dump>::spec_dump(v.bool0, pretty, deeper(level)), "bool1: "@ + <RBool as Dump>::spec_dump(v.bool1, pretty, deeper(level))], pretty, level)
    }

    fn dump(&self, out: &mut String, pretty: bool, level: usize) {
        let dl = deeper_level(level);
        let mut items: Vec<String> = Vec::new();
        items.push(labelled("pin_hash: ", &self.pin_hash, pretty, dl));
        items.push(labelled("bool0: ", &self.bool0, pretty, dl));
        items.push(labelled("bool1: ", &self.bool1, pretty, dl));
        assert(strings_view(items@) =~= seq!["pin_hash: "@ + <RString as Dump>::spec_dump(self@.pin_hash, pretty, deeper(level as nat)), "bool0: "@ + <RBool as Dump>::spec_dump(self@.bool0, pretty, deeper(level as nat)), "bool1: "@ + <RBool as Dump>::spec_dump(self@.bool1, pretty, deeper(level as nat))]);
        push_group(out, "PinResult", GroupKind::Record, &items, pretty, level);
    }
}

impl Dump for Coords {
    open spec fn spec_dump(v: CoordsView, pretty: bool, level: nat) -> Seq<char> {
        group_text("Coords"@, GroupKind::Record, seq!["x: "@ + <F32 as Dump>::spec_dump(v.x, pretty, deeper(level)), "y: "@ + <F32 as Dump>::spec_dump(v.y, pretty, deeper(level))], pretty, level)
    }

    fn dump(&self, out: &mut String, pretty: bool, level: usize) {
        let dl = deeper_level(level);
        let mut items: Vec<String> = Vec::new();
        items.push(labelled("x: ", &self.x, pretty, dl));
        items.push(labelled("y: ", &self.y, pretty, dl));
        assert(strings_view(items@) =~= seq!["x: "@ + <F32 as Dump>::spec_dump(self@.x, pretty, deeper(level as nat)), "y: "@ + <F32 as Dump>::spec_dump(self@.y, pretty, deeper(level as nat))]);
        push_group(out, "Coords", GroupKind::Record, &items, pretty, level);
    }
}

impl Dump for PlayerData {
    open spec fn spec_dump(v: PlayerDataView, pretty: bool, level: nat) -> Seq<char> {
        group_text("PlayerData"@, GroupKind::Record, seq!["unk0: "@ + <U8 as Dump>::spec_dump(v.unk0, pretty, deeper(level)), "id: "@ + <U32 as Dump>::spec_dump(v.id, pretty, deeper(level)), "class: "@ + <U16 as Dump>::spec_dump(v.class, pretty, deeper(level)), "level: "@ + <U16 as Dump>::spec_dump(v.level, pretty, deeper(level)), "unk4: "@ + <U8 as Dump>::spec_dump(v.unk4, pretty, deeper(level)), "unk5: "@ + <U8 as Dump>::spec_dump(v.unk5, pretty, deeper(level)), "unk6: "@ + <U8 as Dump>::spec_dump(v.unk6, pretty, deeper(level)), "name: "@ + <RString as Dump>::spec_dump(v.name, pretty, deeper(level)), "hp: "@ + <U32 as Dump>::spec_dump(v.hp, pretty, deeper(level)), "mp: "@ + <U32 as Dump>::spec_dump(v.mp, pretty, deeper(level)), "location_id: "@ + <U32 as Dump>::spec_dump(v.location_id, pretty, deeper(level)), "coords: "@ + <Coords as Dump>::spec_dump(v.coords, pretty, deeper(level)), "unk13: "@ + <U8 as Dump>::spec_dump(v.unk13, pretty, deeper(level)), "rot: "@ + <F32 as Dump>::spec_dump(v.rot, pretty, deeper(level)), "unk15: "@ + <RBool as Dump>::spec_dump(v.unk15, pretty, deeper(level)), "alive: "@ + <RBool as Dump>::spec_dump(v.alive, pretty, deeper(level)), "unk17: "@ + <RBool as Dump>::spec_dump(v.unk17, pretty, deeper(level)), "unk18: "@ + <RBool as Dump>::spec_dump(v.unk18, pretty, deeper(level)), "unk19: "@ + <RBool as Dump>::spec_dump(v.unk19, pretty, deeper(level)), "body: "@ + <BodyParam as Dump>::spec_dump(v.body, pretty, deeper(level)), "hp2: "@ + <U32 as Dump>::spec_dump(v.hp2, pretty, deeper(level)), "mp2: "@ + <U32 as Dump>::spec_dump(v.mp2, pretty, deeper(level)), "movspeed: "@ + <F32 as Dump>::spec_dump(v.movspeed, pretty, deeper(level)), "unk24: "@ + <U32 as Dump>::spec_dump(v.unk24, pretty, deeper(level)), "unk25: "@ + <U32 as Dump>::spec_dump(v.unk25, pretty, deeper(level)), "unk26: "@ + <U32 as Dump>::spec_dump(v.unk26, pretty, deeper(level)), "unk27: "@ + <U32 as Dump>::spec_dump(v.unk27, pretty, deeper(level)), "unk28: "@ + <U32 as Dump>::spec_dump(v.unk28, pretty, deeper(level)), "unk29: "@ + <U8 as Dump>::spec_dump(v.unk29, pretty, deeper(level)), "unk30: "@ + <U32 as Dump>::spec_dump(v.unk30, pretty, deeper(level)), "unk31: "@ + <U32 as Dump>::spec_dump(v.unk31, pretty, deeper(level)), "unk32: "@ + <RString as Dump>::spec_dump(v.unk32, pretty, deeper(level)), "unk33: "@ + <U64 as Dump>::spec_dump(v.unk33, pretty, deeper(level)), "unk34: "@ + <U16 as Dump>::spec_dump(v.unk34, pretty, deeper(level)), "unk35: "@ + <U16 as Dump>::spec_dump(v.unk35, pretty, deeper(level)), "unk36: "@ + <RBool as Dump>::spec_dump(v.unk36, pretty, deeper(level)), "unk37: "@ + <RString as Dump>::spec_dump(v.unk37, pretty, deeper(level)), "unk38: "@ + <U32 as Dump>::spec_dump(v.unk38, pretty, deeper(level)), "effects: "@ + <RVec<CameraEffect> as Dump>::spec_dump(v.effects, pretty, deeper(level)), "unk39: "@ + <Op13 as Dump>::spec_dump(v.unk39, pretty, deeper(level)), "current_exp: "@ + <U32 as Dump>::spec_dump(v.current_exp, pretty, deeper(level)), "unk41: "@ + <U32 as Dump>::spec_dump(v.unk41, pretty, deeper(level)), "unk42: "@ + <U16 as Dump>::spec_dump(v.unk42, pretty, deeper(level)), "stats: "@ + <RVec<F32> as Dump>::spec_dump(v.stats, pretty, deeper(level)), "stats2: "@ + items_list::<F32>(v.stats2, pretty, deeper(level)), "unk45: "@ + <U64 as Dump>::spec_dump(v.unk45, pretty, deeper(level)), "talents: "@ + <RVec<U16> as Dump>::spec_dump(v.talents, pretty, deeper(level)), "unk47: "@ + <RVec<U16> as Dump>::spec_dump(v.unk47, pretty, deeper(level)), "unk48: "@ + <U64 as Dump>::spec_dump(v.unk48, pretty, deeper(level)), "unk49: "@ + <F32 as Dump>::spec_dump(v.unk49, pretty, deeper(level)), "unk50: "@ + <F32 as Dump>::spec_dump(v.unk50, pretty, deeper(level)), "unk51: "@ + <U16 as Dump>::spec_dump(v.unk51, pretty, deeper(level)), "unk52: "@ + <U16 as Dump>::spec_dump(v.unk52, pretty, deeper(level)), "unk53: "@ + <U32 as Dump>::spec_dump(v.unk53, pretty, deeper(level)), "unk54: "@ + <U32 as Dump>::spec_dump(v.unk54, pretty, deeper(level)), "unk55: "@ + <U32 as Dump>::spec_dump(v.unk55, pretty, deeper(level)), "unk56: "@ + items_list::<U16>(v.unk56, pretty, deeper(level)), "unk57: "@ + <U16 as Dump>::spec_dump(v.unk57, pretty, deeper(level)), "unk58: "@ + items_list::<U16>(v.unk58, pretty, deeper(level)), "unk59: "@ + <U16 as Dump>::spec_dump(v.unk59, pretty, deeper(level)), "unk60: "@ + <CurrencyData as Dump>::spec_dump(v.unk60, pretty, deeper(level)), "unk61: "@ + <U8 as Dump>::spec_dump(v.unk61, pretty, deeper(level)), "ach_data: "@ + <RZlib as Dump>::spec_dump(v.ach_data, pretty, deeper(level))], pretty, level)
    }

    #[verifier::spinoff_prover]
    #[verifier::rlimit(100)]
    fn dump(&self, out: &mut String, pretty: bool, level: usize) {
        let dl = deeper_level(level);
        let mut items: Vec<String> = Vec::new();
        items.push(labelled("unk0: ", &self.unk0, pretty, dl));
        items.push(labelled("id: ", &self.id, pretty, dl));
        items.push(labelled("class: ", &self.class, pretty, dl));
        items.push(labelled("level: ", &self.level, pretty, dl));
        items.push(labelled("unk4: ", &self.unk4, pretty, dl));
        items.push(labelled("unk5: ", &self.unk5, pretty, dl));
        items.push(labelled("unk6: ", &self.unk6, pretty, dl));
        items.push(labelled("name: ", &self.name, pretty, dl));
        items.push(labelled("hp: ", &self.hp, pretty, dl));
        items.push(labelled("mp: ", &self.mp, pretty, dl));
        items.push(labelled("location_id: ", &self.location_id, pretty, dl));
        items.push(labelled("coords: ", &self.coords, pretty, dl));
        items.push(labelled("unk13: ", &self.unk13, pretty, dl));
        items.push(labelled("rot: ", &self.rot, pretty, dl));
        items.push(labelled("unk15: ", &self.unk15, pretty, dl));
        items.push(labelled("alive: ", &self.alive, pretty, dl));
        items.push(labelled("unk17: ", &self.unk17, pretty, dl));
        items.push(labelled("unk18: ", &self.unk18, pretty, dl));
        items.push(labelled("unk19: ", &self.unk19, pretty, dl));
        items.push(labelled("body: ", &self.body, pretty, dl));
        items.push(labelled("hp2: ", &self.hp2, pretty, dl));
        items.push(labelled("mp2: ", &self.mp2, pretty, dl));
        items.push(labelled("movspeed: ", &self.movspeed, pretty, dl));
        items.push(labelled("unk24: ", &self.unk24, pretty, dl));
        items.push(labelled("unk25: ", &self.unk25, pretty, dl));
        items.push(labelled("unk26: ", &self.unk26, pretty, dl));
        items.push(labelled("unk27: ", &self.unk27, pretty, dl));
        items.push(labelled("unk28: ", &self.unk28, pretty, dl));
        items.push(labelled("unk29: ", &self.unk29, pretty, dl));
        items.push(labelled("unk30: ", &self.unk30, pretty, dl));
        items.push(labelled("unk31: ", &self.unk31, pretty, dl));
        items.push(labelled("unk32: ", &self.unk32, pretty, dl));
        items.push(labelled("unk33: ", &self.unk33, pretty, dl));
        items.push(labelled("unk34: ", &self.unk34, pretty, dl));
        items.push(labelled("unk35: ", &self.unk35, pretty, dl));
        items.push(labelled("unk36: ", &self.unk36, pretty, dl));
        items.push(labelled("unk37: ", &self.unk37, pretty, dl));
        items.push(labelled("unk38: ", &self.unk38, pretty, dl));
        items.push(labelled("effects: ", &self.effects, pretty, dl));
        items.push(labelled("unk39: ", &self.unk39, pretty, dl));
        items.push(labelled("current_exp: ", &self.current_exp, pretty, dl));
        items.push(labelled("unk41: ", &self.unk41, pretty, dl));
        items.push(labelled("unk42: ", &self.unk42, pretty, dl));
        items.push(labelled("stats: ", &self.stats, pretty, dl));
        items.push(labelled_list("stats2: ", self.stats2.as_slice(), pretty, dl));
        items.push(labelled("unk45: ", &self.unk45, pretty, dl));
        items.push(labelled("talents: ", &self.talents, pretty, dl));
        items.push(labelled("unk47: ", &self.unk47, pretty, dl));
        items.push(labelled("unk48: ", &self.unk48, pretty, dl));
        items.push(labelled("unk49: ", &self.unk49, pretty, dl));
        items.push(labelled("unk50: ", &self.unk50, pretty, dl));
        items.push(labelled("unk51: ", &self.unk51, pretty, dl));
        items.push(labelled("unk52: ", &self.unk52, pretty, dl));
        items.push(labelled("unk53: ", &self.unk53, pretty, dl));
        items.push(labelled("unk54: ", &self.unk54, pretty, dl));
        items.push(labelled("unk55: ", &self.unk55, pretty, dl));
        items.push(labelled_list("unk56: ", self.unk56.as_slice(), pretty, dl));
        items.push(labelled("unk57: ", &self.unk57, pretty, dl));
        items.push(labelled_list("unk58: ", self.unk58.as_slice(), pretty, dl));
        items.push(labelled("unk59: ", &self.unk59, pretty, dl));
        items.push(labelled("unk60: ", &self.unk60, pretty, dl));
        items.push(labelled("unk61: ", &self.unk61, pretty, dl));
        items.push(labelled("ach_data: ", &self.ach_data, pretty, dl));
        assert(strings_view(items@) =~= seq!["unk0: "@ + <U8 as Dump>::spec_dump(self@.unk0, pretty, deeper(level as nat)), "id: "@ + <U32 as Dump>::spec_dump(self@.id, pretty, deeper(level as nat)), "class: "@ + <U16 as Dump>::spec_dump(self@.class, pretty, deeper(level as nat)), "level: "@ + <U16 as Dump>::spec_dump(self@.level, pretty, deeper(level as nat)), "unk4: "@ + <U8 as Dump>::spec_dump(self@.unk4, pretty, deeper(level as nat)), "unk5: "@ + <U8 as Dump>::spec_dump(self@.unk5, pretty, deeper(level as nat)), "unk6: "@ + <U8 as Dump>::spec_dump(self@.unk6, pretty, deeper(level as nat)), "name: "@ + <RString as Dump>::spec_dump(self@.name, pretty, deeper(level as nat)), "hp: "@ + <U32 as Dump>::spec_dump(self@.hp, pretty, deeper(level as nat)), "mp: "@ + <U32 as Dump>::spec_dump(self@.mp, pretty, deeper(level as nat)), "location_id: "@ + <U32 as Dump>::spec_dump(self@.location_id, pretty, deeper(level as nat)), "coords: "@ + <Coords as Dump>::spec_dump(self@.coords, pretty, deeper(level as nat)), "unk13: "@ + <U8 as Dump>::spec_dump(self@.unk13, pretty, deeper(level as nat)), "rot: "@ + <F32 as Dump>::spec_dump(self@.rot, pretty, deeper(level as nat)), "unk15: "@ + <RBool as Dump>::spec_dump(self@.unk15, pretty, deeper(level as nat)), "alive: "@ + <RBool as Dump>::spec_dump(self@.alive, pretty, deeper(level as nat)), "unk17: "@ + <RBool as Dump>::spec_dump(self@.unk17, pretty, deeper(level as nat)), "unk18: "@ + <RBool as Dump>::spec_dump(self@.unk18, pretty, deeper(level as nat)), "unk19: "@ + <RBool as Dump>::spec_dump(self@.unk19, pretty, deeper(level as nat)), "body: "@ + <BodyParam as Dump>::spec_dump(self@.body, pretty, deeper(level as nat)), "hp2: "@ + <U32 as Dump>::spec_dump(self@.hp2, pretty, deeper(level as nat)), "mp2: "@ + <U32 as Dump>::spec_dump(self@.mp2, pretty, deeper(level as nat)), "movspeed: "@ + <F32 as Dump>::spec_dump(self@.movspeed, pretty, deeper(level as nat)), "unk24: "@ + <U32 as Dump>::spec_dump(self@.unk24, pretty, deeper(level as nat)), "unk25: "@ + <U32 as Dump>::spec_dump(self@.unk25, pretty, deeper(level as nat)), "unk26: "@ + <U32 as Dump>::spec_dump(self@.unk26, pretty, deeper(level as nat)), "unk27: "@ + <U32 as Dump>::spec_dump(self@.unk27, pretty, deeper(level as nat)), "unk28: "@ + <U32 as Dump>::spec_dump(self@.unk28, pretty, deeper(level as nat)), "unk29: "@ + <U8 as Dump>::spec_dump(self@.unk29, pretty, deeper(level as nat)), "unk30: "@ + <U32 as Dump>::spec_dump(self@.unk30, pretty, deeper(level as nat)), "unk31: "@ + <U32 as Dump>::spec_dump(self@.unk31, pretty, deeper(level as nat)), "unk32: "@ + <RString as Dump>::spec_dump(self@.unk32, pretty, deeper(level as nat)), "unk33: "@ + <U64 as Dump>::spec_dump(self@.unk33, pretty, deeper(level as nat)), "unk34: "@ + <U16 as Dump>::spec_dump(self@.unk34, pretty, deeper(level as nat)), "unk35: "@ + <U16 as Dump>::spec_dump(self@.unk35, pretty, deeper(level as nat)), "unk36: "@ + <RBool as Dump>::spec_dump(self@.unk36, pretty, deeper(level as nat)), "unk37: "@ + <RString as Dump>::spec_dump(self@.unk37, pretty, deeper(level as nat)), "unk38: "@ + <U32 as Dump>::spec_dump(self@.unk38, pretty, deeper(level as nat)), "effects: "@ + <RVec<CameraEffect> as Dump>::spec_dump(self@.effects, pretty, deeper(level as nat)), "unk39: "@ + <Op13 as Dump>::spec_dump(self@.unk39, pretty, deeper(level as nat)), "current_exp: "@ + <U32 as Dump>::spec_dump(self@.current_exp, pretty, deeper(level as nat)), "unk41: "@ + <U32 as Dump>::spec_dump(self@.unk41, pretty, deeper(level as nat)), "unk42: "@ + <U16 as Dump>::spec_dump(self@.unk42, pretty, deeper(level as nat)), "stats: "@ + <RVec<F32> as Dump>::spec_dump(self@.stats, pretty, deeper(level as nat)), "stats2: "@ + items_list::<F32>(self@.stats2, pretty, deeper(level as nat)), "unk45: "@ + <U64 as Dump>::spec_dump(self@.unk45, pretty, deeper(level as nat)), "talents: "@ + <RVec<U16> as Dump>::spec_dump(self@.talents, pretty, deeper(level as nat)), "unk47: "@ + <RVec<U16> as Dump>::spec_dump(self@.unk47, pretty, deeper(level as nat)), "unk48: "@ + <U64 as Dump>::spec_dump(self@.unk48, pretty, deeper(level as nat)), "unk49: "@ + <F32 as Dump>::spec_dump(self@.unk49, pretty, deeper(level as nat)), "unk50: "@ + <F32 as Dump>::spec_dump(self@.unk50, pretty, deeper(level as nat)), "unk51: "@ + <U16 as Dump>::spec_dump(self@.unk51, pretty, deeper(level as nat)), "unk52: "@ + <U16 as Dump>::spec_dump(self@.unk52, pretty, deeper(level as nat)), "unk53: "@ + <U32 as Dump>::spec_dump(self@.unk53, pretty, deeper(level as nat)), "unk54: "@ + <U32 as Dump>::spec_dump(self@.unk54, pretty, deeper(level as nat)), "unk55: "@ + <U32 as Dump>::spec_dump(self@.unk55, pretty, deeper(level as nat)), "unk56: "@ + items_list::<U16>(self@.unk56, pretty, deeper(level as nat)), "unk57: "@ + <U16 as Dump>::spec_dump(self@.unk57, pretty, deeper(level as nat)), "unk58: "@ + items_list::<U16>(self@.unk58, pretty, deeper(level as nat)), "unk59: "@ + <U16 as Dump>::spec_dump(self@.unk59, pretty, deeper(level as nat)), "unk60: "@ + <CurrencyData as Dump>::spec_dump(self@.unk60, pretty, deeper(level as nat)), "unk61: "@ + <U8 as Dump>::spec_dump(self@.unk61, pretty, deeper(level as nat)), "ach_data: "@ + <RZlib as Dump>::spec_dump(self@.ach_data, pretty, deeper(level as nat))]);
        push_group(out, "PlayerData", GroupKind::Record, &items, pretty, level);
    }
}

impl Dump for EnterWorldRequest {
    open spec fn spec_dump(v: EnterWorldRequestView, pretty: bool, level: nat) -> Seq<char> {
        group_text("EnterWorldRequest"@, GroupKind::Record, seq!["char_idx: "@ + <U8 as Dump>::spec_dump(v.char_idx, pretty, deeper(level))], pretty, level)
    }

    fn dump(&self, out: &mut String, pretty: bool, level: usize) {
        let dl = deeper_level(level);
        let mut items: Vec<String> = Vec::new();
        items.push(labelled("char_idx: ", &self.char_idx, pretty, dl));
        assert(strings_view(items@) =~= seq!["char_idx: "@ + <U8 as Dump>::spec_dump(self@.char_idx, pretty, deeper(level as nat))]);
        push_group(out, "EnterWorldRequest", GroupKind::Record, &items, pretty, level);
    }
}

impl Dump for EnterWorldResponse {
    open spec fn spec_dump(v: EnterWorldResponseView, pretty: bool, level: nat) -> Seq<char> {
        group_text("EnterWorldResponse"@, GroupKind::Record, seq!["unk: "@ + <U16 as Dump>::spec_dump(v.unk, pretty, deeper(level))], pretty, level)
    }

    fn dump(&self, out: &mut String, pretty: bool, level: usize) {
        let dl = deeper_level(level);
        let mut items: Vec<String> = Vec::new();
        items.push(labelled("unk: ", &self.unk, pretty, dl));
        assert(strings_view(items@) =~= seq!["unk: "@ + <U16 as Dump>::spec_dump(self@.unk, pretty, deeper(level as nat))]);
        push_group(out, "EnterWorldResponse", GroupKind::Record, &items, pretty, level);
    }
}

impl Dump for Inventory {
    open spec fn spec_dump(v: InventoryView, pretty: bool, level: nat) -> Seq<char> {
        group_text("Inventory"@, GroupKind::Record, seq!["unk0: "@ + <U8 as Dump>::spec_dump(v.unk0, pretty, deeper(level)), "unk1: "@ + <U16 as Dump>::spec_dump(v.unk1, pretty, deeper(level)), "items: "@ + <RVec<ItemDesc> as Dump>::spec_dump(v.items, pretty, deeper(level))], pretty, level)
    }

    fn dump(&self, out: &mut String, pretty: bool, level: usize) {
        let dl = deeper_level(level);
        let mut items: Vec<String> = Vec::new();
        items.push(labelled("unk0: ", &self.unk0, pretty, dl));
        items.push(labelled("unk1: ", &self.unk1, pretty, dl));
        items.push(labelled("items: ", &self.items, pretty, dl));
        assert(strings_view(items@) =~= seq!["unk0: "@ + <U8 as Dump>::spec_dump(self@.unk0, pretty, deeper(level as nat)), "unk1: "@ + <U16 as Dump>::spec_dump(self@.unk1, pretty, deeper(level as nat)), "items: "@ + <RVec<ItemDesc> as Dump>::spec_dump(self@.items, pretty, deeper(level as nat))]);
        push_group(out, "Inventory", GroupKind::Record, &items, pretty, level);
    }
}

impl Dump for ItemDesc {
    open spec fn spec_dump(v: ItemDescView, pretty: bool, level: nat) -> Seq<char> {
        group_text("ItemDesc"@, GroupKind::Record, seq!["slot: "@ + <InvSlot as Dump>::spec_dump(v.slot, pretty, deeper(level)), "id: "@ + <U32 as Dump>::spec_dump(v.id, pretty, deeper(level)), "count: "@ + <U16 as Dump>::spec_dump(v.count, pretty, deeper(level)), "flags: "@ + <U32 as Dump>::spec_dump(v.flags, pretty, deeper(level)), "unk5: "@ + option_text::<U32>(v.unk5, pretty, deeper(level)), "unk6: "@ + option_text::<U64>(v.unk6, pretty, deeper(level)), "ext: "@ + option_text::<ItemDescExt>(v.ext, pretty, deeper(level))], pretty, level)
    }

    fn dump(&self, out: &mut String, pretty: bool, level: usize) {
        let dl = deeper_level(level);
        let mut items: Vec<String> = Vec::new();
        items.push(labelled("slot: ", &self.slot, pretty, dl));
        items.push(labelled("id: ", &self.id, pretty, dl));
        items.push(labelled("count: ", &self.count, pretty, dl));
        items.push(labelled("flags: ", &self.flags, pretty, dl));
        items.push(labelled_option("unk5: ", &self.unk5, pretty, dl));
        items.push(labelled_option("unk6: ", &self.unk6, pretty, dl));
        items.push(labelled_option("ext: ", &self.ext, pretty, dl));
        assert(strings_view(items@) =~= seq!["slot: "@ + <InvSlot as Dump>::spec_dump(self@.slot, pretty, deeper(level as nat)), "id: "@ + <U32 as Dump>::spec_dump(self@.id, pretty, deeper(level as nat)), "count: "@ + <U16 as Dump>::spec_dump(self@.count, pretty, deeper(level as nat)), "flags: "@ + <U32 as Dump>::spec_dump(self@.flags, pretty, deeper(level as nat)), "unk5: "@ + option_text::<U32>(self@.unk5, pretty, deeper(level as nat)), "unk6: "@ + option_text::<U64>(self@.unk6, pretty, deeper(level as nat)), "ext: "@ + option_text::<ItemDescExt>(self@.ext, pretty, deeper(level as nat))]);
        push_group(out, "ItemDesc", GroupKind::Record, &items, pretty, level);
    }
}

impl Dump for ItemDescExt {
    open spec fn spec_dump(v: ItemDescExtView, pretty: bool, level: nat) -> Seq<char> {
        group_text("ItemDescExt"@, GroupKind::Record, seq!["unk0: "@ + <U32 as Dump>::spec_dump(v.unk0, pretty, deeper(level)), "unk1: "@ + <U32 as Dump>::spec_dump(v.unk1, pretty, deeper(level)), "unk2: "@ + <U32 as Dump>::spec_dump(v.unk2, pretty, deeper(level)), "unk3: "@ + <U16 as Dump>::spec_dump(v.unk3, pretty, deeper(level)), "unk4: "@ + <U8 as Dump>::spec_dump(v.unk4, pretty, deeper(level)), "unk5: "@ + <U8 as Dump>::spec_dump(v.unk5, pretty, deeper(level)), "unk6: "@ + <U32 as Dump>::spec_dump(v.unk6, pretty, deeper(level)), "unk7: "@ + <U8 as Dump>::spec_dump(v.unk7, pretty, deeper(level)), "unk8: "@ + <U32 as Dump>::spec_dump(v.unk8, pretty, deeper(level))], pretty, level)
    }

    fn dump(&self, out: &mut String, pretty: bool, level: usize) {
        let dl = deeper_level(level);
        let mut items: Vec<String> = Vec::new();
        items.push(labelled("unk0: ", &self.unk0, pretty, dl));
        items.push(labelled("unk1: ", &self.unk1, pretty, dl));
        items.push(labelled("unk2: ", &self.unk2, pretty, dl));
        items.push(labelled("unk3: ", &self.unk3, pretty, dl));
        items.push(labelled("unk4: ", &self.unk4, pretty, dl));
        items.push(labelled("unk5: ", &self.unk5, pretty, dl));
        items.push(labelled("unk6: ", &self.unk6, pretty, dl));
        items.push(labelled("unk7: ", &self.unk7, pretty, dl));
        items.push(labelled("unk8: ", &self.unk8, pretty, dl));
        assert(strings_view(items@) =~= seq!["unk0: "@ + <U32 as Dump>::spec_dump(self@.unk0, pretty, deeper(level as nat)), "unk1: "@ + <U32 as Dump>::spec_dump(self@.unk1, pretty, deeper(level as nat)), "unk2: "@ + <U32 as Dump>::spec_dump(self@.unk2, pretty, deeper(level as nat)), "unk3: "@ + <U16 as Dump>::spec_dump(self@.unk3, pretty, deeper(level as nat)), "unk4: "@ + <U8 as Dump>::spec_dump(self@.unk4, pretty, deeper(level as nat)), "unk5: "@ + <U8 as Dump>::spec_dump(self@.unk5, pretty, deeper(level as nat)), "unk6: "@ + <U32 as Dump>::spec_dump(self@.unk6, pretty, deeper(level as nat)), "unk7: "@ + <U8 as Dump>::spec_dump(self@.unk7, pretty, deeper(level as nat)), "unk8: "@ + <U32 as Dump>::spec_dump(self@.unk8, pretty, deeper(level as nat))]);
        push_group(out, "ItemDescExt", GroupKind::Record, &items, pretty, level);
    }
}

impl Dump for HeartbeatClient {
    open spec fn spec_dump(v: HeartbeatClientView, pretty: bool, level: nat) -> Seq<char> {
        group_text("HeartbeatClient"@, GroupKind::Record, seq!["id: "@ + <U32 as Dump>::spec_dump(v.id, pretty, deeper(level)), "framerate: "@ + <U32 as Dump>::spec_dump(v.framerate, pretty, deeper(level)), "unk0: "@ + <U32 as Dump>::spec_dump(v.unk0, pretty, deeper(level)), "mb_ping: "@ + <U32 as Dump>::spec_dump(v.mb_ping, pretty, deeper(level)), "unk: "@ + items_list::<U32>(v.unk, pretty, deeper(level))], pretty, level)
    }

    fn dump(&self, out: &mut String, pretty: bool, level: usize) {
        let dl = deeper_level(level);
        let mut items: Vec<String> = Vec::new();
        items.push(labelled("id: ", &self.id, pretty, dl));
        items.push(labelled("framerate: ", &self.framerate, pretty, dl));
        items.push(labelled("unk0: ", &self.unk0, pretty, dl));
        items.push(labelled("mb_ping: ", &self.mb_ping, pretty, dl));
        items.push(labelled_list("unk: ", self.unk.as_slice(), pretty, dl));
        assert(strings_view(items@) =~= seq!["id: "@ + <U32 as Dump>::spec_dump(self@.id, pretty, deeper(level as nat)), "framerate: "@ + <U32 as Dump>::spec_dump(self@.framerate, pretty, deeper(level as nat)), "unk0: "@ + <U32 as Dump>::spec_dump(self@.unk0, pretty, deeper(level as nat)), "mb_ping: "@ + <U32 as Dump>::spec_dump(self@.mb_ping, pretty, deeper(level as nat)), "unk: "@ + items_list::<U32>(self@.unk, pretty, deeper(level as nat))]);
        push_group(out, "HeartbeatClient", GroupKind::Record, &items, pretty, level);
    }
}

impl Dump for HeartbeatServer {
    open spec fn spec_dump(v: HeartbeatServerView, pretty: bool, level: nat) -> Seq<char> {
        group_text("HeartbeatServer"@, GroupKind::Record, seq!["id: "@ + <U32 as Dump>::spec_dump(v.id, pretty, deeper(level)), "time: "@ + <U32 as Dump>::spec_dump(v.time, pretty, deeper(level))], pretty, level)
    }

    fn dump(&self, out: &mut String, pretty: bool, level: usize) {
        let dl = deeper_level(level);
        let mut items: Vec<String> = Vec::new();
        items.push(labelled("id: ", &self.id, pretty, dl));
        items.push(labelled("time: ", &self.time, pretty, dl));
        assert(strings_view(items@) =~= seq!["id: "@ + <U32 as Dump>::spec_dump(self@.id, pretty, deeper(level as nat)), "time: "@ + <U32 as Dump>::spec_dump(self@.time, pretty, deeper(level as nat))]);
        push_group(out, "HeartbeatServer", GroupKind::Record, &items, pretty, level);
    }
}

impl Dump for CharacterMove {
    open spec fn spec_dump(v: CharacterMoveView, pretty: bool, level: nat) -> Seq<char> {
        group_text("CharacterMove"@, GroupKind::Record, seq!["coords: "@ + <Coords as Dump>::spec_dump(v.coords, pretty, deeper(level)), "flags: "@ + <U16 as Dump>::spec_dump(v.flags, pretty, deeper(level)), "direction: "@ + <U16 as Dump>::spec_dump(v.direction, pretty, deeper(level)), "dir2: "@ + option_text::<U8>(v.dir2, pretty, deeper(level)), "unk4: "@ + option_text::<U8>(v.unk4, pretty, deeper(level))], pretty, level)
    }

    fn dump(&self, out: &mut String, pretty: bool, level: usize) {
        let dl = deeper_level(level);
        let mut items: Vec<String> = Vec::new();
        items.push(labelled("coords: ", &self.coords, pretty, dl));
        items.push(labelled("flags: ", &self.flags, pretty, dl));
        items.push(labelled("direction: ", &self.direction, pretty, dl));
        items.push(labelled_option("dir2: ", &self.dir2, pretty, dl));
        items.push(labelled_option("unk4: ", &self.unk4, pretty, dl));
        assert(strings_view(items@) =~= seq!["coords: "@ + <Coords as Dump>::spec_dump(self@.coords, pretty, deeper(level as nat)), "flags: "@ + <U16 as Dump>::spec_dump(self@.flags, pretty, deeper(level as nat)), "direction: "@ + <U16 as Dump>::spec_dump(self@.direction, pretty, deeper(level as nat)), "dir2: "@ + option_text::<U8>(self@.dir2, pretty, deeper(level as nat)), "unk4: "@ + option_text::<U8>(self@.unk4, pretty, deeper(level as nat))]);
        push_group(out, "CharacterMove", GroupKind::Record, &items, pretty, level);
    }
}

impl Dump for MobEntity {
    open spec fn spec_dump(v: MobEntityView, pretty: bool, level: nat) -> Seq<char> {
        group_text("MobEntity"@, GroupKind::Record, seq!["id: "@ + <U32 as Dump>::spec_dump(v.id, pretty, deeper(level)), "mob_id: "@ + <U16 as Dump>::spec_dump(v.mob_id, pretty, deeper(level)), "level: "@ + <U16 as Dump>::spec_dump(v.level, pretty, deeper(level)), "custom_name: "@ + <RString as Dump>::spec_dump(v.custom_name, pretty, deeper(level)), "hp: "@ + <U32 as Dump>::spec_dump(v.hp, pretty, deeper(level)), "coords: "@ + <Coords as Dump>::spec_dump(v.coords, pretty, deeper(level)), "unk2: "@ + <U8 as Dump>::spec_dump(v.unk2, pretty, deeper(level)), "unk3: "@ + <F32 as Dump>::spec_dump(v.unk3, pretty, deeper(level)), "scale: "@ + <F32 as Dump>::spec_dump(v.scale, pretty, deeper(level)), "unk5: "@ + <U32 as Dump>::spec_dump(v.unk5, pretty, deeper(level)), "unk6: "@ + <U32 as Dump>::spec_dump(v.unk6, pretty, deeper(level)), "max_hp: "@ + <U32 as Dump>::spec_dump(v.max_hp, pretty, deeper(level)), "unk8: "@ + <F32 as Dump>::spec_dump(v.unk8, pretty, deeper(level)), "unk9: "@ + <U16 as Dump>::spec_dump(v.unk9, pretty, deeper(level)), "unk10: "@ + <U32 as Dump>::spec_dump(v.unk10, pretty, deeper(level)), "unk11: "@ + <RBool as Dump>::spec_dump(v.unk11, pretty, deeper(level)), "unk12: "@ + <U32 as Dump>::spec_dump(v.unk12, pretty, deeper(level)), "unk13: "@ + <U32 as Dump>::spec_dump(v.unk13, pretty, deeper(level))], pretty, level)
    }

    fn dump(&self, out: &mut String, pretty: bool, level: usize) {
        let dl = deeper_level(level);
        let mut items: Vec<String> = Vec::new();
        items.push(labelled("id: ", &self.id, pretty, dl));
        items.push(labelled("mob_id: ", &self.mob_id, pretty, dl));
        items.push(labelled("level: ", &self.level, pretty, dl));
        items.push(labelled("custom_name: ", &self.custom_name, pretty, dl));
        items.push(labelled("hp: ", &self.hp, pretty, dl));
        items.push(labelled("coords: ", &self.coords, pretty, dl));
        items.push(labelled("unk2: ", &self.unk2, pretty, dl));
        items.push(labelled("unk3: ", &self.unk3, pretty, dl));
        items.push(labelled("scale: ", &self.scale, pretty, dl));
        items.push(labelled("unk5: ", &self.unk5, pretty, dl));
        items.push(labelled("unk6: ", &self.unk6, pretty, dl));
        items.push(labelled("max_hp: ", &self.max_hp, pretty, dl));
        items.push(labelled("unk8: ", &self.unk8, pretty, dl));
        items.push(labelled("unk9: ", &self.unk9, pretty, dl));
        items.push(labelled("unk10: ", &self.unk10, pretty, dl));
        items.push(labelled("unk11: ", &self.unk11, pretty, dl));
        items.push(labelled("unk12: ", &self.unk12, pretty, dl));
        items.push(labelled("unk13: ", &self.unk13, pretty, dl));
        assert(strings_view(items@) =~= seq!["id: "@ + <U32 as Dump>::spec_dump(self@.id, pretty, deeper(level as nat)), "mob_id: "@ + <U16 as Dump>::spec_dump(self@.mob_id, pretty, deeper(level as nat)), "level: "@ + <U16 as Dump>::spec_dump(self@.level, pretty, deeper(level as nat)), "custom_name: "@ + <RString as Dump>::spec_dump(self@.custom_name, pretty, deeper(level as nat)), "hp: "@ + <U32 as Dump>::spec_dump(self@.hp, pretty, deeper(level as nat)), "coords: "@ + <Coords as Dump>::spec_dump(self@.coords, pretty, deeper(level as nat)), "unk2: "@ + <U8 as Dump>::spec_dump(self@.unk2, pretty, deeper(level as nat)), "unk3: "@ + <F32 as Dump>::spec_dump(self@.unk3, pretty, deeper(level as nat)), "scale: "@ + <F32 as Dump>::spec_dump(self@.scale, pretty, deeper(level as nat)), "unk5: "@ + <U32 as Dump>::spec_dump(self@.unk5, pretty, deeper(level as nat)), "unk6: "@ + <U32 as Dump>::spec_dump(self@.unk6, pretty, deeper(level as nat)), "max_hp: "@ + <U32 as Dump>::spec_dump(self@.max_hp, pretty, deeper(level as nat)), "unk8: "@ + <F32 as Dump>::spec_dump(self@.unk8, pretty, deeper(level as nat)), "unk9: "@ + <U16 as Dump>::spec_dump(self@.unk9, pretty, deeper(level as nat)), "unk10: "@ + <U32 as Dump>::spec_dump(self@.unk10, pretty, deeper(level as nat)), "unk11: "@ + <RBool as Dump>::spec_dump(self@.unk11, pretty, deeper(level as nat)), "unk12: "@ + <U32 as Dump>::spec_dump(self@.unk12, pretty, deeper(level as nat)), "unk13: "@ + <U32 as Dump>::spec_dump(self@.unk13, pretty, deeper(level as nat))]);
        push_group(out, "MobEntity", GroupKind::Record, &items, pretty, level);
    }
}

impl Dump for PlayerEntity {
    open spec fn spec_dump(v: PlayerEntityView, pretty: bool, level: nat) -> Seq<char> {
        group_text("PlayerEntity"@, GroupKind::Record, seq!["id: "@ + <U32 as Dump>::spec_dump(v.id, pretty, deeper(level)), "class: "@ + <U16 as Dump>::spec_dump(v.class, pretty, deeper(level)), "level: "@ + <U16 as Dump>::spec_dump(v.level, pretty, deeper(level)), "unk4: "@ + <U8 as Dump>::spec_dump(v.unk4, pretty, deeper(level)), "unk5: "@ + <U8 as Dump>::spec_dump(v.unk5, pretty, deeper(level)), "unk6: "@ + <U8 as Dump>::spec_dump(v.unk6, pretty, deeper(level)), "name: "@ + <RString as Dump>::spec_dump(v.name, pretty, deeper(level)), "hp: "@ + <U32 as Dump>::spec_dump(v.hp, pretty, deeper(level)), "mp: "@ + <U32 as Dump>::spec_dump(v.mp, pretty, deeper(level)), "location_id: "@ + <U32 as Dump>::spec_dump(v.location_id, pretty, deeper(level)), "coords: "@ + <Coords as Dump>::spec_dump(v.coords, pretty, deeper(level)), "unk13: "@ + <U8 as Dump>::spec_dump(v.unk13, pretty, deeper(level)), "rot: "@ + <F32 as Dump>::spec_dump(v.rot, pretty, deeper(level)), "unk15: "@ + <RBool as Dump>::spec_dump(v.unk15, pretty, deeper(level)), "alive: "@ + <RBool as Dump>::spec_dump(v.alive, pretty, deeper(level)), "unk17: "@ + <RBool as Dump>::spec_dump(v.unk17, pretty, deeper(level)), "unk18: "@ + <RBool as Dump>::spec_dump(v.unk18, pretty, deeper(level)), "unk19: "@ + <RBool as Dump>::spec_dump(v.unk19, pretty, deeper(level)), "body: "@ + <BodyParam as Dump>::spec_dump(v.body, pretty, deeper(level)), "max_hp: "@ + <U32 as Dump>::spec_dump(v.max_hp, pretty, deeper(level)), "max_mp: "@ + <U32 as Dump>::spec_dump(v.max_mp, pretty, deeper(level)), "movspeed: "@ + <F32 as Dump>::spec_dump(v.movspeed, pretty, deeper(level)), "unk24: "@ + <U32 as Dump>::spec_dump(v.unk24, pretty, deeper(level)), "unk25: "@ + <U32 as Dump>::spec_dump(v.unk25, pretty, deeper(level)), "unk26: "@ + <U32 as Dump>::spec_dump(v.unk26, pretty, deeper(level)), "unk27: "@ + <U32 as Dump>::spec_dump(v.unk27, pretty, deeper(level)), "unk28: "@ + <U32 as Dump>::spec_dump(v.unk28, pretty, deeper(level)), "unk29: "@ + <U8 as Dump>::spec_dump(v.unk29, pretty, deeper(level)), "unk30: "@ + <U32 as Dump>::spec_dump(v.unk30, pretty, deeper(level)), "unk31: "@ + <U32 as Dump>::spec_dump(v.unk31, pretty, deeper(level)), "unk32: "@ + <RString as Dump>::spec_dump(v.unk32, pretty, deeper(level)), "unk33: "@ + <U64 as Dump>::spec_dump(v.unk33, pretty, deeper(level)), "unk34: "@ + <U16 as Dump>::spec_dump(v.unk34, pretty, deeper(level)), "unk35: "@ + <U16 as Dump>::spec_dump(v.unk35, pretty, deeper(level)), "unk36: "@ + <RBool as Dump>::spec_dump(v.unk36, pretty, deeper(level)), "unk37: "@ + <RString as Dump>::spec_dump(v.unk37, pretty, deeper(level)), "unk38: "@ + <U32 as Dump>::spec_dump(v.unk38, pretty, deeper(level)), "effects: "@ + <RVec<CameraEffect> as Dump>::spec_dump(v.effects, pretty, deeper(level)), "unk39: "@ + <Op13 as Dump>::spec_dump(v.unk39, pretty, deeper(level)), "current_exp: "@ + <U32 as Dump>::spec_dump(v.current_exp, pretty, deeper(level)), "unk41: "@ + <U32 as Dump>::spec_dump(v.unk41, pretty, deeper(level)), "unk42: "@ + <U16 as Dump>::spec_dump(v.unk42, pretty, deeper(level)), "stats: "@ + <RVec<F32> as Dump>::spec_dump(v.stats, pretty, deeper(level)), "stats2: "@ + items_list::<F32>(v.stats2, pretty, deeper(level)), "unk45: "@ + <U64 as Dump>::spec_dump(v.unk45, pretty, deeper(level)), "talents: "@ + <RVec<U16> as Dump>::spec_dump(v.talents, pretty, deeper(level)), "unk47: "@ + <RVec<U16> as Dump>::spec_dump(v.unk47, pretty, deeper(level)), "unk48: "@ + <U64 as Dump>::spec_dump(v.unk48, pretty, deeper(level)), "unk49: "@ + <F32 as Dump>::spec_dump(v.unk49, pretty, deeper(level)), "unk50: "@ + <F32 as Dump>::spec_dump(v.unk50, pretty, deeper(level)), "unk51: "@ + <U16 as Dump>::spec_dump(v.unk51, pretty, deeper(level)), "unk52: "@ + <U16 as Dump>::spec_dump(v.unk52, pretty, deeper(level)), "unk53: "@ + <U32 as Dump>::spec_dump(v.unk53, pretty, deeper(level)), "unk54: "@ + <U32 as Dump>::spec_dump(v.unk54, pretty, deeper(level)), "unk55: "@ + <U32 as Dump>::spec_dump(v.unk55, pretty, deeper(level)), "unk56: "@ + items_list::<U16>(v.unk56, pretty, deeper(level)), "unk57: "@ + <U16 as Dump>::spec_dump(v.unk57, pretty, deeper(level)), "unk58: "@ + items_list::<U16>(v.unk58, pretty, deeper(level)), "unk59: "@ + <U16 as Dump>::spec_dump(v.unk59, pretty, deeper(level)), "unk60: "@ + <CurrencyData as Dump>::spec_dump(v.unk60, pretty, deeper(level)), "unk61: "@ + <U8 as Dump>::spec_dump(v.unk61, pretty, deeper(level)), "ach_data: "@ + <RZlib as Dump>::spec_dump(v.ach_data, pretty, deeper(level))], pretty, level)
    }

    #[verifier::spinoff_prover]
    #[verifier::rlimit(100)]
    fn dump(&self, out: &mut String, pretty: bool, level: usize) {
        let dl = deeper_level(level);
        let mut items: Vec<String> = Vec::new();
        items.push(labelled("id: ", &self.id, pretty, dl));
        items.push(labelled("class: ", &self.class, pretty, dl));
        items.push(labelled("level: ", &self.level, pretty, dl));
        items.push(labelled("unk4: ", &self.unk4, pretty, dl));
        items.push(labelled("unk5: ", &self.unk5, pretty, dl));
        items.push(labelled("unk6: ", &self.unk6, pretty, dl));
        items.push(labelled("name: ", &self.name, pretty, dl));
        items.push(labelled("hp: ", &self.hp, pretty, dl));
        items.push(labelled("mp: ", &self.mp, pretty, dl));
        items.push(labelled("location_id: ", &self.location_id, pretty, dl));
        items.push(labelled("coords: ", &self.coords, pretty, dl));
        items.push(labelled("unk13: ", &self.unk13, pretty, dl));
        items.push(labelled("rot: ", &self.rot, pretty, dl));
        items.push(labelled("unk15: ", &self.unk15, pretty, dl));
        items.push(labelled("alive: ", &self.alive, pretty, dl));
        items.push(labelled("unk17: ", &self.unk17, pretty, dl));
        items.push(labelled("unk18: ", &self.unk18, pretty, dl));
        items.push(labelled("unk19: ", &self.unk19, pretty, dl));
        items.push(labelled("body: ", &self.body, pretty, dl));
        items.push(labelled("max_hp: ", &self.max_hp, pretty, dl));
        items.push(labelled("max_mp: ", &self.max_mp, pretty, dl));
        items.push(labelled("movspeed: ", &self.movspeed, pretty, dl));
        items.push(labelled("unk24: ", &self.unk24, pretty, dl));
        items.push(labelled("unk25: ", &self.unk25, pretty, dl));
        items.push(labelled("unk26: ", &self.unk26, pretty, dl));
        items.push(labelled("unk27: ", &self.unk27, pretty, dl));
        items.push(labelled("unk28: ", &self.unk28, pretty, dl));
        items.push(labelled("unk29: ", &self.unk29, pretty, dl));
        items.push(labelled("unk30: ", &self.unk30, pretty, dl));
        items.push(labelled("unk31: ", &self.unk31, pretty, dl));
        items.push(labelled("unk32: ", &self.unk32, pretty, dl));
        items.push(labelled("unk33: ", &self.unk33, pretty, dl));
        items.push(labelled("unk34: ", &self.unk34, pretty, dl));
        items.push(labelled("unk35: ", &self.unk35, pretty, dl));
        items.push(labelled("unk36: ", &self.unk36, pretty, dl));
        items.push(labelled("unk37: ", &self.unk37, pretty, dl));
        items.push(labelled("unk38: ", &self.unk38, pretty, dl));
        items.push(labelled("effects: ", &self.effects, pretty, dl));
        items.push(labelled("unk39: ", &self.unk39, pretty, dl));
        items.push(labelled("current_exp: ", &self.current_exp, pretty, dl));
        items.push(labelled("unk41: ", &self.unk41, pretty, dl));
        items.push(labelled("unk42: ", &self.unk42, pretty, dl));
        items.push(labelled("stats: ", &self.stats, pretty, dl));
        items.push(labelled_list("stats2: ", self.stats2.as_slice(), pretty, dl));
        items.push(labelled("unk45: ", &self.unk45, pretty, dl));
        items.push(labelled("talents: ", &self.talents, pretty, dl));
        items.push(labelled("unk47: ", &self.unk47, pretty, dl));
        items.push(labelled("unk48: ", &self.unk48, pretty, dl));
        items.push(labelled("unk49: ", &self.unk49, pretty, dl));
        items.push(labelled("unk50: ", &self.unk50, pretty, dl));
        items.push(labelled("unk51: ", &self.unk51, pretty, dl));
        items.push(labelled("unk52: ", &self.unk52, pretty, dl));
        items.push(labelled("unk53: ", &self.unk53, pretty, dl));
        items.push(labelled("unk54: ", &self.unk54, pretty, dl));
        items.push(labelled("unk55: ", &self.unk55, pretty, dl));
        items.push(labelled_list("unk56: ", self.unk56.as_slice(), pretty, dl));
        items.push(labelled("unk57: ", &self.unk57, pretty, dl));
        items.push(labelled_list("unk58: ", self.unk58.as_slice(), pretty, dl));
        items.push(labelled("unk59: ", &self.unk59, pretty, dl));
        items.push(labelled("unk60: ", &self.unk60, pretty, dl));
        items.push(labelled("unk61: ", &self.unk61, pretty, dl));
        items.push(labelled("ach_data: ", &self.ach_data, pretty, dl));
        assert(strings_view(items@) =~= seq!["id: "@ + <U32 as Dump>::spec_dump(self@.id, pretty, deeper(level as nat)), "class: "@ + <U16 as Dump>::spec_dump(self@.class, pretty, deeper(level as nat)), "level: "@ + <U16 as Dump>::spec_dump(self@.level, pretty, deeper(level as nat)), "unk4: "@ + <U8 as Dump>::spec_dump(self@.unk4, pretty, deeper(level as nat)), "unk5: "@ + <U8 as Dump>::spec_dump(self@.unk5, pretty, deeper(level as nat)), "unk6: "@ + <U8 as Dump>::spec_dump(self@.unk6, pretty, deeper(level as nat)), "name: "@ + <RString as Dump>::spec_dump(self@.name, pretty, deeper(level as nat)), "hp: "@ + <U32 as Dump>::spec_dump(self@.hp, pretty, deeper(level as nat)), "mp: "@ + <U32 as Dump>::spec_dump(self@.mp, pretty, deeper(level as nat)), "location_id: "@ + <U32 as Dump>::spec_dump(self@.location_id, pretty, deeper(level as nat)), "coords: "@ + <Coords as Dump>::spec_dump(self@.coords, pretty, deeper(level as nat)), "unk13: "@ + <U8 as Dump>::spec_dump(self@.unk13, pretty, deeper(level as nat)), "rot: "@ + <F32 as Dump>::spec_dump(self@.rot, pretty, deeper(level as nat)), "unk15: "@ + <RBool as Dump>::spec_dump(self@.unk15, pretty, deeper(level as nat)), "alive: "@ + <RBool as Dump>::spec_dump(self@.alive, pretty, deeper(level as nat)), "unk17: "@ + <RBool as Dump>::spec_dump(self@.unk17, pretty, deeper(level as nat)), "unk18: "@ + <RBool as Dump>::spec_dump(self@.unk18, pretty, deeper(level as nat)), "unk19: "@ + <RBool as Dump>::spec_dump(self@.unk19, pretty, deeper(level as nat)), "body: "@ + <BodyParam as Dump>::spec_dump(self@.body, pretty, deeper(level as nat)), "max_hp: "@ + <U32 as Dump>::spec_dump(self@.max_hp, pretty, deeper(level as nat)), "max_mp: "@ + <U32 as Dump>::spec_dump(self@.max_mp, pretty, deeper(level as nat)), "movspeed: "@ + <F32 as Dump>::spec_dump(self@.movspeed, pretty, deeper(level as nat)), "unk24: "@ + <U32 as Dump>::spec_dump(self@.unk24, pretty, deeper(level as nat)), "unk25: "@ + <U32 as Dump>::spec_dump(self@.unk25, pretty, deeper(level as nat)), "unk26: "@ + <U32 as Dump>::spec_dump(self@.unk26, pretty, deeper(level as nat)), "unk27: "@ + <U32 as Dump>::spec_dump(self@.unk27, pretty, deeper(level as nat)), "unk28: "@ + <U32 as Dump>::spec_dump(self@.unk28, pretty, deeper(level as nat)), "unk29: "@ + <U8 as Dump>::spec_dump(self@.unk29, pretty, deeper(level as nat)), "unk30: "@ + <U32 as Dump>::spec_dump(self@.unk30, pretty, deeper(level as nat)), "unk31: "@ + <U32 as Dump>::spec_dump(self@.unk31, pretty, deeper(level as nat)), "unk32: "@ + <RString as Dump>::spec_dump(self@.unk32, pretty, deeper(level as nat)), "unk33: "@ + <U64 as Dump>::spec_dump(self@.unk33, pretty, deeper(level as nat)), "unk34: "@ + <U16 as Dump>::spec_dump(self@.unk34, pretty, deeper(level as nat)), "unk35: "@ + <U16 as Dump>::spec_dump(self@.unk35, pretty, deeper(level as nat)), "unk36: "@ + <RBool as Dump>::spec_dump(self@.unk36, pretty, deeper(level as nat)), "unk37: "@ + <RString as Dump>::spec_dump(self@.unk37, pretty, deeper(level as nat)), "unk38: "@ + <U32 as Dump>::spec_dump(self@.unk38, pretty, deeper(level as nat)), "effects: "@ + <RVec<CameraEffect> as Dump>::spec_dump(self@.effects, pretty, deeper(level as nat)), "unk39: "@ + <Op13 as Dump>::spec_dump(self@.unk39, pretty, deeper(level as nat)), "current_exp: "@ + <U32 as Dump>::spec_dump(self@.current_exp, pretty, deeper(level as nat)), "unk41: "@ + <U32 as Dump>::spec_dump(self@.unk41, pretty, deeper(level as nat)), "unk42: "@ + <U16 as Dump>::spec_dump(self@.unk42, pretty, deeper(level as nat)), "stats: "@ + <RVec<F32> as Dump>::spec_dump(self@.stats, pretty, deeper(level as nat)), "stats2: "@ + items_list::<F32>(self@.stats2, pretty, deeper(level as nat)), "unk45: "@ + <U64 as Dump>::spec_dump(self@.unk45, pretty, deeper(level as nat)), "talents: "@ + <RVec<U16> as Dump>::spec_dump(self@.talents, pretty, deeper(level as nat)), "unk47: "@ + <RVec<U16> as Dump>::spec_dump(self@.unk47, pretty, deeper(level as nat)), "unk48: "@ + <U64 as Dump>::spec_dump(self@.unk48, pretty, deeper(level as nat)), "unk49: "@ + <F32 as Dump>::spec_dump(self@.unk49, pretty, deeper(level as nat)), "unk50: "@ + <F32 as Dump>::spec_dump(self@.unk50, pretty, deeper(level as nat)), "unk51: "@ + <U16 as Dump>::spec_dump(self@.unk51, pretty, deeper(level as nat)), "unk52: "@ + <U16 as Dump>::spec_dump(self@.unk52, pretty, deeper(level as nat)), "unk53: "@ + <U32 as Dump>::spec_dump(self@.unk53, pretty, deeper(level as nat)), "unk54: "@ + <U32 as Dump>::spec_dump(self@.unk54, pretty, deeper(level as nat)), "unk55: "@ + <U32 as Dump>::spec_dump(self@.unk55, pretty, deeper(level as nat)), "unk56: "@ + items_list::<U16>(self@.unk56, pretty, deeper(level as nat)), "unk57: "@ + <U16 as Dump>::spec_dump(self@.unk57, pretty, deeper(level as nat)), "unk58: "@ + items_list::<U16>(self@.unk58, pretty, deeper(level as nat)), "unk59: "@ + <U16 as Dump>::spec_dump(self@.unk59, pretty, deeper(level as nat)), "unk60: "@ + <CurrencyData as Dump>::spec_dump(self@.unk60, pretty, deeper(level as nat)), "unk61: "@ + <U8 as Dump>::spec_dump(self@.unk61, pretty, deeper(level as nat)), "ach_data: "@ + <RZlib as Dump>::spec_dump(self@.ach_data, pretty, deeper(level as nat))]);
        push_group(out, "PlayerEntity", GroupKind::Record, &items, pretty, level);
    }
}

impl Dump for EntityMove {
    open spec fn spec_dump(v: EntityMoveView, pretty: bool, level: nat) -> Seq<char> {
        group_text("EntityMove"@, GroupKind::Record, seq!["id: "@ + <U32 as Dump>::spec_dump(v.id, pretty, deeper(level)), "coords: "@ + <Coords as Dump>::spec_dump(v.coords, pretty, deeper(level)), "unk12: "@ + <U16 as Dump>::spec_dump(v.unk12, pretty, deeper(level)), "flags: "@ + <U16 as Dump>::spec_dump(v.flags, pretty, deeper(level)), "direction: "@ + <U16 as Dump>::spec_dump(v.direction, pretty, deeper(level))], pretty, level)
    }

    fn dump(&self, out: &mut String, pretty: bool, level: usize) {
        let dl = deeper_level(level);
        let mut items: Vec<String> = Vec::new();
        items.push(labelled("id: ", &self.id, pretty, dl));
        items.push(labelled("coords: ", &self.coords, pretty, dl));
        items.push(labelled("unk12: ", &self.unk12, pretty, dl));
        items.push(labelled("flags: ", &self.flags, pretty, dl));
        items.push(labelled("direction: ", &self.direction, pretty, dl));
        assert(strings_view(items@) =~= seq!["id: "@ + <U32 as Dump>::spec_dump(self@.id, pretty, deeper(level as nat)), "coords: "@ + <Coords as Dump>::spec_dump(self@.coords, pretty, deeper(level as nat)), "unk12: "@ + <U16 as Dump>::spec_dump(self@.unk12, pretty, deeper(level as nat)), "flags: "@ + <U16 as Dump>::spec_dump(self@.flags, pretty, deeper(level as nat)), "direction: "@ + <U16 as Dump>::spec_dump(self@.direction, pretty, deeper(level as nat))]);
        push_group(out, "EntityMove", GroupKind::Record, &items, pretty, level);
    }
}

impl Dump for EntityRemove {
    open spec fn spec_dump(v: EntityRemoveView, pretty: bool, level: nat) -> Seq<char> {
        group_text("EntityRemove"@, GroupKind::Record, seq!["id: "@ + <U32 as Dump>::spec_dump(v.id, pretty, deeper(level))], pretty, level)
    }

    fn dump(&self, out: &mut String, pretty: bool, level: usize) {
        let dl = deeper_level(level);
        let mut items: Vec<String> = Vec::new();
        items.push(labelled("id: ", &self.id, pretty, dl));
        assert(strings_view(items@) =~= seq!["id: "@ + <U32 as Dump>::spec_dump(self@.id, pretty, deeper(level as nat))]);
        push_group(out, "EntityRemove", GroupKind::Record, &items, pretty, level);
    }
}

impl Dump for SendChatMessage {
    open spec fn spec_dump(v: SendChatMessageView, pretty: bool, level: nat) -> Seq<char> {
        group_text("SendChatMessage"@, GroupKind::Record, seq!["chat_id: "@ + <Op21 as Dump>::spec_dump(v.chat_id, pretty, deeper(level)), "text: "@ + <RString as Dump>::spec_dump(v.text, pretty, deeper(level))], pretty, level)
    }

    fn dump(&self, out: &mut String, pretty: bool, level: usize) {
        let dl = deeper_level(level);
        let mut items: Vec<String> = Vec::new();
        items.push(labelled("chat_id: ", &self.chat_id, pretty, dl));
        items.push(labelled("text: ", &self.text, pretty, dl));
        assert(strings_view(items@) =~= seq!["chat_id: "@ + <Op21 as Dump>::spec_dump(self@.chat_id, pretty, deeper(level as nat)), "text: "@ + <RString as Dump>::spec_dump(self@.text, pretty, deeper(level as nat))]);
        push_group(out, "SendChatMessage", GroupKind::Record, &items, pretty, level);
    }
}

impl Dump for ChatMessage {
    open spec fn spec_dump(v: ChatMessageView, pretty: bool, level: nat) -> Seq<char> {
        group_text("ChatMessage"@, GroupKind::Record, seq!["chat_id: "@ + <Op21 as Dump>::spec_dump(v.chat_id, pretty, deeper(level)), "text: "@ + <RString as Dump>::spec_dump(v.text, pretty, deeper(level)), "name: "@ + <RString as Dump>::spec_dump(v.name, pretty, deeper(level))], pretty, level)
    }

    fn dump(&self, out: &mut String, pretty: bool, level: usize) {
        let dl = deeper_level(level);
        let mut items: Vec<String> = Vec::new();
        items.push(labelled("chat_id: ", &self.chat_id, pretty, dl));
        items.push(labelled("text: ", &self.text, pretty, dl));
        items.push(labelled("name: ", &self.name, pretty, dl));
        assert(strings_view(items@) =~= seq!["chat_id: "@ + <Op21 as Dump>::spec_dump(self@.chat_id, pretty, deeper(level as nat)), "text: "@ + <RString as Dump>::spec_dump(self@.text, pretty, deeper(level as nat)), "name: "@ + <RString as Dump>::spec_dump(self@.name, pretty, deeper(level as nat))]);
        push_group(out, "ChatMessage", GroupKind::Record, &items, pretty, level);
    }
}

impl Dump for UpdateBalance {
    open spec fn spec_dump(v: UpdateBalanceView, pretty: bool, level: nat) -> Seq<char> {
        group_text("UpdateBalance"@, GroupKind::Record, seq!["currency: "@ + <U8 as Dump>::spec_dump(v.currency, pretty, deeper(level)), "balance: "@ + <U64 as Dump>::spec_dump(v.balance, pretty, deeper(level))], pretty, level)
    }

    fn dump(&self, out: &mut String, pretty: bool, level: usize) {
        let dl = deeper_level(level);
        let mut items: Vec<String> = Vec::new();
        items.push(labelled("currency: ", &self.currency, pretty, dl));
        items.push(labelled("balance: ", &self.balance, pretty, dl));
        assert(strings_view(items@) =~= seq!["currency: "@ + <U8 as Dump>::spec_dump(self@.currency, pretty, deeper(level as nat)), "balance: "@ + <U64 as Dump>::spec_dump(self@.balance, pretty, deeper(level as nat))]);
        push_group(out, "UpdateBalance", GroupKind::Record, &items, pretty, level);
    }
}

impl Dump for SwitchLocation {
    open spec fn spec_dump(v: SwitchLocationView, pretty: bool, level: nat) -> Seq<char> {
        group_text("SwitchLocation"@, GroupKind::Record, seq!["location_id: "@ + <U32 as Dump>::spec_dump(v.location_id, pretty, deeper(level)), "unk1: "@ + <U32 as Dump>::spec_dump(v.unk1, pretty, deeper(level))], pretty, level)
    }

    fn dump(&self, out: &mut String, pretty: bool, level: usize) {
        let dl = deeper_level(level);
        let mut items: Vec<String> = Vec::new();
        items.push(labelled("location_id: ", &self.location_id, pretty, dl));
        items.push(labelled("unk1: ", &self.unk1, pretty, dl));
        assert(strings_view(items@) =~= seq!["location_id: "@ + <U32 as Dump>::spec_dump(self@.location_id, pretty, deeper(level as nat)), "unk1: "@ + <U32 as Dump>::spec_dump(self@.unk1, pretty, deeper(level as nat))]);
        push_group(out, "SwitchLocation", GroupKind::Record, &items, pretty, level);
    }
}

impl Dump for PosCamera {
    open spec fn spec_dump(v: PosCameraView, pretty: bool, level: nat) -> Seq<char> {
        group_text("PosCamera"@, GroupKind::Record, seq!["unk0: "@ + <U32 as Dump>::spec_dump(v.unk0, pretty, deeper(level)), "coords: "@ + <Coords as Dump>::spec_dump(v.coords, pretty, deeper(level)), "rot: "@ + <F32 as Dump>::spec_dump(v.rot, pretty, deeper(level)), "unk4: "@ + <U8 as Dump>::spec_dump(v.unk4, pretty, deeper(level)), "movspeed: "@ + <F32 as Dump>::spec_dump(v.movspeed, pretty, deeper(level)), "effects: "@ + <RVec<CameraEffect> as Dump>::spec_dump(v.effects, pretty, deeper(level))], pretty, level)
    }

    fn dump(&self, out: &mut String, pretty: bool, level: usize) {
        let dl = deeper_level(level);
        let mut items: Vec<String> = Vec::new();
        items.push(labelled("unk0: ", &self.unk0, pretty, dl));
        items.push(labelled("coords: ", &self.coords, pretty, dl));
        items.push(labelled("rot: ", &self.rot, pretty, dl));
        items.push(labelled("unk4: ", &self.unk4, pretty, dl));
        items.push(labelled("movspeed: ", &self.movspeed, pretty, dl));
        items.push(labelled("effects: ", &self.effects, pretty, dl));
        assert(strings_view(items@) =~= seq!["unk0: "@ + <U32 as Dump>::spec_dump(self@.unk0, pretty, deeper(level as nat)), "coords: "@ + <Coords as Dump>::spec_dump(self@.coords, pretty, deeper(level as nat)), "rot: "@ + <F32 as Dump>::spec_dump(self@.rot, pretty, deeper(level as nat)), "unk4: "@ + <U8 as Dump>::spec_dump(self@.unk4, pretty, deeper(level as nat)), "movspeed: "@ + <F32 as Dump>::spec_dump(self@.movspeed, pretty, deeper(level as nat)), "effects: "@ + <RVec<CameraEffect> as Dump>::spec_dump(self@.effects, pretty, deeper(level as nat))]);
        push_group(out, "PosCamera", GroupKind::Record, &items, pretty, level);
    }
}

impl Dump for CameraEffect {
    open spec fn spec_dump(v: CameraEffectView, pretty: bool, level: nat) -> Seq<char> {
        group_text("CameraEffect"@, GroupKind::Record, seq!["id: "@ + <U16 as Dump>::spec_dump(v.id, pretty, deeper(level)), "player_id: "@ + <U32 as Dump>::spec_dump(v.player_id, pretty, deeper(level)), "unk2: "@ + <U32 as Dump>::spec_dump(v.unk2, pretty, deeper(level)), "v1: "@ + <Prefixed as Dump>::spec_dump(v.v1, pretty, deeper(level)), "v2: "@ + <Prefixed as Dump>::spec_dump(v.v2, pretty, deeper(level))], pretty, level)
    }

    fn dump(&self, out: &mut String, pretty: bool, level: usize) {
        let dl = deeper_level(level);
        let mut items: Vec<String> = Vec::new();
        items.push(labelled("id: ", &self.id, pretty, dl));
        items.push(labelled("player_id: ", &self.player_id, pretty, dl));
        items.push(labelled("unk2: ", &self.unk2, pretty, dl));
        items.push(labelled("v1: ", &self.v1, pretty, dl));
        items.push(labelled("v2: ", &self.v2, pretty, dl));
        assert(strings_view(items@) =~= seq!["id: "@ + <U16 as Dump>::spec_dump(self@.id, pretty, deeper(level as nat)), "player_id: "@ + <U32 as Dump>::spec_dump(self@.player_id, pretty, deeper(level as nat)), "unk2: "@ + <U32 as Dump>::spec_dump(self@.unk2, pretty, deeper(level as nat)), "v1: "@ + <Prefixed as Dump>::spec_dump(self@.v1, pretty, deeper(level as nat)), "v2: "@ + <Prefixed as Dump>::spec_dump(self@.v2, pretty, deeper(level as nat))]);
        push_group(out, "CameraEffect", GroupKind::Record, &items, pretty, level);
    }
}

impl Dump for UseAbility {
    open spec fn spec_dump(v: UseAbilityView, pretty: bool, level: nat) -> Seq<char> {
        group_text("UseAbility"@, GroupKind::Record, seq!["target_id: "@ + <U32 as Dump>::spec_dump(v.target_id, pretty, deeper(level)), "skill_id: "@ + <U16 as Dump>::spec_dump(v.skill_id, pretty, deeper(level)), "used_item: "@ + <InvSlot as Dump>::spec_dump(v.used_item, pretty, deeper(level)), "unk10: "@ + <U8 as Dump>::spec_dump(v.unk10, pretty, deeper(level)), "pos0: "@ + <Coords as Dump>::spec_dump(v.pos0, pretty, deeper(level)), "pos1: "@ + <Coords as Dump>::spec_dump(v.pos1, pretty, deeper(level)), "unk13: "@ + <U32 as Dump>::spec_dump(v.unk13, pretty, deeper(level))], pretty, level)
    }

    fn dump(&self, out: &mut String, pretty: bool, level: usize) {
        let dl = deeper_level(level);
        let mut items: Vec<String> = Vec::new();
        items.push(labelled("target_id: ", &self.target_id, pretty, dl));
        items.push(labelled("skill_id: ", &self.skill_id, pretty, dl));
        items.push(labelled("used_item: ", &self.used_item, pretty, dl));
        items.push(labelled("unk10: ", &self.unk10, pretty, dl));
        items.push(labelled("pos0: ", &self.pos0, pretty, dl));
        items.push(labelled("pos1: ", &self.pos1, pretty, dl));
        items.push(labelled("unk13: ", &self.unk13, pretty, dl));
        assert(strings_view(items@) =~= seq!["target_id: "@ + <U32 as Dump>::spec_dump(self@.target_id, pretty, deeper(level as nat)), "skill_id: "@ + <U16 as Dump>::spec_dump(self@.skill_id, pretty, deeper(level as nat)), "used_item: "@ + <InvSlot as Dump>::spec_dump(self@.used_item, pretty, deeper(level as nat)), "unk10: "@ + <U8 as Dump>::spec_dump(self@.unk10, pretty, deeper(level as nat)), "pos0: "@ + <Coords as Dump>::spec_dump(self@.pos0, pretty, deeper(level as nat)), "pos1: "@ + <Coords as Dump>::spec_dump(self@.pos1, pretty, deeper(level as nat)), "unk13: "@ + <U32 as Dump>::spec_dump(self@.unk13, pretty, deeper(level as nat))]);
        push_group(out, "UseAbility", GroupKind::Record, &items, pretty, level);
    }
}

impl Dump for PickupRequest {
    open spec fn spec_dump(v: PickupRequestView, pretty: bool, level: nat) -> Seq<char> {
        group_text("PickupRequest"@, GroupKind::Record, seq!["entity_id: "@ + <U32 as Dump>::spec_dump(v.entity_id, pretty, deeper(level))], pretty, level)
    }

    fn dump(&self, out: &mut String, pretty: bool, level: usize) {
        let dl = deeper_level(level);
        let mut items: Vec<String> = Vec::new();
        items.push(labelled("entity_id: ", &self.entity_id, pretty, dl));
        assert(strings_view(items@) =~= seq!["entity_id: "@ + <U32 as Dump>::spec_dump(self@.entity_id, pretty, deeper(level as nat))]);
        push_group(out, "PickupRequest", GroupKind::Record, &items, pretty, level);
    }
}

impl Dump for EntityAction {
    open spec fn spec_dump(v: EntityActionView, pretty: bool, level: nat) -> Seq<char> {
        group_text("EntityAction"@, GroupKind::Record, seq!["entity_id: "@ + <U32 as Dump>::spec_dump(v.entity_id, pretty, deeper(level)), "skill_id: "@ + <U16 as Dump>::spec_dump(v.skill_id, pretty, deeper(level)), "dtype: "@ + <U16 as Dump>::spec_dump(v.dtype, pretty, deeper(level)), "param: "@ + <F32 as Dump>::spec_dump(v.param, pretty, deeper(level)), "pos: "@ + option_text::<Coords>(v.pos, pretty, deeper(level)), "target_id: "@ + <U32 as Dump>::spec_dump(v.target_id, pretty, deeper(level))], pretty, level)
    }

    fn dump(&self, out: &mut String, pretty: bool, level: usize) {
        let dl = deeper_level(level);
        let mut items: Vec<String> = Vec::new();
        items.push(labelled("entity_id: ", &self.entity_id, pretty, dl));
        items.push(labelled("skill_id: ", &self.skill_id, pretty, dl));
        items.push(labelled("dtype: ", &self.dtype, pretty, dl));
        items.push(labelled("param: ", &self.param, pretty, dl));
        items.push(labelled_option("pos: ", &self.pos, pretty, dl));
        items.push(labelled("target_id: ", &self.target_id, pretty, dl));
        assert(strings_view(items@) =~= seq!["entity_id: "@ + <U32 as Dump>::spec_dump(self@.entity_id, pretty, deeper(level as nat)), "skill_id: "@ + <U16 as Dump>::spec_dump(self@.skill_id, pretty, deeper(level as nat)), "dtype: "@ + <U16 as Dump>::spec_dump(self@.dtype, pretty, deeper(level as nat)), "param: "@ + <F32 as Dump>::spec_dump(self@.param, pretty, deeper(level as nat)), "pos: "@ + option_text::<Coords>(self@.pos, pretty, deeper(level as nat)), "target_id: "@ + <U32 as Dump>::spec_dump(self@.target_id, pretty, deeper(level as nat))]);
        push_group(out, "EntityAction", GroupKind::Record, &items, pretty, level);
    }
}

impl Dump for DealtDamage {
    open spec fn spec_dump(v: DealtDamageView, pretty: bool, level: nat) -> Seq<char> {
        group_text("DealtDamage"@, GroupKind::Record, seq!["target_id: "@ + <U32 as Dump>::spec_dump(v.target_id, pretty, deeper(level)), "damager_id: "@ + <U32 as Dump>::spec_dump(v.damager_id, pretty, deeper(level)), "unk8: "@ + <U8 as Dump>::spec_dump(v.unk8, pretty, deeper(level)), "skill_id: "@ + <U32 as Dump>::spec_dump(v.skill_id, pretty, deeper(level)), "damage: "@ + <U32 as Dump>::spec_dump(v.damage, pretty, deeper(level)), "unk11: "@ + <U32 as Dump>::spec_dump(v.unk11, pretty, deeper(level))], pretty, level)
    }

    fn dump(&self, out: &mut String, pretty: bool, level: usize) {
        let dl = deeper_level(level);
        let mut items: Vec<String> = Vec::new();
        items.push(labelled("target_id: ", &self.target_id, pretty, dl));
        items.push(labelled("damager_id: ", &self.damager_id, pretty, dl));
        items.push(labelled("unk8: ", &self.unk8, pretty, dl));
        items.push(labelled("skill_id: ", &self.skill_id, pretty, dl));
        items.push(labelled("damage: ", &self.damage, pretty, dl));
        items.push(labelled("unk11: ", &self.unk11, pretty, dl));
        assert(strings_view(items@) =~= seq!["target_id: "@ + <U32 as Dump>::spec_dump(self@.target_id, pretty, deeper(level as nat)), "damager_id: "@ + <U32 as Dump>::spec_dump(self@.damager_id, pretty, deeper(level as nat)), "unk8: "@ + <U8 as Dump>::spec_dump(self@.unk8, pretty, deeper(level as nat)), "skill_id: "@ + <U32 as Dump>::spec_dump(self@.skill_id, pretty, deeper(level as nat)), "damage: "@ + <U32 as Dump>::spec_dump(self@.damage, pretty, deeper(level as nat)), "unk11: "@ + <U32 as Dump>::spec_dump(self@.unk11, pretty, deeper(level as nat))]);
        push_group(out, "DealtDamage", GroupKind::Record, &items, pretty, level);
    }
}

impl Dump for EntityActionPassive {
    open spec fn spec_dump(v: EntityActionPassiveView, pretty: bool, level: nat) -> Seq<char> {
        group_text("EntityActionPassive"@, GroupKind::Record, seq!["entity_id: "@ + <U32 as Dump>::spec_dump(v.entity_id, pretty, deeper(level)), "kind: "@ + <U16 as Dump>::spec_dump(v.kind, pretty, deeper(level)), "unk3: "@ + option_text::<U32>(v.unk3, pretty, deeper(level)), "unk6: "@ + option_text::<U32>(v.unk6, pretty, deeper(level)), "target_id: "@ + option_text::<U32>(v.target_id, pretty, deeper(level))], pretty, level)
    }

    fn dump(&self, out: &mut String, pretty: bool, level: usize) {
        let dl = deeper_level(level);
        let mut items: Vec<String> = Vec::new();
        items.push(labelled("entity_id: ", &self.entity_id, pretty, dl));
        items.push(labelled("kind: ", &self.kind, pretty, dl));
        items.push(labelled_option("unk3: ", &self.unk3, pretty, dl));
        items.push(labelled_option("unk6: ", &self.unk6, pretty, dl));
        items.push(labelled_option("target_id: ", &self.target_id, pretty, dl));
        assert(strings_view(items@) =~= seq!["entity_id: "@ + <U32 as Dump>::spec_dump(self@.entity_id, pretty, deeper(level as nat)), "kind: "@ + <U16 as Dump>::spec_dump(self@.kind, pretty, deeper(level as nat)), "unk3: "@ + option_text::<U32>(self@.unk3, pretty, deeper(level as nat)), "unk6: "@ + option_text::<U32>(self@.unk6, pretty, deeper(level as nat)), "target_id: "@ + option_text::<U32>(self@.target_id, pretty, deeper(level as nat))]);
        push_group(out, "EntityActionPassive", GroupKind::Record, &items, pretty, level);
    }
}

impl Dump for EntityDeath {
    open spec fn spec_dump(v: EntityDeathView, pretty: bool, level: nat) -> Seq<char> {
        group_text("EntityDeath"@, GroupKind::Record, seq!["id: "@ + <U32 as Dump>::spec_dump(v.id, pretty, deeper(level))], pretty, level)
    }

    fn dump(&self, out: &mut String, pretty: bool, level: usize) {
        let dl = deeper_level(level);
        let mut items: Vec<String> = Vec::new();
        items.push(labelled("id: ", &self.id, pretty, dl));
        assert(strings_view(items@) =~= seq!["id: "@ + <U32 as Dump>::spec_dump(self@.id, pretty, deeper(level as nat))]);
        push_group(out, "EntityDeath", GroupKind::Record, &items, pretty, level);
    }
}

impl Dump for BattleLog {
    open spec fn spec_dump(v: BattleLogView, pretty: bool, level: nat) -> Seq<char> {
        group_text("BattleLog"@, GroupKind::Record, seq!["tag: "@ + <U8 as Dump>::spec_dump(v.tag, pretty, deeper(level))], pretty, level)
    }

    fn dump(&self, out: &mut String, pretty: bool, level: usize) {
        let dl = deeper_level(level);
        let mut items: Vec<String> = Vec::new();
        items.push(labelled("tag: ", &self.tag, pretty, dl));
        assert(strings_view(items@) =~= seq!["tag: "@ + <U8 as Dump>::spec_dump(self@.tag, pretty, deeper(level as nat))]);
        push_group(out, "BattleLog", GroupKind::Record, &items, pretty, level);
    }
}

impl Dump for StatUpdate {
    open spec fn spec_dump(v: StatUpdateView, pretty: bool, level: nat) -> Seq<char> {
        group_text("StatUpdate"@, GroupKind::Record, seq!["stat: "@ + <U32 as Dump>::spec_dump(v.stat, pretty, deeper(level)), "value: "@ + <F32 as Dump>::spec_dump(v.value, pretty, deeper(level)), "unk: "@ + <F32 as Dump>::spec_dump(v.unk, pretty, deeper(level))], pretty, level)
    }

    fn dump(&self, out: &mut String, pretty: bool, level: usize) {
        let dl = deeper_level(level);
        let mut items: Vec<String> = Vec::new();
        items.push(labelled("stat: ", &self.stat, pretty, dl));
        items.push(labelled("value: ", &self.value, pretty, dl));
        items.push(labelled("unk: ", &self.unk, pretty, dl));
        assert(strings_view(items@) =~= seq!["stat: "@ + <U32 as Dump>::spec_dump(self@.stat, pretty, deeper(level as nat)), "value: "@ + <F32 as Dump>::spec_dump(self@.value, pretty, deeper(level as nat)), "unk: "@ + <F32 as Dump>::spec_dump(self@.unk, pretty, deeper(level as nat))]);
        push_group(out, "StatUpdate", GroupKind::Record, &items, pretty, level);
    }
}

impl Dump for ExperienceAmount {
    open spec fn spec_dump(v: ExperienceAmountView, pretty: bool, level: nat) -> Seq<char> {
        group_text("ExperienceAmount"@, GroupKind::Record, seq!["value: "@ + <U32 as Dump>::spec_dump(v.value, pretty, deeper(level))], pretty, level)
    }

    fn dump(&self, out: &mut String, pretty: bool, level: usize) {
        let dl = deeper_level(level);
        let mut items: Vec<String> = Vec::new();
        items.push(labelled("value: ", &self.value, pretty, dl));
        assert(strings_view(items@) =~= seq!["value: "@ + <U32 as Dump>::spec_dump(self@.value, pretty, deeper(level as nat))]);
        push_group(out, "ExperienceAmount", GroupKind::Record, &items, pretty, level);
    }
}

impl Dump for SkillCooldown {
    open spec fn spec_dump(v: SkillCooldownView, pretty: bool, level: nat) -> Seq<char> {
        group_text("SkillCooldown"@, GroupKind::Record, seq!["seconds: "@ + <F32 as Dump>::spec_dump(v.seconds, pretty, deeper(level)), "skill_id: "@ + <U16 as Dump>::spec_dump(v.skill_id, pretty, deeper(level))], pretty, level)
    }

    fn dump(&self, out: &mut String, pretty: bool, level: usize) {
        let dl = deeper_level(level);
        let mut items: Vec<String> = Vec::new();
        items.push(labelled("seconds: ", &self.seconds, pretty, dl));
        items.push(labelled("skill_id: ", &self.skill_id, pretty, dl));
        assert(strings_view(items@) =~= seq!["seconds: "@ + <F32 as Dump>::spec_dump(self@.seconds, pretty, deeper(level as nat)), "skill_id: "@ + <U16 as Dump>::spec_dump(self@.skill_id, pretty, deeper(level as nat))]);
        push_group(out, "SkillCooldown", GroupKind::Record, &items, pretty, level);
    }
}

impl Dump for MoveItem {
    open spec fn spec_dump(v: MoveItemView, pretty: bool, level: nat) -> Seq<char> {
        group_text("MoveItem"@, GroupKind::Record, seq!["from: "@ + <InvSlot as Dump>::spec_dump(v.from, pretty, deeper(level)), "to: "@ + <InvSlot as Dump>::spec_dump(v.to, pretty, deeper(level))], pretty, level)
    }

    fn dump(&self, out: &mut String, pretty: bool, level: usize) {
        let dl = deeper_level(level);
        let mut items: Vec<String> = Vec::new();
        items.push(labelled("from: ", &self.from, pretty, dl));
        items.push(labelled("to: ", &self.to, pretty, dl));
        assert(strings_view(items@) =~= seq!["from: "@ + <InvSlot as Dump>::spec_dump(self@.from, pretty, deeper(level as nat)), "to: "@ + <InvSlot as Dump>::spec_dump(self@.to, pretty, deeper(level as nat))]);
        push_group(out, "MoveItem", GroupKind::Record, &items, pretty, level);
    }
}

impl Dump for ReceiveItem {
    open spec fn spec_dump(v: ReceiveItemView, pretty: bool, level: nat) -> Seq<char> {
        group_text("ReceiveItem"@, GroupKind::Record, seq!["unk0: "@ + <U8 as Dump>::spec_dump(v.unk0, pretty, deeper(level)), "item: "@ + <ItemDesc as Dump>::spec_dump(v.item, pretty, deeper(level))], pretty, level)
    }

    fn dump(&self, out: &mut String, pretty: bool, level: usize) {
        let dl = deeper_level(level);
        let mut items: Vec<String> = Vec::new();
        items.push(labelled("unk0: ", &self.unk0, pretty, dl));
        items.push(labelled("item: ", &self.item, pretty, dl));
        assert(strings_view(items@) =~= seq!["unk0: "@ + <U8 as Dump>::spec_dump(self@.unk0, pretty, deeper(level as nat)), "item: "@ + <ItemDesc as Dump>::spec_dump(self@.item, pretty, deeper(level as nat))]);
        push_group(out, "ReceiveItem", GroupKind::Record, &items, pretty, level);
    }
}

impl Dump for PacketC5 {
    open spec fn spec_dump(v: PacketC5View, pretty: bool, level: nat) -> Seq<char> {
        group_text("PacketC5"@, GroupKind::Record, seq!["unk0: "@ + <RZlib as Dump>::spec_dump(v.unk0, pretty, deeper(level)), "unk1: "@ + <U32 as Dump>::spec_dump(v.unk1, pretty, deeper(level))], pretty, level)
    }

    fn dump(&self, out: &mut String, pretty: bool, level: usize) {
        let dl = deeper_level(level);
        let mut items: Vec<String> = Vec::new();
        items.push(labelled("unk0: ", &self.unk0, pretty, dl));
        items.push(labelled("unk1: ", &self.unk1, pretty, dl));
        assert(strings_view(items@) =~= seq!["unk0: "@ + <RZlib as Dump>::spec_dump(self@.unk0, pretty, deeper(level as nat)), "unk1: "@ + <U32 as Dump>::spec_dump(self@.unk1, pretty, deeper(level as nat))]);
        push_group(out, "PacketC5", GroupKind::Record, &items, pretty, level);
    }
}

impl Dump for BuyItemRequest {
    open spec fn spec_dump(v: BuyItemRequestView, pretty: bool, level: nat) -> Seq<char> {
        group_text("BuyItemRequest"@, GroupKind::Record, seq!["id: "@ + <U32 as Dump>::spec_dump(v.id, pretty, deeper(level)), "quant: "@ + <U32 as Dump>::spec_dump(v.quant, pretty, deeper(level))], pretty, level)
    }

    fn dump(&self, out: &mut String, pretty: bool, level: usize) {
        let dl = deeper_level(level);
        let mut items: Vec<String> = Vec::new();
        items.push(labelled("id: ", &self.id, pretty, dl));
        items.push(labelled("quant: ", &self.quant, pretty, dl));
        assert(strings_view(items@) =~= seq!["id: "@ + <U32 as Dump>::spec_dump(self@.id, pretty, deeper(level as nat)), "quant: "@ + <U32 as Dump>::spec_dump(self@.quant, pretty, deeper(level as nat))]);
        push_group(out, "BuyItemRequest", GroupKind::Record, &items, pretty, level);
    }
}

impl Dump for SellItemRequest {
    open spec fn spec_dump(v: SellItemRequestView, pretty: bool, level: nat) -> Seq<char> {
        group_text("SellItemRequest"@, GroupKind::Record, seq!["slot: "@ + <InvSlot as Dump>::spec_dump(v.slot, pretty, deeper(level))], pretty, level)
    }

    fn dump(&self, out: &mut String, pretty: bool, level: usize) {
        let dl = deeper_level(level);
        let mut items: Vec<String> = Vec::new();
        items.push(labelled("slot: ", &self.slot, pretty, dl));
        assert(strings_view(items@) =~= seq!["slot: "@ + <InvSlot as Dump>::spec_dump(self@.slot, pretty, deeper(level as nat))]);
        push_group(out, "SellItemRequest", GroupKind::Record, &items, pretty, level);
    }
}

impl Dump for BuyBack {
    open spec fn spec_dump(v: BuyBackView, pretty: bool, level: nat) -> Seq<char> {
        group_text("BuyBack"@, GroupKind::Record, seq!["index: "@ + <U32 as Dump>::spec_dump(v.index, pretty, deeper(level))], pretty, level)
    }

    fn dump(&self, out: &mut String, pretty: bool, level: usize) {
        let dl = deeper_level(level);
        let mut items: Vec<String> = Vec::new();
        items.push(labelled("index: ", &self.index, pretty, dl));
        assert(strings_view(items@) =~= seq!["index: "@ + <U32 as Dump>::spec_dump(self@.index, pretty, deeper(level as nat))]);
        push_group(out, "BuyBack", GroupKind::Record, &items, pretty, level);
    }
}

impl Dump for ShowEmotion {
    open spec fn spec_dump(v: ShowEmotionView, pretty: bool, level: nat) -> Seq<char> {
        group_text("ShowEmotion"@, GroupKind::Record, seq!["emo: "@ + <RString as Dump>::spec_dump(v.emo, pretty, deeper(level))], pretty, level)
    }

    fn dump(&self, out: &mut String, pretty: bool, level: usize) {
        let dl = deeper_level(level);
        let mut items: Vec<String> = Vec::new();
        items.push(labelled("emo: ", &self.emo, pretty, dl));
        assert(strings_view(items@) =~= seq!["emo: "@ + <RString as Dump>::spec_dump(self@.emo, pretty, deeper(level as nat))]);
        push_group(out, "ShowEmotion", GroupKind::Record, &items, pretty, level);
    }
}

impl Dump for StatUpdateRequest {
    open spec fn spec_dump(v: StatUpdateRequestView, pretty: bool, level: nat) -> Seq<char> {
        group_text("StatUpdateRequest"@, GroupKind::Record, seq!["stat: "@ + <U32 as Dump>::spec_dump(v.stat, pretty, deeper(level)), "value_add: "@ + <U32 as Dump>::spec_dump(v.value_add, pretty, deeper(level))], pretty, level)
    }

    fn dump(&self, out: &mut String, pretty: bool, level: usize) {
        let dl = deeper_level(level);
        let mut items: Vec<String> = Vec::new();
        items.push(labelled("stat: ", &self.stat, pretty, dl));
        items.push(labelled("value_add: ", &self.value_add, pretty, dl));
        assert(strings_view(items@) =~= seq!["stat: "@ + <U32 as Dump>::spec_dump(self@.stat, pretty, deeper(level as nat)), "value_add: "@ + <U32 as Dump>::spec_dump(self@.value_add, pretty, deeper(level as nat))]);
        push_group(out, "StatUpdateRequest", GroupKind::Record, &items, pretty, level);
    }
}

impl Dump for Heartbeat2 {
    open spec fn spec_dump(v: Heartbeat2View, pretty: bool, level: nat) -> Seq<char> {
        group_text("Heartbeat2"@, GroupKind::Record, seq!["client_uptime: "@ + <U32 as Dump>::spec_dump(v.client_uptime, pretty, deeper(level))], pretty, level)
    }

    fn dump(&self, out: &mut String, pretty: bool, level: usize) {
        let dl = deeper_level(level);
        let mut items: Vec<String> = Vec::new();
        items.push(labelled("client_uptime: ", &self.client_uptime, pretty, dl));
        assert(strings_view(items@) =~= seq!["client_uptime: "@ + <U32 as Dump>::spec_dump(self@.client_uptime, pretty, deeper(level as nat))]);
        push_group(out, "Heartbeat2", GroupKind::Record, &items, pretty, level);
    }
}

impl Dump for ExitRequest {
    open spec fn spec_dump(v: ExitRequestView, pretty: bool, level: nat) -> Seq<char> {
        group_text("ExitRequest"@, GroupKind::Record, seq!["code: "@ + <U32 as Dump>::spec_dump(v.code, pretty, deeper(level))], pretty, level)
    }

    fn dump(&self, out: &mut String, pretty: bool, level: usize) {
        let dl = deeper_level(level);
        let mut items: Vec<String> = Vec::new();
        items.push(labelled("code: ", &self.code, pretty, dl));
        assert(strings_view(items@) =~= seq!["code: "@ + <U32 as Dump>::spec_dump(self@.code, pretty, deeper(level as nat))]);
        push_group(out, "ExitRequest", GroupKind::Record, &items, pretty, level);
    }
}

impl Dump for ExitResponse {
    open spec fn spec_dump(v: ExitResponseView, pretty: bool, level: nat) -> Seq<char> {
        group_text("ExitResponse"@, GroupKind::Record, seq!["delay: "@ + <U32 as Dump>::spec_dump(v.delay, pretty, deeper(level))], pretty, level)
    }

    fn dump(&self, out: &mut String, pretty: bool, level: usize) {
        let dl = deeper_level(level);
        let mut items: Vec<String> = Vec::new();
        items.push(labelled("delay: ", &self.delay, pretty, dl));
        assert(strings_view(items@) =~= seq!["delay: "@ + <U32 as Dump>::spec_dump(self@.delay, pretty, deeper(level as nat))]);
        push_group(out, "ExitResponse", GroupKind::Record, &items, pretty, level);
    }
}

impl Dump for Packet {
    open spec fn spec_dump(v: PacketModel, pretty: bool, level: nat) -> Seq<char> {
        match v {
            PacketModel::AuthRequest(x) => wrapped_one("AuthRequest"@, AuthRequest::spec_dump(x, pretty, deeper(level)), pretty, level),
            PacketModel::ServerList(x) => wrapped_one("ServerList"@, ServerList::spec_dump(x, pretty, deeper(level)), pretty, level),
            PacketModel::Packet04(x) => wrapped_one("Packet04"@, Packet04::spec_dump(x, pretty, deeper(level)), pretty, level),
            PacketModel::PinResult(x) => wrapped_one("PinResult"@, PinResult::spec_dump(x, pretty, deeper(level)), pretty, level),
            PacketModel::Connect(x) => wrapped_one("Connect"@, Connect::spec_dump(x, pretty, deeper(level)), pretty, level),
            PacketModel::TimeSync(x) => wrapped_one("TimeSync"@, TimeSync::spec_dump(x, pretty, deeper(level)), pretty, level),
            PacketModel::ConnectionError(x) => wrapped_one("ConnectionError"@, ConnectionError::spec_dump(x, pretty, deeper(level)), pretty, level),
            PacketModel::TimeSyncResponse(x) => wrapped_one("TimeSyncResponse"@, TimeSyncResponse::spec_dump(x, pretty, deeper(level)), pretty, level),
            PacketModel::CharList(x) => wrapped_one("CharList"@, CharList::spec_dump(x, pretty, deeper(level)), pretty, level),
            PacketModel::ServerVars(x) => wrapped_one("ServerVars"@, ServerVars::spec_dump(x, pretty, deeper(level)), pretty, level),
            PacketModel::Packet13(x) => wrapped_one("Packet13"@, Packet13::spec_dump(x, pretty, deeper(level)), pretty, level),
            PacketModel::Packet16(x) => wrapped_one("Packet16"@, Packet16::spec_dump(x, pretty, deeper(level)), pretty, level),
            PacketModel::PlayerData(x) => wrapped_one("PlayerData"@, PlayerData::spec_dump(x, pretty, deeper(level)), pretty, level),
            PacketModel::EnterWorldRequest(x) => wrapped_one("EnterWorldRequest"@, EnterWorldRequest::spec_dump(x, pretty, deeper(level)), pretty, level),
            PacketModel::Inventory(x) => wrapped_one("Inventory"@, Inventory::spec_dump(x, pretty, deeper(level)), pretty, level),
            PacketModel::EnterWorldResponse(x) => wrapped_one("EnterWorldResponse"@, EnterWorldResponse::spec_dump(x, pretty, deeper(level)), pretty, level),
            PacketModel::HeartbeatClient(x) => wrapped_one("HeartbeatClient"@, HeartbeatClient::spec_dump(x, pretty, deeper(level)), pretty, level),
            PacketModel::HeartbeatServer(x) => wrapped_one("HeartbeatServer"@, HeartbeatServer::spec_dump(x, pretty, deeper(level)), pretty, level),
            PacketModel::SendChatMessage(x) => wrapped_one("SendChatMessage"@, SendChatMessage::spec_dump(x, pretty, deeper(level)), pretty, level),
            PacketModel::ChatMessage(x) => wrapped_one("ChatMessage"@, ChatMessage::spec_dump(x, pretty, deeper(level)), pretty, level),
            PacketModel::UpdateBalance(x) => wrapped_one("UpdateBalance"@, UpdateBalance::spec_dump(x, pretty, deeper(level)), pretty, level),
            PacketModel::SwitchLocation(x) => wrapped_one("SwitchLocation"@, SwitchLocation::spec_dump(x, pretty, deeper(level)), pretty, level),
            PacketModel::ConnectionClose2 => "ConnectionClose2"@,
            PacketModel::Entity(x) => wrapped_one("Entity"@, Entity::spec_dump(x, pretty, deeper(level)), pretty, level),
            PacketModel::EntityMove(x) => wrapped_one("EntityMove"@, views_list::<EntityMove>(x, pretty, deeper(level)), pretty, level),
            PacketModel::EntityRemove(x) => wrapped_one("EntityRemove"@, EntityRemove::spec_dump(x, pretty, deeper(level)), pretty, level),
            PacketModel::EntityRemove2(x) => wrapped_one("EntityRemove2"@, EntityRemove::spec_dump(x, pretty, deeper(level)), pretty, level),
            PacketModel::CharacterMove(x) => wrapped_one("CharacterMove"@, CharacterMove::spec_dump(x, pretty, deeper(level)), pretty, level),
            PacketModel::PosCamera(x) => wrapped_one("PosCamera"@, PosCamera::spec_dump(x, pretty, deeper(level)), pretty, level),
            PacketModel::UseAbility(x) => wrapped_one("UseAbility"@, UseAbility::spec_dump(x, pretty, deeper(level)), pretty, level),
            PacketModel::PickupRequest(x) => wrapped_one("PickupRequest"@, PickupRequest::spec_dump(x, pretty, deeper(level)), pretty, level),
            PacketModel::EntityAction(x) => wrapped_one("EntityAction"@, EntityAction::spec_dump(x, pretty, deeper(level)), pretty, level),
            PacketModel::DealtDamage(x) => wrapped_one("DealtDamage"@, DealtDamage::spec_dump(x, pretty, deeper(level)), pretty, level),
            PacketModel::EntityActionPassive(x) => wrapped_one("EntityActionPassive"@, EntityActionPassive::spec_dump(x, pretty, deeper(level)), pretty, level),
            PacketModel::EntityDeath(x) => wrapped_one("EntityDeath"@, EntityDeath::spec_dump(x, pretty, deeper(level)), pretty, level),
            PacketModel::StatUpdate(x) => wrapped_one("StatUpdate"@, StatUpdate::spec_dump(x, pretty, deeper(level)), pretty, level),
            PacketModel::BattleLog(x) => wrapped_one("BattleLog"@, BattleLog::spec_dump(x, pretty, deeper(level)), pretty, level),
            PacketModel::ExperienceAmount(x) => wrapped_one("ExperienceAmount"@, ExperienceAmount::spec_dump(x, pretty, deeper(level)), pretty, level),
            PacketModel::SkillCooldown(x) => wrapped_one("SkillCooldown"@, SkillCooldown::spec_dump(x, pretty, deeper(level)), pretty, level),
            PacketModel::MoveItemRequest(x) => wrapped_one("MoveItemRequest"@, MoveItem::spec_dump(x, pretty, deeper(level)), pretty, level),
            PacketModel::MoveItemResponse(x) => wrapped_one("MoveItemResponse"@, MoveItem::spec_dump(x, pretty, deeper(level)), pretty, level),
            PacketModel::ReceiveItem(x) => wrapped_one("ReceiveItem"@, ReceiveItem::spec_dump(x, pretty, deeper(level)), pretty, level),
            PacketModel::PacketC5(x) => wrapped_one("PacketC5"@, PacketC5::spec_dump(x, pretty, deeper(level)), pretty, level),
            PacketModel::StatUpdateRequest(x) => wrapped_one("StatUpdateRequest"@, StatUpdateRequest::spec_dump(x, pretty, deeper(level)), pretty, level),
            PacketModel::BuyItemRequest(x) => wrapped_one("BuyItemRequest"@, BuyItemRequest::spec_dump(x, pretty, deeper(level)), pretty, level),
            PacketModel::SellItemRequest(x) => wrapped_one("SellItemRequest"@, SellItemRequest::spec_dump(x, pretty, deeper(level)), pretty, level),
            PacketModel::BuyBackRequest(x) => wrapped_one("BuyBackRequest"@, BuyBack::spec_dump(x, pretty, deeper(level)), pretty, level),
            PacketModel::BuyBackResponse(x) => wrapped_one("BuyBackResponse"@, BuyBack::spec_dump(x, pretty, deeper(level)), pretty, level),
            PacketModel::CompressedData(x) => wrapped_one("CompressedData"@, CompressedData::spec_dump(x, pretty, deeper(level)), pretty, level),
            PacketModel::CompressedData2(x) => wrapped_one("CompressedData2"@, CompressedData::spec_dump(x, pretty, deeper(level)), pretty, level),
            PacketModel::ShowEmotion(x) => wrapped_one("ShowEmotion"@, ShowEmotion::spec_dump(x, pretty, deeper(level)), pretty, level),
            PacketModel::Heartbeat2(x) => wrapped_one("Heartbeat2"@, Heartbeat2::spec_dump(x, pretty, deeper(level)), pretty, level),
            PacketModel::Heartbeat3(x) => wrapped_one("Heartbeat3"@, Heartbeat2::spec_dump(x, pretty, deeper(level)), pretty, level),
            PacketModel::ExitRequest(x) => wrapped_one("ExitRequest"@, ExitRequest::spec_dump(x, pretty, deeper(level)), pretty, level),
            PacketModel::ExitResponse(x) => wrapped_one("ExitResponse"@, ExitResponse::spec_dump(x, pretty, deeper(level)), pretty, level),
            PacketModel::ExitRequestIngame(x) => wrapped_one("ExitRequestIngame"@, ExitRequest::spec_dump(x, pretty, deeper(level)), pretty, level),
            PacketModel::ExitResponseIngame(x) => wrapped_one("ExitResponseIngame"@, ExitResponse::spec_dump(x, pretty, deeper(level)), pretty, level),
        }
    }

    #[verifier::spinoff_prover]
    #[verifier::rlimit(100)]
    fn dump(&self, out: &mut String, pretty: bool, level: usize) {
        match self {
            Packet::AuthRequest(x) => push_wrapped_one(out, "AuthRequest", dump_text(x, pretty, deeper_level(level)), pretty, level),
            Packet::ServerList(x) => push_wrapped_one(out, "ServerList", dump_text(x, pretty, deeper_level(level)), pretty, level),
            Packet::Packet04(x) => push_wrapped_one(out, "Packet04", dump_text(x, pretty, deeper_level(level)), pretty, level),
            Packet::PinResult(x) => push_wrapped_one(out, "PinResult", dump_text(x, pretty, deeper_level(level)), pretty, level),
            Packet::Connect(x) => push_wrapped_one(out, "Connect", dump_text(x, pretty, deeper_level(level)), pretty, level),
            Packet::TimeSync(x) => push_wrapped_one(out, "TimeSync", dump_text(x, pretty, deeper_level(level)), pretty, level),
            Packet::ConnectionError(x) => push_wrapped_one(out, "ConnectionError", dump_text(x, pretty, deeper_level(level)), pretty, level),
            Packet::TimeSyncResponse(x) => push_wrapped_one(out, "TimeSyncResponse", dump_text(x, pretty, deeper_level(level)), pretty, level),
            Packet::CharList(x) => push_wrapped_one(out, "CharList", dump_text(x, pretty, deeper_level(level)), pretty, level),
            Packet::ServerVars(x) => push_wrapped_one(out, "ServerVars", dump_text(x, pretty, deeper_level(level)), pretty, level),
            Packet::Packet13(x) => push_wrapped_one(out, "Packet13", dump_text(x, pretty, deeper_level(level)), pretty, level),
            Packet::Packet16(x) => push_wrapped_one(out, "Packet16", dump_text(x, pretty, deeper_level(level)), pretty, level),
            Packet::PlayerData(x) => push_wrapped_one(out, "PlayerData", dump_text(x, pretty, deeper_level(level)), pretty, level),
            Packet::EnterWorldRequest(x) => push_wrapped_one(out, "EnterWorldRequest", dump_text(x, pretty, deeper_level(level)), pretty, level),
            Packet::Inventory(x) => push_wrapped_one(out, "Inventory", dump_text(x, pretty, deeper_level(level)), pretty, level),
            Packet::EnterWorldResponse(x) => push_wrapped_one(out, "EnterWorldResponse", dump_text(x, pretty, deeper_level(level)), pretty, level),
            Packet::HeartbeatClient(x) => push_wrapped_one(out, "HeartbeatClient", dump_text(x, pretty, deeper_level(level)), pretty, level),
            Packet::HeartbeatServer(x) => push_wrapped_one(out, "HeartbeatServer", dump_text(x, pretty, deeper_level(level)), pretty, level),
            Packet::SendChatMessage(x) => push_wrapped_one(out, "SendChatMessage", dump_text(x, pretty, deeper_level(level)), pretty, level),
            Packet::ChatMessage(x) => push_wrapped_one(out, "ChatMessage", dump_text(x, pretty, deeper_level(level)), pretty, level),
            Packet::UpdateBalance(x) => push_wrapped_one(out, "UpdateBalance", dump_text(x, pretty, deeper_level(level)), pretty, level),
            Packet::SwitchLocation(x) => push_wrapped_one(out, "SwitchLocation", dump_text(x, pretty, deeper_level(level)), pretty, level),
            Packet::ConnectionClose2 => out.append("ConnectionClose2"),
            Packet::Entity(x) => push_wrapped_one(out, "Entity", dump_text(x, pretty, deeper_level(level)), pretty, level),
            Packet::EntityMove(x) => {
                let t = list_string(x.as_slice(), pretty, deeper_level(level));
                assert(x@.map_values(|e: EntityMove| e@) =~= x@.map_values(|y: EntityMove| y@));
                push_wrapped_one(out, "EntityMove", t, pretty, level)
            },
            Packet::EntityRemove(x) => push_wrapped_one(out, "EntityRemove", dump_text(x, pretty, deeper_level(level)), pretty, level),
            Packet::EntityRemove2(x) => push_wrapped_one(out, "EntityRemove2", dump_text(x, pretty, deeper_level(level)), pretty, level),
            Packet::CharacterMove(x) => push_wrapped_one(out, "CharacterMove", dump_text(x, pretty, deeper_level(level)), pretty, level),
            Packet::PosCamera(x) => push_wrapped_one(out, "PosCamera", dump_text(x, pretty, deeper_level(level)), pretty, level),
            Packet::UseAbility(x) => push_wrapped_one(out, "UseAbility", dump_text(x, pretty, deeper_level(level)), pretty, level),
            Packet::PickupRequest(x) => push_wrapped_one(out, "PickupRequest", dump_text(x, pretty, deeper_level(level)), pretty, level),
            Packet::EntityAction(x) => push_wrapped_one(out, "EntityAction", dump_text(x, pretty, deeper_level(level)), pretty, level),
            Packet::DealtDamage(x) => push_wrapped_one(out, "DealtDamage", dump_text(x, pretty, deeper_level(level)), pretty, level),
            Packet::EntityActionPassive(x) => push_wrapped_one(out, "EntityActionPassive", dump_text(x, pretty, deeper_level(level)), pretty, level),
            Packet::EntityDeath(x) => push_wrapped_one(out, "EntityDeath", dump_text(x, pretty, deeper_level(level)), pretty, level),
            Packet::StatUpdate(x) => push_wrapped_one(out, "StatUpdate", dump_text(x, pretty, deeper_level(level)), pretty, level),
            Packet::BattleLog(x) => push_wrapped_one(out, "BattleLog", dump_text(x, pretty, deeper_level(level)), pretty, level),
            Packet::ExperienceAmount(x) => push_wrapped_one(out, "ExperienceAmount", dump_text(x, pretty, deeper_level(level)), pretty, level),
            Packet::SkillCooldown(x) => push_wrapped_one(out, "SkillCooldown", dump_text(x, pretty, deeper_level(level)), pretty, level),
            Packet::MoveItemRequest(x) => push_wrapped_one(out, "MoveItemRequest", dump_text(x, pretty, deeper_level(level)), pretty, level),
            Packet::MoveItemResponse(x) => push_wrapped_one(out, "MoveItemResponse", dump_text(x, pretty, deeper_level(level)), pretty, level),
            Packet::ReceiveItem(x) => push_wrapped_one(out, "ReceiveItem", dump_text(x, pretty, deeper_level(level)), pretty, level),
            Packet::PacketC5(x) => push_wrapped_one(out, "PacketC5", dump_text(x, pretty, deeper_level(level)), pretty, level),
            Packet::StatUpdateRequest(x) => push_wrapped_one(out, "StatUpdateRequest", dump_text(x, pretty, deeper_level(level)), pretty, level),
            Packet::BuyItemRequest(x) => push_wrapped_one(out, "BuyItemRequest", dump_text(x, pretty, deeper_level(level)), pretty, level),
            Packet::SellItemRequest(x) => push_wrapped_one(out, "SellItemRequest", dump_text(x, pretty, deeper_level(level)), pretty, level),
            Packet::BuyBackRequest(x) => push_wrapped_one(out, "BuyBackRequest", dump_text(x, pretty, deeper_level(level)), pretty, level),
            Packet::BuyBackResponse(x) => push_wrapped_one(out, "BuyBackResponse", dump_text(x, pretty, deeper_level(level)), pretty, level),
            Packet::CompressedData(x) => push_wrapped_one(out, "CompressedData", dump_text(x, pretty, deeper_level(level)), pretty, level),
            Packet::CompressedData2(x) => push_wrapped_one(out, "CompressedData2", dump_text(x, pretty, deeper_level(level)), pretty, level),
            Packet::ShowEmotion(x) => push_wrapped_one(out, "ShowEmotion", dump_text(x, pretty, deeper_level(level)), pretty, level),
            Packet::Heartbeat2(x) => push_wrapped_one(out, "Heartbeat2", dump_text(x, pretty, deeper_level(level)), pretty, level),
            Packet::Heartbeat3(x) => push_wrapped_one(out, "Heartbeat3", dump_text(x, pretty, deeper_level(level)), pretty, level),
            Packet::ExitRequest(x) => push_wrapped_one(out, "ExitRequest", dump_text(x, pretty, deeper_level(level)), pretty, level),
            Packet::ExitResponse(x) => push_wrapped_one(out, "ExitResponse", dump_text(x, pretty, deeper_level(level)), pretty, level),
            Packet::ExitRequestIngame(x) => push_wrapped_one(out, "ExitRequestIngame", dump_text(x, pretty, deeper_level(level)), pretty, level),
            Packet::ExitResponseIngame(x) => push_wrapped_one(out, "ExitResponseIngame", dump_text(x, pretty, deeper_level(level)), pretty, level),
        }
    }
}

} // verus!
